//! Server-side sessions. The refresh secret is stored only as a hash.

use vstd::prelude::*;
use crate::auth::types::{ClientType, PrincipalType};
use crate::digest::{hex_of, hex_text, sha256, sha256_digest};
use crate::text::{str_eq, string_from_chars};

verus! {

#[derive(Debug)]
/// A stored session; times are Unix milliseconds, ids 128-bit UUID values.
pub struct Session {
    pub id: u128,
    pub principal_type: String,
    pub user_id: Option<u128>,
    pub client_type: String,
    pub refresh_hash: String,
    pub device_name: String,
    pub ip: String,
    pub created_at: i64,
    pub expires_at: i64,
    pub revoked_at: Option<i64>,
    pub last_seen_at: Option<i64>,
}

impl Session {
    /// Not revoked and not yet expired at `now`.
    pub fn is_active_at(&self, now: i64) -> (b: bool)
        ensures
            b == (self.revoked_at is None && now < self.expires_at),
    {
        self.revoked_at.is_none() && now < self.expires_at
    }

    /// The principal a session belongs to: root for `root`, a user otherwise.
    pub fn principal(&self) -> (p: PrincipalType)
        ensures
            p == (if self.principal_type@ == "root"@ { PrincipalType::Root } else { PrincipalType::User }),
    {
        if str_eq(self.principal_type.as_str(), "root") {
            PrincipalType::Root
        } else {
            PrincipalType::User
        }
    }
}

/// A new random refresh token: 32 random bytes as lower-case hex.
pub fn generate_refresh_token() -> (t: String)
    ensures
        exists|b: Seq<u8>| b.len() == 32 && t@ == hex_text(b),
{
    let b = crate::auth::gateway::random_bytes(32);
    let h = hex_of(b.as_slice());
    string_from_chars(h.as_slice())
}

/// The stored form of a refresh token: the hex SHA-256 of its bytes.
pub open spec fn refresh_hash_of(token: Seq<char>) -> Seq<char> {
    hex_text(sha256_digest(vstd::utf8::encode_utf8(token)))
}

/// Hash a refresh token for storage.
pub fn hash_refresh_token(token: &str) -> (h: String)
    ensures
        h@ == refresh_hash_of(token@),
{
    let d = sha256(token.as_bytes());
    let x = hex_of(d.as_slice());
    string_from_chars(x.as_slice())
}

/// Two lower-case hex digits per byte.
pub proof fn lemma_hex_length(b: Seq<u8>)
    ensures
        hex_text(b).len() == 2 * b.len(),
    decreases b.len(),
{
    if b.len() > 0 {
        lemma_hex_length(b.drop_last());
    }
}

/// A stored refresh hash always has 64 hex digits.
pub proof fn lemma_refresh_hash_length(token: Seq<char>)
    requires
        sha256_digest(vstd::utf8::encode_utf8(token)).len() == 32,
    ensures
        refresh_hash_of(token).len() == 64,
{
    lemma_hex_length(sha256_digest(vstd::utf8::encode_utf8(token)));
}

/// The expiry of a session created at `now` (ms) for `ttl_secs`.
pub fn session_expiry(now_ms: i64, ttl_secs: i64) -> (e: i64)
    requires
        i64::MIN <= ttl_secs * 1000 <= i64::MAX,
        i64::MIN <= now_ms + ttl_secs * 1000 <= i64::MAX,
    ensures
        e == now_ms + ttl_secs * 1000,
{
    now_ms + ttl_secs * 1000
}

} // verus!
