//! CSRF protection. `GET /me` hands out a session-bound token (a stateless
//! HMAC of the session id under a key derived from the JWT secret).
//! State-changing requests authenticated by cookie must carry that token in
//! `X-CSRF-Token` and, when they carry an `Origin`, an allowed one. Bearer
//! requests are exempt (no ambient authority).

use vstd::prelude::*;
use crate::codec::{base64_url_nopad, encode_url_nopad};
use crate::config::runtime::texts;
use crate::digest::{hex_of, hex_text, hmac_sha256, hmac_sha256_tag};
use crate::error::{ApiError, ErrorCode};
use crate::text::{append_chars, append_str, own, str_eq, string_from_chars};

verus! {

/// The 16 bytes of a UUID, most significant first.
pub open spec fn uuid_bytes(id: u128) -> Seq<u8> {
    Seq::new(16, |i: int| ((id >> (8 * (15 - i)) as u128) & 0xff) as u8)
}

fn uuid_bytes_exec(id: u128) -> (b: Vec<u8>)
    ensures
        b@ == uuid_bytes(id),
{
    let mut b: Vec<u8> = Vec::new();
    let mut i: usize = 0;
    while i < 16
        invariant
            i <= 16,
            b@.len() == i,
            forall|k: int| 0 <= k < i ==> b@[k] == ((id >> (8 * (15 - k)) as u128) & 0xff) as u8,
        decreases 16 - i,
    {
        let shift: u128 = (8 * (15 - i)) as u128;
        b.push(((id >> shift) & 0xff) as u8);
        i = i + 1;
    }
    assert(b@ =~= uuid_bytes(id));
    b
}

/// The hyphenated lower-case text of a UUID (`8-4-4-4-12` hex digits), as
/// `Uuid`'s `Display` writes it.
pub open spec fn uuid_text(id: u128) -> Seq<char> {
    let b = uuid_bytes(id);
    hex_text(b.subrange(0, 4)) + "-"@ + hex_text(b.subrange(4, 6)) + "-"@ + hex_text(b.subrange(6, 8)) + "-"@
        + hex_text(b.subrange(8, 10)) + "-"@ + hex_text(b.subrange(10, 16))
}

/// Write the hyphenated text of a UUID.
pub fn format_uuid(id: u128) -> (s: String)
    ensures
        s@ == uuid_text(id),
{
    let b = uuid_bytes_exec(id);
    let mut s = string_from_chars(hex_of(&b.as_slice()[0..4]).as_slice());
    append_str(&mut s, "-");
    append_chars(&mut s, hex_of(&b.as_slice()[4..6]).as_slice());
    append_str(&mut s, "-");
    append_chars(&mut s, hex_of(&b.as_slice()[6..8]).as_slice());
    append_str(&mut s, "-");
    append_chars(&mut s, hex_of(&b.as_slice()[8..10]).as_slice());
    append_str(&mut s, "-");
    append_chars(&mut s, hex_of(&b.as_slice()[10..16]).as_slice());
    s
}

/// `:ppb-csrf` as bytes.
pub open spec fn csrf_domain() -> Seq<u8> {
    seq![58u8, 112u8, 112u8, 98u8, 45u8, 99u8, 115u8, 114u8, 102u8]
}

/// Derive the CSRF HMAC key from the JWT secret (a separate domain).
pub fn csrf_key(jwt_secret: &str) -> (k: Vec<u8>)
    ensures
        k@ == hmac_sha256_tag(vstd::utf8::encode_utf8(jwt_secret@), csrf_domain()),
{
    let mut domain: Vec<u8> = Vec::new();
    domain.push(58u8);
    domain.push(112u8);
    domain.push(112u8);
    domain.push(98u8);
    domain.push(45u8);
    domain.push(99u8);
    domain.push(115u8);
    domain.push(114u8);
    domain.push(102u8);
    assert(domain@ =~= csrf_domain());
    hmac_sha256(jwt_secret.as_bytes(), domain.as_slice())
}

/// The CSRF token of session `sid` under `key`.
pub open spec fn csrf_token_text(sid: u128, key: Seq<u8>) -> Seq<char> {
    base64_url_nopad(hmac_sha256_tag(key, uuid_bytes(sid)))
}

/// Session-bound CSRF token (stateless, derived from the session id).
pub fn csrf_token_for(sid: u128, key: &[u8]) -> (t: String)
    ensures
        t@ == csrf_token_text(sid, key@),
{
    let id = uuid_bytes_exec(sid);
    let tag = hmac_sha256(key, id.as_slice());
    encode_url_nopad(tag.as_slice())
}

/// String equality that inspects every byte of equal-length inputs.
pub fn ct_eq(a: &str, b: &str) -> (r: bool)
    ensures
        r == (a@ == b@),
{
    let x = a.as_bytes();
    let y = b.as_bytes();
    proof {
        vstd::utf8::encode_utf8_decode_utf8(a@);
        vstd::utf8::encode_utf8_decode_utf8(b@);
    }
    if x.len() != y.len() {
        assert(x@ != y@);
        return false;
    }
    let mut diff: u8 = 0;
    let mut i: usize = 0;
    while i < x.len()
        invariant
            x@.len() == y@.len(),
            i <= x@.len(),
            (diff == 0) == (forall|k: int| 0 <= k < i ==> x@[k] == y@[k]),
        decreases x@.len() - i,
    {
        let xa = x[i];
        let yb = y[i];
        let d = diff;
        assert((d | (xa ^ yb)) == 0u8 <==> (d == 0u8 && xa == yb)) by (bit_vector);
        diff = d | (xa ^ yb);
        i = i + 1;
    }
    if diff == 0 {
        assert(x@ =~= y@);
    }
    diff == 0
}

/// POST, PUT, PATCH and DELETE change state.
pub open spec fn is_state_changing_method(m: Seq<char>) -> bool {
    m == "POST"@ || m == "PUT"@ || m == "PATCH"@ || m == "DELETE"@
}

pub fn is_state_changing(method: &str) -> (b: bool)
    ensures
        b == is_state_changing_method(method@),
{
    str_eq(method, "POST") || str_eq(method, "PUT") || str_eq(method, "PATCH") || str_eq(method, "DELETE")
}

/// A request authenticates by cookie when it has no `Authorization` header
/// and carries the access or the refresh cookie.
pub fn uses_cookie_auth(has_authorization: bool, has_access_cookie: bool, has_refresh_cookie: bool) -> (b: bool)
    ensures
        b == (!has_authorization && (has_access_cookie || has_refresh_cookie)),
{
    !has_authorization && (has_access_cookie || has_refresh_cookie)
}

/// `Origin` must be absent or empty (non-browser), or allowed.
pub open spec fn origin_ok(origin: Option<Seq<char>>, allowed: Seq<Seq<char>>) -> bool {
    match origin {
        Some(o) => o.len() == 0 || allowed.contains(o),
        None => true,
    }
}

pub fn origin_allowed(origin: Option<&str>, allowed: &Vec<String>) -> (b: bool)
    ensures
        b == origin_ok(
            match origin {
                Some(o) => Some(o@),
                None => None,
            },
            texts(allowed@),
        ),
{
    match origin {
        Some(o) => {
            if o.unicode_len() == 0 {
                true
            } else {
                crate::auth::gateway::list_contains(allowed, o)
            }
        },
        None => true,
    }
}

/// The CSRF decision for a request. `session` is the session id decoded
/// from a valid access cookie (none when absent or invalid: the auth
/// extractor rejects those downstream); `provided` is `X-CSRF-Token`.
pub open spec fn csrf_refusal(
    state_changing: bool,
    cookie_auth: bool,
    origin: Option<Seq<char>>,
    allowed: Seq<Seq<char>>,
    session: Option<u128>,
    key: Seq<u8>,
    provided: Seq<char>,
) -> Option<Seq<char>> {
    if !(state_changing && cookie_auth) {
        None
    } else if !origin_ok(origin, allowed) {
        Some("CSRF origin rejected"@)
    } else {
        match session {
            Some(sid) => if csrf_token_text(sid, key) != provided {
                Some("CSRF token mismatch or missing X-CSRF-Token header"@)
            } else {
                None
            },
            None => None,
        }
    }
}

pub fn csrf_check(
    state_changing: bool,
    cookie_auth: bool,
    origin: Option<&str>,
    allowed: &Vec<String>,
    session: Option<u128>,
    key: &[u8],
    provided: &str,
) -> (r: Result<(), ApiError>)
    ensures
        match csrf_refusal(
            state_changing,
            cookie_auth,
            match origin {
                Some(o) => Some(o@),
                None => None,
            },
            texts(allowed@),
            session,
            key@,
            provided@,
        ) {
            None => r is Ok,
            Some(m) => r matches Err(e) && e.code == ErrorCode::AuthRequired && e.message@ == m,
        },
{
    if !(state_changing && cookie_auth) {
        return Ok(());
    }
    if !origin_allowed(origin, allowed) {
        return Err(ApiError::new(ErrorCode::AuthRequired, "CSRF origin rejected"));
    }
    match session {
        Some(sid) => {
            let expected = csrf_token_for(sid, key);
            if !ct_eq(expected.as_str(), provided) {
                return Err(
                    ApiError::new(ErrorCode::AuthRequired, "CSRF token mismatch or missing X-CSRF-Token header"),
                );
            }
            Ok(())
        },
        None => Ok(()),
    }
}

/// Safe methods and bearer requests are never refused; a cookie request
/// that changes state with the right token from an allowed origin passes.
pub proof fn lemma_csrf_gate(
    cookie_auth: bool,
    origin: Option<Seq<char>>,
    allowed: Seq<Seq<char>>,
    sid: u128,
    key: Seq<u8>,
)
    ensures
        csrf_refusal(false, cookie_auth, origin, allowed, Some(sid), key, Seq::empty()) is None,
        csrf_refusal(true, false, origin, allowed, Some(sid), key, Seq::empty()) is None,
        origin_ok(origin, allowed) ==> csrf_refusal(
            true,
            true,
            origin,
            allowed,
            Some(sid),
            key,
            csrf_token_text(sid, key),
        ) is None,
{
}

} // verus!
