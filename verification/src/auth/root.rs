//! Root: the local emergency principal, outside the user table. A random
//! first-boot password must be changed on first login.

use vstd::prelude::*;
use crate::error::{ApiError, ErrorCode};
use crate::text::{append_str, byte_len, own};

verus! {

pub const BCRYPT_COST: u32 = 12;

#[derive(Debug)]
/// The outcome of a successful root login.
pub struct RootLoginOutcome {
    pub must_change_password: bool,
}

#[derive(Debug)]
/// Root auth service (stateless; credentials live in the store).
pub struct RootAuthService {
    _private: (),
}

/// Whether `password` matches the bcrypt `hash`, or the verifier's error text.
pub uninterp spec fn bcrypt_matches(password: Seq<char>, hash: Seq<char>) -> Result<bool, Seq<char>>;

/// A verifier's answer.
pub open spec fn verdict(b: bool) -> Result<bool, Seq<char>> {
    Ok(b)
}

/// A verifier's failure.
pub open spec fn verify_error(e: Seq<char>) -> Result<bool, Seq<char>> {
    Err(e)
}

/// `bcrypt::verify`.
#[verifier::external_body]
fn bcrypt_verify(password: &str, hash: &str) -> (r: Result<bool, String>)
    ensures
        match r {
            Ok(b) => bcrypt_matches(password@, hash@) == verdict(b),
            Err(e) => bcrypt_matches(password@, hash@) == verify_error(e@),
        },
{
    bcrypt::verify(password, hash).map_err(|e| e.to_string())
}

/// `bcrypt::hash` at `cost` with a fresh random salt. The hash depends on
/// the salt, so only that it verifies against `password` is stated.
#[verifier::external_body]
fn bcrypt_hash(password: &str, cost: u32) -> (r: Result<String, String>)
    requires
        4 <= cost <= 31,
    ensures
        r matches Ok(h) ==> bcrypt_matches(password@, h@) == verdict(true),
{
    bcrypt::hash(password, cost).map_err(|e| e.to_string())
}

/// `rand::Rng::gen_range(0..n)` on the thread RNG.
#[verifier::external_body]
pub(crate) fn random_below(n: usize) -> (r: usize)
    requires
        n > 0,
    ensures
        r < n,
{
    rand::Rng::gen_range(&mut rand::thread_rng(), 0..n)
}

/// The unambiguous password alphabet.
pub open spec fn password_charset() -> Seq<char> {
    "ABCDEFGHJKLMNPQRSTUVWXYZabcdefghijkmnopqrstuvwxyz23456789!@#$%^&*"@
}

impl RootAuthService {
    pub fn new() -> (s: RootAuthService) {
        RootAuthService { _private: () }
    }

    /// Checks `password` against the stored hash; the outcome carries the
    /// stored must-change flag.
    pub fn check_password(hash: &str, must_change_password: bool, password: &str) -> (r: Result<
        RootLoginOutcome,
        ApiError,
    >)
        ensures
            match bcrypt_matches(password@, hash@) {
                Ok(true) => r matches Ok(o) && o.must_change_password == must_change_password,
                Ok(false) => r matches Err(e) && e.code == ErrorCode::AuthRequired && e.message@
                    == "invalid root password"@,
                Err(_) => r matches Err(e) && e.code == ErrorCode::InternalError,
            },
    {
        match bcrypt_verify(password, hash) {
            Ok(true) => Ok(RootLoginOutcome { must_change_password }),
            Ok(false) => Err(ApiError::new(ErrorCode::AuthRequired, "invalid root password")),
            Err(e) => {
                let mut m = own("root verify: ");
                append_str(&mut m, e.as_str());
                Err(ApiError::new(ErrorCode::InternalError, m.as_str()))
            },
        }
    }

    /// The refusal when no root credentials exist yet.
    pub fn not_initialized() -> (e: ApiError)
        ensures
            e.code == ErrorCode::AuthRequired,
            e.message@ == "root not initialized"@,
    {
        ApiError::new(ErrorCode::AuthRequired, "root not initialized")
    }

    /// The hash to store for a new root password of at least 12 bytes.
    pub fn new_password_hash(new_password: &str) -> (r: Result<String, ApiError>)
        ensures
            byte_len(new_password@) < 12 ==> (r matches Err(e) && e.code == ErrorCode::ValidationFailed
                && e.message@ == "root password must be at least 12 chars"@),
            r matches Ok(h) ==> byte_len(new_password@) >= 12 && bcrypt_matches(new_password@, h@) == verdict(true),
            byte_len(new_password@) >= 12 ==> (r matches Err(e) ==> e.code == ErrorCode::InternalError
                && e.message@ == "internal server error"@),
    {
        let n = crate::text::byte_len_chars(crate::text::chars_of(new_password).as_slice());
        if n < 12 {
            return Err(ApiError::validation("root password must be at least 12 chars"));
        }
        match bcrypt_hash(new_password, BCRYPT_COST) {
            Ok(h) => Ok(h),
            Err(e) => {
                let mut m = own("root hash: ");
                append_str(&mut m, e.as_str());
                Err(ApiError::new(ErrorCode::InternalError, m.as_str()))
            },
        }
    }

    /// The password change: without the forced-change flag the current
    /// password is required and re-verified first.
    pub fn change_requires_current(must_change: bool, current: Option<&str>) -> (r: Result<Option<String>, ApiError>)
        ensures
            must_change ==> r matches Ok(None),
            !must_change ==> match current {
                Some(c) => r matches Ok(Some(s)) && s@ == c@,
                None => r matches Err(e) && e.code == ErrorCode::ValidationFailed && e.message@
                    == "current_password required"@,
            },
    {
        if must_change {
            return Ok(None);
        }
        match current {
            Some(c) => Ok(Some(own(c))),
            None => Err(ApiError::validation("current_password required")),
        }
    }
}

/// A 16-character password drawn from the unambiguous alphabet.
pub fn generate_random_password() -> (pw: String)
    ensures
        pw@.len() == 16,
        forall|i: int| 0 <= i < 16 ==> password_charset().contains(#[trigger] pw@[i]),
{
    let charset = crate::text::chars_of("ABCDEFGHJKLMNPQRSTUVWXYZabcdefghijkmnopqrstuvwxyz23456789!@#$%^&*");
    proof {
        reveal_strlit("ABCDEFGHJKLMNPQRSTUVWXYZabcdefghijkmnopqrstuvwxyz23456789!@#$%^&*");
    }
    let mut out: Vec<char> = Vec::new();
    let mut i: usize = 0;
    while i < 16
        invariant
            i <= 16,
            charset@ == password_charset(),
            charset@.len() > 0,
            out@.len() == i,
            forall|k: int| 0 <= k < i ==> password_charset().contains(#[trigger] out@[k]),
        decreases 16 - i,
    {
        let k = random_below(charset.len());
        let c = charset[k];
        assert(password_charset()[k as int] == c);
        out.push(c);
        i = i + 1;
    }
    crate::text::string_from_chars(out.as_slice())
}

/// No character of the password alphabet is whitespace or ambiguous-looking
/// (`I`, `O`, `l`, `0`, `1`).
pub proof fn lemma_charset_unambiguous()
    ensures
        !password_charset().contains('I'),
        !password_charset().contains('O'),
        !password_charset().contains('l'),
        !password_charset().contains('0'),
        !password_charset().contains('1'),
        !password_charset().contains(' '),
{
    reveal_strlit("ABCDEFGHJKLMNPQRSTUVWXYZabcdefghijkmnopqrstuvwxyz23456789!@#$%^&*");
    let s = password_charset();
    assert forall|i: int| 0 <= i < s.len() implies s[i] != 'I' && s[i] != 'O' && s[i] != 'l' && s[i] != '0'
        && s[i] != '1' && s[i] != ' ' by {}
}

} // verus!
