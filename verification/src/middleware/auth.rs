//! Credential extraction: `Authorization: Bearer <jwt>` or the access cookie.

use vstd::prelude::*;
use crate::middleware::cookies::{cookie_split, first_cookie, get_cookie};
use crate::auth::jwt::{AccessClaims, access_claims_in, decode_access, hs256_claims};
use crate::error::{ApiError, ErrorCode};
use crate::text::{chars_of, is_prefix, own, slice_chars, starts_with, string_from_chars};

verus! {

/// The token of a request: the text after `Bearer ` in `Authorization`,
/// else the named cookie.
pub open spec fn credential(authorization: Option<Seq<char>>, cookie_header: Option<Seq<char>>, name: Seq<char>) -> Option<
    Seq<char>,
> {
    match authorization {
        Some(a) => if is_prefix("Bearer "@, a) {
            Some(a.skip(7))
        } else {
            match cookie_header {
                Some(h) => first_cookie(cookie_split(h), name),
                None => None,
            }
        },
        None => match cookie_header {
            Some(h) => first_cookie(cookie_split(h), name),
            None => None,
        },
    }
}

/// Return the JWT from `Authorization: Bearer` or the access cookie.
pub fn extract_bearer_or_cookie(authorization: Option<&str>, cookie_header: Option<&str>, cookie_name: &str) -> (r: Option<
    String,
>)
    ensures
        match r {
            Some(t) => credential(
                match authorization {
                    Some(a) => Some(a@),
                    None => None,
                },
                match cookie_header {
                    Some(h) => Some(h@),
                    None => None,
                },
                cookie_name@,
            ) == Some(t@),
            None => credential(
                match authorization {
                    Some(a) => Some(a@),
                    None => None,
                },
                match cookie_header {
                    Some(h) => Some(h@),
                    None => None,
                },
                cookie_name@,
            ) is None,
        },
{
    match authorization {
        Some(a) => {
            let cs = chars_of(a);
            let p = chars_of("Bearer ");
            proof {
                reveal_strlit("Bearer ");
            }
            if starts_with(cs.as_slice(), p.as_slice()) {
                let t = slice_chars(cs.as_slice(), 7, cs.len());
                assert(t@ =~= a@.skip(7));
                return Some(string_from_chars(t.as_slice()));
            }
        },
        None => {},
    }
    get_cookie(cookie_header, cookie_name)
}

/// The error for a request without credentials.
pub fn missing_credentials() -> (e: crate::error::ApiError)
    ensures
        e.code == crate::error::ErrorCode::SessionExpired,
        e.message@ == "missing credentials"@,
{
    crate::error::ApiError::session("missing credentials")
}

/// The error for a credential whose session is no longer active.
pub fn session_inactive() -> (e: crate::error::ApiError)
    ensures
        e.code == crate::error::ErrorCode::SessionExpired,
        e.message@ == "session inactive"@,
{
    crate::error::ApiError::session("session inactive")
}

/// `Some` of a text's view.
pub open spec fn opt_text(t: Option<&str>) -> Option<Seq<char>> {
    match t {
        Some(a) => Some(a@),
        None => None,
    }
}

/// The access claims of a request: its credential (bearer token, else the
/// cookie `cookie_name`) decoded and checked under `secret`. No credential
/// is refused as missing; a token that does not decode as invalid or
/// expired.
pub fn authenticate(authorization: Option<&str>, cookie_header: Option<&str>, cookie_name: &str, secret: &str) -> (r:
    Result<AccessClaims, ApiError>)
    ensures
        credential(opt_text(authorization), opt_text(cookie_header), cookie_name@) is None ==> (r matches Err(e)
            && e.code == ErrorCode::SessionExpired && e.message@ == "missing credentials"@),
        credential(opt_text(authorization), opt_text(cookie_header), cookie_name@) matches Some(t) ==> {
            &&& r matches Ok(c) ==> (hs256_claims(t, secret@) matches Some(d) && access_claims_in(d) == Some(c))
            &&& r matches Err(e) ==> e.code == ErrorCode::SessionExpired && e.message@
                == "invalid or expired access token"@
        },
{
    match extract_bearer_or_cookie(authorization, cookie_header, cookie_name) {
        Some(token) => decode_access(token.as_str(), secret),
        None => Err(missing_credentials()),
    }
}

} // verus!
