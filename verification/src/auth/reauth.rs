//! Short-lived reauth contexts: re-verifying a password issues a context
//! bound to {session, principal, client, risk} that high-risk actions check.

use vstd::prelude::*;
use crate::auth::types::{ClientType, PrincipalType};
use crate::clock::clock_secs;
use crate::error::{ApiError, ErrorCode, visible_message};
use crate::text::{own, str_eq};
use crate::json::{Json, JsonV, entries_view, int_json, int_json_value, json_string, lemma_object_view};
use crate::auth::jwt::{
    client_claim, client_field, hs256_claims, hs256_token, int_claim, int_field, jwt_decode_hs256, jwt_encode_hs256,
    principal_claim, principal_field, uuid_claim, uuid_field,
};
use crate::middleware::csrf::{format_uuid, uuid_text};

verus! {

/// Risk levels an action may require for reauth.
#[derive(Clone, Copy, Debug, PartialEq, Eq, Structural)]
pub enum ReauthRisk {
    High,
    Critical,
}

impl ReauthRisk {
    pub open spec fn text(self) -> Seq<char> {
        match self {
            ReauthRisk::High => "high"@,
            ReauthRisk::Critical => "critical"@,
        }
    }

    pub fn as_str(&self) -> (s: &'static str)
        ensures
            s@ == self.text(),
    {
        match self {
            ReauthRisk::High => "high",
            ReauthRisk::Critical => "critical",
        }
    }
}

#[derive(Debug)]
/// Reauth context claims (ids as 128-bit UUID values, times in Unix seconds).
pub struct ReauthClaims {
    pub purpose: String,
    pub sub: u128,
    pub sid: u128,
    pub principal_type: PrincipalType,
    pub client_type: ClientType,
    pub risk: String,
    pub iat: i64,
    pub exp: i64,
}

impl ReauthClaims {
    /// Claims issued at `now`, valid for `ttl_secs`.
    pub fn new_at(
        sub: u128,
        sid: u128,
        principal_type: PrincipalType,
        client_type: ClientType,
        risk: ReauthRisk,
        ttl_secs: i64,
        now: i64,
    ) -> (c: ReauthClaims)
        requires
            i64::MIN <= now + ttl_secs <= i64::MAX,
        ensures
            c.purpose@ == "reauth"@,
            c.sub == sub,
            c.sid == sid,
            c.principal_type == principal_type,
            c.client_type == client_type,
            c.risk@ == risk.text(),
            c.iat == now,
            c.exp == now + ttl_secs,
    {
        ReauthClaims {
            purpose: own("reauth"),
            sub,
            sid,
            principal_type,
            client_type,
            risk: own(risk.as_str()),
            iat: now,
            exp: now + ttl_secs,
        }
    }

    /// Claims issued now, valid for `ttl_secs`; `None` when the expiry time
    /// does not fit in an `i64`.
    pub fn new(
        sub: u128,
        sid: u128,
        principal_type: PrincipalType,
        client_type: ClientType,
        risk: ReauthRisk,
        ttl_secs: i64,
    ) -> (r: Option<ReauthClaims>)
        ensures
            match r {
                Some(c) => c.purpose@ == "reauth"@ && c.sub == sub && c.sid == sid
                    && c.principal_type == principal_type && c.client_type == client_type
                    && c.risk@ == risk.text() && clock_secs(c.iat) && c.exp == c.iat + ttl_secs,
                None => true,
            },
            ttl_secs <= 0 ==> r is Some,
    {
        let now = crate::clock::now_unix_secs();
        match now.checked_add(ttl_secs) {
            Some(_) => Some(ReauthClaims::new_at(sub, sid, principal_type, client_type, risk, ttl_secs, now)),
            None => None,
        }
    }
}

/// Why a decoded reauth context is refused at `now` for session
/// `expected_sid`, checked in this order; `None` when it is accepted.
pub open spec fn reauth_refusal(purpose: Seq<char>, sid: u128, exp: i64, expected_sid: u128, now: i64) -> Option<Seq<char>> {
    if purpose != "reauth"@ {
        Some("not a reauth context"@)
    } else if sid != expected_sid {
        Some("reauth context bound to another session"@)
    } else if now >= exp {
        Some("reauth context expired"@)
    } else {
        None
    }
}

/// Checks decoded reauth claims against the current session at `now`.
pub fn validate_reauth_claims(claims: &ReauthClaims, expected_sid: u128, now: i64) -> (r: Result<(), ApiError>)
    ensures
        match reauth_refusal(claims.purpose@, claims.sid, claims.exp, expected_sid, now) {
            None => r is Ok,
            Some(m) => r matches Err(e) && e.code == ErrorCode::SessionExpired && e.message@ == m,
        },
{
    if !str_eq(claims.purpose.as_str(), "reauth") {
        return Err(ApiError::session("not a reauth context"));
    }
    if claims.sid != expected_sid {
        return Err(ApiError::session("reauth context bound to another session"));
    }
    if now >= claims.exp {
        return Err(ApiError::session("reauth context expired"));
    }
    Ok(())
}

/// A context of risk `claimed` satisfies an action requiring `required`:
/// a critical requirement needs a critical context, a high one accepts high
/// or critical.
pub open spec fn risk_adequate(required: ReauthRisk, claimed: Seq<char>) -> bool {
    match required {
        ReauthRisk::Critical => claimed == "critical"@,
        ReauthRisk::High => claimed == "high"@ || claimed == "critical"@,
    }
}

/// Checks a decoded reauth context for an action requiring `required` in
/// session `expected_sid` at `now`: first validity, then adequacy.
pub fn authorize_reauth(claims: &ReauthClaims, expected_sid: u128, now: i64, required: ReauthRisk) -> (r: Result<
    (),
    ApiError,
>)
    ensures
        match reauth_refusal(claims.purpose@, claims.sid, claims.exp, expected_sid, now) {
            Some(m) => r matches Err(e) && e.code == ErrorCode::SessionExpired && e.message@ == m,
            None => if risk_adequate(required, claims.risk@) {
                r is Ok
            } else {
                r matches Err(e) && e.code == ErrorCode::SessionExpired && e.message@ == "reauth risk insufficient"@
            },
        },
{
    validate_reauth_claims(claims, expected_sid, now)?;
    let adequate = match required {
        ReauthRisk::Critical => str_eq(claims.risk.as_str(), "critical"),
        ReauthRisk::High => str_eq(claims.risk.as_str(), "high") || str_eq(claims.risk.as_str(), "critical"),
    };
    if !adequate {
        return Err(ApiError::session("reauth risk insufficient"));
    }
    Ok(())
}

/// The error for a request that carries no reauth context.
pub fn reauth_required() -> (e: ApiError)
    ensures
        e.code == ErrorCode::SessionExpired,
        e.message@ == "reauth context required"@,
{
    ApiError::session("reauth context required")
}

/// The error for a reauth token that does not decode.
pub fn reauth_invalid() -> (e: ApiError)
    ensures
        e.code == ErrorCode::SessionExpired,
        e.message@ == "invalid reauth context"@,
{
    ApiError::session("invalid reauth context")
}

/// A critical context satisfies every requirement; a high one never
/// satisfies a critical requirement.
pub proof fn lemma_risk_order(required: ReauthRisk)
    ensures
        risk_adequate(required, ReauthRisk::Critical.text()),
        !risk_adequate(ReauthRisk::Critical, ReauthRisk::High.text()),
        risk_adequate(ReauthRisk::High, ReauthRisk::High.text()),
{
    reveal_strlit("high");
    reveal_strlit("critical");
    assert("high"@.len() != "critical"@.len());
}

/// A context issued at `now` with a positive lifetime is accepted at any
/// time before it expires, for the session it was issued to.
pub proof fn lemma_fresh_context_accepted(
    sub: u128,
    sid: u128,
    ttl_secs: i64,
    now: i64,
    later: i64,
)
    requires
        ttl_secs > 0,
        i64::MIN <= now + ttl_secs <= i64::MAX,
        later < now + ttl_secs,
    ensures
        reauth_refusal("reauth"@, sid, (now + ttl_secs) as i64, sid, later) is None,
{
}

// ── signed reauth contexts ────────────────────────────────────────────

/// Every member a reauth context needs is present and well formed:
/// `purpose` and `risk` strings, `sub` and `sid` UUID strings, the
/// principal and client wire names, and integer `iat` and `exp`.
pub open spec fn reauth_fields_ok(d: JsonV) -> bool {
    &&& d.get_str("purpose"@) is Some
    &&& uuid_claim(d, "sub"@) is Some
    &&& uuid_claim(d, "sid"@) is Some
    &&& principal_claim(d) is Some
    &&& client_claim(d) is Some
    &&& d.get_str("risk"@) is Some
    &&& int_claim(d, "iat"@) is Some
    &&& int_claim(d, "exp"@) is Some
}

/// `c` holds what the claims object `d` says.
pub open spec fn reauth_claims_in(c: ReauthClaims, d: JsonV) -> bool {
    &&& d.get_str("purpose"@) == Some(c.purpose@)
    &&& uuid_claim(d, "sub"@) == Some(c.sub)
    &&& uuid_claim(d, "sid"@) == Some(c.sid)
    &&& principal_claim(d) == Some(c.principal_type)
    &&& client_claim(d) == Some(c.client_type)
    &&& d.get_str("risk"@) == Some(c.risk@)
    &&& int_claim(d, "iat"@) == Some(c.iat)
    &&& int_claim(d, "exp"@) == Some(c.exp)
}

/// Why the reauth context in the claims object `d` is refused at `now` for
/// session `expected_sid` (see `reauth_refusal`).
pub open spec fn reauth_refusal_in(d: JsonV, expected_sid: u128, now: i64) -> Option<Seq<char>> {
    match (d.get_str("purpose"@), uuid_claim(d, "sid"@), int_claim(d, "exp"@)) {
        (Some(purpose), Some(sid), Some(exp)) => reauth_refusal(purpose, sid, exp, expected_sid, now),
        _ => None,
    }
}

/// The claims object a reauth context carries, members in this order.
pub open spec fn reauth_claims_doc(c: ReauthClaims) -> JsonV {
    JsonV::Object(
        seq![
            ("purpose"@, JsonV::Str(c.purpose@)),
            ("sub"@, JsonV::Str(uuid_text(c.sub))),
            ("sid"@, JsonV::Str(uuid_text(c.sid))),
            ("principal_type"@, JsonV::Str(c.principal_type.text())),
            ("client_type"@, JsonV::Str(c.client_type.text())),
            ("risk"@, JsonV::Str(c.risk@)),
            ("iat"@, int_json_value(c.iat)),
            ("exp"@, int_json_value(c.exp)),
        ],
    )
}

/// Read the reauth claims of a decoded token.
pub fn reauth_claims_of(doc: &Json) -> (r: Result<ReauthClaims, ApiError>)
    ensures
        r is Ok <==> reauth_fields_ok(doc@),
        r matches Ok(c) ==> reauth_claims_in(c, doc@),
        r matches Err(e) ==> e.code == ErrorCode::SessionExpired && e.message@ == "invalid reauth context"@,
{
    let purpose = doc.get_str("purpose");
    let sub = uuid_field(doc, "sub");
    let sid = uuid_field(doc, "sid");
    let principal = principal_field(doc);
    let client = client_field(doc);
    let risk = doc.get_str("risk");
    let iat = int_field(doc, "iat");
    let exp = int_field(doc, "exp");
    match (purpose, sub, sid, principal, client, risk, iat, exp) {
        (Some(purpose), Some(sub), Some(sid), Some(principal_type), Some(client_type), Some(risk), Some(iat), Some(
            exp,
        )) => Ok(
            ReauthClaims { purpose: own(purpose), sub, sid, principal_type, client_type, risk: own(risk), iat, exp },
        ),
        _ => Err(reauth_invalid()),
    }
}

/// The reauth context in a decoded token, checked against session
/// `expected_sid` at `now`: malformed claims are an invalid context, then
/// purpose, session and expiry are checked in that order.
pub fn reauth_context_at(doc: &Json, expected_sid: u128, now: i64) -> (r: Result<ReauthClaims, ApiError>)
    ensures
        !reauth_fields_ok(doc@) ==> (r matches Err(e) && e.code == ErrorCode::SessionExpired && e.message@
            == "invalid reauth context"@),
        reauth_fields_ok(doc@) ==> match reauth_refusal_in(doc@, expected_sid, now) {
            None => r matches Ok(c) && reauth_claims_in(c, doc@),
            Some(m) => r matches Err(e) && e.code == ErrorCode::SessionExpired && e.message@ == m,
        },
{
    let claims = reauth_claims_of(doc)?;
    validate_reauth_claims(&claims, expected_sid, now)?;
    Ok(claims)
}

/// The claims object of reauth claims.
pub fn reauth_claims_json(c: &ReauthClaims) -> (r: Json)
    ensures
        r@ == reauth_claims_doc(*c),
{
    let mut es: Vec<(String, Json)> = Vec::new();
    es.push((own("purpose"), json_string(c.purpose.as_str())));
    es.push((own("sub"), json_string(format_uuid(c.sub).as_str())));
    es.push((own("sid"), json_string(format_uuid(c.sid).as_str())));
    es.push((own("principal_type"), json_string(c.principal_type.as_str())));
    es.push((own("client_type"), json_string(c.client_type.as_str())));
    es.push((own("risk"), json_string(c.risk.as_str())));
    es.push((own("iat"), int_json(c.iat)));
    es.push((own("exp"), int_json(c.exp)));
    let r = Json::Object(es);
    proof {
        lemma_object_view(r);
        assert(entries_view(es@) =~= reauth_claims_doc(*c)->Object_0);
    }
    r
}

/// Sign a reauth context: the HS256 token of its claims object.
pub fn encode_reauth(claims: &ReauthClaims, secret: &str) -> (r: Result<String, ApiError>)
    ensures
        r matches Ok(t) ==> t@ == hs256_token(reauth_claims_doc(*claims), secret@),
        r matches Err(e) ==> e.code == ErrorCode::InternalError && e.message@ == "internal server error"@,
{
    match jwt_encode_hs256(&reauth_claims_json(claims), secret) {
        Some(t) => Ok(t),
        None => Err(ApiError::internal()),
    }
}

/// Decode and check a reauth context for session `expected_sid` now: a
/// token whose signature or claims do not check is an invalid context;
/// otherwise `reauth_context_at` at the instant the clock reports.
pub fn decode_reauth(token: &str, secret: &str, expected_sid: u128) -> (r: Result<ReauthClaims, ApiError>)
    ensures
        r matches Ok(c) ==> (hs256_claims(token@, secret@) matches Some(d) && reauth_claims_in(c, d) && exists|now: i64|
            clock_secs(now) && #[trigger] reauth_refusal(c.purpose@, c.sid, c.exp, expected_sid, now) is None),
        r matches Err(e) ==> e.code == ErrorCode::SessionExpired && (e.message@ == "invalid reauth context"@ || (
        hs256_claims(token@, secret@) matches Some(d) && reauth_fields_ok(d) && exists|now: i64|
            clock_secs(now) && #[trigger] reauth_refusal_in(d, expected_sid, now) == Some(e.message@))),
{
    match jwt_decode_hs256(token, secret) {
        Some(doc) => {
            let now = crate::clock::now_unix_secs();
            let r = reauth_context_at(&doc, expected_sid, now);
            proof {
                if r is Ok {
                    let c = r->Ok_0;
                    assert(reauth_refusal(c.purpose@, c.sid, c.exp, expected_sid, now) is None);
                } else if reauth_fields_ok(doc@) {
                    assert(reauth_refusal_in(doc@, expected_sid, now) == Some(r->Err_0.message@));
                }
            }
            r
        },
        None => Err(reauth_invalid()),
    }
}

} // verus!
