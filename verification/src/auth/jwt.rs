//! Access token claims: only `{sub, sid, principal_type, client_type, iat,
//! exp}`; permissions are resolved at run time, never carried in the token.

use vstd::prelude::*;
use crate::auth::types::{ClientType, PrincipalType};
use crate::clock::clock_secs;
use crate::error::{ApiError, ErrorCode};
use crate::json::{Json, JsonV, entries_view, int_json, int_json_value, json_of_value, json_string, lemma_object_view, value_of_json};
use crate::middleware::csrf::{format_uuid, uuid_text};
use crate::notifications::{parse_uuid, uuid_value};
use crate::text::own;

verus! {

/// Sentinel `sub` for root (the nil UUID).
pub const ROOT_SUB: u128 = 0;

#[derive(Debug)]
/// Payload of the access token (times in Unix seconds).
pub struct AccessClaims {
    pub sub: u128,
    pub sid: u128,
    pub principal_type: PrincipalType,
    pub client_type: ClientType,
    pub iat: i64,
    pub exp: i64,
}

impl AccessClaims {
    /// Claims issued at `now`, valid for `ttl_secs`.
    pub fn new_at(
        sub: u128,
        sid: u128,
        principal_type: PrincipalType,
        client_type: ClientType,
        ttl_secs: i64,
        now: i64,
    ) -> (c: AccessClaims)
        requires
            i64::MIN <= now + ttl_secs <= i64::MAX,
        ensures
            c.sub == sub,
            c.sid == sid,
            c.principal_type == principal_type,
            c.client_type == client_type,
            c.iat == now,
            c.exp == now + ttl_secs,
    {
        AccessClaims { sub, sid, principal_type, client_type, iat: now, exp: now + ttl_secs }
    }

    /// Claims issued now; `None` when the expiry does not fit in an `i64`.
    pub fn new(sub: u128, sid: u128, principal_type: PrincipalType, client_type: ClientType, ttl_secs: i64) -> (r:
        Option<AccessClaims>)
        ensures
            r matches Some(c) ==> (c.sub == sub && c.sid == sid && c.principal_type == principal_type
                && c.client_type == client_type && clock_secs(c.iat) && c.exp == c.iat + ttl_secs),
            ttl_secs <= 0 ==> r is Some,
    {
        let now = crate::clock::now_unix_secs();
        match now.checked_add(ttl_secs) {
            Some(_) => Some(AccessClaims::new_at(sub, sid, principal_type, client_type, ttl_secs, now)),
            None => None,
        }
    }

    /// Expired at `now`.
    pub fn expired_at(&self, now: i64) -> (b: bool)
        ensures
            b == (now >= self.exp),
    {
        now >= self.exp
    }

    /// Expired now: `exp` has passed at the instant the clock reports.
    pub fn expired(&self) -> (b: bool)
        ensures
            exists|now: i64| clock_secs(now) && b == (now >= self.exp),
    {
        let now = crate::clock::now_unix_secs();
        self.expired_at(now)
    }
}

/// The `sub` of a session's principal: the user id, or the root sentinel.
pub fn subject_of(user_id: Option<u128>) -> (s: u128)
    ensures
        s == (match user_id {
            Some(u) => u,
            None => ROOT_SUB,
        }),
{
    match user_id {
        Some(u) => u,
        None => ROOT_SUB,
    }
}

/// The refusal of a token that does not decode or has expired.
pub fn invalid_access_token() -> (e: ApiError)
    ensures
        e.code == ErrorCode::SessionExpired,
        e.message@ == "invalid or expired access token"@,
{
    ApiError::session("invalid or expired access token")
}

// ── signed tokens ─────────────────────────────────────────────────────

/// The claims of `token` when it is a JSON Web Token signed with HS256 whose
/// signature checks under the key made of `secret`'s UTF-8 bytes: the
/// payload read as a JSON value (`None` when the layout, the algorithm or
/// the signature is wrong). The time of day plays no part in it.
pub uninterp spec fn hs256_claims(token: Seq<char>, secret: Seq<char>) -> Option<JsonV>;

/// The JSON Web Token that signs the JSON value `claims` with HS256 under
/// the key made of `secret`'s UTF-8 bytes.
pub uninterp spec fn hs256_token(claims: JsonV, secret: Seq<char>) -> Seq<char>;

/// `jsonwebtoken::decode` with HS256 and that crate's default checks, the
/// claims taken as a `serde_json::Value`. A token comes back only when its
/// signature checks, and then its claims are `hs256_claims` of the token and
/// the secret. The default checks also refuse a token without a numeric
/// `exp` or whose `exp` lies more than 60 s before the clock's reading, so
/// whether a token with a good signature is refused is left unsaid.
#[verifier::external_body]
pub(crate) fn jwt_decode_hs256(token: &str, secret: &str) -> (r: Option<Json>)
    ensures
        r matches Some(d) ==> hs256_claims(token@, secret@) == Some(d@),
{
    let key = jsonwebtoken::DecodingKey::from_secret(secret.as_bytes());
    let validation = jsonwebtoken::Validation::new(jsonwebtoken::Algorithm::HS256);
    match jsonwebtoken::decode::<serde_json::Value>(token, &key, &validation) {
        Ok(data) => Some(json_of_value(data.claims)),
        Err(_) => None,
    }
}

/// `jsonwebtoken::encode` of `claims` with an HS256 header under the key
/// made of `secret`'s UTF-8 bytes: the token is `hs256_token` of the claims
/// and the secret. Whether the call fails is left unsaid.
#[verifier::external_body]
pub(crate) fn jwt_encode_hs256(claims: &Json, secret: &str) -> (r: Option<String>)
    ensures
        r matches Some(t) ==> t@ == hs256_token(claims@, secret@),
{
    let key = jsonwebtoken::EncodingKey::from_secret(secret.as_bytes());
    let header = jsonwebtoken::Header::new(jsonwebtoken::Algorithm::HS256);
    jsonwebtoken::encode(&header, &value_of_json(claims), &key).ok()
}

/// The UUID written as the string member `key` of a claims object.
pub open spec fn uuid_claim(d: JsonV, key: Seq<char>) -> Option<u128> {
    match d.get_str(key) {
        Some(t) => uuid_value(t),
        None => None,
    }
}

/// The integer member `key` of a claims object, when it fits in an `i64`.
pub open spec fn int_claim(d: JsonV, key: Seq<char>) -> Option<i64> {
    match d.get(key) {
        Some(v) => v.as_i64(),
        None => None,
    }
}

/// The principal named by the `principal_type` member.
pub open spec fn principal_claim(d: JsonV) -> Option<PrincipalType> {
    match d.get_str("principal_type"@) {
        Some(t) => PrincipalType::from_text(t),
        None => None,
    }
}

/// The client named by the `client_type` member.
pub open spec fn client_claim(d: JsonV) -> Option<ClientType> {
    match d.get_str("client_type"@) {
        Some(t) => ClientType::from_text(t),
        None => None,
    }
}

/// The access claims a claims object holds: `sub` and `sid` as UUID
/// strings, `principal_type` and `client_type` as their wire names, `iat`
/// and `exp` as integers; other members are ignored. `None` when one is
/// missing or malformed, or when the value is no object.
pub open spec fn access_claims_in(d: JsonV) -> Option<AccessClaims> {
    match (uuid_claim(d, "sub"@), uuid_claim(d, "sid"@), principal_claim(d), client_claim(d), int_claim(d, "iat"@), int_claim(d, "exp"@)) {
        (Some(sub), Some(sid), Some(p), Some(c), Some(iat), Some(exp)) => Some(
            AccessClaims { sub, sid, principal_type: p, client_type: c, iat, exp },
        ),
        _ => None,
    }
}

/// The claims object an access token carries, members in this order.
pub open spec fn access_claims_doc(c: AccessClaims) -> JsonV {
    JsonV::Object(
        seq![
            ("sub"@, JsonV::Str(uuid_text(c.sub))),
            ("sid"@, JsonV::Str(uuid_text(c.sid))),
            ("principal_type"@, JsonV::Str(c.principal_type.text())),
            ("client_type"@, JsonV::Str(c.client_type.text())),
            ("iat"@, int_json_value(c.iat)),
            ("exp"@, int_json_value(c.exp)),
        ],
    )
}

/// The UUID string member `key` of a claims object.
pub fn uuid_field(doc: &Json, key: &str) -> (r: Option<u128>)
    ensures
        r == uuid_claim(doc@, key@),
{
    match doc.get_str(key) {
        Some(t) => parse_uuid(t),
        None => None,
    }
}

/// The integer member `key` of a claims object.
pub fn int_field(doc: &Json, key: &str) -> (r: Option<i64>)
    ensures
        r == int_claim(doc@, key@),
{
    match doc.get(key) {
        Some(v) => v.as_i64(),
        None => None,
    }
}

/// The principal named by a claims object.
pub fn principal_field(doc: &Json) -> (r: Option<PrincipalType>)
    ensures
        r == principal_claim(doc@),
{
    match doc.get_str("principal_type") {
        Some(t) => PrincipalType::parse(t),
        None => None,
    }
}

/// The client named by a claims object.
pub fn client_field(doc: &Json) -> (r: Option<ClientType>)
    ensures
        r == client_claim(doc@),
{
    match doc.get_str("client_type") {
        Some(t) => ClientType::parse(t),
        None => None,
    }
}

/// Read the access claims of a decoded token.
pub fn access_claims_of(doc: &Json) -> (r: Result<AccessClaims, ApiError>)
    ensures
        match access_claims_in(doc@) {
            Some(c) => r matches Ok(k) && k == c,
            None => r matches Err(e) && e.code == ErrorCode::SessionExpired && e.message@
                == "invalid or expired access token"@,
        },
{
    let sub = uuid_field(doc, "sub");
    let sid = uuid_field(doc, "sid");
    let principal = principal_field(doc);
    let client = client_field(doc);
    let iat = int_field(doc, "iat");
    let exp = int_field(doc, "exp");
    match (sub, sid, principal, client, iat, exp) {
        (Some(sub), Some(sid), Some(principal_type), Some(client_type), Some(iat), Some(exp)) => Ok(
            AccessClaims { sub, sid, principal_type, client_type, iat, exp },
        ),
        _ => Err(invalid_access_token()),
    }
}

/// The claims object of access claims.
pub fn access_claims_json(c: &AccessClaims) -> (r: Json)
    ensures
        r@ == access_claims_doc(*c),
{
    let mut es: Vec<(String, Json)> = Vec::new();
    es.push((own("sub"), json_string(format_uuid(c.sub).as_str())));
    es.push((own("sid"), json_string(format_uuid(c.sid).as_str())));
    es.push((own("principal_type"), json_string(c.principal_type.as_str())));
    es.push((own("client_type"), json_string(c.client_type.as_str())));
    es.push((own("iat"), int_json(c.iat)));
    es.push((own("exp"), int_json(c.exp)));
    let r = Json::Object(es);
    proof {
        lemma_object_view(r);
        assert(entries_view(es@) =~= access_claims_doc(*c)->Object_0);
    }
    r
}

/// Sign an access token: the HS256 token of the claims object.
pub fn encode_access(claims: &AccessClaims, secret: &str) -> (r: Result<String, ApiError>)
    ensures
        r matches Ok(t) ==> t@ == hs256_token(access_claims_doc(*claims), secret@),
        r matches Err(e) ==> e.code == ErrorCode::InternalError && e.message@ == "internal server error"@,
{
    match jwt_encode_hs256(&access_claims_json(claims), secret) {
        Some(t) => Ok(t),
        None => Err(ApiError::internal()),
    }
}

/// Verify and decode an access token: its signature must check under
/// `secret` and its claims must be well formed; any failure is an invalid
/// or expired token.
pub fn decode_access(token: &str, secret: &str) -> (r: Result<AccessClaims, ApiError>)
    ensures
        r matches Ok(c) ==> (hs256_claims(token@, secret@) matches Some(d) && access_claims_in(d) == Some(c)),
        r matches Err(e) ==> e.code == ErrorCode::SessionExpired && e.message@ == "invalid or expired access token"@,
{
    match jwt_decode_hs256(token, secret) {
        Some(doc) => access_claims_of(&doc),
        None => Err(invalid_access_token()),
    }
}

} // verus!
