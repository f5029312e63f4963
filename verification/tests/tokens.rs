use ppb_server::auth::jwt::{access_claims_json, access_claims_of, decode_access, encode_access, AccessClaims};
use ppb_server::auth::reauth::{decode_reauth, encode_reauth, reauth_context_at, ReauthClaims, ReauthRisk};
use ppb_server::auth::types::{ClientType, PrincipalType};
use ppb_server::error::ErrorCode;
use ppb_server::json::{int_json, to_text, Json};
use ppb_server::middleware::auth::authenticate;

const SECRET: &str = "test-secret-test-secret-test-secret!!";
const REAUTH_SECRET: &str = "reauth-test-secret-reauth-test-secret!";

fn new_id() -> u128 {
    uuid::Uuid::new_v4().as_u128()
}

fn obj(items: Vec<(&str, Json)>) -> Json {
    Json::Object(items.into_iter().map(|(k, v)| (k.to_string(), v)).collect())
}

fn s(t: &str) -> Json {
    Json::Str(t.to_string())
}

#[test]
fn round_trip_claims() {
    let claims = AccessClaims::new(new_id(), new_id(), PrincipalType::User, ClientType::Ppf, 3600).unwrap();
    let token = encode_access(&claims, SECRET).unwrap();
    let decoded = decode_access(&token, SECRET).unwrap();
    assert_eq!(decoded.sub, claims.sub);
    assert_eq!(decoded.sid, claims.sid);
    assert_eq!(decoded.principal_type, PrincipalType::User);
    assert_eq!(decoded.client_type, ClientType::Ppf);
    assert!(decoded.exp > decoded.iat);
}

#[test]
fn rejects_tampered_token() {
    let claims = AccessClaims::new(new_id(), new_id(), PrincipalType::User, ClientType::Ppf, 3600).unwrap();
    let token = encode_access(&claims, SECRET).unwrap();
    let mut chars: Vec<char> = token.chars().collect();
    let last = chars.len() - 1;
    chars[last] = if chars[last] == 'a' { 'b' } else { 'a' };
    let tampered: String = chars.into_iter().collect();
    assert!(decode_access(&tampered, SECRET).is_err());
}

#[test]
fn wrong_secret_fails() {
    let claims = AccessClaims::new(new_id(), new_id(), PrincipalType::Root, ClientType::Panel, 3600).unwrap();
    let token = encode_access(&claims, SECRET).unwrap();
    assert!(decode_access(&token, "other-secret").is_err());
}

#[test]
fn round_trip_and_binding() {
    let sid = new_id();
    let claims =
        ReauthClaims::new(new_id(), sid, PrincipalType::User, ClientType::Panel, ReauthRisk::Critical, 300).unwrap();
    let token = encode_reauth(&claims, REAUTH_SECRET).unwrap();
    let decoded = decode_reauth(&token, REAUTH_SECRET, sid).unwrap();
    assert_eq!(decoded.risk, "critical");
    assert_eq!(decoded.sid, sid);
}

#[test]
fn rejects_other_session() {
    let claims =
        ReauthClaims::new(new_id(), new_id(), PrincipalType::User, ClientType::Panel, ReauthRisk::High, 300).unwrap();
    let token = encode_reauth(&claims, REAUTH_SECRET).unwrap();
    assert!(decode_reauth(&token, REAUTH_SECRET, new_id()).is_err());
}

#[test]
fn expired_access_token_is_refused() {
    let claims = AccessClaims::new(new_id(), new_id(), PrincipalType::User, ClientType::Ppf, -3600).unwrap();
    let token = encode_access(&claims, SECRET).unwrap();
    let e = decode_access(&token, SECRET).unwrap_err();
    assert_eq!(e.code, ErrorCode::SessionExpired);
    assert_eq!(e.message, "invalid or expired access token");
}

#[test]
fn access_claims_object_shape() {
    let claims = AccessClaims::new_at(1, 2, PrincipalType::Root, ClientType::Android, 60, 1_000);
    assert_eq!(
        to_text(&access_claims_json(&claims)),
        "{\"client_type\":\"android\",\"exp\":1060,\"iat\":1000,\"principal_type\":\"root\",\
\"sid\":\"00000000-0000-0000-0000-000000000002\",\"sub\":\"00000000-0000-0000-0000-000000000001\"}"
    );
    let back = access_claims_of(&access_claims_json(&claims)).unwrap();
    assert_eq!((back.sub, back.sid, back.iat, back.exp), (1, 2, 1_000, 1_060));
    assert_eq!(back.principal_type, PrincipalType::Root);
    assert_eq!(back.client_type, ClientType::Android);
}

#[test]
fn malformed_access_claims_are_refused() {
    let good = || {
        vec![
            ("sub", s("00000000-0000-0000-0000-000000000001")),
            ("sid", s("00000000-0000-0000-0000-000000000002")),
            ("principal_type", s("user")),
            ("client_type", s("ppf")),
            ("iat", int_json(1)),
            ("exp", int_json(2)),
        ]
    };
    assert!(access_claims_of(&obj(good())).is_ok());
    let mut bad_sub = good();
    bad_sub[0] = ("sub", s("not-a-uuid"));
    assert_eq!(access_claims_of(&obj(bad_sub)).unwrap_err().code, ErrorCode::SessionExpired);
    let mut bad_principal = good();
    bad_principal[2] = ("principal_type", s("admin"));
    assert!(access_claims_of(&obj(bad_principal)).is_err());
    let mut bad_client = good();
    bad_client[3] = ("client_type", s("PPF"));
    assert!(access_claims_of(&obj(bad_client)).is_err());
    let mut text_exp = good();
    text_exp[5] = ("exp", s("2"));
    assert!(access_claims_of(&obj(text_exp)).is_err());
    let mut missing = good();
    missing.pop();
    assert!(access_claims_of(&obj(missing)).is_err());
    assert!(access_claims_of(&Json::Array(vec![])).is_err());
}

#[test]
fn reauth_context_checks_in_order() {
    let doc = |purpose: &str, exp: i64| {
        obj(vec![
            ("purpose", s(purpose)),
            ("sub", s("00000000-0000-0000-0000-000000000001")),
            ("sid", s("00000000-0000-0000-0000-000000000002")),
            ("principal_type", s("user")),
            ("client_type", s("panel")),
            ("risk", s("high")),
            ("iat", int_json(100)),
            ("exp", int_json(exp)),
        ])
    };
    assert!(reauth_context_at(&doc("reauth", 400), 2, 200).is_ok());
    assert_eq!(reauth_context_at(&doc("login", 400), 2, 200).unwrap_err().message, "not a reauth context");
    assert_eq!(
        reauth_context_at(&doc("reauth", 400), 3, 200).unwrap_err().message,
        "reauth context bound to another session"
    );
    assert_eq!(reauth_context_at(&doc("reauth", 400), 2, 400).unwrap_err().message, "reauth context expired");
    assert_eq!(reauth_context_at(&Json::Null, 2, 200).unwrap_err().message, "invalid reauth context");
}

#[test]
fn requests_are_authenticated_by_bearer_or_cookie() {
    let claims = AccessClaims::new(new_id(), new_id(), PrincipalType::User, ClientType::Panel, 3600).unwrap();
    let token = encode_access(&claims, SECRET).unwrap();
    let bearer = format!("Bearer {token}");
    assert_eq!(authenticate(Some(&bearer), None, "ppb_access", SECRET).unwrap().sid, claims.sid);
    let cookie = format!("ppb_access={token}");
    assert_eq!(authenticate(None, Some(&cookie), "ppb_access", SECRET).unwrap().sub, claims.sub);
    let e = authenticate(None, None, "ppb_access", SECRET).unwrap_err();
    assert_eq!(e.message, "missing credentials");
    let e = authenticate(Some("Bearer junk"), None, "ppb_access", SECRET).unwrap_err();
    assert_eq!(e.message, "invalid or expired access token");
}
