use ppb_server::auth::gateway::new_csp_nonce;
use ppb_server::auth::github::GithubService;
use ppb_server::auth::root::RootAuthService;
use ppb_server::auth::session::{generate_refresh_token, hash_refresh_token};
use ppb_server::config::deployment::Secrets;
use ppb_server::config::runtime::RuntimeConfig;
use ppb_server::error::ErrorCode;
use ppb_server::middleware::request_id::read_request_id;

#[test]
fn root_password_hash_round_trips() {
    let short = RootAuthService::new_password_hash("short");
    assert_eq!(short.unwrap_err().code, ErrorCode::ValidationFailed);
    let hash = RootAuthService::new_password_hash("correct horse battery").unwrap();
    assert_ne!(hash, "correct horse battery");
    let ok = RootAuthService::check_password(&hash, true, "correct horse battery").unwrap();
    assert!(ok.must_change_password);
    let bad = RootAuthService::check_password(&hash, false, "wrong password!!").unwrap_err();
    assert_eq!(bad.code, ErrorCode::AuthRequired);
    assert_eq!(bad.message, "invalid root password");
    let broken = RootAuthService::check_password("not-a-bcrypt-hash", false, "x").unwrap_err();
    assert_eq!(broken.code, ErrorCode::InternalError);
}

#[test]
fn refresh_tokens_are_hex_and_hashed() {
    let t = generate_refresh_token();
    assert_eq!(t.len(), 64);
    assert!(t.chars().all(|c| c.is_ascii_hexdigit() && !c.is_ascii_uppercase()));
    assert_ne!(generate_refresh_token(), t);
    assert_eq!(hash_refresh_token("abc"), "ba7816bf8f01cfea414140de5dae2223b00361a396177a9cb410ff61f20015ad");
}

#[test]
fn csp_nonce_is_url_safe_base64_of_18_bytes() {
    let n = new_csp_nonce();
    assert_eq!(n.len(), 24);
    assert!(n.chars().all(|c| c.is_ascii_alphanumeric() || c == '-' || c == '_'));
}

#[test]
fn request_ids_are_kept_or_minted() {
    assert_eq!(read_request_id(Some("  abc-123 ")), "abc-123");
    let fresh = read_request_id(None);
    assert_eq!(fresh.len(), 36);
    assert!(uuid::Uuid::parse_str(&fresh).is_ok());
    assert_eq!(read_request_id(Some("bad value with spaces")).len(), 36);
}

#[test]
fn secrets_require_jwt_and_a_32_byte_key() {
    let key = "AAAAAAAAAAAAAAAAAAAAAAAAAAAAAAAAAAAAAAAAAAA=".to_string();
    let ok = Secrets::from_values(None, Some("jwt".into()), Some(key.clone()), Some("id".into()), Some(String::new()), None)
        .unwrap();
    assert_eq!(ok.phira_credential_key.len(), 32);
    assert!(ok.github_client_secret.is_none());
    assert!(!ok.github_configured());
    assert_eq!(
        Secrets::from_values(None, None, Some(key.clone()), None, None, None).unwrap_err(),
        "PPB_JWT_SECRET is required"
    );
    assert_eq!(
        Secrets::from_values(None, Some("jwt".into()), Some("AAAA".into()), None, None, None).unwrap_err(),
        "PPB_PHIRA_CREDENTIAL_KEY must decode to 32 bytes (AES-256)"
    );
    assert!(Secrets::from_values(None, Some("jwt".into()), Some("%%%".into()), None, None, None)
        .unwrap_err()
        .starts_with("PPB_PHIRA_CREDENTIAL_KEY not valid base64: "));
}

#[test]
fn github_states_are_single_use() {
    let mut svc = GithubService::new();
    let secrets = Secrets::from_values(
        None,
        Some("jwt".into()),
        Some("AAAAAAAAAAAAAAAAAAAAAAAAAAAAAAAAAAAAAAAAAAA=".into()),
        Some("client".into()),
        Some("secret".into()),
        None,
    )
    .unwrap();
    let mut cfg = RuntimeConfig::default();
    cfg.github.callback_url = "https://api.example.com/cb?x=1".to_string();
    let (url, state) = svc.authorize_url_at(&secrets, &cfg, 1_000, "tok").unwrap();
    assert_eq!(state, "tok");
    assert_eq!(
        url,
        "https://github.com/login/oauth/authorize?client_id=client&redirect_uri=https%3A%2F%2Fapi%2Eexample%2Ecom%2Fcb%3Fx%3D1&scope=read:user&state=tok"
    );
    assert!(svc.consume_state_at("tok", 2_000).is_ok());
    let again = svc.consume_state_at("tok", 2_000).unwrap_err();
    assert_eq!(again.code, ErrorCode::GithubOauthStateInvalid);
    svc.authorize_url_at(&secrets, &cfg, 1_000, "old").unwrap();
    assert!(svc.consume_state_at("old", 1_000 + 600_000 + 1).is_err());
}
