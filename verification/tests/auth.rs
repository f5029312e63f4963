use ppb_server::auth::requests::{phira_error_to_api, PhiraError};
use ppb_server::auth::login_page::{login_html, GatewayStrings, GatewayTokens};
use ppb_server::config::runtime::LegalConfig;
use ppb_server::json::Json;
use ppb_server::auth::gateway::{resolve_redirect_target, safe_return_to};
use ppb_server::auth::reauth::ReauthRisk;
use ppb_server::auth::requests::{
    login_client_type, parse_expire_at, phira_credential_gate, rate_key, reauth_email, reauth_identity_check,
    refresh_token_expired, requested_reauth_risk,
};
use ppb_server::auth::root::generate_random_password;
use ppb_server::auth::types::ClientType;
use ppb_server::config::runtime::{SecurityConfig, SiteConfig};
use ppb_server::error::ErrorCode;

fn site() -> SiteConfig {
    SiteConfig {
        ppf_url: "https://phira.htadiy.com".to_string(),
        panel_url: "https://panel-phira.htadiy.com".to_string(),
        docs_url: "https://docs.phira.htadiy.com".to_string(),
        visit_count: 0,
    }
}

fn security() -> SecurityConfig {
    SecurityConfig {
        return_to_allowlist: vec!["https://phira.htadiy.com".to_string(), "https://panel-phira.htadiy.com".to_string()],
    }
}

#[test]
fn safe_relative_accepted() {
    assert_eq!(safe_return_to(Some("/rooms")), "/rooms");
}

#[test]
fn unsafe_rejected_to_root() {
    assert_eq!(safe_return_to(Some("https://evil.com")), "/");
    assert_eq!(safe_return_to(Some("//evil.com")), "/");
}

#[test]
fn relative_joins_trusted_origins() {
    let s = site();
    let sec = security();
    assert_eq!(resolve_redirect_target(&s, &sec, "ppf", Some("/rooms")), "https://phira.htadiy.com/rooms");
    assert_eq!(resolve_redirect_target(&s, &sec, "panel", Some("/users")), "https://panel-phira.htadiy.com/users");
}

#[test]
fn missing_return_to_goes_home() {
    assert_eq!(safe_return_to(None), "/");
}

#[test]
fn refresh_expiry_check() {
    let now = chrono::Utc::now().timestamp_millis();
    let expired = now - 1000;
    let valid = now + 86_400_000;
    assert!(refresh_token_expired(expired, now));
    assert!(!refresh_token_expired(valid, now));
}

#[test]
fn parse_expire_at_ok() {
    let dt = parse_expire_at("2026-09-11T00:00:00Z").unwrap();
    let expected = chrono::DateTime::parse_from_rfc3339("2026-09-11T00:00:00Z")
        .unwrap()
        .with_timezone(&chrono::Utc)
        .timestamp_millis();
    assert_eq!(dt, expected);
}

#[test]
fn parse_expire_at_rejects_garbage() {
    let e = parse_expire_at("next tuesday").unwrap_err();
    assert_eq!(e.code, ErrorCode::ValidationFailed);
    assert_eq!(e.message, "invalid expireAt");
}

#[test]
fn random_password_length_and_charset() {
    let pw = generate_random_password();
    assert_eq!(pw.len(), 16);
    assert!(pw.chars().all(|c| !c.is_whitespace()));
    assert_ne!(pw, generate_random_password());
}

#[test]
fn bcrypt_round_trip() {
    let hash = bcrypt::hash("correct horse battery staple", ppb_server::auth::root::BCRYPT_COST).unwrap();
    assert!(bcrypt::verify("correct horse battery staple", &hash).unwrap());
    assert!(!bcrypt::verify("wrong", &hash).unwrap());
}

#[test]
fn login_client_defaults_to_ppf() {
    assert_eq!(login_client_type(None).unwrap(), ClientType::Ppf);
    assert_eq!(login_client_type(Some("panel")).unwrap(), ClientType::Panel);
    let e = login_client_type(Some("toaster")).unwrap_err();
    assert_eq!(e.message, "invalid client_type");
}

#[test]
fn reauth_risk_defaults_to_high() {
    assert_eq!(requested_reauth_risk(None), ReauthRisk::High);
    assert_eq!(requested_reauth_risk(Some("critical")), ReauthRisk::Critical);
    assert_eq!(requested_reauth_risk(Some("extreme")), ReauthRisk::High);
}

#[test]
fn reauth_needs_email_and_same_identity() {
    assert!(reauth_email(None).is_err());
    assert_eq!(reauth_email(Some("a@b.c".to_string())).unwrap(), "a@b.c");
    assert!(reauth_identity_check(7, 7).is_ok());
    let e = reauth_identity_check(7, 8).unwrap_err();
    assert_eq!(e.code, ErrorCode::AuthRequired);
}

#[test]
fn spent_phira_credential_requires_reauth() {
    assert!(phira_credential_gate(None, 100).is_ok());
    assert!(phira_credential_gate(Some((200, "active")), 100).is_ok());
    assert_eq!(phira_credential_gate(Some((100, "active")), 100).unwrap_err().code, ErrorCode::PhiraReauthRequired);
    assert!(phira_credential_gate(Some((200, "reauth_required")), 100).is_err());
}

#[test]
fn rate_keys_join_scope_and_address() {
    assert_eq!(rate_key("login", "1.2.3.4"), "login:1.2.3.4");
}

fn tokens() -> GatewayTokens {
    GatewayTokens {
        canvas: "#000".into(),
        surface: "#111".into(),
        surface_strong: "#222".into(),
        border: "#333".into(),
        text_primary: "#fff".into(),
        text_secondary: "#ccc".into(),
        accent: "#0af".into(),
        accent_text: "#000".into(),
        danger: "#f00".into(),
        focus: "#ff0".into(),
        radius_control_px: 8,
        radius_window_px: 16,
        max_width_px: 420,
    }
}

fn strings() -> GatewayStrings {
    let t = |s: &str| s.to_string();
    GatewayStrings {
        document_title: t("Sign in"),
        product: t("Phira"),
        title: t("Welcome"),
        subtitle: t("Continue to {client}"),
        email: t("Email"),
        password: t("Password"),
        sign_in: t("Sign in"),
        github: t("GitHub"),
        or: t("or"),
        consent_prefix: t("I accept"),
        terms: t("Terms"),
        privacy: t("Privacy"),
        consent_join: t("and"),
        consent_required: t("Please accept"),
        legal_unavailable: t("Legal documents are not configured"),
        network_error: t("Network error"),
        generic_error: t("Something <broke>"),
        request_id: t("Request"),
        github_hint: t("Bind only"),
        client_ppf: t("PPF"),
        client_panel: t("Panel & Admin"),
        language: t("Language"),
        zh: t("中文"),
        en: t("English"),
    }
}

fn ready_legal() -> LegalConfig {
    LegalConfig {
        public_auth_enabled: true,
        terms_version: "t1".into(),
        privacy_version: "p1".into(),
        terms_url: "/terms".into(),
        privacy_url: "https://example.com/privacy".into(),
    }
}

fn errors() -> Json {
    Json::Object(vec![("AUTH_FAILED".to_string(), Json::Str("Bad <password>".to_string()))])
}

#[test]
fn login_page_escapes_reflected_values() {
    let html = login_html(
        &tokens(), &strings(), &errors(), b"png", &site(), &ready_legal(), true,
        "/rooms?a=\"<x>\"", "https://phira.htadiy.com/rooms", "panel", "en", "NONCE", true, Some("AUTH_FAILED"),
    );
    assert!(html.starts_with("<!DOCTYPE html>\n<html lang=\"en\">"));
    assert!(html.contains("value=\"/rooms?a=&quot;&lt;x&gt;&quot;\""));
    assert!(!html.contains("<x>"));
    assert!(html.contains("<span class=\"client\">Panel &amp; Admin</span>"));
    assert!(html.contains("<p class=\"subtitle\">Continue to Panel &amp; Admin</p>"));
    assert!(html.contains("<div class=\"error\" id=\"error\" role=\"alert\">Bad &lt;password&gt;</div>"));
    assert!(html.contains("href=\"https://panel-phira.htadiy.com/terms\""));
    assert!(html.contains("href=\"https://example.com/privacy\""));
    assert!(html.contains("--pp-radius-control:8px;--pp-radius-window:16px"));
    assert!(html.contains("width:min(420px,100%)"));
    assert!(html.contains("<main class=\"shell github-intent\">"));
    assert!(html.contains("src=\"data:image/png;base64,cG5n\""));
    assert!(html.contains("const generic=\"Something \\u003cbroke\\u003e\""));
    assert!(html.contains("const legalReady=true, githubReady=true;"));
    assert!(html.contains("aria-current=\"false\">中文</button>"));
    assert!(!html.contains(" disabled"));
    assert!(html.contains("<style nonce=\"NONCE\">") && html.contains("<script nonce=\"NONCE\">"));
}

#[test]
fn login_page_disables_forms_until_legal_is_ready() {
    let html = login_html(
        &tokens(), &strings(), &errors(), b"", &site(), &LegalConfig::default(), true,
        "/", "https://phira.htadiy.com/", "ppf", "zh", "n", false, None,
    );
    assert!(html.contains("<div class=\"legal-unavailable\">Legal documents are not configured</div>"));
    assert!(html.contains("autocomplete=\"email\" disabled>"));
    assert!(html.contains("id=\"github\" type=\"button\" disabled>"));
    assert!(html.contains("const legalReady=false, githubReady=false;"));
    assert!(html.contains("href=\"#\""));
    assert!(html.contains("<span class=\"client\">PPF</span>"));
    assert!(html.contains("<div class=\"error\" id=\"error\" role=\"alert\"></div>"));
    assert!(html.contains("<main class=\"shell\">"));
}

#[test]
fn phira_failures_map_to_api_errors() {
    assert_eq!(phira_error_to_api(PhiraError::InvalidCredentials).code, ErrorCode::AuthRequired);
    let reauth = phira_error_to_api(PhiraError::ReauthRequired("expired".to_string()));
    assert_eq!(reauth.code, ErrorCode::PhiraReauthRequired);
    assert_eq!(
        ppb_server::json::to_text(&reauth.details),
        "{\"params\":{\"reason\":\"expired\"}}"
    );
    let down = phira_error_to_api(PhiraError::Unavailable("timeout".to_string()));
    assert_eq!((down.code, down.message.as_str()), (ErrorCode::PhiraApiUnavailable, "timeout"));
    assert_eq!(phira_error_to_api(PhiraError::RateLimited).code, ErrorCode::RateLimited);
}
