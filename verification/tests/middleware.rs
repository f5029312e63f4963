use ppb_server::error::ErrorCode;
use ppb_server::middleware::cookies::{get_cookie, set_cookie, CookieOpts};
use ppb_server::middleware::csrf::{csrf_key, csrf_token_for, is_state_changing, origin_allowed, uses_cookie_auth};
use ppb_server::middleware::rate_limit::RateLimiter;

const ACCESS_COOKIE: &str = "ppb_access";
const REFRESH_COOKIE: &str = "ppb_refresh";

#[test]
fn round_trip_cookie() {
    let opts = CookieOpts::new("api-phira.htadiy.com");
    let header = set_cookie("ppb_access", "abc", &opts, 3600);
    assert!(header.starts_with("ppb_access=abc"));
    let request_cookies = "ppb_access=abc; ppb_csrf=tok";
    assert_eq!(get_cookie(Some(request_cookies), "ppb_access").as_deref(), Some("abc"));
    assert_eq!(get_cookie(Some(request_cookies), "ppb_csrf").as_deref(), Some("tok"));
}

#[test]
fn cookie_has_secure_http_only() {
    let opts = CookieOpts::new("api-phira.htadiy.com");
    let header = set_cookie("ppb_access", "v", &opts, 60);
    assert!(header.contains("Secure"));
    assert!(header.contains("HttpOnly"));
    assert!(header.contains("SameSite=Lax"));
    assert!(header.contains("Domain=api-phira.htadiy.com"));
}

#[test]
fn csrf_cookie_not_http_only() {
    let opts = CookieOpts::new("api-phira.htadiy.com").http_only(false);
    let header = set_cookie("ppb_csrf", "t", &opts, 60);
    assert!(!header.contains("HttpOnly"));
}

#[test]
fn missing_cookie_is_none() {
    assert_eq!(get_cookie(None, "ppb_access"), None);
    assert_eq!(get_cookie(Some("other=1"), "ppb_access"), None);
}

#[test]
fn token_is_deterministic_per_session() {
    let key = csrf_key("test-secret-test-secret-test-secret!!");
    let sid = uuid::Uuid::new_v4().as_u128();
    let a = csrf_token_for(sid, &key);
    let b = csrf_token_for(sid, &key);
    assert_eq!(a, b);
    assert_ne!(a, csrf_token_for(uuid::Uuid::new_v4().as_u128(), &key));
    assert_ne!(a, csrf_token_for(sid, &csrf_key("other-secret-other-secret!!")));
}

#[test]
fn state_changing_methods() {
    assert!(is_state_changing("POST"));
    assert!(is_state_changing("PUT"));
    assert!(is_state_changing("PATCH"));
    assert!(is_state_changing("DELETE"));
    assert!(!is_state_changing("GET"));
    assert!(!is_state_changing("HEAD"));
    assert!(!is_state_changing("OPTIONS"));
}

#[test]
fn bearer_auth_skips_csrf() {
    let cookie_header = format!("{ACCESS_COOKIE}=jwt");
    let has_authorization = true;
    let has_access = get_cookie(Some(&cookie_header), ACCESS_COOKIE).is_some();
    let has_refresh = get_cookie(Some(&cookie_header), REFRESH_COOKIE).is_some();
    assert!(!uses_cookie_auth(has_authorization, has_access, has_refresh));
}

#[test]
fn cookie_auth_detected() {
    let cookie_header = format!("{ACCESS_COOKIE}=jwt");
    let has_access = get_cookie(Some(&cookie_header), ACCESS_COOKIE).is_some();
    let has_refresh = get_cookie(Some(&cookie_header), REFRESH_COOKIE).is_some();
    assert!(uses_cookie_auth(false, has_access, has_refresh));
}

#[test]
fn origin_rules() {
    let allowed = vec!["https://phira.htadiy.com".to_string(), "http://localhost:3000".to_string()];
    assert!(origin_allowed(Some("https://phira.htadiy.com"), &allowed));
    assert!(!origin_allowed(Some("https://evil.example"), &allowed));
    assert!(origin_allowed(None, &allowed));
    assert!(origin_allowed(Some(""), &allowed));
}

#[test]
fn allows_within_limit() {
    let mut rl = RateLimiter::new();
    for _ in 0..5 {
        assert!(rl.check("login:1.2.3.4", 10).is_ok());
    }
}

#[test]
fn blocks_over_limit() {
    let mut rl = RateLimiter::new();
    for _ in 0..3 {
        let _ = rl.check("cli:root", 3);
    }
    let err = rl.check("cli:root", 3).unwrap_err();
    assert_eq!(err.code, ErrorCode::RateLimited);
    assert!(err.retry_after_secs.is_some());
}

#[test]
fn keys_are_independent() {
    let mut rl = RateLimiter::new();
    for _ in 0..3 {
        let _ = rl.check("a", 3);
    }
    assert!(rl.check("a", 3).is_err());
    assert!(rl.check("b", 3).is_ok());
}

#[test]
fn window_slides_after_a_minute() {
    let mut rl = RateLimiter::new();
    assert!(rl.check_at("k", 1, 1_000).is_ok());
    let e = rl.check_at("k", 1, 1_030).unwrap_err();
    assert_eq!(e.retry_after_secs, Some(30));
    assert_eq!(ppb_server::json::to_text(&e.details), "{\"retry_after\":30}");
    assert!(rl.check_at("k", 1, 1_060).is_ok());
}

#[test]
fn zero_limit_refuses() {
    let mut rl = RateLimiter::new();
    assert_eq!(rl.check("x", 0).unwrap_err().message, "rate limit disabled by policy");
}
