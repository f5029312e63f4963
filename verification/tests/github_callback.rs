use ppb_server::auth::callback::{callback_step, CallbackAction, CallbackEvent, CallbackRequest, CallbackStage};
use ppb_server::auth::github::OAuthState;
use ppb_server::auth::types::ClientType;
use ppb_server::config::runtime::{SecurityConfig, SiteConfig};
use ppb_server::error::ErrorCode;

fn request(state: Option<&str>, code: Option<&str>) -> CallbackRequest {
    CallbackRequest {
        request_id: "rid".to_string(),
        ip: "10.0.0.1".to_string(),
        state: state.map(|s| s.to_string()),
        code: code.map(|s| s.to_string()),
        error: None,
    }
}

fn flow(mode: &str, user: Option<u128>) -> OAuthState {
    OAuthState {
        user_id: user,
        client_type: "panel".to_string(),
        mode: mode.to_string(),
        return_to: "/users".to_string(),
        accepted_legal: true,
        terms_version: "t1".to_string(),
        privacy_version: "p1".to_string(),
        created_at: 0,
    }
}

fn redirect(a: &CallbackAction) -> (String, bool) {
    match a {
        CallbackAction::Redirect { location, set_session } => (location.clone(), *set_session),
        other => panic!("expected a redirect, got {other:?}"),
    }
}

#[test]
fn login_flow_runs_to_a_session_redirect() {
    let req = request(Some("tok"), Some("code1"));
    let site = SiteConfig::default();
    let sec = SecurityConfig::default();
    let (s, a) = callback_step(&req, &site, &sec, CallbackStage::Start, CallbackEvent::Begin);
    assert!(matches!(a, CallbackAction::CheckRate { ref key, .. } if key == "github-callback:10.0.0.1"));
    let (s, a) = callback_step(&req, &site, &sec, s, CallbackEvent::Checked(None));
    assert!(matches!(a, CallbackAction::CheckRate { ref key, .. } if key == "github-provider:callback"));
    let (s, a) = callback_step(&req, &site, &sec, s, CallbackEvent::Checked(None));
    assert!(matches!(a, CallbackAction::ConsumeState { ref token } if token == "tok"));
    let (s, a) = callback_step(&req, &site, &sec, s, CallbackEvent::Consumed(Ok(flow("login", None))));
    assert!(matches!(a, CallbackAction::ExchangeCode { ref code } if code == "code1"));
    let (s, a) = callback_step(&req, &site, &sec, s, CallbackEvent::Exchanged(Ok(("99".to_string(), "octo".to_string()))));
    assert!(matches!(a, CallbackAction::FindIdentity { ref github_id } if github_id == "99"));
    let (s, a) = callback_step(&req, &site, &sec, s, CallbackEvent::Found(Ok(Some(7))));
    assert!(matches!(a, CallbackAction::CheckAcceptance { user: 7 }));
    let (s, a) = callback_step(&req, &site, &sec, s, CallbackEvent::Accepted(Ok(true)));
    assert!(matches!(a, CallbackAction::RecordAcceptance { user: 7, client: ClientType::Panel }));
    let (s, a) = callback_step(&req, &site, &sec, s, CallbackEvent::Recorded(Ok(())));
    assert!(matches!(a, CallbackAction::IssueSession { user: 7, client: ClientType::Panel }));
    let (s, a) = callback_step(&req, &site, &sec, s, CallbackEvent::Issued(Ok(())));
    assert_eq!(redirect(&a), ("https://panel-phira.htadiy.com/users".to_string(), true));
    assert!(matches!(s, CallbackStage::Done));
}

#[test]
fn failed_state_lookup_goes_to_ppf_profile() {
    let req = request(Some("tok"), Some("c"));
    let (_, a) = callback_step(
        &req,
        &SiteConfig::default(),
        &SecurityConfig::default(),
        CallbackStage::Consume,
        CallbackEvent::Consumed(Err(ErrorCode::GithubOauthStateInvalid)),
    );
    assert_eq!(
        redirect(&a),
        (
            "/auth/phira/login?client_type=ppf&return_to=%2Fprofile&intent=github&error=GITHUB_OAUTH_STATE_INVALID&request_id=rid"
                .to_string(),
            false
        )
    );
}

#[test]
fn missing_code_returns_to_the_flow() {
    let req = request(Some("tok"), Some("   "));
    let (_, a) = callback_step(
        &req,
        &SiteConfig::default(),
        &SecurityConfig::default(),
        CallbackStage::Consume,
        CallbackEvent::Consumed(Ok(flow("login", None))),
    );
    let (loc, cookies) = redirect(&a);
    assert!(!cookies);
    assert!(loc.starts_with("/auth/phira/login?client_type=panel&return_to=%2Fusers&intent=github&error=GITHUB_OAUTH_FAILED"));
}

#[test]
fn login_never_binds_an_unbound_identity() {
    let req = request(Some("tok"), Some("c"));
    let stage = CallbackStage::Lookup { flow: flow("login", None), github_id: "99".into(), login: "octo".into() };
    let (_, a) = callback_step(&req, &SiteConfig::default(), &SecurityConfig::default(), stage, CallbackEvent::Found(Ok(None)));
    let (loc, _) = redirect(&a);
    assert!(loc.contains("error=GITHUB_IDENTITY_NOT_BOUND"));
}

#[test]
fn bind_flow_binds_the_captured_user_or_refuses_a_foreign_owner() {
    let req = request(Some("tok"), Some("c"));
    let site = SiteConfig::default();
    let sec = SecurityConfig::default();
    let stage = CallbackStage::Lookup { flow: flow("bind", Some(5)), github_id: "99".into(), login: "octo".into() };
    let (s, a) = callback_step(&req, &site, &sec, stage, CallbackEvent::Found(Ok(None)));
    assert!(matches!(a, CallbackAction::BindGithub { user: 5, ref github_id, .. } if github_id == "99"));
    let (_, a) = callback_step(&req, &site, &sec, s, CallbackEvent::Bound(Ok(())));
    assert_eq!(redirect(&a), ("https://phira.htadiy.com/profile?github=bound".to_string(), false));
    let stage = CallbackStage::Lookup { flow: flow("bind", Some(5)), github_id: "99".into(), login: "octo".into() };
    let (_, a) = callback_step(&req, &site, &sec, stage, CallbackEvent::Found(Ok(Some(6))));
    assert!(redirect(&a).0.contains("error=RESOURCE_CONFLICT"));
}
