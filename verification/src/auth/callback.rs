//! The GitHub OAuth callback as a sequence of steps. Each step takes what
//! the last outside call answered and says which call comes next, or where
//! the browser is sent. A login flow only signs in an identity that is
//! already bound and never binds one; a bind flow binds only to the user
//! captured when it started.

use vstd::prelude::*;
use crate::auth::gateway::{redirect_target, resolve_redirect_target, trim_end_char};
use crate::auth::github::{
    bind_target, bound_location, callback_code, callback_state_token, early_failure, gateway_error_location,
    github_gateway_error_location, login_client, login_identity, GatewayFailure, OAuthState,
};
use crate::auth::types::ClientType;
use crate::config::runtime::{header_value_ok, header_value_text, texts, SecurityConfig, SiteConfig};
use crate::error::ErrorCode;
use crate::text::{append_str, own, str_eq, trim};

verus! {

#[derive(Debug)]
/// What the callback request carries.
pub struct CallbackRequest {
    pub request_id: String,
    /// The client's network key (first `X-Forwarded-For` hop).
    pub ip: String,
    pub state: Option<String>,
    pub code: Option<String>,
    pub error: Option<String>,
}

#[derive(Debug)]
/// Where the callback stands, with what it has learned so far.
pub enum CallbackStage {
    /// Nothing done yet.
    Start,
    /// Waiting for the per-network rate check.
    NetworkLimit,
    /// Waiting for the provider-wide rate check.
    ProviderLimit,
    /// Waiting for the state record to be consumed.
    Consume,
    /// Waiting for GitHub to exchange the code for its user.
    Exchange { flow: OAuthState },
    /// Waiting for the owner of the GitHub identity `github_id`.
    Lookup { flow: OAuthState, github_id: String, login: String },
    /// Login: waiting for the legal-acceptance decision of `user`.
    Acceptance { flow: OAuthState, user: u128, client: ClientType },
    /// Login: waiting for the acceptance to be recorded.
    Recording { flow: OAuthState, user: u128, client: ClientType },
    /// Login: waiting for the session to be issued.
    Issuing { flow: OAuthState },
    /// Bind: waiting for the identity to be bound.
    Binding { flow: OAuthState },
    /// The browser has been sent somewhere.
    Done,
}

#[derive(Debug)]
/// What the last outside call answered (an error as its code).
pub enum CallbackEvent {
    /// The request arrived.
    Begin,
    /// A rate check: `None` when allowed.
    Checked(Option<ErrorCode>),
    /// The consumed state record.
    Consumed(Result<OAuthState, ErrorCode>),
    /// The GitHub user: its id as text and its login.
    Exchanged(Result<(String, String), ErrorCode>),
    /// The user the GitHub identity is bound to, if any.
    Found(Result<Option<u128>, ErrorCode>),
    /// Whether an acceptance must be recorded.
    Accepted(Result<bool, ErrorCode>),
    /// The acceptance was recorded.
    Recorded(Result<(), ErrorCode>),
    /// The session and tokens were issued.
    Issued(Result<(), ErrorCode>),
    /// The identity was bound.
    Bound(Result<(), ErrorCode>),
}

#[derive(Debug)]
/// Which rate limit a check consults.
pub enum LimitKind {
    Network,
    Provider,
}

#[derive(Debug)]
/// The next outside call, or the final redirect.
pub enum CallbackAction {
    CheckRate { key: String, kind: LimitKind },
    ConsumeState { token: String },
    ExchangeCode { code: String },
    FindIdentity { github_id: String },
    CheckAcceptance { user: u128 },
    RecordAcceptance { user: u128, client: ClientType },
    IssueSession { user: u128, client: ClientType },
    BindGithub { user: u128, github_id: String, login: String },
    /// Send the browser to `location`, with the new session cookies when
    /// `set_session`.
    Redirect { location: String, set_session: bool },
}

/// A redirect to `location`, with the session cookies exactly when `session`.
pub open spec fn redirects_to(a: CallbackAction, location: Seq<char>, session: bool) -> bool {
    a matches CallbackAction::Redirect { location: l, set_session } && l@ == location && set_session == session
}

/// A failure redirect back to the login page of the flow's client and route.
pub open spec fn fails_to(a: CallbackAction, req: CallbackRequest, client: Seq<char>, ret: Seq<char>, code: ErrorCode) -> bool {
    redirects_to(a, gateway_error_location(client, ret, code.code_str(), req.request_id@), false)
}

/// A failure before any flow is known: back to the ppf login for `/profile`.
pub open spec fn fails_early(a: CallbackAction, req: CallbackRequest, code: ErrorCode) -> bool {
    fails_to(a, req, "ppf"@, "/profile"@, code)
}

/// A failure within `flow`.
pub open spec fn fails_in(a: CallbackAction, req: CallbackRequest, flow: OAuthState, code: ErrorCode) -> bool {
    fails_to(a, req, flow.client_type@, flow.return_to@, code)
}

/// Where a finished login lands.
pub open spec fn login_target(site: SiteConfig, security: SecurityConfig, flow: OAuthState) -> Seq<char> {
    redirect_target(
        site.ppf_url@,
        site.panel_url@,
        texts(security.return_to_allowlist@),
        flow.client_type@,
        Some(flow.return_to@),
    )
}

/// The step a login flow takes once the identity's owner is known.
pub open spec fn login_after_lookup(
    r: (CallbackStage, CallbackAction),
    req: CallbackRequest,
    flow: OAuthState,
    owner: Option<u128>,
) -> bool {
    match owner {
        None => fails_in(r.1, req, flow, ErrorCode::GithubIdentityNotBound) && r.0 is Done,
        Some(u) => match ClientType::from_text(flow.client_type@) {
            Some(ClientType::Ppf) => r.1 == CallbackAction::CheckAcceptance { user: u } && (r.0 matches CallbackStage::Acceptance { flow: f, user, client } && f == flow && user == u && client == ClientType::Ppf),
            Some(ClientType::Panel) => r.1 == CallbackAction::CheckAcceptance { user: u } && (r.0 matches CallbackStage::Acceptance { flow: f, user, client } && f == flow && user == u && client == ClientType::Panel),
            _ => fails_early(r.1, req, ErrorCode::GithubOauthStateInvalid) && r.0 is Done,
        },
    }
}

/// The step a bind flow takes once the identity's owner is known.
pub open spec fn bind_after_lookup(
    r: (CallbackStage, CallbackAction),
    req: CallbackRequest,
    flow: OAuthState,
    github_id: String,
    login: String,
    owner: Option<u128>,
) -> bool {
    match flow.user_id {
        None => fails_in(r.1, req, flow, ErrorCode::GithubOauthStateInvalid) && r.0 is Done,
        Some(u) => if owner matches Some(o) && o != u {
            fails_in(r.1, req, flow, ErrorCode::ResourceConflict) && r.0 is Done
        } else {
            (r.1 matches CallbackAction::BindGithub { user, github_id: g, login: l } && user == u && g@ == github_id@
                && l@ == login@) && (r.0 matches CallbackStage::Binding { flow: f } && f == flow)
        },
    }
}

fn fail(req: &CallbackRequest, f: GatewayFailure) -> (r: (CallbackStage, CallbackAction))
    ensures
        fails_to(r.1, *req, f.client_type@, f.return_to@, f.code),
        r.0 is Done,
{
    let location = github_gateway_error_location(f.client_type.as_str(), f.return_to.as_str(), f.code, req.request_id.as_str());
    (CallbackStage::Done, CallbackAction::Redirect { location, set_session: false })
}

fn fail_early(req: &CallbackRequest, code: ErrorCode) -> (r: (CallbackStage, CallbackAction))
    ensures
        fails_early(r.1, *req, code),
        r.0 is Done,
{
    fail(req, early_failure(code))
}

fn fail_in(req: &CallbackRequest, flow: &OAuthState, code: ErrorCode) -> (r: (CallbackStage, CallbackAction))
    ensures
        fails_in(r.1, *req, *flow, code),
        r.0 is Done,
{
    fail(req, crate::auth::github::flow_failure(flow, code))
}

/// One step of the callback: from where it stands and what the last call
/// answered, the next stage and the next call or redirect. An event that
/// does not belong to the stage ends the flow with an internal error.
pub fn callback_step(
    req: &CallbackRequest,
    site: &SiteConfig,
    security: &SecurityConfig,
    stage: CallbackStage,
    event: CallbackEvent,
) -> (r: (CallbackStage, CallbackAction))
    ensures
        stage is Start && event is Begin ==> (r.0 is NetworkLimit && (r.1 matches CallbackAction::CheckRate { key, kind }
            && key@ == "github-callback:"@ + req.ip@ && kind is Network)),
        stage is NetworkLimit ==> match event {
            CallbackEvent::Checked(None) => r.0 is ProviderLimit && (r.1 matches CallbackAction::CheckRate { key, kind }
                && key@ == "github-provider:callback"@ && kind is Provider),
            CallbackEvent::Checked(Some(c)) => fails_early(r.1, *req, c) && r.0 is Done,
            _ => fails_early(r.1, *req, ErrorCode::InternalError) && r.0 is Done,
        },
        stage is ProviderLimit ==> match event {
            CallbackEvent::Checked(None) => match req.state {
                Some(s) => if trim(s@).len() > 0 {
                    r.0 is Consume && (r.1 matches CallbackAction::ConsumeState { token } && token@ == s@)
                } else {
                    fails_early(r.1, *req, ErrorCode::GithubOauthStateInvalid) && r.0 is Done
                },
                None => fails_early(r.1, *req, ErrorCode::GithubOauthStateInvalid) && r.0 is Done,
            },
            CallbackEvent::Checked(Some(c)) => fails_early(r.1, *req, c) && r.0 is Done,
            _ => fails_early(r.1, *req, ErrorCode::InternalError) && r.0 is Done,
        },
        stage is Consume ==> match event {
            CallbackEvent::Consumed(Err(c)) => fails_early(r.1, *req, c) && r.0 is Done,
            CallbackEvent::Consumed(Ok(flow)) => if req.error is Some {
                fails_in(r.1, *req, flow, ErrorCode::GithubOauthFailed) && r.0 is Done
            } else {
                match req.code {
                    Some(c) => if trim(c@).len() > 0 {
                        (r.1 matches CallbackAction::ExchangeCode { code } && code@ == c@)
                            && (r.0 matches CallbackStage::Exchange { flow: f } && f == flow)
                    } else {
                        fails_in(r.1, *req, flow, ErrorCode::GithubOauthFailed) && r.0 is Done
                    },
                    None => fails_in(r.1, *req, flow, ErrorCode::GithubOauthFailed) && r.0 is Done,
                }
            },
            _ => fails_early(r.1, *req, ErrorCode::InternalError) && r.0 is Done,
        },
        stage matches CallbackStage::Exchange { flow } ==> match event {
            CallbackEvent::Exchanged(Err(c)) => fails_in(r.1, *req, flow, c) && r.0 is Done,
            CallbackEvent::Exchanged(Ok((gid, login))) => (r.1 matches CallbackAction::FindIdentity { github_id }
                && github_id@ == gid@) && (r.0 matches CallbackStage::Lookup { flow: f, github_id: g, login: l } && f
                == flow && g@ == gid@ && l@ == login@),
            _ => fails_in(r.1, *req, flow, ErrorCode::InternalError) && r.0 is Done,
        },
        stage matches CallbackStage::Lookup { flow, github_id, login } ==> match event {
            CallbackEvent::Found(Err(c)) => fails_in(r.1, *req, flow, c) && r.0 is Done,
            CallbackEvent::Found(Ok(owner)) => if flow.mode@ == "login"@ {
                login_after_lookup(r, *req, flow, owner)
            } else {
                bind_after_lookup(r, *req, flow, github_id, login, owner)
            },
            _ => fails_in(r.1, *req, flow, ErrorCode::InternalError) && r.0 is Done,
        },
        stage matches CallbackStage::Acceptance { flow, user, client } ==> match event {
            CallbackEvent::Accepted(Err(c)) => fails_in(r.1, *req, flow, c) && r.0 is Done,
            CallbackEvent::Accepted(Ok(true)) => r.1 == CallbackAction::RecordAcceptance { user, client }
                && (r.0 matches CallbackStage::Recording { flow: f, user: u, client: k } && f == flow && u == user && k
                == client),
            CallbackEvent::Accepted(Ok(false)) => r.1 == CallbackAction::IssueSession { user, client }
                && (r.0 matches CallbackStage::Issuing { flow: f } && f == flow),
            _ => fails_in(r.1, *req, flow, ErrorCode::InternalError) && r.0 is Done,
        },
        stage matches CallbackStage::Recording { flow, user, client } ==> match event {
            CallbackEvent::Recorded(Err(c)) => fails_in(r.1, *req, flow, c) && r.0 is Done,
            CallbackEvent::Recorded(Ok(())) => r.1 == CallbackAction::IssueSession { user, client }
                && (r.0 matches CallbackStage::Issuing { flow: f } && f == flow),
            _ => fails_in(r.1, *req, flow, ErrorCode::InternalError) && r.0 is Done,
        },
        stage matches CallbackStage::Issuing { flow } ==> match event {
            CallbackEvent::Issued(Err(c)) => fails_in(r.1, *req, flow, c) && r.0 is Done,
            CallbackEvent::Issued(Ok(())) => if header_value_text(login_target(*site, *security, flow)) {
                redirects_to(r.1, login_target(*site, *security, flow), true) && r.0 is Done
            } else {
                fails_in(r.1, *req, flow, ErrorCode::InternalError) && r.0 is Done
            },
            _ => fails_in(r.1, *req, flow, ErrorCode::InternalError) && r.0 is Done,
        },
        stage matches CallbackStage::Binding { flow } ==> match event {
            CallbackEvent::Bound(Err(c)) => fails_in(r.1, *req, flow, c) && r.0 is Done,
            CallbackEvent::Bound(Ok(())) => redirects_to(
                r.1,
                trim_end_char(site.ppf_url@, '/') + "/profile?github=bound"@,
                false,
            ) && r.0 is Done,
            _ => fails_in(r.1, *req, flow, ErrorCode::InternalError) && r.0 is Done,
        },
        (stage is Start && !(event is Begin)) || stage is Done ==> (fails_early(r.1, *req, ErrorCode::InternalError)
            && r.0 is Done),
{
    match stage {
        CallbackStage::Start => match event {
            CallbackEvent::Begin => {
                let mut key = own("github-callback:");
                append_str(&mut key, req.ip.as_str());
                (CallbackStage::NetworkLimit, CallbackAction::CheckRate { key, kind: LimitKind::Network })
            },
            _ => fail_early(req, ErrorCode::InternalError),
        },
        CallbackStage::NetworkLimit => match event {
            CallbackEvent::Checked(None) => (
                CallbackStage::ProviderLimit,
                CallbackAction::CheckRate { key: own("github-provider:callback"), kind: LimitKind::Provider },
            ),
            CallbackEvent::Checked(Some(c)) => fail_early(req, c),
            _ => fail_early(req, ErrorCode::InternalError),
        },
        CallbackStage::ProviderLimit => match event {
            CallbackEvent::Checked(None) => {
                let state = match &req.state {
                    Some(s) => Some(s.as_str()),
                    None => None,
                };
                match callback_state_token(state) {
                    Ok(token) => (CallbackStage::Consume, CallbackAction::ConsumeState { token }),
                    Err(_) => fail_early(req, ErrorCode::GithubOauthStateInvalid),
                }
            },
            CallbackEvent::Checked(Some(c)) => fail_early(req, c),
            _ => fail_early(req, ErrorCode::InternalError),
        },
        CallbackStage::Consume => match event {
            CallbackEvent::Consumed(Err(c)) => fail_early(req, c),
            CallbackEvent::Consumed(Ok(flow)) => {
                let error = match &req.error {
                    Some(e) => Some(e.as_str()),
                    None => None,
                };
                let code = match &req.code {
                    Some(c) => Some(c.as_str()),
                    None => None,
                };
                match callback_code(&flow, error, code) {
                    Ok(code) => (CallbackStage::Exchange { flow }, CallbackAction::ExchangeCode { code }),
                    Err(f) => fail(req, f),
                }
            },
            _ => fail_early(req, ErrorCode::InternalError),
        },
        CallbackStage::Exchange { flow } => match event {
            CallbackEvent::Exchanged(Err(c)) => fail_in(req, &flow, c),
            CallbackEvent::Exchanged(Ok((gid, login))) => {
                let github_id = own(gid.as_str());
                (CallbackStage::Lookup { flow, github_id: gid, login }, CallbackAction::FindIdentity { github_id })
            },
            _ => fail_in(req, &flow, ErrorCode::InternalError),
        },
        CallbackStage::Lookup { flow, github_id, login } => match event {
            CallbackEvent::Found(Err(c)) => fail_in(req, &flow, c),
            CallbackEvent::Found(Ok(owner)) => {
                if str_eq(flow.mode.as_str(), "login") {
                    match login_identity(&flow, owner) {
                        Err(f) => fail(req, f),
                        Ok(user) => match login_client(flow.client_type.as_str()) {
                            Err(f) => fail(req, f),
                            Ok(client) => (
                                CallbackStage::Acceptance { flow, user, client },
                                CallbackAction::CheckAcceptance { user },
                            ),
                        },
                    }
                } else {
                    match bind_target(&flow, owner) {
                        Err(f) => fail(req, f),
                        Ok(user) => (
                            CallbackStage::Binding { flow },
                            CallbackAction::BindGithub { user, github_id, login },
                        ),
                    }
                }
            },
            _ => fail_in(req, &flow, ErrorCode::InternalError),
        },
        CallbackStage::Acceptance { flow, user, client } => match event {
            CallbackEvent::Accepted(Err(c)) => fail_in(req, &flow, c),
            CallbackEvent::Accepted(Ok(true)) => (
                CallbackStage::Recording { flow, user, client },
                CallbackAction::RecordAcceptance { user, client },
            ),
            CallbackEvent::Accepted(Ok(false)) => (
                CallbackStage::Issuing { flow },
                CallbackAction::IssueSession { user, client },
            ),
            _ => fail_in(req, &flow, ErrorCode::InternalError),
        },
        CallbackStage::Recording { flow, user, client } => match event {
            CallbackEvent::Recorded(Err(c)) => fail_in(req, &flow, c),
            CallbackEvent::Recorded(Ok(())) => (
                CallbackStage::Issuing { flow },
                CallbackAction::IssueSession { user, client },
            ),
            _ => fail_in(req, &flow, ErrorCode::InternalError),
        },
        CallbackStage::Issuing { flow } => match event {
            CallbackEvent::Issued(Err(c)) => fail_in(req, &flow, c),
            CallbackEvent::Issued(Ok(())) => {
                let location = resolve_redirect_target(
                    site,
                    security,
                    flow.client_type.as_str(),
                    Some(flow.return_to.as_str()),
                );
                if header_value_ok(location.as_str()) {
                    (CallbackStage::Done, CallbackAction::Redirect { location, set_session: true })
                } else {
                    fail_in(req, &flow, ErrorCode::InternalError)
                }
            },
            _ => fail_in(req, &flow, ErrorCode::InternalError),
        },
        CallbackStage::Binding { flow } => match event {
            CallbackEvent::Bound(Err(c)) => fail_in(req, &flow, c),
            CallbackEvent::Bound(Ok(())) => (
                CallbackStage::Done,
                CallbackAction::Redirect { location: bound_location(site.ppf_url.as_str()), set_session: false },
            ),
            _ => fail_in(req, &flow, ErrorCode::InternalError),
        },
        CallbackStage::Done => fail_early(req, ErrorCode::InternalError),
    }
}

/// A login flow never binds an identity: whatever its owner lookup answers,
/// the next call is an acceptance check or the flow ends with a redirect.
pub proof fn lemma_login_never_binds(
    r: (CallbackStage, CallbackAction),
    req: CallbackRequest,
    flow: OAuthState,
    owner: Option<u128>,
)
    requires
        login_after_lookup(r, req, flow, owner),
    ensures
        !(r.1 is BindGithub),
        r.1 is CheckAcceptance || r.1 is Redirect,
{
}

/// A bind flow binds only to the user captured when it started.
pub proof fn lemma_bind_only_captured_user(
    r: (CallbackStage, CallbackAction),
    req: CallbackRequest,
    flow: OAuthState,
    github_id: String,
    login: String,
    owner: Option<u128>,
)
    requires
        bind_after_lookup(r, req, flow, github_id, login, owner),
    ensures
        r.1 matches CallbackAction::BindGithub { user, .. } ==> flow.user_id == Some(user),
{
}

} // verus!
