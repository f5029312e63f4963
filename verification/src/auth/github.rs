//! GitHub OAuth: bind a GitHub identity to an existing user, or log in with
//! an already-bound one. No bare account is ever created. Each flow holds a
//! short-lived, server-owned state record keyed by an unguessable token.

use vstd::prelude::*;
use crate::auth::types::ClientType;
use crate::codec::{base64_url_nopad, encode_url_nopad, percent_encode, percent_encoded};
use crate::clock::clock_millis;
use crate::config::deployment::Secrets;
use crate::config::runtime::RuntimeConfig;
use crate::error::{ApiError, ErrorCode};
use crate::text::{append_str, chars_of, own, str_eq, string_from_chars, trim, trim_chars};

verus! {

/// GitHub authorize endpoint.
pub const GITHUB_AUTHORIZE_URL: &'static str = "https://github.com/login/oauth/authorize";
/// GitHub token endpoint.
pub const GITHUB_TOKEN_URL: &'static str = "https://github.com/login/oauth/access_token";
/// GitHub API user endpoint.
pub const GITHUB_API_USER_URL: &'static str = "https://api.github.com/user";

/// How long a state record lives (ms).
pub const STATE_TTL_MS: i64 = 600_000;
/// How many state records may be pending at once.
pub const MAX_PENDING_STATES: usize = 2048;

#[derive(Debug)]
/// What a flow's start captured; the callback is bound to it.
pub struct OAuthState {
    pub user_id: Option<u128>,
    pub client_type: String,
    /// `pending` | `bind` | `login`.
    pub mode: String,
    pub return_to: String,
    pub accepted_legal: bool,
    pub terms_version: String,
    pub privacy_version: String,
    /// Unix milliseconds.
    pub created_at: i64,
}

/// Model of a state record.
pub struct OAuthStateV {
    pub user_id: Option<u128>,
    pub client_type: Seq<char>,
    pub mode: Seq<char>,
    pub return_to: Seq<char>,
    pub accepted_legal: bool,
    pub terms_version: Seq<char>,
    pub privacy_version: Seq<char>,
    pub created_at: i64,
}

pub open spec fn state_view(s: OAuthState) -> OAuthStateV {
    OAuthStateV {
        user_id: s.user_id,
        client_type: s.client_type@,
        mode: s.mode@,
        return_to: s.return_to@,
        accepted_legal: s.accepted_legal,
        terms_version: s.terms_version@,
        privacy_version: s.privacy_version@,
        created_at: s.created_at,
    }
}

#[derive(Debug)]
/// GitHub user info.
pub struct GithubUser {
    pub id: i64,
    pub login: String,
}

/// The state store.
pub type StateStore = dashmap::DashMap<String, OAuthState>;

/// The pending state records by token.
pub uninterp spec fn state_map(m: StateStore) -> Map<Seq<char>, OAuthStateV>;

pub open spec fn no_states() -> Map<Seq<char>, OAuthStateV> {
    Map::empty()
}

/// `DashMap::new`.
#[verifier::external_body]
fn new_store() -> (m: StateStore)
    ensures
        state_map(m) == no_states(),
{
    dashmap::DashMap::new()
}

/// `DashMap::len`: the number of pending records.
#[verifier::external_body]
fn store_len(m: &StateStore) -> (n: usize)
    ensures
        n == state_map(*m).len(),
{
    m.len()
}

/// `DashMap::insert`.
#[verifier::external_body]
fn store_insert(m: &mut StateStore, key: &str, v: OAuthState)
    ensures
        state_map(*final(m)) == state_map(*old(m)).insert(key@, state_view(v)),
{
    m.insert(key.to_string(), v);
}

/// `DashMap::remove`: the removed record, if any.
#[verifier::external_body]
fn store_remove(m: &mut StateStore, key: &str) -> (r: Option<OAuthState>)
    ensures
        state_map(*final(m)) == state_map(*old(m)).remove(key@),
        match r {
            Some(s) => state_map(*old(m)).contains_key(key@) && state_map(*old(m))[key@] == state_view(s),
            None => !state_map(*old(m)).contains_key(key@),
        },
{
    m.remove(key).map(|(_, v)| v)
}

/// A record created at `created` is still fresh at `now`.
pub open spec fn fresh(created: i64, now: i64) -> bool {
    created <= now && now - created < STATE_TTL_MS
}

pub fn is_fresh(created: i64, now: i64) -> (b: bool)
    ensures
        b == fresh(created, now),
{
    created <= now && (now as i128) - (created as i128) < STATE_TTL_MS as i128
}

/// The fresh records of `m` at `now`.
pub open spec fn fresh_states(m: Map<Seq<char>, OAuthStateV>, now: i64) -> Map<Seq<char>, OAuthStateV> {
    m.restrict(Set::new(|k: Seq<char>| m.contains_key(k) && fresh(m[k].created_at, now)))
}

/// `DashMap::retain` keeping the records fresh at `now`.
#[verifier::external_body]
fn store_retain_fresh(m: &mut StateStore, now: i64)
    ensures
        state_map(*final(m)) == fresh_states(state_map(*old(m)), now),
{
    m.retain(|_, s| is_fresh(s.created_at, now));
}

/// The GitHub authorize URL for `client_id`, callback and state token.
pub open spec fn authorize_url_text(client_id: Seq<char>, callback: Seq<char>, state: Seq<char>) -> Seq<char> {
    "https://github.com/login/oauth/authorize?client_id="@ + client_id + "&redirect_uri="@ + percent_encoded(
        vstd::utf8::encode_utf8(callback),
    ) + "&scope=read:user&state="@ + state
}

/// A fresh pending record.
pub open spec fn pending_state(now: i64) -> OAuthStateV {
    OAuthStateV {
        user_id: None,
        client_type: Seq::empty(),
        mode: "pending"@,
        return_to: "/"@,
        accepted_legal: false,
        terms_version: Seq::empty(),
        privacy_version: Seq::empty(),
        created_at: now,
    }
}

/// Starting a flow at `now` with state token `token` took the records from
/// `before` to `after` and answered `r`: stale records are pruned; then, when
/// too many are pending, the start is refused, otherwise a pending record is
/// kept under `token` and the authorize URL is returned.
pub open spec fn authorized_at(
    before: Map<Seq<char>, OAuthStateV>,
    after: Map<Seq<char>, OAuthStateV>,
    client_id: Seq<char>,
    callback: Seq<char>,
    now: i64,
    token: Seq<char>,
    r: Result<(String, String), ApiError>,
) -> bool {
    if fresh_states(before, now).len() >= MAX_PENDING_STATES {
        r matches Err(e) && e.code == ErrorCode::RateLimited && e.message@ == "too many pending OAuth states"@
            && after == fresh_states(before, now)
    } else {
        r matches Ok((url, st)) && st@ == token && url@ == authorize_url_text(client_id, callback, token) && after
            == fresh_states(before, now).insert(token, pending_state(now))
    }
}

/// Consuming `token` at `now` took the records from `before` to `after` and
/// answered `r`: stale records are pruned and the token's record removed; it
/// is handed back when it was still fresh, otherwise the state is invalid.
pub open spec fn consumed_at(
    before: Map<Seq<char>, OAuthStateV>,
    after: Map<Seq<char>, OAuthStateV>,
    token: Seq<char>,
    now: i64,
    r: Result<OAuthState, ApiError>,
) -> bool {
    &&& after == fresh_states(before, now).remove(token)
    &&& fresh_states(before, now).contains_key(token) ==> (r matches Ok(s) && state_view(s) == before[token])
    &&& !fresh_states(before, now).contains_key(token) ==> (r matches Err(e) && e.code
        == ErrorCode::GithubOauthStateInvalid && e.message@ == "GitHub OAuth state is invalid or expired"@)
}

/// A random state token: 24 random bytes, URL-safe base64.
pub fn new_state_token() -> (t: String)
    ensures
        exists|b: Seq<u8>| b.len() == 24 && t@ == base64_url_nopad(b),
{
    let b = crate::auth::gateway::random_bytes(24);
    encode_url_nopad(b.as_slice())
}

#[derive(Debug)]
/// The OAuth state service.
pub struct GithubService {
    states: StateStore,
}

impl GithubService {
    /// The pending state records.
    pub closed spec fn states(&self) -> Map<Seq<char>, OAuthStateV> {
        state_map(self.states)
    }

    pub fn new() -> (s: GithubService)
        ensures
            s.states() == no_states(),
    {
        GithubService { states: new_store() }
    }

    /// Drop the records that are no longer fresh at `now`.
    pub fn prune_states(&mut self, now: i64)
        ensures
            final(self).states() == fresh_states(old(self).states(), now),
    {
        store_retain_fresh(&mut self.states, now);
    }

    /// Allocate the pending record `token` at `now` and build the authorize
    /// URL: refused without a client id, or with too many pending records.
    pub fn authorize_url_at(&mut self, secrets: &Secrets, cfg: &RuntimeConfig, now: i64, token: &str) -> (r: Result<
        (String, String),
        ApiError,
    >)
        ensures
            secrets.github_client_id is None ==> (r matches Err(e) && e.code == ErrorCode::GithubOauthNotConfigured
                && final(self).states() == old(self).states()),
            secrets.github_client_id is Some && fresh_states(old(self).states(), now).len() >= MAX_PENDING_STATES ==> (
            r matches Err(e) && e.code == ErrorCode::RateLimited && e.message@ == "too many pending OAuth states"@
                && final(self).states() == fresh_states(old(self).states(), now)),
            secrets.github_client_id is Some && fresh_states(old(self).states(), now).len() < MAX_PENDING_STATES ==> (
            r matches Ok((url, st)) && st@ == token@ && url@ == authorize_url_text(
                secrets.github_client_id->0@,
                cfg.github.callback_url@,
                token@,
            ) && final(self).states() == fresh_states(old(self).states(), now).insert(token@, pending_state(now))),
    {
        let client_id = match &secrets.github_client_id {
            Some(c) => c,
            None => return Err(ApiError::new(ErrorCode::GithubOauthNotConfigured, "GitHub OAuth not configured")),
        };
        self.prune_states(now);
        if store_len(&self.states) >= MAX_PENDING_STATES {
            return Err(ApiError::new(ErrorCode::RateLimited, "too many pending OAuth states"));
        }
        let record = OAuthState {
            user_id: None,
            client_type: String::new(),
            mode: own("pending"),
            return_to: own("/"),
            accepted_legal: false,
            terms_version: String::new(),
            privacy_version: String::new(),
            created_at: now,
        };
        store_insert(&mut self.states, token, record);
        let mut url = own("https://github.com/login/oauth/authorize?client_id=");
        append_str(&mut url, client_id.as_str());
        append_str(&mut url, "&redirect_uri=");
        let enc = percent_encode(cfg.github.callback_url.as_str());
        append_str(&mut url, enc.as_str());
        append_str(&mut url, "&scope=read:user&state=");
        append_str(&mut url, token);
        Ok((url, own(token)))
    }

    /// `authorize_url_at` with the current time and a fresh random token.
    pub fn authorize_url(&mut self, secrets: &Secrets, cfg: &RuntimeConfig) -> (r: Result<(String, String), ApiError>)
        ensures
            secrets.github_client_id is None ==> (r matches Err(e) && e.code == ErrorCode::GithubOauthNotConfigured
                && final(self).states() == old(self).states()),
            secrets.github_client_id is Some ==> exists|now: i64, token: Seq<char>|
                clock_millis(now) && (exists|b: Seq<u8>| b.len() == 24 && token == base64_url_nopad(b))
                    && #[trigger] authorized_at(
                    old(self).states(),
                    final(self).states(),
                    secrets.github_client_id->0@,
                    cfg.github.callback_url@,
                    now,
                    token,
                    r,
                ),
            r matches Ok((url, st)) ==> url@ == authorize_url_text(
                secrets.github_client_id->0@,
                cfg.github.callback_url@,
                st@,
            ) && final(self).states().contains_key(st@),
    {
        let now = crate::clock::now_unix_millis();
        let token = new_state_token();
        let r = self.authorize_url_at(secrets, cfg, now, token.as_str());
        proof {
            if secrets.github_client_id is Some {
                assert(authorized_at(
                    old(self).states(),
                    self.states(),
                    secrets.github_client_id->0@,
                    cfg.github.callback_url@,
                    now,
                    token@,
                    r,
                ));
            }
        }
        r
    }

    /// Bind a pending record to the authenticated user who started a bind.
    pub fn bind_state_to_user(&mut self, state: &str, user_id: u128, client_type: &str)
        ensures
            old(self).states().contains_key(state@) ==> final(self).states() == old(self).states().insert(
                state@,
                OAuthStateV {
                    user_id: Some(user_id),
                    client_type: client_type@,
                    mode: "bind"@,
                    return_to: "/profile"@,
                    ..old(self).states()[state@]
                },
            ),
            !old(self).states().contains_key(state@) ==> final(self).states() == old(self).states(),
    {
        match store_remove(&mut self.states, state) {
            Some(s) => {
                let updated = OAuthState {
                    user_id: Some(user_id),
                    client_type: own(client_type),
                    mode: own("bind"),
                    return_to: own("/profile"),
                    ..s
                };
                store_insert(&mut self.states, state, updated);
                proof {
                    assert(old(self).states().remove(state@).insert(state@, state_view(updated)) =~= old(
                        self,
                    ).states().insert(state@, state_view(updated)));
                }
            },
            None => {
                assert(old(self).states().remove(state@) =~= old(self).states());
            },
        }
    }

    /// Configure a record for an unauthenticated login; it can only resolve
    /// to an already-bound user at callback time.
    pub fn mark_login_state(
        &mut self,
        state: &str,
        return_to: &str,
        client_type: &str,
        accepted_legal: bool,
        terms_version: &str,
        privacy_version: &str,
    )
        ensures
            old(self).states().contains_key(state@) ==> final(self).states() == old(self).states().insert(
                state@,
                OAuthStateV {
                    user_id: None,
                    client_type: client_type@,
                    mode: "login"@,
                    return_to: return_to@,
                    accepted_legal,
                    terms_version: terms_version@,
                    privacy_version: privacy_version@,
                    created_at: old(self).states()[state@].created_at,
                },
            ),
            !old(self).states().contains_key(state@) ==> final(self).states() == old(self).states(),
    {
        match store_remove(&mut self.states, state) {
            Some(s) => {
                let updated = OAuthState {
                    user_id: None,
                    client_type: own(client_type),
                    mode: own("login"),
                    return_to: own(return_to),
                    accepted_legal,
                    terms_version: own(terms_version),
                    privacy_version: own(privacy_version),
                    created_at: s.created_at,
                };
                store_insert(&mut self.states, state, updated);
                proof {
                    assert(old(self).states().remove(state@).insert(state@, state_view(updated)) =~= old(
                        self,
                    ).states().insert(state@, state_view(updated)));
                }
            },
            None => {
                assert(old(self).states().remove(state@) =~= old(self).states());
            },
        }
    }

    /// Verify a state token at `now` and take its record: each record is
    /// consumed at most once, and only while fresh.
    pub fn consume_state_at(&mut self, state: &str, now: i64) -> (r: Result<OAuthState, ApiError>)
        ensures
            fresh_states(old(self).states(), now).contains_key(state@) ==> (r matches Ok(s) && state_view(s)
                == old(self).states()[state@]),
            !fresh_states(old(self).states(), now).contains_key(state@) ==> (r matches Err(e) && e.code
                == ErrorCode::GithubOauthStateInvalid && e.message@ == "GitHub OAuth state is invalid or expired"@),
            final(self).states() == fresh_states(old(self).states(), now).remove(state@),
    {
        self.prune_states(now);
        match store_remove(&mut self.states, state) {
            Some(s) => Ok(s),
            None => Err(ApiError::new(ErrorCode::GithubOauthStateInvalid, "GitHub OAuth state is invalid or expired")),
        }
    }

    /// `consume_state_at` now.
    pub fn consume_state(&mut self, state: &str) -> (r: Result<OAuthState, ApiError>)
        ensures
            !final(self).states().contains_key(state@),
            r matches Ok(s) ==> old(self).states().contains_key(state@) && state_view(s) == old(self).states()[state@],
            exists|now: i64| clock_millis(now) && #[trigger] consumed_at(old(self).states(), final(self).states(), state@, now, r),
    {
        let now = crate::clock::now_unix_millis();
        let r = self.consume_state_at(state, now);
        assert(consumed_at(old(self).states(), self.states(), state@, now, r));
        r
    }
}

/// A consumed state cannot be consumed again.
pub proof fn lemma_state_consumed_once(m: Map<Seq<char>, OAuthStateV>, token: Seq<char>, now: i64, later: i64)
    ensures
        !fresh_states(fresh_states(m, now).remove(token), later).contains_key(token),
{
}

/// Every pending record is younger than the state lifetime after pruning.
pub proof fn lemma_pruned_states_fresh(m: Map<Seq<char>, OAuthStateV>, now: i64, k: Seq<char>)
    requires
        fresh_states(m, now).contains_key(k),
    ensures
        fresh(fresh_states(m, now)[k].created_at, now),
{
}

// ── callback decisions ───────────────────────────────────────────────

/// Where a failed gateway step sends the browser: back to the login page
/// with the error code, the flow's client and route.
pub open spec fn gateway_error_location(client_type: Seq<char>, return_to: Seq<char>, code: Seq<char>, request_id: Seq<char>) -> Seq<char> {
    "/auth/phira/login?client_type="@ + (if client_type == "panel"@ { "panel"@ } else { "ppf"@ }) + "&return_to="@
        + percent_encoded(vstd::utf8::encode_utf8(return_to)) + "&intent=github&error="@ + code + "&request_id="@
        + percent_encoded(vstd::utf8::encode_utf8(request_id))
}

/// The redirect target of a failed GitHub gateway step.
pub fn github_gateway_error_location(client_type: &str, return_to: &str, code: ErrorCode, request_id: &str) -> (l: String)
    ensures
        l@ == gateway_error_location(client_type@, return_to@, code.code_str(), request_id@),
{
    let ct = if str_eq(client_type, "panel") { "panel" } else { "ppf" };
    let mut l = own("/auth/phira/login?client_type=");
    append_str(&mut l, ct);
    append_str(&mut l, "&return_to=");
    let r = percent_encode(return_to);
    append_str(&mut l, r.as_str());
    append_str(&mut l, "&intent=github&error=");
    append_str(&mut l, code.as_str());
    append_str(&mut l, "&request_id=");
    let q = percent_encode(request_id);
    append_str(&mut l, q.as_str());
    l
}

#[derive(Debug)]
/// A failed step: the code, and the flow's client and route to return to.
pub struct GatewayFailure {
    pub code: ErrorCode,
    pub client_type: String,
    pub return_to: String,
}

/// A failure before any state record is known (ppf, `/profile`).
pub fn early_failure(code: ErrorCode) -> (f: GatewayFailure)
    ensures
        f.code == code,
        f.client_type@ == "ppf"@,
        f.return_to@ == "/profile"@,
{
    GatewayFailure { code, client_type: own("ppf"), return_to: own("/profile") }
}

/// A failure within a known flow.
pub fn flow_failure(state: &OAuthState, code: ErrorCode) -> (f: GatewayFailure)
    ensures
        f.code == code,
        f.client_type@ == state.client_type@,
        f.return_to@ == state.return_to@,
{
    GatewayFailure { code, client_type: own(state.client_type.as_str()), return_to: own(state.return_to.as_str()) }
}

/// The callback's state token: present and not blank.
pub fn callback_state_token(state: Option<&str>) -> (r: Result<String, GatewayFailure>)
    ensures
        match state {
            Some(s) => if trim(s@).len() > 0 {
                r matches Ok(t) && t@ == s@
            } else {
                r matches Err(f) && f.code == ErrorCode::GithubOauthStateInvalid && f.client_type@ == "ppf"@
            },
            None => r matches Err(f) && f.code == ErrorCode::GithubOauthStateInvalid && f.client_type@ == "ppf"@,
        },
{
    match state {
        Some(s) => {
            if trim_chars(chars_of(s).as_slice()).len() > 0 {
                Ok(own(s))
            } else {
                Err(early_failure(ErrorCode::GithubOauthStateInvalid))
            }
        },
        None => Err(early_failure(ErrorCode::GithubOauthStateInvalid)),
    }
}

/// The callback's authorization code: refused when GitHub reported an
/// error, or the code is absent or blank.
pub fn callback_code(state: &OAuthState, error: Option<&str>, code: Option<&str>) -> (r: Result<String, GatewayFailure>)
    ensures
        error is Some ==> (r matches Err(f) && f.code == ErrorCode::GithubOauthFailed),
        error is None ==> match code {
            Some(c) => if trim(c@).len() > 0 {
                r matches Ok(t) && t@ == c@
            } else {
                r matches Err(f) && f.code == ErrorCode::GithubOauthFailed
            },
            None => r matches Err(f) && f.code == ErrorCode::GithubOauthFailed,
        },
        r matches Err(f) ==> f.client_type@ == state.client_type@ && f.return_to@ == state.return_to@,
{
    if error.is_some() {
        return Err(flow_failure(state, ErrorCode::GithubOauthFailed));
    }
    match code {
        Some(c) => {
            if trim_chars(chars_of(c).as_slice()).len() > 0 {
                Ok(own(c))
            } else {
                Err(flow_failure(state, ErrorCode::GithubOauthFailed))
            }
        },
        None => Err(flow_failure(state, ErrorCode::GithubOauthFailed)),
    }
}

/// A login flow needs an identity already bound to a user.
pub fn login_identity(state: &OAuthState, bound_user: Option<u128>) -> (r: Result<u128, GatewayFailure>)
    ensures
        match bound_user {
            Some(u) => r == Ok::<u128, GatewayFailure>(u),
            None => r matches Err(f) && f.code == ErrorCode::GithubIdentityNotBound,
        },
        r matches Err(f) ==> f.client_type@ == state.client_type@ && f.return_to@ == state.return_to@,
{
    match bound_user {
        Some(u) => Ok(u),
        None => Err(flow_failure(state, ErrorCode::GithubIdentityNotBound)),
    }
}

/// A login flow's client: only the web clients (ppf, panel).
pub fn login_client(client_type: &str) -> (r: Result<ClientType, GatewayFailure>)
    ensures
        match ClientType::from_text(client_type@) {
            Some(ClientType::Ppf) => r == Ok::<ClientType, GatewayFailure>(ClientType::Ppf),
            Some(ClientType::Panel) => r == Ok::<ClientType, GatewayFailure>(ClientType::Panel),
            _ => r matches Err(f) && f.code == ErrorCode::GithubOauthStateInvalid && f.client_type@ == "ppf"@
                && f.return_to@ == "/profile"@,
        },
{
    match ClientType::parse(client_type) {
        Some(ClientType::Ppf) => Ok(ClientType::Ppf),
        Some(ClientType::Panel) => Ok(ClientType::Panel),
        _ => Err(early_failure(ErrorCode::GithubOauthStateInvalid)),
    }
}

/// The user a bind flow binds to: the flow's user, unless the GitHub
/// identity already belongs to someone else.
pub fn bind_target(state: &OAuthState, existing_owner: Option<u128>) -> (r: Result<u128, GatewayFailure>)
    ensures
        match state.user_id {
            None => r matches Err(f) && f.code == ErrorCode::GithubOauthStateInvalid,
            Some(u) => match existing_owner {
                Some(o) => if o != u {
                    r matches Err(f) && f.code == ErrorCode::ResourceConflict
                } else {
                    r == Ok::<u128, GatewayFailure>(u)
                },
                None => r == Ok::<u128, GatewayFailure>(u),
            },
        },
        r matches Err(f) ==> f.client_type@ == state.client_type@ && f.return_to@ == state.return_to@,
{
    let user = match state.user_id {
        Some(u) => u,
        None => return Err(flow_failure(state, ErrorCode::GithubOauthStateInvalid)),
    };
    match existing_owner {
        Some(o) => {
            if o != user {
                return Err(flow_failure(state, ErrorCode::ResourceConflict));
            }
        },
        None => {},
    }
    Ok(user)
}

/// Where a completed bind lands: the PPF profile page.
pub fn bound_location(ppf_url: &str) -> (l: String)
    ensures
        l@ == crate::auth::gateway::trim_end_char(ppf_url@, '/') + "/profile?github=bound"@,
{
    let base = crate::auth::gateway::trim_end_char_exec(chars_of(ppf_url).as_slice(), '/');
    let mut l = string_from_chars(base.as_slice());
    append_str(&mut l, "/profile?github=bound");
    l
}

/// Starting a bind: root cannot bind, and GitHub must be configured.
pub fn bind_start_gate(is_root: bool, configured: bool) -> (r: Result<(), ApiError>)
    ensures
        is_root ==> (r matches Err(e) && e.code == ErrorCode::PermissionDenied),
        !is_root && !configured ==> (r matches Err(e) && e.code == ErrorCode::GithubOauthNotConfigured),
        !is_root && configured ==> r is Ok,
{
    if is_root {
        return Err(ApiError::permission_denied());
    }
    if !configured {
        return Err(ApiError::new(ErrorCode::GithubOauthNotConfigured, "GitHub OAuth not configured"));
    }
    Ok(())
}

/// The client of a web login start (`ppf` by default; ppf and panel only).
pub fn login_start_client(param: Option<&str>) -> (r: Result<ClientType, ApiError>)
    ensures
        ({
            let t = match param {
                Some(p) => p@,
                None => "ppf"@,
            };
            match ClientType::from_text(t) {
                None => r matches Err(e) && e.code == ErrorCode::ValidationFailed && e.message@ == "invalid client_type"@,
                Some(ClientType::Ppf) => r == Ok::<ClientType, ApiError>(ClientType::Ppf),
                Some(ClientType::Panel) => r == Ok::<ClientType, ApiError>(ClientType::Panel),
                Some(_) => r matches Err(e) && e.code == ErrorCode::ValidationFailed && e.message@
                    == "GitHub web login supports ppf/panel clients only"@,
            }
        }),
{
    let t = match param {
        Some(p) => p,
        None => "ppf",
    };
    match ClientType::parse(t) {
        None => Err(ApiError::validation("invalid client_type")),
        Some(ClientType::Ppf) => Ok(ClientType::Ppf),
        Some(ClientType::Panel) => Ok(ClientType::Panel),
        Some(_) => Err(ApiError::validation("GitHub web login supports ppf/panel clients only")),
    }
}

/// The default route after a web login: `/` for the Panel, `/profile`
/// otherwise.
pub fn default_return_to(client: ClientType, param: Option<&str>) -> (r: String)
    ensures
        r@ == (match param {
            Some(p) => p@,
            None => if client == ClientType::Panel { "/"@ } else { "/profile"@ },
        }),
{
    match param {
        Some(p) => own(p),
        None => if client == ClientType::Panel {
            own("/")
        } else {
            own("/profile")
        },
    }
}

#[derive(Debug)]
/// The reply of GitHub's token endpoint, as parsed.
pub struct TokenReply {
    pub access_token: Option<String>,
    pub error: Option<String>,
}

/// The access token of a token-endpoint reply: a reply that does not parse,
/// reports an error, or lacks a token fails the exchange.
pub fn token_outcome(reply: Option<TokenReply>) -> (r: Result<String, ApiError>)
    ensures
        match reply {
            None => r matches Err(e) && e.code == ErrorCode::GithubOauthFailed,
            Some(t) => match t.error {
                Some(_) => r matches Err(e) && e.code == ErrorCode::GithubOauthFailed,
                None => match t.access_token {
                    Some(a) => r matches Ok(x) && x@ == a@,
                    None => r matches Err(e) && e.code == ErrorCode::GithubOauthFailed,
                },
            },
        },
{
    match reply {
        None => Err(ApiError::new(ErrorCode::GithubOauthFailed, "GitHub OAuth exchange failed")),
        Some(t) => {
            if t.error.is_some() {
                return Err(ApiError::new(ErrorCode::GithubOauthFailed, "GitHub OAuth exchange failed"));
            }
            match t.access_token {
                Some(a) => Ok(a),
                None => Err(ApiError::new(ErrorCode::GithubOauthFailed, "GitHub OAuth exchange failed")),
            }
        },
    }
}

} // verus!
