//! Auth request bodies and the rules the login, reauth and refresh
//! endpoints apply to them before and after talking to Phira.

use vstd::prelude::*;
use crate::auth::reauth::ReauthRisk;
use crate::auth::types::ClientType;
use crate::error::{ApiError, ErrorCode, params_doc, visible_message};
use crate::json::{Json, JsonNumber, JsonV, NumV, entries_view, json_string, lemma_object_view};
use crate::text::{append_str, own, str_eq};

verus! {

#[derive(Debug)]
/// The user a login reports.
pub struct UserSummary {
    pub id: u128,
    pub phira_id: i64,
    pub username: String,
    pub avatar: String,
}

#[derive(Debug)]
/// Phira email/password login.
pub struct PhiraLoginRequest {
    pub email: String,
    pub password: String,
    pub client_type: Option<String>,
    pub device_name: Option<String>,
    pub return_to: Option<String>,
    pub accepted: Option<bool>,
    pub terms_version: Option<String>,
    pub privacy_version: Option<String>,
}

#[derive(Debug)]
/// Reauthentication for an elevated context.
pub struct ReauthRequest {
    pub email: Option<String>,
    pub password: String,
    pub client_type: Option<String>,
    pub risk: Option<String>,
}

#[derive(Debug)]
/// Root password login.
pub struct RootLoginRequest {
    pub password: String,
}

#[derive(Debug)]
/// Root password change.
pub struct ChangePasswordRequest {
    pub current_password: Option<String>,
    pub new_password: String,
}

#[derive(Debug)]
/// Query of the GitHub login start.
pub struct GithubLoginStartParams {
    pub return_to: Option<String>,
    pub client_type: Option<String>,
    pub accepted: Option<bool>,
    pub terms_version: Option<String>,
    pub privacy_version: Option<String>,
}

#[derive(Debug)]
/// Query of the GitHub OAuth callback.
pub struct GithubCallbackParams {
    pub code: Option<String>,
    pub state: Option<String>,
    pub error: Option<String>,
}

/// The client a login names (`ppf` when none); an unknown name is refused.
pub fn login_client_type(client_type: Option<&str>) -> (r: Result<ClientType, ApiError>)
    ensures
        match ClientType::from_text(
            match client_type {
                Some(c) => c@,
                None => "ppf"@,
            },
        ) {
            Some(c) => r == Ok::<ClientType, ApiError>(c),
            None => r matches Err(e) && e.code == ErrorCode::ValidationFailed && e.message@ == "invalid client_type"@,
        },
{
    let name = match client_type {
        Some(c) => c,
        None => "ppf",
    };
    match ClientType::parse(name) {
        Some(c) => Ok(c),
        None => Err(ApiError::validation("invalid client_type")),
    }
}

/// The risk a reauth asks for: `critical`, or high for anything else.
pub fn requested_reauth_risk(risk: Option<&str>) -> (r: ReauthRisk)
    ensures
        r == (if risk matches Some(s) && s@ == "critical"@ {
            ReauthRisk::Critical
        } else {
            ReauthRisk::High
        }),
{
    match risk {
        Some(s) => if str_eq(s, "critical") {
            ReauthRisk::Critical
        } else {
            ReauthRisk::High
        },
        None => ReauthRisk::High,
    }
}

/// A Phira reauth needs the account email.
pub fn reauth_email(email: Option<String>) -> (r: Result<String, ApiError>)
    ensures
        match email {
            Some(e) => r == Ok::<String, ApiError>(e),
            None => r matches Err(e) && e.code == ErrorCode::ValidationFailed && e.message@
                == "email required for phira reauth"@,
        },
{
    match email {
        Some(e) => Ok(e),
        None => Err(ApiError::validation("email required for phira reauth")),
    }
}

/// The reauthenticated Phira identity must be the current user's.
pub fn reauth_identity_check(login_phira_id: i64, user_phira_id: i64) -> (r: Result<(), ApiError>)
    ensures
        r is Ok <==> login_phira_id == user_phira_id,
        r matches Err(e) ==> e.code == ErrorCode::AuthRequired && e.message@
            == "reauth phira_id does not match the current user"@,
{
    if login_phira_id != user_phira_id {
        Err(ApiError::new(ErrorCode::AuthRequired, "reauth phira_id does not match the current user"))
    } else {
        Ok(())
    }
}

/// `{"expires_in":…,"reauth_token":…,"risk":…}`.
pub fn reauth_reply(token: &str, ttl_secs: i64, risk: ReauthRisk) -> (r: Json)
    ensures
        r@ == JsonV::Object(
            seq![
                ("expires_in"@, JsonV::Number(
                    if ttl_secs >= 0 {
                        NumV::PosInt(ttl_secs as u64)
                    } else {
                        NumV::NegInt(ttl_secs)
                    },
                )),
                ("reauth_token"@, JsonV::Str(token@)),
                ("risk"@, JsonV::Str(risk.text())),
            ],
        ),
{
    let n = if ttl_secs >= 0 {
        JsonNumber::PosInt(ttl_secs as u64)
    } else {
        JsonNumber::NegInt(ttl_secs)
    };
    let mut es: Vec<(String, Json)> = Vec::new();
    es.push((own("expires_in"), Json::Number(n)));
    es.push((own("reauth_token"), json_string(token)));
    es.push((own("risk"), json_string(risk.as_str())));
    let r = Json::Object(es);
    proof {
        lemma_object_view(r);
        assert(entries_view(es@) =~= seq![
            ("expires_in"@, JsonV::Number(
                if ttl_secs >= 0 {
                    NumV::PosInt(ttl_secs as u64)
                } else {
                    NumV::NegInt(ttl_secs)
                },
            )),
            ("reauth_token"@, JsonV::Str(token@)),
            ("risk"@, JsonV::Str(risk.text())),
        ]);
    }
    r
}

/// The rate-limit key of an endpoint for a client address: `<scope>:<ip>`.
pub fn rate_key(scope: &str, ip: &str) -> (k: String)
    ensures
        k@ == scope@ + ":"@ + ip@,
{
    let mut k = own(scope);
    append_str(&mut k, ":");
    append_str(&mut k, ip);
    k
}

// ── Phira refresh credentials ─────────────────────────────────────────

/// A stored Phira refresh token is spent once its expiry has come.
pub fn refresh_token_expired(refresh_expires_at: i64, now: i64) -> (b: bool)
    ensures
        b == (refresh_expires_at <= now),
{
    refresh_expires_at <= now
}

/// The instant (Unix milliseconds, UTC) an RFC 3339 timestamp denotes.
pub uninterp spec fn rfc3339_millis(value: Seq<char>) -> Option<i64>;

/// `chrono::DateTime::parse_from_rfc3339`, taken to UTC milliseconds:
/// `None` when the text is not RFC 3339. The parse itself is named, not
/// restated.
#[verifier::external_body]
fn parse_rfc3339_millis(value: &str) -> (r: Option<i64>)
    ensures
        r == rfc3339_millis(value@),
{
    chrono::DateTime::parse_from_rfc3339(value).ok().map(|dt| dt.with_timezone(&chrono::Utc).timestamp_millis())
}

/// The verdict on a parsed `expireAt`.
pub fn expire_at_result(parsed: Option<i64>) -> (r: Result<i64, ApiError>)
    ensures
        match parsed {
            Some(t) => r == Ok::<i64, ApiError>(t),
            None => r matches Err(e) && e.code == ErrorCode::ValidationFailed && e.message@ == "invalid expireAt"@,
        },
{
    match parsed {
        Some(t) => Ok(t),
        None => Err(ApiError::new(ErrorCode::ValidationFailed, "invalid expireAt")),
    }
}

/// Parse Phira's `expireAt` (RFC 3339) to Unix milliseconds.
pub fn parse_expire_at(value: &str) -> (r: Result<i64, ApiError>)
    ensures
        match rfc3339_millis(value@) {
            Some(t) => r == Ok::<i64, ApiError>(t),
            None => r matches Err(e) && e.code == ErrorCode::ValidationFailed && e.message@ == "invalid expireAt"@,
        },
{
    expire_at_result(parse_rfc3339_millis(value))
}

/// Thirty days in milliseconds.
pub const DEFAULT_REFRESH_LIFETIME_MS: i64 = 2592000000;

/// The stored refresh expiry: the parsed `expireAt`, or thirty days from
/// `now` when it does not parse (the clock's last instant at most).
pub fn refresh_expiry(parsed: Result<i64, ApiError>, now: i64) -> (t: i64)
    ensures
        t == (match parsed {
            Ok(x) => x,
            Err(_) => if now + DEFAULT_REFRESH_LIFETIME_MS > i64::MAX {
                i64::MAX
            } else {
                (now + DEFAULT_REFRESH_LIFETIME_MS) as i64
            },
        }),
{
    match parsed {
        Ok(x) => x,
        Err(_) => match now.checked_add(DEFAULT_REFRESH_LIFETIME_MS) {
            Some(t) => t,
            None => i64::MAX,
        },
    }
}

/// A user's refresh is refused, with a Phira reauth request, when their
/// stored Phira credential is spent or not active.
pub fn phira_credential_gate(credential: Option<(i64, &str)>, now: i64) -> (r: Result<(), ApiError>)
    ensures
        r is Err <==> (credential matches Some((exp, state)) && (exp <= now || state@ != "active"@)),
        r matches Err(e) ==> e.code == ErrorCode::PhiraReauthRequired && e.message@ == "需要重新验证 Phira 身份"@,
{
    match credential {
        Some((exp, state)) => if refresh_token_expired(exp, now) || !str_eq(state, "active") {
            Err(ApiError::new(ErrorCode::PhiraReauthRequired, "需要重新验证 Phira 身份"))
        } else {
            Ok(())
        },
        None => Ok(()),
    }
}

#[derive(Debug)]
/// How a call to the Phira API failed.
pub enum PhiraError {
    InvalidCredentials,
    ReauthRequired(String),
    Api(String),
    Other(String),
    Unavailable(String),
    RateLimited,
}

/// The API error for a Phira failure: bad credentials (an authentication
/// requirement, as for any failed login), a required reauth
/// (its reason as a detail), an unavailable API (its message), or a rate
/// limit.
pub fn phira_error_to_api(e: PhiraError) -> (r: ApiError)
    ensures
        match e {
            PhiraError::InvalidCredentials => r.code == ErrorCode::AuthRequired && r.message@
                == "invalid credentials"@ && r.details@ == params_doc(Seq::<(Seq<char>, JsonV)>::empty()),
            PhiraError::ReauthRequired(m) => r.code == ErrorCode::PhiraReauthRequired && r.message@
                == "需要重新验证 Phira 身份"@ && r.details@ == params_doc(seq![("reason"@, JsonV::Str(m@))]),
            PhiraError::Api(m) => r.code == ErrorCode::PhiraApiUnavailable && r.message@ == m@,
            PhiraError::Other(m) => r.code == ErrorCode::PhiraApiUnavailable && r.message@ == m@,
            PhiraError::Unavailable(m) => r.code == ErrorCode::PhiraApiUnavailable && r.message@ == m@,
            PhiraError::RateLimited => r.code == ErrorCode::RateLimited && r.message@ == "phira api rate limited"@,
        },
        r.request_id@ == Seq::<char>::empty(),
        r.retry_after_secs is None,
{
    match e {
        PhiraError::InvalidCredentials => ApiError::new(ErrorCode::AuthRequired, "invalid credentials"),
        PhiraError::ReauthRequired(m) => {
            let mut es: Vec<(String, Json)> = Vec::new();
            es.push((own("reason"), json_string(m.as_str())));
            let details = Json::Object(es);
            proof {
                lemma_object_view(details);
                reveal_strlit("reason");
                reveal_strlit("params");
                assert(entries_view(es@) =~= seq![("reason"@, JsonV::Str(m@))]);
                let es1 = seq![("reason"@, JsonV::Str(m@))];
                assert("reason"@[0] != "params"@[0]);
                assert("reason"@ != "params"@);
                assert(es1.drop_first() =~= Seq::<(Seq<char>, JsonV)>::empty());
                assert(crate::json::entries_get(es1.drop_first(), "params"@) is None);
                assert(crate::json::entries_get(es1, "params"@) is None);
                assert(crate::json::safe_entries(es1.drop_first()) =~= Seq::<(Seq<char>, JsonV)>::empty());
                assert(crate::json::safe_entries(es1) =~= es1);
                assert(crate::error::sanitized_params(details@) =~= es1);
            }
            ApiError::with_details(ErrorCode::PhiraReauthRequired, "需要重新验证 Phira 身份", &details)
        },
        PhiraError::Api(m) => ApiError::new(ErrorCode::PhiraApiUnavailable, m.as_str()),
        PhiraError::Other(m) => ApiError::new(ErrorCode::PhiraApiUnavailable, m.as_str()),
        PhiraError::Unavailable(m) => ApiError::new(ErrorCode::PhiraApiUnavailable, m.as_str()),
        PhiraError::RateLimited => ApiError::new(ErrorCode::RateLimited, "phira api rate limited"),
    }
}

} // verus!
