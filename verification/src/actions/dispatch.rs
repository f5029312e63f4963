//! The decisions of an action request: who may run it, which reauth risk it
//! needs, how its completion is answered, and what its audit record holds.

use vstd::prelude::*;
use crate::actions::types::{ActionDescriptor, Risk};
use crate::automation::{is_job_only, is_job_only_action};
use crate::auth::reauth::ReauthRisk;
use crate::auth::types::{AuthPrincipal, PrincipalType};
use crate::error::{ApiError, ErrorCode, params_doc, visible_message};
use crate::json::{Json, JsonV};
use crate::text::{before_char, before_char_exec, chars_of, own, string_from_chars, trim, trim_chars};

verus! {

#[derive(Debug)]
/// Body of a raw PMP console command.
pub struct ExecuteCommandBody {
    pub command: String,
}


/// A caller may run an action when it holds the action's permission, or
/// when the action is `host_allowed` and the caller is the room's real host.
pub open spec fn may_run(host_allowed: bool, has_permission: bool, is_host: bool) -> bool {
    has_permission || (host_allowed && is_host)
}

/// The first gate of an action request, ahead of any audit record or
/// queued command: `pmp.update.*` runs only through the job API and is
/// refused outright; otherwise the caller must hold the permission or be the
/// real host of a `host_allowed` action (`is_host` is only consulted then).
pub fn authorize_action(action: &ActionDescriptor, has_permission: bool, is_host: bool) -> (r: Result<(), ApiError>)
    ensures
        is_job_only(action.id@) ==> (r matches Err(e) && e.code == ErrorCode::LongRunningActionRequiresJob
            && e.message@ == "long-running action requires Job execution"@),
        !is_job_only(action.id@) && may_run(action.host_allowed, has_permission, is_host) ==> r is Ok,
        !is_job_only(action.id@) && !may_run(action.host_allowed, has_permission, is_host) ==> (r matches Err(e)
            && e.code == ErrorCode::PermissionDenied && e.message@ == "permission denied"@),
{
    if is_job_only_action(action.id) {
        return Err(ApiError::new(ErrorCode::LongRunningActionRequiresJob, "long-running action requires Job execution"));
    }
    if action.host_allowed {
        if !has_permission && !is_host {
            return Err(ApiError::permission_denied());
        }
    } else if !has_permission {
        return Err(ApiError::permission_denied());
    }
    Ok(())
}

/// Without the permission, only the real host of a `host_allowed` action
/// gets through; the host path never opens an admin-only action.
pub proof fn lemma_host_path_only_for_host_allowed(host_allowed: bool, is_host: bool)
    ensures
        may_run(host_allowed, false, is_host) <==> (host_allowed && is_host),
        !host_allowed ==> (may_run(host_allowed, false, is_host) == false),
{
}

/// The reauth risk an action requires: none unless marked `reauth`;
/// critical for critical-risk actions, high otherwise.
pub open spec fn required_reauth(reauth: bool, risk: Risk) -> Option<ReauthRisk> {
    if !reauth {
        None
    } else if risk.rank() >= Risk::Critical.rank() {
        Some(ReauthRisk::Critical)
    } else {
        Some(ReauthRisk::High)
    }
}

/// An action not marked `reauth` asks for no reauth context; one marked
/// `reauth` asks for a critical context exactly when the action is critical,
/// and for a high one otherwise.
pub proof fn lemma_reauth_risk_matches_action_risk(reauth: bool, risk: Risk)
    ensures
        !reauth ==> required_reauth(reauth, risk) is None,
        reauth && risk == Risk::Critical ==> required_reauth(reauth, risk) == Some(ReauthRisk::Critical),
        reauth && risk != Risk::Critical ==> required_reauth(reauth, risk) == Some(ReauthRisk::High),
{
}

pub fn action_reauth_risk(action: &ActionDescriptor) -> (r: Option<ReauthRisk>)
    ensures
        r == required_reauth(action.reauth, action.risk),
{
    if !action.reauth {
        None
    } else if action.risk.at_least(Risk::Critical) {
        Some(ReauthRisk::Critical)
    } else {
        Some(ReauthRisk::High)
    }
}

/// The room a host action targets: `args.room_id` as a string.
pub fn host_room_id(args: &Json) -> (r: Result<String, ApiError>)
    ensures
        match args@.get_str("room_id"@) {
            Some(room) => r matches Ok(s) && s@ == room,
            None => r matches Err(e) && e.code == ErrorCode::ValidationFailed && e.message@
                == "room_id required for host action"@,
        },
{
    match args.get_str("room_id") {
        Some(room) => Ok(own(room)),
        None => Err(ApiError::validation("room_id required for host action")),
    }
}

/// The caller (Phira id `phira_id`) is the room's current host `host`, as
/// PMP reports it (a 32-bit id).
pub fn is_real_host(host: Option<i32>, phira_id: i64) -> (b: bool)
    ensures
        b == (host == Some(phira_id as i32)),
{
    let id = phira_id as i32;
    match host {
        Some(h) => h == id,
        None => false,
    }
}

#[derive(Debug)]
/// How the wait for a submitted action ended.
pub enum Completion {
    /// The executor finished with this result.
    Finished(Result<Json, String>),
    /// The executor dropped the completion channel.
    Dropped,
    /// No answer within the wait.
    TimedOut,
}

/// The reply to a waited-for action: its result, or `PMP_UNAVAILABLE` with
/// the executor's error, `executor dropped` or `command timed out`.
pub fn completion_reply(c: Completion) -> (r: Result<Json, ApiError>)
    ensures
        match c {
            Completion::Finished(Ok(v)) => r matches Ok(x) && x@ == v@,
            Completion::Finished(Err(m)) => r matches Err(e) && e.code == ErrorCode::PmpUnavailable && e.message@
                == m@,
            Completion::Dropped => r matches Err(e) && e.code == ErrorCode::PmpUnavailable && e.message@
                == "executor dropped"@,
            Completion::TimedOut => r matches Err(e) && e.code == ErrorCode::PmpUnavailable && e.message@
                == "command timed out"@,
        },
{
    match c {
        Completion::Finished(Ok(v)) => Ok(v),
        Completion::Finished(Err(m)) => Err(ApiError::new(ErrorCode::PmpUnavailable, m.as_str())),
        Completion::Dropped => Err(ApiError::new(ErrorCode::PmpUnavailable, "executor dropped")),
        Completion::TimedOut => Err(ApiError::new(ErrorCode::PmpUnavailable, "command timed out")),
    }
}

/// The 202 body of a long-running action: `{command_id, message, status}`.
pub fn accepted_body(command_id: &str) -> (j: Json)
    ensures
        j@ == JsonV::Object(
            seq![
                ("command_id"@, JsonV::Str(command_id@)),
                ("message"@, JsonV::Str("long-running job accepted"@)),
                ("status"@, JsonV::Str("queued"@)),
            ],
        ),
{
    let mut es: Vec<(String, Json)> = Vec::new();
    es.push((own("command_id"), Json::Str(own(command_id))));
    es.push((own("message"), Json::Str(own("long-running job accepted"))));
    es.push((own("status"), Json::Str(own("queued"))));
    let j = Json::Object(es);
    proof {
        crate::json::lemma_object_view(j);
        assert(crate::json::entries_view(es@) =~= seq![
            ("command_id"@, JsonV::Str(command_id@)),
            ("message"@, JsonV::Str("long-running job accepted"@)),
            ("status"@, JsonV::Str("queued"@)),
        ]);
    }
    j
}

/// The client address of a request: the first `X-Forwarded-For` entry,
/// trimmed; empty without the header.
pub open spec fn forwarded_ip(header: Option<Seq<char>>) -> Seq<char> {
    match header {
        Some(h) => trim(before_char(h, ',')),
        None => Seq::empty(),
    }
}

pub fn ip_from_forwarded(header: Option<&str>) -> (ip: String)
    ensures
        ip@ == forwarded_ip(match header {
            Some(h) => Some(h@),
            None => None,
        }),
{
    match header {
        Some(h) => {
            let cs = chars_of(h);
            let first = before_char_exec(cs.as_slice(), ',');
            let t = trim_chars(first.as_slice());
            string_from_chars(t.as_slice())
        },
        None => String::new(),
    }
}

#[derive(Debug)]
/// The audit metadata a command carries until it finishes.
pub struct CommandAudit {
    pub principal_type: String,
    /// `None` for root.
    pub actor_user_id: Option<u128>,
    pub actor_session_id: u128,
    pub action: String,
    pub resource_type: String,
    pub resource_id: String,
    pub request_id: String,
    pub ip: String,
    pub user_agent: String,
}

/// The audit metadata of an audited action (none for an unaudited one); the
/// final result is recorded by the executor when the command completes.
pub fn command_audit(
    action: &ActionDescriptor,
    auth: &AuthPrincipal,
    queue_key: &str,
    ip: &str,
    user_agent: &str,
) -> (r: Option<CommandAudit>)
    ensures
        action.audit <==> r is Some,
        r matches Some(a) ==> (a.principal_type@ == auth.principal_type.text() && a.actor_user_id == (if auth.principal_type
            == PrincipalType::Root {
            None
        } else {
            Some(auth.sub)
        }) && a.actor_session_id == auth.sid && a.action@ == action.id@ && a.resource_type@ == "action"@
            && a.resource_id@ == queue_key@ && a.request_id@ == auth.request_id@ && a.ip@ == ip@ && a.user_agent@
            == user_agent@),
{
    if !action.audit {
        return None;
    }
    Some(
        CommandAudit {
            principal_type: own(auth.principal_type.as_str()),
            actor_user_id: if auth.is_root() {
                None
            } else {
                Some(auth.sub)
            },
            actor_session_id: auth.sid,
            action: own(action.id),
            resource_type: own("action"),
            resource_id: own(queue_key),
            request_id: own(auth.request_id.as_str()),
            ip: own(ip),
            user_agent: own(user_agent),
        },
    )
}

/// The terminal record of a raw console command: status and error code for
/// a reply, a PMP failure, or a timeout.

#[derive(Debug)]
/// How a raw console command ended.
pub enum ConsoleEnd {
    Replied,
    Failed,
    TimedOut,
}

pub fn console_record(end: &ConsoleEnd) -> (r: (&'static str, &'static str))
    ensures
        match end {
            ConsoleEnd::Replied => r.0@ == "succeeded"@ && r.1@ == ""@,
            ConsoleEnd::Failed => r.0@ == "failed"@ && r.1@ == "cli_execute_error"@,
            ConsoleEnd::TimedOut => r.0@ == "timeout"@ && r.1@ == "timeout"@,
        },
{
    match end {
        ConsoleEnd::Replied => ("succeeded", ""),
        ConsoleEnd::Failed => ("failed", "cli_execute_error"),
        ConsoleEnd::TimedOut => ("timeout", "timeout"),
    }
}

} // verus!
