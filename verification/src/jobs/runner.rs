//! The job runner's decisions. A job moves `queued -> running(stage) ->
//! succeeded | failed | cancelled | not_implemented`; cancelling is honoured
//! only before dispatch, retrying only from `failed` or `cancelled`.

use vstd::prelude::*;
use crate::error::{ApiError, ErrorCode};
use crate::jobs::registry::{CancelMode, JobDescriptor, JobExecutor, JobExecutorV, JobRegistry, executor_view, lookup_job};
use crate::json::{Json, JsonV, lemma_object_view, entries_view};
use crate::text::{append_str, own, str_eq};

verus! {

/// Job states after which nothing runs any more.
pub open spec fn is_finished_state(s: Seq<char>) -> bool {
    s == "succeeded"@ || s == "failed"@ || s == "cancelled"@ || s == "not_implemented"@
}

/// The refusal of a cancel request for a job in `state` (`None`: cancel).
pub open spec fn cancel_refusal(mode: CancelMode, state: Seq<char>) -> Option<Seq<char>> {
    match mode {
        CancelMode::BeforeDispatch => if state == "queued"@ {
            None
        } else if state == "running"@ {
            Some("job already dispatched; cannot cancel"@)
        } else if is_finished_state(state) {
            Some("job already finished"@)
        } else {
            Some("job cannot be cancelled"@)
        },
    }
}

/// Whether a job in `state` may be cancelled under `mode`.
pub fn cancel_decision(mode: CancelMode, state: &str) -> (r: Result<(), ApiError>)
    ensures
        match cancel_refusal(mode, state@) {
            None => r is Ok,
            Some(m) => r matches Err(e) && e.code == ErrorCode::JobNotCancellable && e.message@ == m,
        },
{
    match mode {
        CancelMode::BeforeDispatch => {
            if str_eq(state, "queued") {
                Ok(())
            } else if str_eq(state, "running") {
                Err(ApiError::new(ErrorCode::JobNotCancellable, "job already dispatched; cannot cancel"))
            } else if str_eq(state, "succeeded") || str_eq(state, "failed") || str_eq(state, "cancelled")
                || str_eq(state, "not_implemented") {
                Err(ApiError::new(ErrorCode::JobNotCancellable, "job already finished"))
            } else {
                Err(ApiError::new(ErrorCode::JobNotCancellable, "job cannot be cancelled"))
            }
        },
    }
}

/// A job can be cancelled exactly while it is still queued.
pub proof fn lemma_cancel_only_queued(mode: CancelMode, state: Seq<char>)
    ensures
        cancel_refusal(mode, state) is None <==> state == "queued"@,
{
}

/// Only failed or cancelled jobs are re-queued.
pub fn retry_decision(state: &str) -> (r: Result<(), ApiError>)
    ensures
        (state@ == "failed"@ || state@ == "cancelled"@) ==> r is Ok,
        !(state@ == "failed"@ || state@ == "cancelled"@) ==> (r matches Err(e) && e.code == ErrorCode::JobNotRetryable
            && e.message@ == "only failed or cancelled jobs can be retried"@),
{
    if !str_eq(state, "failed") && !str_eq(state, "cancelled") {
        return Err(ApiError::new(ErrorCode::JobNotRetryable, "only failed or cancelled jobs can be retried"));
    }
    Ok(())
}

/// The retry gate of a job type: its descriptor must be retryable.
pub fn retry_allowed(descriptor: &JobDescriptor) -> (r: Result<(), ApiError>)
    ensures
        descriptor.retryable ==> r is Ok,
        !descriptor.retryable ==> (r matches Err(e) && e.code == ErrorCode::JobNotRetryable && e.message@
            == "job type is not retryable"@),
{
    if !descriptor.retryable {
        return Err(ApiError::new(ErrorCode::JobNotRetryable, "job type is not retryable"));
    }
    Ok(())
}

/// The descriptor of a job type a client asked to start.
pub fn start_descriptor<'a>(registry: &'a JobRegistry, job_type: &str) -> (r: Result<&'a JobDescriptor, ApiError>)
    ensures
        match lookup_job(registry@, job_type@) {
            Some(j) => r matches Ok(d) && d@ == j,
            None => r matches Err(e) && e.code == ErrorCode::JobTypeUnknown && e.message@ == "unknown job type"@,
        },
{
    match registry.get(job_type) {
        Some(d) => Ok(d),
        None => Err(ApiError::new(ErrorCode::JobTypeUnknown, "unknown job type")),
    }
}

/// The descriptor of a stored job's type (a stored type missing from the
/// registry is an internal error).
pub fn stored_descriptor<'a>(registry: &'a JobRegistry, job_type: &str) -> (r: Result<&'a JobDescriptor, ApiError>)
    ensures
        match lookup_job(registry@, job_type@) {
            Some(j) => r matches Ok(d) && d@ == j,
            None => r matches Err(e) && e.code == ErrorCode::InternalError,
        },
{
    match registry.get(job_type) {
        Some(d) => Ok(d),
        None => Err(ApiError::new(ErrorCode::InternalError, "job type missing from registry")),
    }
}

/// A stored job that was not found.
pub fn job_not_found() -> (e: ApiError)
    ensures
        e.code == ErrorCode::JobNotFound,
        e.message@ == "job not found"@,
{
    ApiError::new(ErrorCode::JobNotFound, "job not found")
}

/// Mutual exclusion on a resource key: refused while `active` jobs hold it.
pub fn resource_free(resource_key: Option<&str>, active: i64) -> (r: Result<(), ApiError>)
    ensures
        (resource_key is None || active <= 0) ==> r is Ok,
        (resource_key is Some && active > 0) ==> (r matches Err(e) && e.code == ErrorCode::JobAlreadyRunning
            && e.message@ == "job already running for this resource"@),
{
    match resource_key {
        None => Ok(()),
        Some(_) => {
            if active > 0 {
                Err(ApiError::new(ErrorCode::JobAlreadyRunning, "job already running for this resource"))
            } else {
                Ok(())
            }
        },
    }
}

/// The stage check before dispatch: a cancelled job stops with `cancelled`.
pub fn tick_stage(cancelled: bool) -> (r: Result<(), String>)
    ensures
        cancelled ==> (r matches Err(e) && e@ == "cancelled"@),
        !cancelled ==> r is Ok,
{
    if cancelled {
        Err(own("cancelled"))
    } else {
        Ok(())
    }
}

/// The outcome of running a job's executor: a fixed command's success gives
/// the terminal stage, its failure `failed: <error>`; a stub gives
/// `not_implemented`.
pub open spec fn dispatch_outcome(executor: JobExecutorV, terminal: Seq<char>, cli: Result<(), Seq<char>>) -> Result<
    Seq<char>,
    Seq<char>,
> {
    match executor {
        JobExecutorV::FixedCli(_) => match cli {
            Ok(()) => Ok(terminal),
            Err(e) => Err("failed: "@ + e),
        },
        JobExecutorV::NotImplemented => Err("not_implemented"@),
    }
}

pub fn dispatch_result(descriptor: &JobDescriptor, cli: Result<(), String>) -> (r: Result<String, String>)
    ensures
        match (r, dispatch_outcome(executor_view(descriptor.executor), descriptor.terminal@, match cli {
            Ok(()) => Ok(()),
            Err(e) => Err(e@),
        })) {
            (Ok(a), Ok(b)) => a@ == b,
            (Err(a), Err(b)) => a@ == b,
            _ => false,
        },
{
    match descriptor.executor {
        JobExecutor::FixedCli(_) => match cli {
            Ok(()) => Ok(own(descriptor.terminal)),
            Err(e) => {
                let mut m = own("failed: ");
                append_str(&mut m, e.as_str());
                Err(m)
            },
        },
        JobExecutor::NotImplemented => Err(own("not_implemented")),
    }
}

/// The persisted (state, stage, error) of a finished run.
pub open spec fn terminal_record(result: Result<Seq<char>, Seq<char>>) -> (Seq<char>, Seq<char>, Seq<char>) {
    match result {
        Ok(stage) => ("succeeded"@, stage, Seq::empty()),
        Err(e) => if e == "not_implemented"@ {
            ("not_implemented"@, "not_implemented"@, e)
        } else if e == "timeout"@ {
            ("failed"@, "timeout"@, e)
        } else {
            ("failed"@, "failed"@, e)
        },
    }
}

pub fn terminal_update(result: &Result<String, String>) -> (r: (String, String, String))
    ensures
        (r.0@, r.1@, r.2@) == terminal_record(match result {
            Ok(s) => Ok(s@),
            Err(e) => Err(e@),
        }),
{
    match result {
        Ok(stage) => (own("succeeded"), own(stage.as_str()), String::new()),
        Err(e) => {
            if str_eq(e.as_str(), "not_implemented") {
                (own("not_implemented"), own("not_implemented"), own(e.as_str()))
            } else if str_eq(e.as_str(), "timeout") {
                (own("failed"), own("timeout"), own(e.as_str()))
            } else {
                (own("failed"), own("failed"), own(e.as_str()))
            }
        },
    }
}

/// A stub job never reports success: its run ends `not_implemented`.
pub proof fn lemma_stub_never_succeeds(terminal: Seq<char>, cli: Result<(), Seq<char>>)
    ensures
        terminal_record(dispatch_outcome(JobExecutorV::NotImplemented, terminal, cli)).0 == "not_implemented"@,
{
}

/// A job whose fixed command fails is recorded as failed, never succeeded.
pub proof fn lemma_failed_command_recorded_failed(cmd: Seq<char>, terminal: Seq<char>, e: Seq<char>)
    ensures
        terminal_record(dispatch_outcome(JobExecutorV::FixedCli(cmd), terminal, Err(e))).0 == "failed"@,
{
    reveal_strlit("failed: ");
    reveal_strlit("not_implemented");
    reveal_strlit("timeout");
    assert(("failed: "@ + e)[0] == 'f');
    assert(("failed: "@ + e).len() >= 8);
    assert(("failed: "@ + e)[6] == ':');
}

/// The `job.updated` event payload: `{progress: null, stage, state}`.
pub fn job_event_data(state: &str, stage: &str) -> (j: Json)
    ensures
        j@ == JsonV::Object(
            seq![("progress"@, JsonV::Null), ("stage"@, JsonV::Str(stage@)), ("state"@, JsonV::Str(state@))],
        ),
{
    let mut es: Vec<(String, Json)> = Vec::new();
    es.push((own("progress"), Json::Null));
    es.push((own("stage"), Json::Str(own(stage))));
    es.push((own("state"), Json::Str(own(state))));
    let j = Json::Object(es);
    proof {
        lemma_object_view(j);
        assert(entries_view(es@) =~= seq![
            ("progress"@, JsonV::Null),
            ("stage"@, JsonV::Str(stage@)),
            ("state"@, JsonV::Str(state@)),
        ]);
    }
    j
}

} // verus!
