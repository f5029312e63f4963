//! Runbooks: sequences of registered actions and waits. No shell, no
//! branching, no loops; every step is re-authorized for the current
//! principal, and a long-running action must run as a job instead.

use vstd::prelude::*;
use crate::actions::dispatch::required_reauth;
use crate::actions::registry::{ActionRegistry, lookup_action};
use crate::actions::types::{ActionDescriptor, ActionSpec};
use crate::auth::reauth::ReauthRisk;
use crate::error::ErrorCode;
use crate::json::{Json, JsonV, deep_clone, entries_get, entries_view, lemma_object_view};
use crate::text::{append_str, chars_of, is_prefix, own, starts_with, str_eq};

verus! {

#[derive(Debug)]
/// One runbook step: an action with its arguments, and/or a wait.
pub struct RunbookStep {
    /// Empty for a wait-only step.
    pub action: String,
    pub with: Json,
    pub wait_secs: Option<u64>,
}

#[derive(Debug)]
/// A runbook definition (snapshotted on every run).
pub struct RunbookDefinition {
    pub name: String,
    pub description: String,
    pub args: Json,
    pub steps: Vec<RunbookStep>,
}

/// Actions that only run through the job API (`pmp.update.*`).
pub open spec fn is_job_only(id: Seq<char>) -> bool {
    is_prefix("pmp.update."@, id)
}

pub fn is_job_only_action(id: &str) -> (b: bool)
    ensures
        b == is_job_only(id@),
{
    starts_with(chars_of(id).as_slice(), chars_of("pmp.update.").as_slice())
}

/// The first problem of a step list; `None` when every step has a
/// registered action or a wait, and no wait exceeds an hour.
pub open spec fn steps_problem(steps: Seq<(Seq<char>, Option<u64>)>, actions: Seq<ActionSpec>) -> Option<Seq<char>>
    decreases steps.len(),
{
    if steps.len() == 0 {
        None
    } else {
        let (action, wait) = steps[0];
        if action.len() == 0 && wait is None {
            Some("step must have an action or a wait"@)
        } else if action.len() > 0 && lookup_action(actions, action) is None {
            Some("unknown action in runbook step: "@ + action)
        } else if (match wait {
            Some(w) => w,
            None => 0,
        }) > 3600 {
            Some("wait exceeds 3600s limit"@)
        } else {
            steps_problem(steps.drop_first(), actions)
        }
    }
}

pub open spec fn step_shape(s: RunbookStep) -> (Seq<char>, Option<u64>) {
    (s.action@, s.wait_secs)
}

pub open spec fn step_shapes(steps: Seq<RunbookStep>) -> Seq<(Seq<char>, Option<u64>)> {
    Seq::new(steps.len(), |i: int| step_shape(steps[i]))
}

/// Checks a runbook's steps against the registry.
pub fn validate_steps(steps: &Vec<RunbookStep>, registry: &ActionRegistry) -> (r: Result<(), String>)
    ensures
        match steps_problem(step_shapes(steps@), registry@) {
            None => r is Ok,
            Some(m) => r matches Err(e) && e@ == m,
        },
{
    let ghost all = step_shapes(steps@);
    let n = steps.len();
    let mut i: usize = 0;
    assert(all.skip(0) =~= all);
    while i < n
        invariant
            n == steps@.len(),
            all == step_shapes(steps@),
            i <= n,
            steps_problem(all, registry@) == steps_problem(all.skip(i as int), registry@),
        decreases n - i,
    {
        let ghost rest = all.skip(i as int);
        assert(rest[0] == step_shape(steps@[i as int]));
        assert(rest.drop_first() =~= all.skip(i + 1));
        let step = &steps[i];
        let has_action = step.action.unicode_len() > 0;
        if !has_action && step.wait_secs.is_none() {
            return Err(own("step must have an action or a wait"));
        }
        if has_action && registry.get(step.action.as_str()).is_none() {
            let mut m = own("unknown action in runbook step: ");
            append_str(&mut m, step.action.as_str());
            return Err(m);
        }
        let w = match step.wait_secs {
            Some(w) => w,
            None => 0,
        };
        if w > 3600 {
            return Err(own("wait exceeds 3600s limit"));
        }
        i = i + 1;
    }
    assert(all.skip(n as int).len() == 0);
    Ok(())
}

#[derive(Debug)]
/// A failed step's error.
pub struct AutomationStepError {
    pub code: ErrorCode,
    /// Debug fallback only; the UI uses `code`.
    pub message: String,
}

#[derive(Debug)]
/// The result of one step.
pub struct AutomationStepResult {
    pub step: String,
    pub ok: bool,
    pub result: Option<Json>,
    pub error: Option<AutomationStepError>,
    pub wait_secs: Option<u64>,
}

#[derive(Debug)]
/// What a run does with a step.
pub enum StepPlan {
    /// A wait-only step: record it and sleep this many seconds (capped at an hour).
    Wait(u64),
    /// A step with neither action nor wait: nothing happens.
    Skip,
    /// The step's action is not registered: the whole request fails.
    Missing,
    /// The step is refused before anything runs (long-running action).
    Refuse(AutomationStepResult),
    /// Run this action (after re-authorization).
    Run(ActionDescriptor),
}

fn failed_step(step: &str, code: ErrorCode, message: &str) -> (r: AutomationStepResult)
    ensures
        r.step@ == step@,
        !r.ok,
        r.result is None,
        r.error matches Some(e) && e.code == code && e.message@ == message@,
        r.wait_secs is None,
{
    AutomationStepResult {
        step: own(step),
        ok: false,
        result: None,
        error: Some(AutomationStepError { code, message: own(message) }),
        wait_secs: None,
    }
}

/// The plan of a step: waits sleep; a long-running or job-only action is
/// refused with `LONG_RUNNING_ACTION_REQUIRES_JOB`; others run.
pub fn step_plan(registry: &ActionRegistry, step: &RunbookStep) -> (p: StepPlan)
    ensures
        step.action@.len() == 0 ==> match step.wait_secs {
            Some(w) => p == StepPlan::Wait(if w <= 3600 { w } else { 3600 }),
            None => p is Skip,
        },
        step.action@.len() > 0 ==> match lookup_action(registry@, step.action@) {
            None => p is Missing,
            Some(a) => if a.long_running || is_job_only(a.id) {
                p matches StepPlan::Refuse(r) && r.step@ == step.action@ && !r.ok && (r.error matches Some(e) && e.code
                    == ErrorCode::LongRunningActionRequiresJob)
            } else {
                p matches StepPlan::Run(d) && d@ == a
            },
        },
{
    if step.action.unicode_len() == 0 {
        return match step.wait_secs {
            Some(w) => StepPlan::Wait(if w <= 3600 { w } else { 3600 }),
            None => StepPlan::Skip,
        };
    }
    match registry.get(step.action.as_str()) {
        None => StepPlan::Missing,
        Some(a) => {
            if a.long_running || is_job_only_action(a.id) {
                StepPlan::Refuse(
                    failed_step(
                        step.action.as_str(),
                        ErrorCode::LongRunningActionRequiresJob,
                        "long-running action requires Job execution",
                    ),
                )
            } else {
                StepPlan::Run(*a)
            }
        },
    }
}

/// The result recorded for a wait-only step.
pub fn wait_result(wait: u64) -> (r: AutomationStepResult)
    ensures
        r.step@ == "wait"@,
        r.ok,
        r.result is None,
        r.error is None,
        r.wait_secs == Some(wait),
{
    AutomationStepResult { step: own("wait"), ok: true, result: None, error: None, wait_secs: Some(wait) }
}

/// The result of a step whose re-authorization failed.
pub fn permission_failure(step: &str) -> (r: AutomationStepResult)
    ensures
        r.step@ == step@,
        !r.ok,
        r.error matches Some(e) && e.code == ErrorCode::PermissionDenied && e.message@ == "permission denied"@,
{
    failed_step(step, ErrorCode::PermissionDenied, "permission denied")
}

/// The result of a step's command: its reply, or `PMP_COMMAND_FAILED`.
pub fn command_result(step: &str, outcome: Option<Json>) -> (r: AutomationStepResult)
    ensures
        r.step@ == step@,
        match outcome {
            Some(v) => r.ok && (r.result matches Some(x) && x@ == v@) && r.error is None,
            None => !r.ok && (r.error matches Some(e) && e.code == ErrorCode::PmpCommandFailed && e.message@
                == "command failed"@),
        },
{
    match outcome {
        Some(v) => AutomationStepResult { step: own(step), ok: true, result: Some(v), error: None, wait_secs: None },
        None => failed_step(step, ErrorCode::PmpCommandFailed, "command failed"),
    }
}

/// The reauth risk a step's action requires.
pub fn step_reauth(action: &ActionDescriptor) -> (r: Option<ReauthRisk>)
    ensures
        r == required_reauth(action.reauth, action.risk),
{
    crate::actions::dispatch::action_reauth_risk(action)
}

/// A step's arguments `with`, completed by the run's arguments for the keys
/// it does not set (both objects; otherwise `with` unchanged).
pub open spec fn fill_missing(es: Seq<(Seq<char>, JsonV)>, run: Seq<(Seq<char>, JsonV)>) -> Seq<(Seq<char>, JsonV)>
    decreases run.len(),
{
    if run.len() == 0 {
        es
    } else {
        let prev = fill_missing(es, run.drop_last());
        if entries_get(prev, run.last().0) is Some {
            prev
        } else {
            prev.push(run.last())
        }
    }
}

pub open spec fn merged_args_spec(with: JsonV, run: JsonV) -> JsonV {
    match (with, run) {
        (JsonV::Object(es), JsonV::Object(rs)) => JsonV::Object(fill_missing(es, rs)),
        _ => with,
    }
}

proof fn lemma_entries_get_push(es: Seq<(Seq<char>, JsonV)>, x: (Seq<char>, JsonV), key: Seq<char>)
    ensures
        entries_get(es.push(x), key) == (match entries_get(es, key) {
            Some(v) => Some(v),
            None => if x.0 == key {
                Some(x.1)
            } else {
                None
            },
        }),
    decreases es.len(),
{
    if es.len() > 0 {
        assert(es.push(x)[0] == es[0]);
        assert(es.push(x).drop_first() =~= es.drop_first().push(x));
        lemma_entries_get_push(es.drop_first(), x, key);
    } else {
        assert(es.push(x)[0] == x);
        assert(es.push(x).drop_first() =~= Seq::<(Seq<char>, JsonV)>::empty());
        assert(entries_get(Seq::<(Seq<char>, JsonV)>::empty(), key) is None);
    }
}

proof fn lemma_fill_missing_get(es: Seq<(Seq<char>, JsonV)>, rs: Seq<(Seq<char>, JsonV)>, key: Seq<char>)
    ensures
        entries_get(fill_missing(es, rs), key) == (match entries_get(es, key) {
            Some(v) => Some(v),
            None => entries_get(rs, key),
        }),
    decreases rs.len(),
{
    if rs.len() > 0 {
        let prev = fill_missing(es, rs.drop_last());
        lemma_fill_missing_get(es, rs.drop_last(), key);
        lemma_fill_missing_get(es, rs.drop_last(), rs.last().0);
        lemma_entries_get_push(prev, rs.last(), key);
        assert(rs.drop_last().push(rs.last()) =~= rs);
        lemma_entries_get_push(rs.drop_last(), rs.last(), key);
    }
}

/// The arguments a step runs with, when the step's `with` and the run's
/// arguments are both objects: every member the step sets keeps the step's
/// value, every other member the run sets is taken from the run, and no
/// other member appears. Otherwise the step's `with` is used as it is.
pub proof fn lemma_merged_args_members(with: JsonV, run: JsonV, key: Seq<char>)
    ensures
        (with is Object && run is Object) ==> merged_args_spec(with, run) is Object && merged_args_spec(with, run).get(key)
            == (match with.get(key) {
            Some(v) => Some(v),
            None => run.get(key),
        }),
        !(with is Object && run is Object) ==> merged_args_spec(with, run) == with,
{
    match (with, run) {
        (JsonV::Object(es), JsonV::Object(rs)) => {
            lemma_fill_missing_get(es, rs, key);
        },
        _ => {},
    }
}

/// `with` filled in from the run's arguments.
pub fn merged_args(with: &Json, run: &Json) -> (r: Json)
    ensures
        r@ == merged_args_spec(with@, run@),
{
    match (with, run) {
        (Json::Object(es), Json::Object(rs)) => {
            proof {
                lemma_object_view(*with);
                lemma_object_view(*run);
            }
            let ghost rv = entries_view(rs@);
            let mut out: Vec<(String, Json)> = Vec::new();
            let mut k: usize = 0;
            while k < es.len()
                invariant
                    k <= es@.len(),
                    entries_view(out@) == entries_view(es@).take(k as int),
                decreases es@.len() - k,
            {
                let ghost before = entries_view(out@);
                out.push((own(es[k].0.as_str()), deep_clone(&es[k].1)));
                assert(entries_view(out@) =~= before.push(entries_view(es@)[k as int]));
                assert(entries_view(es@).take(k + 1) =~= entries_view(es@).take(k as int).push(entries_view(es@)[k as int]));
                k = k + 1;
            }
            assert(entries_view(es@).take(es@.len() as int) =~= entries_view(es@));
            let mut i: usize = 0;
            while i < rs.len()
                invariant
                    i <= rs@.len(),
                    rv == entries_view(rs@),
                    entries_view(out@) == fill_missing(entries_view(es@), rv.take(i as int)),
                decreases rs@.len() - i,
            {
                assert(rv.take(i + 1).drop_last() =~= rv.take(i as int));
                assert(rv.take(i + 1).last() == rv[i as int]);
                let present = crate::json::entry_index(&out, rs[i].0.as_str()).is_some();
                if !present {
                    let ghost before = entries_view(out@);
                    out.push((own(rs[i].0.as_str()), deep_clone(&rs[i].1)));
                    assert(entries_view(out@) =~= before.push(rv[i as int]));
                }
                i = i + 1;
            }
            assert(rv.take(rs@.len() as int) =~= rv);
            let r = Json::Object(out);
            proof {
                lemma_object_view(r);
            }
            r
        },
        _ => deep_clone(with),
    }
}

#[derive(Debug)]
/// The results of a run so far; `ok` tracks whether every step succeeded.
pub struct RunLog {
    pub results: Vec<AutomationStepResult>,
    pub ok: bool,
}

impl RunLog {
    /// Every recorded step succeeded exactly when `ok` holds.
    pub open spec fn wf(&self) -> bool {
        self.ok <==> forall|i: int| 0 <= i < self.results@.len() ==> (#[trigger] self.results@[i]).ok
    }

    pub fn new() -> (l: RunLog)
        ensures
            l.wf(),
            l.results@.len() == 0,
            l.ok,
    {
        RunLog { results: Vec::new(), ok: true }
    }

    /// Record a step result; the run should stop after a failed one.
    pub fn record(&mut self, r: AutomationStepResult) -> (stop: bool)
        requires
            old(self).wf(),
        ensures
            final(self).wf(),
            final(self).results@ == old(self).results@.push(r),
            stop == !r.ok,
    {
        let ok = r.ok;
        let ghost before = self.results@;
        self.results.push(r);
        if !ok {
            self.ok = false;
        }
        proof {
            assert(self.results@ == before.push(r));
            if self.ok {
                assert forall|i: int| 0 <= i < self.results@.len() implies (#[trigger] self.results@[i]).ok by {
                    if i < before.len() {
                        assert(self.results@[i] == before[i]);
                    }
                }
            } else {
                if !ok {
                    assert(!self.results@[before.len() as int].ok);
                } else {
                    let j = choose|j: int| 0 <= j < before.len() && !(#[trigger] before[j]).ok;
                    assert(self.results@[j] == before[j]);
                }
            }
        }
        !ok
    }

    /// `succeeded` when every step succeeded, otherwise `failed`.
    pub fn status(&self) -> (s: &'static str)
        requires
            self.wf(),
        ensures
            s@ == (if forall|i: int| 0 <= i < self.results@.len() ==> (#[trigger] self.results@[i]).ok {
                "succeeded"@
            } else {
                "failed"@
            }),
    {
        if self.ok {
            "succeeded"
        } else {
            "failed"
        }
    }
}

} // verus!
