//! Job policy registry: the single source of a job's permission, reauth,
//! resource key, cancel mode and executor. Every job runs a server-fixed
//! command (or is a stub); clients never supply CLI text.

use vstd::prelude::*;
use crate::auth::reauth::ReauthRisk;
use crate::text::str_eq;

verus! {

/// How a job is executed.
#[derive(Clone, Copy, Debug, PartialEq, Eq)]
pub enum JobExecutor {
    /// Server-side fixed CLI command.
    FixedCli(&'static str),
    /// Not yet implemented; terminates `not_implemented`, never `succeeded`.
    NotImplemented,
}

/// Model of a job executor.
pub enum JobExecutorV {
    FixedCli(Seq<char>),
    NotImplemented,
}

pub open spec fn executor_view(e: JobExecutor) -> JobExecutorV {
    match e {
        JobExecutor::FixedCli(c) => JobExecutorV::FixedCli(c@),
        JobExecutor::NotImplemented => JobExecutorV::NotImplemented,
    }
}

/// When a job may be cancelled.
#[derive(Clone, Copy, Debug, PartialEq, Eq, Structural)]
pub enum CancelMode {
    /// Only while still queued (before the command is dispatched).
    BeforeDispatch,
}

/// Model of a job descriptor.
pub struct JobSpec {
    pub id: Seq<char>,
    pub permission: Seq<char>,
    pub reauth: Option<ReauthRisk>,
    pub resource_key: Option<Seq<char>>,
    pub retryable: bool,
    pub cancel_mode: CancelMode,
    pub executor: JobExecutorV,
    pub stage: Seq<char>,
    pub terminal: Seq<char>,
}

/// One job descriptor: everything create / retry / cancel read from.
#[derive(Clone, Copy, Debug)]
pub struct JobDescriptor {
    pub id: &'static str,
    pub permission: &'static str,
    /// Reauth risk required to create/retry; `None` = no reauth.
    pub reauth: Option<ReauthRisk>,
    /// Jobs sharing a key are mutually exclusive (one active at a time).
    pub resource_key: Option<&'static str>,
    pub retryable: bool,
    pub cancel_mode: CancelMode,
    pub executor: JobExecutor,
    /// Running stage published before dispatch.
    pub stage: &'static str,
    /// Terminal stage reported on success.
    pub terminal: &'static str,
}

impl View for JobDescriptor {
    type V = JobSpec;

    open spec fn view(&self) -> JobSpec {
        JobSpec {
            id: self.id@,
            permission: self.permission@,
            reauth: self.reauth,
            resource_key: match self.resource_key {
                Some(k) => Some(k@),
                None => None,
            },
            retryable: self.retryable,
            cancel_mode: self.cancel_mode,
            executor: executor_view(self.executor),
            stage: self.stage@,
            terminal: self.terminal@,
        }
    }
}

pub open spec fn spec_job(
    id: Seq<char>,
    permission: Seq<char>,
    reauth: Option<ReauthRisk>,
    resource_key: Seq<char>,
    retryable: bool,
    executor: JobExecutorV,
    stage: Seq<char>,
    terminal: Seq<char>,
) -> JobSpec {
    JobSpec {
        id,
        permission,
        reauth,
        resource_key: Some(resource_key),
        retryable,
        cancel_mode: CancelMode::BeforeDispatch,
        executor,
        stage,
        terminal,
    }
}

/// The seeded jobs, in seed order.
pub open spec fn job_seeds() -> Seq<JobSpec> {
    seq![
        spec_job("pmp.update.check"@, "server:update"@, None, "server"@, true, JobExecutorV::FixedCli("update check"@), "checking"@, "checked"@),
        spec_job("pmp.update.apply"@, "server:update"@, Some(ReauthRisk::Critical), "server"@, true, JobExecutorV::FixedCli("update apply"@), "executing_pmp_update"@, "completed"@),
        spec_job("pmp.update.cancel"@, "server:update"@, None, "server"@, false, JobExecutorV::FixedCli("update cancel"@), "cancelling_update"@, "completed"@),
        spec_job("pmp.update.force"@, "server:update"@, Some(ReauthRisk::Critical), "server"@, false, JobExecutorV::FixedCli("update force"@), "forcing_update"@, "completed"@),
        spec_job("ppf.build"@, "server:manage"@, None, "ppf"@, false, JobExecutorV::NotImplemented, "building"@, "not_implemented"@),
        spec_job("backup"@, "server:manage"@, None, "server"@, false, JobExecutorV::NotImplemented, "backing-up"@, "not_implemented"@),
    ]
}

/// No two seeded jobs share an id.
pub proof fn lemma_job_ids_distinct()
    ensures
        forall|i: int, j: int| 0 <= i < j < job_seeds().len() ==> job_seeds()[i].id != job_seeds()[j].id,
{
    reveal_strlit("pmp.update.check");
    reveal_strlit("pmp.update.apply");
    reveal_strlit("pmp.update.cancel");
    reveal_strlit("pmp.update.force");
    reveal_strlit("ppf.build");
    reveal_strlit("backup");
    assert("pmp.update.check"@.len() == 16);
    assert("pmp.update.apply"@.len() == 16);
    assert("pmp.update.cancel"@.len() == 17);
    assert("pmp.update.force"@.len() == 16);
    assert("ppf.build"@.len() == 9);
    assert("backup"@.len() == 6);
    assert("pmp.update.apply"@[11] != "pmp.update.check"@[11]);
    assert("pmp.update.force"@[11] != "pmp.update.check"@[11]);
    assert("pmp.update.force"@[11] != "pmp.update.apply"@[11]);
}

pub open spec fn job_specs(s: Seq<JobDescriptor>) -> Seq<JobSpec> {
    Seq::new(s.len(), |i: int| s[i]@)
}

fn job(
    id: &'static str,
    permission: &'static str,
    reauth: Option<ReauthRisk>,
    resource_key: &'static str,
    retryable: bool,
    executor: JobExecutor,
    stage: &'static str,
    terminal: &'static str,
) -> (d: JobDescriptor)
    ensures
        d@ == spec_job(id@, permission@, reauth, resource_key@, retryable, executor_view(executor), stage@, terminal@),
{
    JobDescriptor {
        id,
        permission,
        reauth,
        resource_key: Some(resource_key),
        retryable,
        cancel_mode: CancelMode::BeforeDispatch,
        executor,
        stage,
        terminal,
    }
}

/// The seeded jobs. The `pmp.update.*` jobs share resource key `server`, so
/// an update check/apply/cancel/force never overlap.
pub fn seed_jobs() -> (v: Vec<JobDescriptor>)
    ensures
        job_specs(v@) == job_seeds(),
{
    let mut v: Vec<JobDescriptor> = Vec::new();
    v.push(job("pmp.update.check", "server:update", None, "server", true, JobExecutor::FixedCli("update check"), "checking", "checked"));
    v.push(job("pmp.update.apply", "server:update", Some(ReauthRisk::Critical), "server", true, JobExecutor::FixedCli("update apply"), "executing_pmp_update", "completed"));
    v.push(job("pmp.update.cancel", "server:update", None, "server", false, JobExecutor::FixedCli("update cancel"), "cancelling_update", "completed"));
    v.push(job("pmp.update.force", "server:update", Some(ReauthRisk::Critical), "server", false, JobExecutor::FixedCli("update force"), "forcing_update", "completed"));
    v.push(job("ppf.build", "server:manage", None, "ppf", false, JobExecutor::NotImplemented, "building", "not_implemented"));
    v.push(job("backup", "server:manage", None, "server", false, JobExecutor::NotImplemented, "backing-up", "not_implemented"));
    assert(job_specs(v@) =~= job_seeds());
    v
}

/// The first job with id `id`.
pub open spec fn lookup_job(s: Seq<JobSpec>, id: Seq<char>) -> Option<JobSpec>
    decreases s.len(),
{
    if s.len() == 0 {
        None
    } else if s[0].id == id {
        Some(s[0])
    } else {
        lookup_job(s.drop_first(), id)
    }
}

proof fn lemma_lookup_job_skip(s: Seq<JobSpec>, id: Seq<char>, i: int)
    requires
        0 <= i <= s.len(),
        forall|j: int| 0 <= j < i ==> (#[trigger] s[j]).id != id,
    ensures
        lookup_job(s, id) == lookup_job(s.subrange(i, s.len() as int), id),
    decreases i,
{
    if i == 0 {
        assert(s.subrange(0, s.len() as int) =~= s);
    } else {
        assert(s[0].id != id);
        assert(s.drop_first().subrange(i - 1, s.drop_first().len() as int) =~= s.subrange(i, s.len() as int));
        assert forall|j: int| 0 <= j < i - 1 implies (#[trigger] s.drop_first()[j]).id != id by {
            assert(s.drop_first()[j] == s[j + 1]);
        }
        lemma_lookup_job_skip(s.drop_first(), id, i - 1);
    }
}

/// The update jobs are mutually exclusive on the `server` key, run fixed
/// commands, and the destructive ones (apply, force) need a critical reauth;
/// the stubs never run anything.
pub proof fn lemma_job_policies()
    ensures
        forall|i: int| 0 <= i < 4 ==> (#[trigger] job_seeds()[i]).resource_key == Some("server"@)
            && job_seeds()[i].executor is FixedCli,
        job_seeds()[1].reauth == Some(ReauthRisk::Critical),
        job_seeds()[3].reauth == Some(ReauthRisk::Critical),
        job_seeds()[4].executor is NotImplemented,
        job_seeds()[5].executor is NotImplemented,
        forall|i: int| 0 <= i < job_seeds().len() ==> (#[trigger] job_seeds()[i]).cancel_mode == CancelMode::BeforeDispatch,
{
}

#[derive(Debug)]
/// Registry of jobs keyed by id.
pub struct JobRegistry {
    jobs: Vec<JobDescriptor>,
}

impl View for JobRegistry {
    type V = Seq<JobSpec>;

    closed spec fn view(&self) -> Seq<JobSpec> {
        job_specs(self.jobs@)
    }
}

impl JobRegistry {
    /// The registry of the seeded jobs.
    pub fn new() -> (r: JobRegistry)
        ensures
            r@ == job_seeds(),
    {
        JobRegistry { jobs: seed_jobs() }
    }

    /// The job with id `id`, if any.
    pub fn get(&self, id: &str) -> (r: Option<&JobDescriptor>)
        ensures
            match r {
                Some(d) => lookup_job(self@, id@) == Some(d@),
                None => lookup_job(self@, id@) is None,
            },
    {
        let ghost s = self@;
        let n = self.jobs.len();
        let mut i: usize = 0;
        while i < n
            invariant
                n == self.jobs@.len(),
                s == job_specs(self.jobs@),
                i <= n,
                forall|j: int| 0 <= j < i ==> (#[trigger] s[j]).id != id@,
            decreases n - i,
        {
            if str_eq(self.jobs[i].id, id) {
                proof {
                    lemma_lookup_job_skip(s, id@, i as int);
                    assert(s.subrange(i as int, s.len() as int)[0] == s[i as int]);
                }
                return Some(&self.jobs[i]);
            }
            assert(s[i as int].id != id@);
            i = i + 1;
        }
        proof {
            lemma_lookup_job_skip(s, id@, n as int);
            assert(s.subrange(n as int, n as int).len() == 0);
        }
        None
    }
}

} // verus!
