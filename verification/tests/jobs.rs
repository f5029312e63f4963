use ppb_server::auth::reauth::ReauthRisk;
use ppb_server::error::ErrorCode;
use ppb_server::jobs::params::{AdminTaskListParams, JobListParams};
use ppb_server::jobs::registry::{CancelMode, JobExecutor, JobRegistry};
use ppb_server::jobs::runner::{cancel_decision, dispatch_result, start_descriptor};

#[test]
fn seeds_are_present_and_fixed() {
    let reg = JobRegistry::new();
    let apply = reg.get("pmp.update.apply").unwrap();
    assert_eq!(apply.permission, "server:update");
    assert_eq!(apply.reauth, Some(ReauthRisk::Critical));
    assert_eq!(apply.resource_key, Some("server"));
    assert_eq!(apply.executor, JobExecutor::FixedCli("update apply"));
    assert_eq!(apply.cancel_mode, CancelMode::BeforeDispatch);
    assert!(apply.retryable);

    assert_eq!(reg.get("pmp.update.check").unwrap().executor, JobExecutor::FixedCli("update check"));
    assert_eq!(reg.get("pmp.update.cancel").unwrap().executor, JobExecutor::FixedCli("update cancel"));
    assert_eq!(reg.get("pmp.update.force").unwrap().executor, JobExecutor::FixedCli("update force"));
}

#[test]
fn update_jobs_share_server_resource_key() {
    let reg = JobRegistry::new();
    for id in ["pmp.update.check", "pmp.update.apply", "pmp.update.cancel", "pmp.update.force"] {
        assert_eq!(reg.get(id).unwrap().resource_key, Some("server"), "{id} must share server key");
    }
}

#[test]
fn stubs_are_not_implemented() {
    let reg = JobRegistry::new();
    assert_eq!(reg.get("ppf.build").unwrap().executor, JobExecutor::NotImplemented);
    assert_eq!(reg.get("backup").unwrap().executor, JobExecutor::NotImplemented);
}

#[test]
fn unknown_job_type_refused() {
    let reg = JobRegistry::new();
    let e = start_descriptor(&reg, "rm -rf").unwrap_err();
    assert_eq!(e.code, ErrorCode::JobTypeUnknown);
}

#[test]
fn only_queued_jobs_cancel() {
    assert!(cancel_decision(CancelMode::BeforeDispatch, "queued").is_ok());
    assert!(cancel_decision(CancelMode::BeforeDispatch, "running").is_err());
}

#[test]
fn stub_job_never_succeeds() {
    let reg = JobRegistry::new();
    let stub = reg.get("backup").unwrap();
    assert!(dispatch_result(stub, Ok(())).is_err());
}

#[test]
fn job_list_paging_clamps() {
    let p = JobListParams { page: Some(0), page_num: Some(500) };
    assert_eq!(p.paging(), (1, 100));
    let d = JobListParams { page: None, page_num: None };
    assert_eq!(d.paging(), (1, 50));
}

#[test]
fn admin_task_status_filter() {
    let ok = AdminTaskListParams { page: Some(2), page_num: Some(300), status: Some("pending".to_string()) };
    assert_eq!(ok.paging().unwrap(), (2, 200));
    let bad = AdminTaskListParams { page: None, page_num: None, status: Some("done".to_string()) };
    assert_eq!(bad.paging().unwrap_err().message, "status must be pending or completed");
}
