//! Query and body shapes of the job and admin-task endpoints, and their
//! paging rules.

use vstd::prelude::*;
use crate::error::{ApiError, ErrorCode, params_doc, visible_message};
use crate::text::{own, str_eq};

verus! {

#[derive(Debug)]
/// Query of the job list.
pub struct JobListParams {
    pub page: Option<i64>,
    /// Page size (`pageNum` on the wire).
    pub page_num: Option<i64>,
}

#[derive(Debug)]
/// Body of a job start: the job type only, never CLI text.
pub struct CreateJobBody {
    pub job_type: String,
}

#[derive(Debug)]
/// Query of the admin task list.
pub struct AdminTaskListParams {
    pub page: Option<i64>,
    /// Page size (`pageNum` on the wire).
    pub page_num: Option<i64>,
    /// `pending` or `completed`.
    pub status: Option<String>,
}

/// `v` (or `default`) clamped to `lo..=hi`.
pub open spec fn clamped(v: Option<i64>, default: i64, lo: i64, hi: i64) -> i64 {
    let x = match v {
        Some(x) => x,
        None => default,
    };
    if x < lo {
        lo
    } else if x > hi {
        hi
    } else {
        x
    }
}

/// The page asked for (default 1, at least 1).
pub open spec fn page_of(page: Option<i64>) -> i64 {
    match page {
        Some(p) => if p < 1 {
            1
        } else {
            p
        },
        None => 1,
    }
}

fn clamp_or(v: Option<i64>, default: i64, lo: i64, hi: i64) -> (r: i64)
    requires
        lo <= hi,
    ensures
        r == clamped(v, default, lo, hi),
{
    let x = match v {
        Some(x) => x,
        None => default,
    };
    if x < lo {
        lo
    } else if x > hi {
        hi
    } else {
        x
    }
}

fn page_or_first(page: Option<i64>) -> (r: i64)
    ensures
        r == page_of(page),
{
    match page {
        Some(p) => if p < 1 {
            1
        } else {
            p
        },
        None => 1,
    }
}

impl JobListParams {
    /// `(page, page size)`: page at least 1, size 1..=100 (default 50).
    pub fn paging(&self) -> (r: (i64, i64))
        ensures
            r == (page_of(self.page), clamped(self.page_num, 50, 1, 100)),
    {
        (page_or_first(self.page), clamp_or(self.page_num, 50, 1, 100))
    }
}

/// The admin-task status filter: absent, or `pending` / `completed`.
pub open spec fn task_status_accepted(status: Option<Seq<char>>) -> bool {
    match status {
        Some(s) => s == "pending"@ || s == "completed"@,
        None => true,
    }
}

impl AdminTaskListParams {
    /// `(page, page size)`: page at least 1, size 1..=200 (default 50); a
    /// status other than `pending` or `completed` is refused.
    pub fn paging(&self) -> (r: Result<(i64, i64), ApiError>)
        ensures
            task_status_accepted(
                match self.status {
                    Some(s) => Some(s@),
                    None => None,
                },
            ) ==> r == Ok::<(i64, i64), ApiError>((page_of(self.page), clamped(self.page_num, 50, 1, 200))),
            !task_status_accepted(
                match self.status {
                    Some(s) => Some(s@),
                    None => None,
                },
            ) ==> (r matches Err(e) && e.code == ErrorCode::ValidationFailed && e.message@
                == "status must be pending or completed"@),
    {
        let page = page_or_first(self.page);
        let n = clamp_or(self.page_num, 50, 1, 200);
        match &self.status {
            Some(s) => if !(str_eq(s.as_str(), "pending") || str_eq(s.as_str(), "completed")) {
                return Err(ApiError::new(ErrorCode::ValidationFailed, "status must be pending or completed"));
            },
            None => {},
        }
        Ok((page, n))
    }
}

/// The row offset of `page` at `n` rows per page.
pub fn page_offset(page: i64, n: i64) -> (r: i64)
    requires
        page >= 1,
        n >= 1,
        (page - 1) * n <= i64::MAX,
    ensures
        r == (page - 1) * n,
{
    (page - 1) * n
}

} // verus!
