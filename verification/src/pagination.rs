//! Pagination: request `page` (1-based) and `pageNum` (page size, at most
//! 100); responses `{items, total, page, pageNum}`.

use vstd::prelude::*;
use crate::error::{ApiError, ErrorCode};

verus! {

/// Maximum allowed page size.
pub const MAX_PAGE_NUM: i64 = 100;

/// Default page size.
pub const DEFAULT_PAGE_NUM: i64 = 20;

#[derive(Debug)]
/// Query-string pagination parameters.
pub struct PaginationParams {
    pub page: Option<i64>,
    pub page_num: Option<i64>,
}

impl Default for PaginationParams {
    fn default() -> (p: PaginationParams)
        ensures
            p.page is None,
            p.page_num is None,
    {
        PaginationParams { page: None, page_num: None }
    }
}

/// The page a request asks for: `page`, at least 1 (1 when absent).
pub open spec fn resolved_page(page: Option<i64>) -> i64 {
    match page {
        Some(p) => if p < 1 { 1 } else { p },
        None => 1,
    }
}

/// The page size a request asks for (20 when absent).
pub open spec fn requested_page_num(page_num: Option<i64>) -> i64 {
    match page_num {
        Some(n) => n,
        None => DEFAULT_PAGE_NUM,
    }
}

/// The SQL offset of a resolved page.
pub open spec fn page_offset(page: i64, page_num: i64) -> int {
    (page - 1) * page_num
}

impl PaginationParams {
    /// `(page, pageNum)`, refusing a page size outside `1..=100`.
    pub fn resolve(&self) -> (r: Result<(i64, i64), ApiError>)
        ensures
            1 <= requested_page_num(self.page_num) <= MAX_PAGE_NUM ==> r == Ok::<(i64, i64), ApiError>(
                (resolved_page(self.page), requested_page_num(self.page_num)),
            ),
            !(1 <= requested_page_num(self.page_num) <= MAX_PAGE_NUM) ==> (r matches Err(e) && e.code
                == ErrorCode::ValidationFailed && e.message@ == "pageNum must be between 1 and 100"@),
    {
        let page = match self.page {
            Some(p) => if p < 1 { 1 } else { p },
            None => 1,
        };
        let page_num = match self.page_num {
            Some(n) => n,
            None => DEFAULT_PAGE_NUM,
        };
        if !(1 <= page_num && page_num <= MAX_PAGE_NUM) {
            return Err(ApiError::new(ErrorCode::ValidationFailed, "pageNum must be between 1 and 100"));
        }
        Ok((page, page_num))
    }

    /// `(offset, limit)` for SQL OFFSET/LIMIT; the offset must fit an `i64`.
    pub fn offset_limit(&self) -> (r: Result<(i64, i64), ApiError>)
        requires
            page_offset(resolved_page(self.page), requested_page_num(self.page_num)) <= i64::MAX,
        ensures
            1 <= requested_page_num(self.page_num) <= MAX_PAGE_NUM ==> r == Ok::<(i64, i64), ApiError>(
                (
                    page_offset(resolved_page(self.page), requested_page_num(self.page_num)) as i64,
                    requested_page_num(self.page_num),
                ),
            ),
            !(1 <= requested_page_num(self.page_num) <= MAX_PAGE_NUM) ==> (r matches Err(e) && e.code
                == ErrorCode::ValidationFailed && e.message@ == "pageNum must be between 1 and 100"@),
    {
        let (page, page_num) = self.resolve()?;
        assert(0 <= (page - 1) * page_num) by (nonlinear_arith)
            requires
                page >= 1,
                page_num >= 1,
        ;
        Ok(((page - 1) * page_num, page_num))
    }
}

/// Offsets of consecutive pages are one page size apart, starting at 0.
pub proof fn lemma_offsets_tile(page: i64, page_num: i64)
    requires
        1 <= page < i64::MAX,
        1 <= page_num <= MAX_PAGE_NUM,
    ensures
        page_offset(1, page_num) == 0,
        page_offset(page, page_num) >= 0,
        page_offset((page + 1) as i64, page_num) == page_offset(page, page_num) + page_num,
{
    assert((page - 1) * page_num >= 0) by (nonlinear_arith)
        requires
            page >= 1,
            page_num >= 1,
    ;
    assert(((page + 1) - 1) * page_num == (page - 1) * page_num + page_num) by (nonlinear_arith);
}

#[derive(Debug)]
/// Standard paginated response body.
pub struct Page<T> {
    pub items: Vec<T>,
    pub total: i64,
    pub page: i64,
    pub page_num: i64,
}

impl<T> Page<T> {
    pub fn new(items: Vec<T>, total: i64, page: i64, page_num: i64) -> (p: Page<T>)
        ensures
            p.items@ == items@,
            p.total == total,
            p.page == page,
            p.page_num == page_num,
    {
        Page { items, total, page, page_num }
    }
}

/// A list endpoint's paging: `page` at least 1, `pageNum` defaulted and
/// clamped to `1..=max`.
pub open spec fn clamped_paging(page: Option<i64>, page_num: Option<i64>, default: i64, max: i64) -> (i64, i64) {
    let n = match page_num {
        Some(n) => n,
        None => default,
    };
    (resolved_page(page), if n < 1 { 1 } else if n > max { max } else { n })
}

/// `(page, pageNum, offset)` of a list endpoint.
pub fn list_paging(page: Option<i64>, page_num: Option<i64>, default: i64, max: i64) -> (r: (i64, i64, i64))
    requires
        1 <= max,
        page_offset(clamped_paging(page, page_num, default, max).0, clamped_paging(page, page_num, default, max).1)
            <= i64::MAX,
    ensures
        (r.0, r.1) == clamped_paging(page, page_num, default, max),
        r.2 == page_offset(r.0, r.1),
{
    let p = match page {
        Some(p) => if p < 1 { 1 } else { p },
        None => 1,
    };
    let n0 = match page_num {
        Some(n) => n,
        None => default,
    };
    let n = if n0 < 1 { 1 } else if n0 > max { max } else { n0 };
    assert(0 <= (p - 1) * n) by (nonlinear_arith)
        requires
            p >= 1,
            n >= 1,
    ;
    (p, n, (p - 1) * n)
}

} // verus!
