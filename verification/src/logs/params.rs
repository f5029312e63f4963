//! Request and response shapes of the log endpoints.

use vstd::prelude::*;
use crate::logs::parse::LogEntry;
use crate::logs::translator::TranslatedError;
use crate::text::own;

verus! {

#[derive(Debug)]
/// Query of the history endpoint.
pub struct LogParams {
    pub limit: Option<u64>,
    pub page: Option<i64>,
    pub page_num: Option<i64>,
}

/// The raw history window requested from PMP: `limit` (2000 when absent),
/// clamped to `1..=2000`.
pub fn history_window(limit: Option<u64>) -> (w: u64)
    ensures
        w == (match limit {
            Some(l) => if l < 1 { 1 } else if l > 2000 { 2000 } else { l },
            None => 2000,
        }),
{
    match limit {
        Some(l) => if l < 1 { 1 } else if l > 2000 { 2000 } else { l },
        None => 2000,
    }
}

#[derive(Debug)]
/// Paginated structured log list.
pub struct LogListResponse {
    pub items: Vec<LogEntry>,
    pub total: i64,
    pub page: i64,
    pub page_num: i64,
}

#[derive(Debug)]
/// A console command submitted through the log input endpoint.
pub struct LogInputBody {
    pub command: String,
}

#[derive(Debug)]
/// Translation response `{code, translated}`.
pub struct TranslateResponse {
    pub code: String,
    pub translated: Option<TranslatedError>,
}

#[derive(Debug)]
/// Translate request: `{code}`, with `{error_code}` accepted as a fallback.
pub struct TranslateParams {
    pub code: Option<String>,
    pub error_code: Option<String>,
}

impl TranslateParams {
    /// `code`, else `error_code`, else empty.
    pub fn code(&self) -> (c: String)
        ensures
            c@ == (match self.code {
                Some(x) => x@,
                None => match self.error_code {
                    Some(y) => y@,
                    None => Seq::empty(),
                },
            }),
    {
        match &self.code {
            Some(x) => own(x.as_str()),
            None => match &self.error_code {
                Some(y) => own(y.as_str()),
                None => String::new(),
            },
        }
    }
}

} // verus!
