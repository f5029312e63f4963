//! HTTP middleware rules: cookies, CSRF, rate limiting, request ids and
//! credential extraction.

pub mod cookies;
pub mod csrf;
pub mod rate_limit;
pub mod request_id;
pub mod auth;
