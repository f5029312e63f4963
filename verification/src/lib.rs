//! Phira+ backend core: the verified decision and formatting logic of the
//! PPB server (errors, pagination, auth gateway rules, CSRF, cookies, rate
//! limiting, action/job registries, log structuring and config validation).

pub mod text;
pub mod json;
pub mod digest;
pub mod codec;
pub mod error;
pub mod clock;
pub mod auth;
pub mod actions;
pub mod commands;
pub mod jobs;
pub mod pagination;
pub mod logs;
pub mod config;
pub mod middleware;
pub mod audit;
pub mod automation;
pub mod deployment;
pub mod join_intent;
pub mod metrics;
pub mod admin;
pub mod live;
pub mod account;
pub mod notifications;
pub mod identities;
