//! Authentication: principal and client types, reauth contexts, the login
//! gateway's redirect rules and login page, legal consent, root credentials, sessions and
//! the GitHub OAuth flow.

pub mod types;
pub mod reauth;
pub mod gateway;
pub mod login_page;
pub mod consent;
pub mod root;
pub mod session;
pub mod jwt;
pub mod github;
pub mod callback;
pub mod requests;
