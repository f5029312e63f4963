//! Runtime configuration: the settings the server reads, their defaults and
//! the sanity rules a configuration must satisfy.

pub mod runtime;
pub mod deployment;
pub mod pmp;
pub mod values;
