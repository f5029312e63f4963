//! Long-running jobs: the policy registry and the runner's decisions.

pub mod registry;
pub mod runner;
pub mod params;
