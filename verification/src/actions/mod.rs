//! Composable management actions: descriptors, the seeded registry, the
//! executor's routing rules and the authorization decisions of a request.

pub mod types;
pub mod registry;
pub mod executor;
pub mod dispatch;
