//! The login limiter, shared with the three-database server.
pub use crate::server::state::LoginLimiter;
