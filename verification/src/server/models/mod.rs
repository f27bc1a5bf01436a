//! Request and record types of the server.
pub mod log;
pub mod metrics;
