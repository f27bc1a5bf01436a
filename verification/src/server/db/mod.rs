//! What the database layer decides before and after it queries.
pub mod logs;
pub mod metrics;
