//! The monitoring agent: probes, configuration and the decisions around them.
pub mod load;
pub mod config;
pub mod checks;
pub mod docker;
pub mod push;
pub mod procfs;
pub mod host;
