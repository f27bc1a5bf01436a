pub mod text;
pub mod num;
pub mod agent;
pub mod server;
pub mod clock;
pub mod error;
pub mod flags;
pub mod paths;
pub mod auth;
pub mod standalone;
