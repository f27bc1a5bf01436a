//! Authentication shared by the servers: passwords, sessions and tokens.
pub mod password;
pub mod session;
pub mod tokens;
