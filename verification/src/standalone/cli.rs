//! The single-database server's command line.
use vstd::prelude::*;
use crate::server::cli::AdminCommand;

verus! {

/// What the program is asked to do.
#[derive(Debug, Clone, Copy, PartialEq, Eq, Structural)]
pub enum Commands {
    /// Start the HTTP server.
    Serve,
    /// Run database migrations.
    Migrate,
    /// Admin account management.
    Admin { command: AdminCommand },
}

/// The parsed command line.
#[derive(Debug, Clone, Copy, PartialEq, Eq, Structural)]
pub struct Cli {
    pub command: Commands,
}

} // verus!
