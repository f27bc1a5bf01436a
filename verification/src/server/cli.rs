//! The server's command line: its commands and the rules the admin
//! commands apply to what is typed in.
use vstd::prelude::*;
use crate::text::{owned, str_eq, trim, trim_seq};

verus! {

/// Admin account management.
#[derive(Debug, Clone, Copy, PartialEq, Eq, Structural)]
pub enum AdminCommand {
    /// Create the admin account.
    Create,
    /// Change the admin password.
    Passwd,
    /// Show admin account info.
    Info,
}

/// What the program is asked to do.
#[derive(Debug, Clone, Copy, PartialEq, Eq, Structural)]
pub enum Commands {
    /// Start the HTTP server.
    Serve,
    /// Run database migrations.
    Migrate,
    /// Admin account management.
    Admin { command: AdminCommand },
}

/// The parsed command line.
#[derive(Debug, Clone, Copy, PartialEq, Eq, Structural)]
pub struct Cli {
    pub command: Commands,
}

/// The user name to create: the typed name without surrounding whitespace,
/// which must not be empty.
pub fn check_new_username(typed: &str) -> (r: Result<String, String>)
    ensures
        trim_seq(typed@).len() > 0 ==> (r matches Ok(u) && u@ == trim_seq(typed@)),
        trim_seq(typed@).len() == 0 ==> (r matches Err(m) && m@ == "username is required"@),
{
    let u = trim(typed);
    if u.unicode_len() == 0 {
        return Err(owned("username is required"));
    }
    Ok(u)
}

/// A new password must be typed the same twice.
pub fn check_passwords_match(password: &str, confirm: &str) -> (r: Result<(), String>)
    ensures
        password@ == confirm@ ==> r is Ok,
        password@ != confirm@ ==> (r matches Err(m) && m@ == "passwords do not match"@),
{
    if !str_eq(password, confirm) {
        return Err(owned("passwords do not match"));
    }
    Ok(())
}

/// The admin account must not exist yet when it is created.
pub fn check_admin_absent(exists: bool) -> (r: Result<(), String>)
    ensures
        !exists ==> r is Ok,
        exists ==> (r matches Err(m) && m@ == "admin user already exists"@),
{
    if exists {
        return Err(owned("admin user already exists"));
    }
    Ok(())
}

/// A password change needs the current password.
pub fn check_current_password(matches: bool) -> (r: Result<(), String>)
    ensures
        matches ==> r is Ok,
        !matches ==> (r matches Err(m) && m@ == "current password is incorrect"@),
{
    if !matches {
        return Err(owned("current password is incorrect"));
    }
    Ok(())
}

} // verus!
