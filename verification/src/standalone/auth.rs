//! The admin check of the single-database server: every UI and read
//! endpoint needs the admin's session, unless logins are switched off.
use vstd::prelude::*;
use crate::auth::session::{AdminUser, Session, spec_session_token, session_token};
use crate::auth::tokens::{opt_str_view, require_token, spec_token_accepted};
use crate::error::AppError;
use crate::standalone::config::Config;
use crate::text::{opt_view, owned};

verus! {

/// The admin a request acts as.
#[derive(Debug, Clone)]
pub struct AuthUser {
    pub admin: AdminUser,
    /// The session presented; empty when logins are switched off.
    pub session_id: String,
}

/// With logins switched off, the admin account (if any) is the caller.
pub fn open_access(admin: Option<AdminUser>) -> (r: Result<AuthUser, AppError>)
    ensures
        match admin {
            Some(a) => r matches Ok(u) && u.admin == a && u.session_id@.len() == 0,
            None => r == Err::<AuthUser, AppError>(AppError::Unauthorized),
        },
{
    proof {
        reveal_strlit("");
    }
    match admin {
        Some(a) => Ok(AuthUser { admin: a, session_id: owned("") }),
        None => Err(AppError::Unauthorized),
    }
}

/// The session token a request must present; unauthorized without one.
pub fn required_token(cookie: Option<&str>) -> (r: Result<String, AppError>)
    ensures
        match spec_session_token(opt_str_view(cookie)) {
            Some(t) => r matches Ok(s) && s@ == t,
            None => r == Err::<String, AppError>(AppError::Unauthorized),
        },
{
    match session_token(cookie) {
        Some(t) => Ok(t),
        None => Err(AppError::Unauthorized),
    }
}

/// Binds a live session to the admin account: the session must belong to
/// the admin that exists.
pub fn bind_session(admin: Option<AdminUser>, session: &Session, token: String) -> (r: Result<AuthUser, AppError>)
    ensures
        match admin {
            Some(a) if a.id == session.admin_id => r matches Ok(u) && u.admin == a && u.session_id@
                == token@,
            _ => r == Err::<AuthUser, AppError>(AppError::Unauthorized),
        },
{
    match admin {
        Some(a) => {
            if a.id != session.admin_id {
                return Err(AppError::Unauthorized);
            }
            Ok(AuthUser { admin: a, session_id: token })
        },
        None => Err(AppError::Unauthorized),
    }
}

/// Requires the configured API key as the bearer token.
pub fn require_api_key(config: &Config, authorization: Option<&str>) -> (r: Result<(), AppError>)
    ensures
        r is Ok <==> spec_token_accepted(opt_view(config.api_key), opt_str_view(authorization)),
        r is Err ==> r == Err::<(), AppError>(AppError::Unauthorized),
{
    require_token(&config.api_key, authorization)
}

/// Requires the configured browser client token as the bearer token.
pub fn require_client_token(config: &Config, authorization: Option<&str>) -> (r: Result<(), AppError>)
    ensures
        r is Ok <==> spec_token_accepted(opt_view(config.client_token), opt_str_view(authorization)),
        r is Err ==> r == Err::<(), AppError>(AppError::Unauthorized),
{
    require_token(&config.client_token, authorization)
}

} // verus!
