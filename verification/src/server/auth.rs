//! Who may use the server's UI and API: the admin check with its first-run
//! and anonymous modes, session checks, and the ingest tokens.
use vstd::prelude::*;
use crate::auth::session::{AdminUser, Session, SessionState, session_state, spec_session_state, spec_session_token, session_token};
use crate::auth::tokens::{opt_str_view, require_token, spec_token_accepted};
use crate::error::AppError;
use crate::server::config::Config;
use crate::text::{opt_view, owned};

verus! {

/// The caller of a UI or read endpoint.
#[derive(Debug, Clone)]
pub struct AuthUser {
    /// The admin account, if one exists.
    pub admin: Option<AdminUser>,
    /// The session the caller presented; empty when none was needed.
    pub session_id: String,
    /// No admin account exists yet: the first-run setup is open.
    pub setup_required: bool,
}

impl AuthUser {
    /// The admin's user name, if there is an admin.
    pub fn username(&self) -> (r: Option<&str>)
        ensures
            opt_str_view(r) == match self.admin {
                Some(a) => Some(a.username@),
                None => None,
            },
    {
        match &self.admin {
            Some(a) => Some(a.username.as_str()),
            None => None,
        }
    }
}

/// The first step of the admin check.
#[derive(Debug)]
pub enum AdminAccess {
    /// Let the caller in as this user.
    Granted(AuthUser),
    /// Refuse the caller.
    Denied(AppError),
    /// Look up the session with this token, then finish with
    /// `session_verdict`.
    CheckSession(String),
}

/// What the first step of the admin check decides, given the admin account, the
/// mode and the session cookie's value: with no admin the setup is open;
/// in anonymous mode everyone is let in; otherwise a non-empty session
/// cookie is needed.
pub open spec fn admin_access_matches(
    g: AdminAccess,
    admin: Option<AdminUser>,
    anonymous: bool,
    cookie: Option<Seq<char>>,
) -> bool {
    match admin {
        None => g matches AdminAccess::Granted(u) && u.admin is None && u.session_id@.len() == 0
            && u.setup_required,
        Some(a) => if anonymous {
            g matches AdminAccess::Granted(u) && u.admin == Some(a) && u.session_id@.len() == 0
                && !u.setup_required
        } else {
            match spec_session_token(cookie) {
                Some(t) => g matches AdminAccess::CheckSession(tok) && tok@ == t,
                None => g matches AdminAccess::Denied(e) && e == AppError::Unauthorized,
            }
        },
    }
}

/// The first step of admin authentication, before any session lookup.
pub fn admin_access(admin: Option<AdminUser>, anonymous: bool, cookie: Option<&str>) -> (g: AdminAccess)
    ensures
        admin_access_matches(g, admin, anonymous, opt_str_view(cookie)),
{
    proof {
        reveal_strlit("");
    }
    match admin {
        None => AdminAccess::Granted(
            AuthUser { admin: None, session_id: owned(""), setup_required: true },
        ),
        Some(a) => {
            if anonymous {
                return AdminAccess::Granted(
                    AuthUser { admin: Some(a), session_id: owned(""), setup_required: false },
                );
            }
            match session_token(cookie) {
                Some(t) => AdminAccess::CheckSession(t),
                None => AdminAccess::Denied(AppError::Unauthorized),
            }
        },
    }
}

/// What to do with the presented session afterwards.
#[derive(Debug, Clone, Copy, PartialEq, Eq, Structural)]
pub enum SessionAction {
    /// Leave it as it is.
    Keep,
    /// Delete it: it has expired.
    Delete,
    /// Record that it was seen now.
    Touch,
}

/// What the session check decides: a missing session is refused, an
/// expired one is deleted and refused, one that belongs to another account
/// is refused, and a good one is touched and lets the admin in.
pub open spec fn session_verdict_matches(
    r: (Result<AuthUser, AppError>, SessionAction),
    admin: Option<AdminUser>,
    token: Seq<char>,
    session: Option<Session>,
    now_ms: i64,
) -> bool {
    match spec_session_state(session, now_ms) {
        SessionState::Missing => r == (Err::<AuthUser, AppError>(AppError::Unauthorized), SessionAction::Keep),
        SessionState::Expired => r == (Err::<AuthUser, AppError>(AppError::Unauthorized), SessionAction::Delete),
        SessionState::Live => match admin {
            Some(a) if a.id == session.unwrap().admin_id => r.1 == SessionAction::Touch && (r.0 matches Ok(
                u,
            ) && u.admin == Some(a) && u.session_id@ == token && !u.setup_required),
            _ => r == (Err::<AuthUser, AppError>(AppError::Unauthorized), SessionAction::Keep),
        },
    }
}

/// Finishes the admin check once the session with `token` was looked up.
pub fn session_verdict(admin: Option<AdminUser>, token: String, session: Option<Session>, now_ms: i64) -> (r: (
    Result<AuthUser, AppError>,
    SessionAction,
))
    ensures
        session_verdict_matches(r, admin, token@, session, now_ms),
{
    match session_state(&session, now_ms) {
        SessionState::Missing => (Err(AppError::Unauthorized), SessionAction::Keep),
        SessionState::Expired => (Err(AppError::Unauthorized), SessionAction::Delete),
        SessionState::Live => {
            let owner = match &session {
                Some(s) => s.admin_id,
                None => 0,
            };
            match admin {
                Some(a) => {
                    if a.id != owner {
                        return (Err(AppError::Unauthorized), SessionAction::Keep);
                    }
                    (
                        Ok(AuthUser { admin: Some(a), session_id: token, setup_required: false }),
                        SessionAction::Touch,
                    )
                },
                None => (Err(AppError::Unauthorized), SessionAction::Keep),
            }
        },
    }
}

/// Who passes the stricter check of operations that need a real admin
/// account (a password change): not during setup; in anonymous mode, any
/// caller once an admin exists; otherwise a caller with a session.
pub open spec fn spec_logged_in(user: AuthUser, anonymous: bool) -> bool {
    if user.setup_required {
        false
    } else if anonymous {
        user.admin is Some
    } else {
        user.session_id@.len() > 0 && user.admin is Some
    }
}

/// Requires a real admin account on top of the admin check.
pub fn require_logged_in_admin(user: AuthUser, anonymous: bool) -> (r: Result<AuthUser, AppError>)
    ensures
        spec_logged_in(user, anonymous) ==> r == Ok::<AuthUser, AppError>(user),
        !spec_logged_in(user, anonymous) ==> r == Err::<AuthUser, AppError>(AppError::Unauthorized),
{
    if user.setup_required {
        return Err(AppError::Unauthorized);
    }
    if anonymous {
        if user.admin.is_some() {
            return Ok(user);
        }
        return Err(AppError::Unauthorized);
    }
    if user.session_id.unicode_len() == 0 || user.admin.is_none() {
        return Err(AppError::Unauthorized);
    }
    Ok(user)
}

/// Requires the configured API key (agents and log ingest) as the bearer
/// token of the request's `Authorization` value.
pub fn require_api_key(config: &Config, authorization: Option<&str>) -> (r: Result<(), AppError>)
    ensures
        r is Ok <==> spec_token_accepted(opt_view(config.api_key), opt_str_view(authorization)),
        r is Err ==> r == Err::<(), AppError>(AppError::Unauthorized),
{
    require_token(&config.api_key, authorization)
}

/// Requires the configured browser client token as the bearer token.
pub fn require_client_token(config: &Config, authorization: Option<&str>) -> (r: Result<(), AppError>)
    ensures
        r is Ok <==> spec_token_accepted(opt_view(config.client_token), opt_str_view(authorization)),
        r is Err ==> r == Err::<(), AppError>(AppError::Unauthorized),
{
    require_token(&config.client_token, authorization)
}

/// A request without a session cookie never gets past the admin check in login
/// mode once an admin exists.
pub proof fn law_login_mode_needs_cookie(a: AdminUser, g: AdminAccess)
    requires
        admin_access_matches(g, Some(a), false, None),
    ensures
        g matches AdminAccess::Denied(e) && e == AppError::Unauthorized,
{
}

/// An expired session is deleted and refused, whoever it belongs to.
pub proof fn law_expired_session_refused(
    r: (Result<AuthUser, AppError>, SessionAction),
    admin: Option<AdminUser>,
    token: Seq<char>,
    s: Session,
    now_ms: i64,
)
    requires
        s.expires_at < now_ms,
        session_verdict_matches(r, admin, token, Some(s), now_ms),
    ensures
        r.0 is Err,
        r.1 == SessionAction::Delete,
{
}

/// Whoever the admin check lets in through a session is the admin who owns it.
pub proof fn law_session_binds_owner(
    r: (Result<AuthUser, AppError>, SessionAction),
    admin: Option<AdminUser>,
    token: Seq<char>,
    s: Session,
    now_ms: i64,
)
    requires
        session_verdict_matches(r, admin, token, Some(s), now_ms),
        r.0 is Ok,
    ensures
        admin matches Some(a) && a.id == s.admin_id,
        s.expires_at >= now_ms,
        r.1 == SessionAction::Touch,
{
}

} // verus!
