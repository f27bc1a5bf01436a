//! Admin sessions: the account and session records, session ids, the
//! session cookie, and whether a stored session is still good.
use vstd::prelude::*;
use rand::TryRngCore;
use crate::error::AppError;
use crate::text::{owned, opt_view};

verus! {

/// The name of the session cookie.
pub open spec fn session_cookie_name() -> Seq<char> {
    "tiny_log_session"@
}

/// The name of the session cookie.
pub fn session_cookie_name_str() -> (r: &'static str)
    ensures
        r@ == session_cookie_name(),
{
    "tiny_log_session"
}

/// The admin account.
#[derive(Debug, Clone)]
pub struct AdminUser {
    pub id: i64,
    pub username: String,
    pub password_hash: String,
    pub created_at: i64,
    pub updated_at: i64,
}

/// A stored login session; times are Unix milliseconds.
#[derive(Debug, Clone)]
pub struct Session {
    pub id: String,
    pub admin_id: i64,
    pub expires_at: i64,
    pub created_at: i64,
    pub last_seen_at: i64,
}

/// Only one admin account may be created: creating it again is a conflict.
pub fn ensure_no_admin(exists: bool) -> (r: Result<(), AppError>)
    ensures
        !exists ==> r is Ok,
        exists ==> (r matches Err(AppError::Conflict(m)) && m@ == "admin user already exists"@),
{
    if exists {
        return Err(AppError::Conflict(owned("admin user already exists")));
    }
    Ok(())
}

/// A password update that changed no row found no admin account.
pub fn password_update_result(rows_affected: u64) -> (r: Result<(), AppError>)
    ensures
        rows_affected == 0 ==> r == Err::<(), AppError>(AppError::NotFound),
        rows_affected > 0 ==> r is Ok,
{
    if rows_affected == 0 {
        return Err(AppError::NotFound);
    }
    Ok(())
}

/// The lowercase hexadecimal digit of a value below 16.
pub open spec fn hex_digit(d: u8) -> char {
    if d < 10 {
        ((d as u32) + 48) as char
    } else {
        ((d as u32) + 87) as char
    }
}

/// The lowercase hexadecimal text of some bytes, two digits per byte, high
/// digit first.
pub open spec fn spec_hex(bytes: Seq<u8>) -> Seq<char>
    decreases bytes.len(),
{
    if bytes.len() == 0 {
        Seq::empty()
    } else {
        spec_hex(bytes.drop_last()).push(hex_digit(bytes.last() / 16)).push(
            hex_digit(bytes.last() % 16),
        )
    }
}

/// `hex::encode`: lowercase hexadecimal, two digits per byte in order, as
/// its source writes them from the table `0123456789abcdef`.
#[verifier::external_body]
fn hex_encode(bytes: &[u8]) -> (r: String)
    ensures
        r@ == spec_hex(bytes@),
{
    hex::encode(bytes)
}

/// `TryRngCore::try_fill_bytes` of `rand::rngs::OsRng` on a buffer of `n`
/// zero bytes: `n` bytes from the operating system's random source, or the
/// error's `Display` text where that source fails. Only the length is
/// stated: the bytes are random.
#[verifier::external_body]
fn random_bytes(n: usize) -> (r: Result<Vec<u8>, String>)
    ensures
        r matches Ok(b) ==> b@.len() == n,
{
    let mut bytes = vec![0u8; n];
    match rand::rngs::OsRng.try_fill_bytes(&mut bytes) {
        Ok(()) => Ok(bytes),
        Err(e) => Err(e.to_string()),
    }
}

/// Bytes of randomness in a session id.
pub const SESSION_ID_BYTES: usize = 32;

/// A new session id: 32 random bytes as 64 lowercase hexadecimal digits.
/// Where the system's random source fails, an internal error whose message
/// starts with `random source failed: `.
pub fn generate_session_id() -> (r: Result<String, AppError>)
    ensures
        r matches Ok(s) ==> exists|b: Seq<u8>| b.len() == SESSION_ID_BYTES && s@ == spec_hex(b),
        r matches Err(e) ==> (e matches AppError::Internal(m) && m@.len() >= 22 && m@.take(22)
            == "random source failed: "@),
{
    let bytes = match random_bytes(SESSION_ID_BYTES) {
        Ok(b) => b,
        Err(e) => {
            let m = crate::text::concat("random source failed: ", e.as_str());
            proof {
                reveal_strlit("random source failed: ");
                assert(m@.take(22) =~= "random source failed: "@);
            }
            return Err(AppError::internal(m.as_str()));
        },
    };
    let r = hex_encode(bytes.as_slice());
    assert(bytes@.len() == SESSION_ID_BYTES && r@ == spec_hex(bytes@));
    Ok(r)
}

/// The hex text of `n` bytes has `2n` characters, each a lowercase hex digit.
pub proof fn law_hex_shape(bytes: Seq<u8>)
    ensures
        spec_hex(bytes).len() == 2 * bytes.len(),
        forall|i: int| 0 <= i < spec_hex(bytes).len() ==> {
            let c = #[trigger] spec_hex(bytes)[i];
            ('0' <= c && c <= '9') || ('a' <= c && c <= 'f')
        },
    decreases bytes.len(),
{
    if bytes.len() > 0 {
        law_hex_shape(bytes.drop_last());
        let hi = bytes.last() / 16;
        let lo = bytes.last() % 16;
        assert(hi < 16 && lo < 16);
    }
}

/// Milliseconds in a day.
pub const DAY_MS: i64 = 86_400_000;

/// When a session made at `now_ms` for `session_days` days expires.
pub open spec fn spec_session_expiry(now_ms: i64, session_days: i64) -> int {
    now_ms + session_days * DAY_MS
}

/// The expiry of a new session. The arithmetic must stay within `i64`.
pub fn session_expires_at(now_ms: i64, session_days: i64) -> (r: i64)
    requires
        i64::MIN <= session_days * DAY_MS <= i64::MAX,
        i64::MIN <= spec_session_expiry(now_ms, session_days) <= i64::MAX,
    ensures
        r == spec_session_expiry(now_ms, session_days),
{
    now_ms + session_days * DAY_MS
}

/// What the session cookie is set to. The caller turns it into a
/// `Set-Cookie` header.
#[derive(Debug, Clone)]
pub struct CookieSpec {
    pub name: String,
    pub value: String,
    pub http_only: bool,
    /// `SameSite=Lax`.
    pub same_site_lax: bool,
    pub path: String,
    pub max_age_secs: i64,
    pub secure: bool,
}

/// Seconds in a day.
pub const DAY_SECS: i64 = 86_400;

/// A session cookie: `HttpOnly`, `SameSite=Lax`, path `/`, lasting
/// `max_age_days`, and `Secure` where asked.
pub open spec fn cookie_matches(c: CookieSpec, value: Seq<char>, secure: bool, max_age_secs: int) -> bool {
    &&& c.name@ == session_cookie_name()
    &&& c.value@ == value
    &&& c.http_only
    &&& c.same_site_lax
    &&& c.path@ == "/"@
    &&& c.max_age_secs == max_age_secs
    &&& c.secure == secure
}

/// The cookie that carries a session token. The age in seconds must stay
/// within `i64` (a `time::Duration` of that many days).
pub fn session_cookie(token: &str, secure: bool, max_age_days: i64) -> (r: CookieSpec)
    requires
        i64::MIN <= max_age_days * DAY_SECS <= i64::MAX,
    ensures
        cookie_matches(r, token@, secure, max_age_days * DAY_SECS),
{
    CookieSpec {
        name: owned(session_cookie_name_str()),
        value: owned(token),
        http_only: true,
        same_site_lax: true,
        path: owned("/"),
        max_age_secs: max_age_days * DAY_SECS,
        secure,
    }
}

/// The cookie that clears the session: empty, and expired at once.
pub fn clear_session_cookie(secure: bool) -> (r: CookieSpec)
    ensures
        cookie_matches(r, Seq::empty(), secure, 0),
{
    proof {
        reveal_strlit("");
        assert(""@ =~= Seq::<char>::empty());
    }
    CookieSpec {
        name: owned(session_cookie_name_str()),
        value: owned(""),
        http_only: true,
        same_site_lax: true,
        path: owned("/"),
        max_age_secs: 0,
        secure,
    }
}

/// The session token a cookie value gives: a present, non-empty value.
pub open spec fn spec_session_token(cookie: Option<Seq<char>>) -> Option<Seq<char>> {
    match cookie {
        Some(v) => if v.len() > 0 {
            Some(v)
        } else {
            None
        },
        None => None,
    }
}

/// Reads the session token from the value of the session cookie, if any.
pub fn session_token(cookie: Option<&str>) -> (r: Option<String>)
    ensures
        opt_view(r) == spec_session_token(
            match cookie {
                Some(v) => Some(v@),
                None => None,
            },
        ),
{
    match cookie {
        Some(v) => {
            if v.unicode_len() > 0 {
                Some(owned(v))
            } else {
                None
            }
        },
        None => None,
    }
}

/// Whether the request carries a non-empty session cookie.
pub fn has_session_cookie(cookie: Option<&str>) -> (r: bool)
    ensures
        r == (spec_session_token(
            match cookie {
                Some(v) => Some(v@),
                None => None,
            },
        ) is Some),
{
    session_token(cookie).is_some()
}

/// Where a looked-up session stands.
#[derive(Debug, Clone, Copy, PartialEq, Eq, Structural)]
pub enum SessionState {
    /// No session has that id.
    Missing,
    /// The session expired before `now`: it is deleted and refused.
    Expired,
    /// The session is good at `now`.
    Live,
}

/// A session is expired once its expiry lies before `now`.
pub open spec fn spec_session_state(session: Option<Session>, now_ms: i64) -> SessionState {
    match session {
        None => SessionState::Missing,
        Some(s) => if s.expires_at < now_ms {
            SessionState::Expired
        } else {
            SessionState::Live
        },
    }
}

/// Classifies a looked-up session at time `now_ms`.
pub fn session_state(session: &Option<Session>, now_ms: i64) -> (r: SessionState)
    ensures
        r == spec_session_state(*session, now_ms),
{
    match session {
        None => SessionState::Missing,
        Some(s) => if s.expires_at < now_ms {
            SessionState::Expired
        } else {
            SessionState::Live
        },
    }
}

/// A session made at `now` lives until its expiry and not after: it is live
/// at every time up to the expiry and expired at every later time.
pub proof fn law_session_lifetime(s: Session, t: i64)
    ensures
        t <= s.expires_at ==> spec_session_state(Some(s), t) == SessionState::Live,
        t > s.expires_at ==> spec_session_state(Some(s), t) == SessionState::Expired,
{
}

} // verus!
