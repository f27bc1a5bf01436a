//! The decisions of the single-database server's API: logging in, changing
//! settings, and changing the password.
use vstd::prelude::*;
use crate::auth::password::{
    MIN_PASSWORD_LEN, byte_len, hash_password, hashes_to, short_password_message, spec_argon2_verifies,
    spec_phc_parses, verify_password,
};
use crate::auth::session::AdminUser;
use crate::auth::tokens::constant_time_eq;
use crate::error::{AppError, is_bad_request};
use crate::server::settings::Settings;
use crate::server::state::{LoginLimiter, cleaned, spec_allowed, spec_record_failure};
use crate::text::str_eq;

verus! {

/// The body of a login request.
#[derive(Debug, Clone)]
pub struct LoginRequest {
    pub username: String,
    pub password: String,
}

/// Distinct texts have distinct UTF-8 encodings.
proof fn lemma_utf8_injective(a: Seq<char>, b: Seq<char>)
    ensures
        (vstd::utf8::encode_utf8(a) == vstd::utf8::encode_utf8(b)) == (a == b),
{
    vstd::utf8::encode_utf8_decode_utf8(a);
    vstd::utf8::encode_utf8_decode_utf8(b);
}

/// Compares two texts by their bytes in constant time.
fn same_text(a: &str, b: &str) -> (r: bool)
    ensures
        r == (a@ == b@),
{
    proof {
        lemma_utf8_injective(a@, b@);
    }
    constant_time_eq(a.as_bytes(), b.as_bytes())
}

/// The first step of a login from client `ip`: a client with five recent
/// failures is refused as too many requests. The limiter reads its clock
/// and forgets windows older than ten minutes.
pub fn admit_login(limiter: &mut LoginLimiter, ip: &str) -> (r: Result<(), AppError>)
    ensures
        exists|t: u128|
            #![trigger cleaned(old(limiter).view(), t)]
            final(limiter).view() == cleaned(old(limiter).view(), t) && (if spec_allowed(
                old(limiter).view(),
                ip@,
                t,
            ) {
                r is Ok
            } else {
                r == Err::<(), AppError>(AppError::TooManyRequests)
            }),
{
    if !limiter.check_allowed(ip) {
        return Err(AppError::TooManyRequests);
    }
    Ok(())
}

/// Checks an admitted login from client `ip` against the admin account
/// (looked up after admission). A failed login (no account, wrong name or
/// wrong password) is counted against the client and answered
/// unauthorized; a stored hash that cannot be read is an internal error and
/// counts nothing; a good login clears the client's failures and gives the
/// admin. Name and password are both checked whatever the other gives.
pub fn check_login(limiter: &mut LoginLimiter, ip: &str, admin: Option<AdminUser>, body: &LoginRequest) -> (r:
    Result<AdminUser, AppError>)
    ensures
        match admin {
            None => r == Err::<AdminUser, AppError>(AppError::Unauthorized) && exists|t: u128|
                final(limiter).view() == #[trigger] spec_record_failure(old(limiter).view(), ip@, t),
            Some(a) => if !spec_phc_parses(a.password_hash@) {
                r matches Err(AppError::Internal(_)) && final(limiter).view() == old(limiter).view()
            } else if a.username@ == body.username@ && spec_argon2_verifies(
                body.password@,
                a.password_hash@,
            ) {
                r == Ok::<AdminUser, AppError>(a) && final(limiter).view() == old(limiter).view().remove(
                    ip@,
                )
            } else {
                r == Err::<AdminUser, AppError>(AppError::Unauthorized) && exists|t: u128|
                    final(limiter).view() == #[trigger] spec_record_failure(old(limiter).view(), ip@, t)
            },
        },
{
    let a = match admin {
        Some(a) => a,
        None => {
            limiter.record_failure(ip);
            return Err(AppError::Unauthorized);
        },
    };
    let username_ok = same_text(a.username.as_str(), body.username.as_str());
    let password_ok = match verify_password(body.password.as_str(), a.password_hash.as_str()) {
        Ok(b) => b,
        Err(e) => return Err(e),
    };
    if !(username_ok && password_ok) {
        limiter.record_failure(ip);
        return Err(AppError::Unauthorized);
    }
    limiter.clear(ip);
    Ok(a)
}

/// A settings change the single-database server accepts: a retention of
/// 1 to 3650 days and a session length of at least one day.
#[derive(Debug, Clone, Copy, PartialEq, Eq, Structural)]
pub struct UpdateSettings {
    pub retention_days: Option<i64>,
    pub session_days: Option<i64>,
}

/// One stored setting to write.
#[derive(Debug, Clone, Copy, PartialEq, Eq, Structural)]
pub enum SettingWrite {
    RetentionDays(i64),
    SessionDays(i64),
}

/// What a settings change does: the writes, in order, that happen before
/// the first invalid field, and the error of that field, if any. Retention
/// is checked and written before the session length.
pub open spec fn spec_settings_update(body: UpdateSettings) -> (Seq<SettingWrite>, Option<Seq<char>>) {
    match body.retention_days {
        Some(d) if !(1 <= d <= 3650) => (Seq::empty(), Some("retention_days must be between 1 and 3650"@)),
        _ => {
            let first: Seq<SettingWrite> = match body.retention_days {
                Some(d) => seq![SettingWrite::RetentionDays(d)],
                None => Seq::empty(),
            };
            match body.session_days {
                Some(s) if s < 1 => (first, Some("session_days must be at least 1"@)),
                Some(s) => (first.push(SettingWrite::SessionDays(s)), None),
                None => (first, None),
            }
        },
    }
}

/// The writes a settings change makes and the bad request that stops it,
/// if any (writes before the bad field are still made, as they come first).
pub fn settings_update(body: UpdateSettings) -> (r: (Vec<SettingWrite>, Option<AppError>))
    ensures
        r.0@ == spec_settings_update(body).0,
        match spec_settings_update(body).1 {
            Some(m) => r.1 matches Some(e) && is_bad_request(e, m),
            None => r.1 is None,
        },
{
    let mut writes: Vec<SettingWrite> = Vec::new();
    match body.retention_days {
        Some(d) => {
            if !(1 <= d && d <= 3650) {
                return (writes, Some(AppError::bad_request("retention_days must be between 1 and 3650")));
            }
            writes.push(SettingWrite::RetentionDays(d));
        },
        None => {},
    }
    match body.session_days {
        Some(s) => {
            if s < 1 {
                return (writes, Some(AppError::bad_request("session_days must be at least 1")));
            }
            writes.push(SettingWrite::SessionDays(s));
        },
        None => {},
    }
    (writes, None)
}

/// The settings after some writes.
pub open spec fn apply_writes(s: Settings, writes: Seq<SettingWrite>) -> Settings
    decreases writes.len(),
{
    if writes.len() == 0 {
        s
    } else {
        let t = apply_writes(s, writes.drop_last());
        match writes.last() {
            SettingWrite::RetentionDays(d) => Settings { retention_days: d, ..t },
            SettingWrite::SessionDays(d) => Settings { session_days: d, ..t },
        }
    }
}

/// Applies the writes to the settings shown back to the client.
pub fn apply_setting_writes(s: Settings, writes: &Vec<SettingWrite>) -> (r: Settings)
    ensures
        r == apply_writes(s, writes@),
{
    let mut out = s;
    let mut i: usize = 0;
    while i < writes.len()
        invariant
            i <= writes@.len(),
            out == apply_writes(s, writes@.take(i as int)),
        decreases writes@.len() - i,
    {
        assert(writes@.take(i + 1).drop_last() =~= writes@.take(i as int));
        match writes[i] {
            SettingWrite::RetentionDays(d) => {
                out.retention_days = d;
            },
            SettingWrite::SessionDays(d) => {
                out.session_days = d;
            },
        }
        i = i + 1;
    }
    assert(writes@.take(writes@.len() as int) =~= writes@);
    out
}

/// An accepted settings change leaves the settings within their bounds.
pub proof fn law_accepted_settings_in_bounds(s: Settings, body: UpdateSettings)
    requires
        1 <= s.retention_days <= 3650,
        s.session_days >= 1,
        spec_settings_update(body).1 is None,
    ensures
        1 <= apply_writes(s, spec_settings_update(body).0).retention_days <= 3650,
        apply_writes(s, spec_settings_update(body).0).session_days >= 1,
{
    let w = spec_settings_update(body).0;
    let e = Seq::<SettingWrite>::empty();
    match body.retention_days {
        Some(d) => {
            let one = seq![SettingWrite::RetentionDays(d)];
            assert(one.drop_last() =~= e);
            assert(apply_writes(s, e) == s);
            assert(apply_writes(s, one) == Settings { retention_days: d, ..s });
            assert(1 <= d <= 3650);
            match body.session_days {
                Some(x) => {
                    assert(w =~= one.push(SettingWrite::SessionDays(x)));
                    assert(w.drop_last() =~= one);
                },
                None => {
                    assert(w =~= one);
                },
            }
        },
        None => {
            match body.session_days {
                Some(x) => {
                    assert(w =~= e.push(SettingWrite::SessionDays(x)));
                    assert(w.drop_last() =~= e);
                    assert(apply_writes(s, e) == s);
                },
                None => {
                    assert(w =~= e);
                },
            }
        },
    }
}

/// What hashing a new password can give: a bad request for one shorter
/// than twelve bytes; otherwise a hash of it or an internal error.
pub open spec fn new_hash_outcome(r: Result<String, AppError>, password: Seq<char>) -> bool {
    if byte_len(password) < MIN_PASSWORD_LEN {
        r matches Err(e) && is_bad_request(e, short_password_message())
    } else {
        (r matches Ok(h) && hashes_to(password, h@)) || r matches Err(AppError::Internal(_))
    }
}

/// A request to change the admin password.
#[derive(Debug, Clone)]
pub struct ChangePasswordRequest {
    pub current_password: String,
    pub new_password: String,
    pub confirm_password: String,
}

/// Checks a password change and hashes the new password. The two new
/// passwords must match (else a bad request), and a stored hash that cannot
/// be read is an internal error; a wrong current password is unauthorized,
/// and a new password shorter than twelve bytes a bad request.
pub fn change_password(admin: &AdminUser, body: &ChangePasswordRequest) -> (r: Result<String, AppError>)
    ensures
        body.new_password@ != body.confirm_password@ ==> (r matches Err(e) && is_bad_request(
            e,
            "passwords do not match"@,
        )),
        body.new_password@ == body.confirm_password@ && !spec_phc_parses(admin.password_hash@) ==> (
        r matches Err(AppError::Internal(_))),
        body.new_password@ == body.confirm_password@ && spec_phc_parses(admin.password_hash@)
            && !spec_argon2_verifies(body.current_password@, admin.password_hash@) ==> r == Err::<
            String,
            AppError,
        >(AppError::Unauthorized),
        body.new_password@ == body.confirm_password@ && spec_phc_parses(admin.password_hash@)
            && spec_argon2_verifies(body.current_password@, admin.password_hash@) ==> new_hash_outcome(
            r,
            body.new_password@,
        ),
{
    if !str_eq(body.new_password.as_str(), body.confirm_password.as_str()) {
        return Err(AppError::bad_request("passwords do not match"));
    }
    let ok = match verify_password(body.current_password.as_str(), admin.password_hash.as_str()) {
        Ok(b) => b,
        Err(e) => return Err(e),
    };
    if !ok {
        return Err(AppError::Unauthorized);
    }
    hash_password(body.new_password.as_str())
}

} // verus!
