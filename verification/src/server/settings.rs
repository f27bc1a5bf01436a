//! Runtime settings kept in the system database (retention and session
//! lengths), the request bodies that change them, and retention cutoffs.
use vstd::prelude::*;
use crate::error::AppError;
use crate::num::{format_i64, parse_i64, signed_decimal, spec_parse_i64};
use crate::text::concat;

verus! {

/// The settings in force.
#[derive(Debug, Clone, Copy, PartialEq, Eq, Structural)]
pub struct Settings {
    pub retention_days: i64,
    pub session_days: i64,
    pub metrics_retention_days: i64,
}

/// A change of settings; absent fields stay as they are.
#[derive(Debug, Clone, Copy, PartialEq, Eq, Structural)]
pub struct UpdateSettings {
    pub retention_days: Option<i64>,
    pub session_days: Option<i64>,
    pub metrics_retention_days: Option<i64>,
}

/// A request to change the admin password.
#[derive(Debug, Clone)]
pub struct ChangePasswordRequest {
    pub current_password: String,
    pub new_password: String,
    pub confirm_password: String,
}

/// The first-run request that creates the admin account.
#[derive(Debug, Clone)]
pub struct SetupRequest {
    pub username: String,
    pub password: String,
    pub confirm_password: String,
}

/// Metrics are kept this many days unless set otherwise.
pub const DEFAULT_METRICS_RETENTION_DAYS: i64 = 14;

/// How a setting is stored: its decimal text.
pub fn setting_text(v: i64) -> (r: String)
    ensures
        r@ == signed_decimal(v as int),
{
    format_i64(v)
}

/// What a stored setting reads as: a missing one, or one that is not an
/// integer, is an internal error naming the key.
pub open spec fn read_setting_matches(r: Result<i64, AppError>, key: Seq<char>, raw: Option<Seq<char>>) -> bool {
    match raw {
        None => r matches Err(AppError::Internal(m)) && m@ == "missing setting "@ + key,
        Some(v) => match spec_parse_i64(v) {
            Some(n) => r == Ok::<i64, AppError>(n),
            None => r matches Err(AppError::Internal(m)) && m@ == "invalid setting "@ + key,
        },
    }
}

/// Reads the stored text of setting `key` (`None` where the row is missing).
pub fn read_setting(key: &str, raw: Option<&str>) -> (r: Result<i64, AppError>)
    ensures
        read_setting_matches(
            r,
            key@,
            match raw {
                Some(v) => Some(v@),
                None => None,
            },
        ),
{
    match raw {
        None => {
            let m = concat("missing setting ", key);
            Err(AppError::internal(m.as_str()))
        },
        Some(v) => match parse_i64(v) {
            Some(n) => Ok(n),
            None => {
                let m = concat("invalid setting ", key);
                Err(AppError::internal(m.as_str()))
            },
        },
    }
}

/// The settings from the three stored values: the retention and session
/// lengths must be readable (the first failure is reported); the metrics
/// retention falls back to 14 days.
pub open spec fn settings_from_matches(
    r: Result<Settings, AppError>,
    retention: Result<i64, AppError>,
    session: Result<i64, AppError>,
    metrics: Result<i64, AppError>,
) -> bool {
    match (retention, session) {
        (Err(e), _) => r == Err::<Settings, AppError>(e),
        (Ok(_), Err(e)) => r == Err::<Settings, AppError>(e),
        (Ok(rd), Ok(sd)) => r == Ok::<Settings, AppError>(
            Settings {
                retention_days: rd,
                session_days: sd,
                metrics_retention_days: match metrics {
                    Ok(m) => m,
                    Err(_) => DEFAULT_METRICS_RETENTION_DAYS,
                },
            },
        ),
    }
}

/// Assembles the settings from what was read for each of them.
pub fn settings_from(
    retention: Result<i64, AppError>,
    session: Result<i64, AppError>,
    metrics: Result<i64, AppError>,
) -> (r: Result<Settings, AppError>)
    ensures
        settings_from_matches(r, retention, session, metrics),
{
    let retention_days = match retention {
        Ok(v) => v,
        Err(e) => return Err(e),
    };
    let session_days = match session {
        Ok(v) => v,
        Err(e) => return Err(e),
    };
    let metrics_retention_days = match metrics {
        Ok(v) => v,
        Err(_) => DEFAULT_METRICS_RETENTION_DAYS,
    };
    Ok(Settings { retention_days, session_days, metrics_retention_days })
}

/// Counts of rows removed by one retention run.
#[derive(Debug, Clone, Copy, PartialEq, Eq, Structural)]
pub struct CleanupResult {
    pub logs_deleted: u64,
    pub metrics_deleted: u64,
}

/// Milliseconds in a day.
pub const DAY_MS: i64 = 86_400_000;

/// Rows older than this are removed when `days` of them are kept.
pub open spec fn spec_retention_cutoff(now_ms: i64, days: i64) -> int {
    now_ms - days * DAY_MS
}

/// The cutoff of a retention run at `now_ms`. The arithmetic must stay
/// within `i64`.
pub fn retention_cutoff(now_ms: i64, days: i64) -> (r: i64)
    requires
        i64::MIN <= days * DAY_MS <= i64::MAX,
        i64::MIN <= spec_retention_cutoff(now_ms, days) <= i64::MAX,
    ensures
        r == spec_retention_cutoff(now_ms, days),
{
    now_ms - days * DAY_MS
}

/// Keeping more days never removes more: a longer retention gives an
/// earlier cutoff.
pub proof fn law_cutoff_monotone(now_ms: i64, d1: i64, d2: i64)
    requires
        d1 <= d2,
    ensures
        spec_retention_cutoff(now_ms, d2) <= spec_retention_cutoff(now_ms, d1),
{
    assert(d1 * DAY_MS <= d2 * DAY_MS) by (nonlinear_arith)
        requires
            d1 <= d2,
    ;
}

/// A stored setting reads back as the value written.
pub proof fn law_setting_round_trip(v: i64)
    ensures
        spec_parse_i64(signed_decimal(v as int)) == Some(v),
{
    crate::num::law_parse_format_i64(v);
}

/// The stored metrics retention is what the settings say: a value `m`
/// written (as `setting_text` stores it) and read back gives settings whose
/// metrics retention is `m`, with the other two as read; the default of 14
/// days stands only where the stored value cannot be read.
pub proof fn law_metrics_retention_read_back(
    r: Result<Settings, AppError>,
    retention_days: i64,
    session_days: i64,
    key: Seq<char>,
    m: i64,
    read: Result<i64, AppError>,
)
    requires
        read_setting_matches(read, key, Some(signed_decimal(m as int))),
        settings_from_matches(r, Ok(retention_days), Ok(session_days), read),
    ensures
        r matches Ok(s) && s.metrics_retention_days == m && s.retention_days == retention_days
            && s.session_days == session_days,
{
    crate::num::law_parse_format_i64(m);
}

/// Where the metrics retention reads as `m`, the settings carry `m`; where
/// it cannot be read, they carry 14 days.
pub proof fn law_metrics_retention_default(
    r: Result<Settings, AppError>,
    retention_days: i64,
    session_days: i64,
    metrics: Result<i64, AppError>,
)
    requires
        settings_from_matches(r, Ok(retention_days), Ok(session_days), metrics),
    ensures
        metrics matches Ok(m) ==> (r matches Ok(s) && s.metrics_retention_days == m),
        metrics is Err ==> (r matches Ok(s) && s.metrics_retention_days == 14),
{
}

} // verus!
