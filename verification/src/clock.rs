//! Wall-clock time and RFC 3339 timestamps (through chrono).
use vstd::prelude::*;
use crate::text::opt_view;

verus! {

/// What `chrono::DateTime::parse_from_rfc3339(s)` gives, as Unix milliseconds.
pub uninterp spec fn spec_rfc3339_millis(s: Seq<char>) -> Option<i64>;

/// `chrono::DateTime::parse_from_rfc3339` followed by `timestamp_millis`:
/// the Unix time in milliseconds of an RFC 3339 date-time, or `None` where
/// chrono rejects the text. The result is named, not described.
#[verifier::external_body]
pub(crate) fn rfc3339_millis(raw: &str) -> (r: Option<i64>)
    ensures
        r == spec_rfc3339_millis(raw@),
{
    chrono::DateTime::parse_from_rfc3339(raw).ok().map(|dt| dt.timestamp_millis())
}

/// What `s.parse::<chrono::DateTime<chrono::Utc>>()` gives, as Unix milliseconds.
pub uninterp spec fn spec_utc_datetime_millis(s: Seq<char>) -> Option<i64>;

/// `str::parse::<DateTime<Utc>>` (chrono's relaxed RFC 3339, a space allowed
/// between date and time) followed by `timestamp_millis`. The result is named.
#[verifier::external_body]
pub(crate) fn utc_datetime_millis(raw: &str) -> (r: Option<i64>)
    ensures
        r == spec_utc_datetime_millis(raw@),
{
    raw.parse::<chrono::DateTime<chrono::Utc>>().ok().map(|dt| dt.timestamp_millis())
}

/// `SystemTime::now().duration_since(UNIX_EPOCH)` in whole milliseconds: the
/// current Unix time; `None` where the system clock reads before the epoch or
/// the count does not fit an `i64`. It is the time, so nothing is stated of
/// it.
#[verifier::external_body]
pub(crate) fn now_millis() -> Option<i64> {
    match std::time::SystemTime::now().duration_since(std::time::UNIX_EPOCH) {
        Ok(d) => i64::try_from(d.as_millis()).ok(),
        Err(_) => None,
    }
}

/// The message of the error given where the system clock cannot be read as
/// a Unix time.
pub open spec fn clock_failure_message() -> Seq<char> {
    "system time before Unix epoch"@
}

/// The error given where the system clock cannot be read as a Unix time.
pub fn clock_failure() -> (r: String)
    ensures
        r@ == clock_failure_message(),
{
    crate::text::owned("system time before Unix epoch")
}

/// What chrono renders for a Unix time in milliseconds: the RFC 3339 text in
/// UTC with milliseconds and a `Z` suffix; `None` where the time is outside
/// chrono's range.
pub uninterp spec fn spec_millis_rfc3339(ms: i64) -> Option<Seq<char>>;

/// `DateTime::<Utc>::from_timestamp_millis(ms)` rendered with
/// `to_rfc3339_opts(SecondsFormat::Millis, true)`; `None` where chrono has no
/// such date-time. The result is named; the Unix epoch itself is in range
/// and renders as `1970-01-01T00:00:00.000Z`.
#[verifier::external_body]
fn millis_rfc3339(ms: i64) -> (r: Option<String>)
    ensures
        opt_view(r) == spec_millis_rfc3339(ms),
        ms == 0 ==> opt_view(r) == Some("1970-01-01T00:00:00.000Z"@),
{
    match chrono::DateTime::<chrono::Utc>::from_timestamp_millis(ms) {
        Some(dt) => Some(dt.to_rfc3339_opts(chrono::SecondsFormat::Millis, true)),
        None => None,
    }
}

/// The timestamp shown for a stored time: RFC 3339 in UTC with
/// milliseconds, and the Unix epoch for a time chrono cannot represent.
pub open spec fn spec_ms_to_rfc3339(ms: i64) -> Seq<char> {
    match spec_millis_rfc3339(ms) {
        Some(s) => s,
        None => "1970-01-01T00:00:00.000Z"@,
    }
}

/// Renders a Unix time in milliseconds as an RFC 3339 timestamp.
pub fn ms_to_rfc3339(ms: i64) -> (r: String)
    ensures
        r@ == spec_ms_to_rfc3339(ms),
{
    match millis_rfc3339(ms) {
        Some(s) => s,
        None => match millis_rfc3339(0) {
            Some(s) => s,
            None => {
                proof {
                    assert(false);
                }
                String::new()
            },
        },
    }
}

} // verus!
