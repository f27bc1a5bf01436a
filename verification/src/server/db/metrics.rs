//! Metrics ingest and history: what is checked and normalised around the
//! database writes and reads.
use vstd::prelude::*;
use crate::agent::load::{hint_from_label, recommend_from_label, LoadHint, Recommend};
use crate::clock::{clock_failure, clock_failure_message, now_millis, rfc3339_millis, spec_rfc3339_millis};
use crate::error::{AppError, is_bad_request};
use crate::num::{parse_i64, spec_parse_i64};
use crate::server::db::logs::{page_limit, parse_bound, spec_page_limit, spec_parse_bound};
use crate::server::models::metrics::MetricsHistoryQuery;
use crate::text::{concat, opt_view, spec_to_lowercase, str_eq, to_lowercase, trim, trim_seq};

verus! {

/// Largest number of service checks in one batch.
pub const MAX_SERVICES: usize = 200;

/// A stored load hint: trimmed, lowercased, and one of the three labels.
pub open spec fn spec_normalize_load_hint(raw: Option<Seq<char>>) -> Option<Seq<char>> {
    match raw {
        Some(r) => {
            let v = spec_to_lowercase(trim_seq(r));
            if hint_from_label(v) is Some {
                Some(v)
            } else {
                None
            }
        },
        None => None,
    }
}

/// A stored recommendation: trimmed, lowercased, and one of the four labels.
pub open spec fn spec_normalize_recommend(raw: Option<Seq<char>>) -> Option<Seq<char>> {
    match raw {
        Some(r) => {
            let v = spec_to_lowercase(trim_seq(r));
            if recommend_from_label(v) is Some {
                Some(v)
            } else {
                None
            }
        },
        None => None,
    }
}

/// The load hint a service reported, kept only where it is a known label.
pub fn normalize_load_hint(raw: Option<&str>) -> (r: Option<String>)
    ensures
        opt_view(r) == spec_normalize_load_hint(match raw {
            Some(s) => Some(s@),
            None => None,
        }),
{
    match raw {
        Some(s) => {
            let t = trim(s);
            let v = to_lowercase(t.as_str());
            if LoadHint::from_label(v.as_str()).is_some() {
                Some(v)
            } else {
                None
            }
        },
        None => None,
    }
}

/// The recommendation a service reported, kept only where it is a known label.
pub fn normalize_recommend(raw: Option<&str>) -> (r: Option<String>)
    ensures
        opt_view(r) == spec_normalize_recommend(match raw {
            Some(s) => Some(s@),
            None => None,
        }),
{
    match raw {
        Some(s) => {
            let t = trim(s);
            let v = to_lowercase(t.as_str());
            if Recommend::from_label(v.as_str()).is_some() {
                Some(v)
            } else {
                None
            }
        },
        None => None,
    }
}

/// The textual fields of a reported service check.
#[derive(Debug, Clone)]
pub struct ServiceCheckFields {
    pub name: String,
    pub kind: String,
    pub status: String,
    pub load_hint: Option<String>,
    pub recommend: Option<String>,
}

/// The textual fields of a service check as stored.
#[derive(Debug, Clone, PartialEq, Eq)]
pub struct NormalizedCheck {
    pub name: String,
    pub kind: String,
    pub status: String,
    pub load_hint: Option<String>,
    pub recommend: Option<String>,
}

/// An accepted status: `up`, `down` or `unknown`.
pub open spec fn is_valid_status(s: Seq<char>) -> bool {
    s == "up"@ || s == "down"@ || s == "unknown"@
}

/// What checking one reported service check gives: a check without a name
/// is skipped (`Ok(None)`); the status must be `up`, `down` or `unknown`
/// after trimming and lowercasing; kind, status, hint and recommendation are
/// stored trimmed and lowercased.
pub open spec fn normalize_matches(f: ServiceCheckFields, r: Result<Option<NormalizedCheck>, AppError>) -> bool {
    let name = trim_seq(f.name@);
    let status = spec_to_lowercase(trim_seq(f.status@));
    if name.len() == 0 {
        r == Ok::<Option<NormalizedCheck>, AppError>(None)
    } else if !is_valid_status(status) {
        r matches Err(e) && is_bad_request(e, "invalid status: "@ + status)
    } else {
        r matches Ok(Some(c)) && c.name@ == name && c.kind@ == spec_to_lowercase(trim_seq(f.kind@))
            && c.status@ == status && opt_view(c.load_hint) == spec_normalize_load_hint(
            opt_view(f.load_hint),
        ) && opt_view(c.recommend) == spec_normalize_recommend(opt_view(f.recommend))
    }
}

/// A reported check is accepted: it has no name (and is skipped) or a valid status.
pub open spec fn check_accepted(f: ServiceCheckFields) -> bool {
    trim_seq(f.name@).len() == 0 || is_valid_status(spec_to_lowercase(trim_seq(f.status@)))
}

/// Checks and normalises one reported service check.
pub fn normalize_service_check(f: &ServiceCheckFields) -> (r: Result<Option<NormalizedCheck>, AppError>)
    ensures
        normalize_matches(*f, r),
        r is Ok <==> check_accepted(*f),
{
    let name = trim(f.name.as_str());
    if name.as_str().is_empty() {
        return Ok(None);
    }
    let kind_t = trim(f.kind.as_str());
    let kind = to_lowercase(kind_t.as_str());
    let status_t = trim(f.status.as_str());
    let status = to_lowercase(status_t.as_str());
    if !(str_eq(status.as_str(), "up") || str_eq(status.as_str(), "down") || str_eq(
        status.as_str(),
        "unknown",
    )) {
        return Err(AppError::BadRequest(concat("invalid status: ", status.as_str())));
    }
    let load_hint = match &f.load_hint {
        Some(h) => normalize_load_hint(Some(h.as_str())),
        None => normalize_load_hint(None),
    };
    let recommend = match &f.recommend {
        Some(h) => normalize_recommend(Some(h.as_str())),
        None => normalize_recommend(None),
    };
    Ok(Some(NormalizedCheck { name, kind, status, load_hint, recommend }))
}

/// Checks every reported service check of a batch, in order. The first
/// check with a name and an invalid status refuses the whole batch;
/// otherwise each check gives its normalised form (`None` for one without a
/// name, which is not stored).
pub fn normalize_service_checks(fs: &Vec<ServiceCheckFields>) -> (r: Result<Vec<Option<NormalizedCheck>>, AppError>)
    ensures
        r is Ok <==> (forall|i: int| 0 <= i < fs@.len() ==> #[trigger] check_accepted(fs@[i])),
        r matches Ok(v) ==> v@.len() == fs@.len() && (forall|i: int|
            0 <= i < fs@.len() ==> normalize_matches(
                #[trigger] fs@[i],
                Ok::<Option<NormalizedCheck>, AppError>(v@[i]),
            )),
        r matches Err(e) ==> exists|i: int|
            0 <= i < fs@.len() && !#[trigger] check_accepted(fs@[i]) && (forall|j: int|
                0 <= j < i ==> check_accepted(#[trigger] fs@[j])) && normalize_matches(
                fs@[i],
                Err::<Option<NormalizedCheck>, AppError>(e),
            ),
{
    let mut out: Vec<Option<NormalizedCheck>> = Vec::new();
    let mut i: usize = 0;
    while i < fs.len()
        invariant
            i <= fs@.len(),
            out@.len() == i,
            forall|j: int| 0 <= j < i ==> #[trigger] check_accepted(fs@[j]),
            forall|j: int|
                0 <= j < i ==> normalize_matches(
                    #[trigger] fs@[j],
                    Ok::<Option<NormalizedCheck>, AppError>(out@[j]),
                ),
        decreases fs@.len() - i,
    {
        match normalize_service_check(&fs[i]) {
            Ok(c) => {
                out.push(c);
            },
            Err(e) => {
                assert(!check_accepted(fs@[i as int]));
                return Err(e);
            },
        }
        i = i + 1;
    }
    Ok(out)
}

/// What a batch timestamp denotes: integer milliseconds, else RFC 3339.
pub open spec fn spec_batch_timestamp(raw: Option<Seq<char>>, now_ms: i64) -> Option<i64> {
    match raw {
        Some(r) => match spec_parse_i64(r) {
            Some(ms) => Some(ms),
            None => spec_rfc3339_millis(r),
        },
        None => Some(now_ms),
    }
}

/// The time of a metrics batch: its timestamp, or `now_ms` where it has none.
pub fn parse_batch_timestamp_at(timestamp: &Option<String>, now_ms: i64) -> (r: Result<i64, AppError>)
    ensures
        match spec_batch_timestamp(opt_view(*timestamp), now_ms) {
            Some(ms) => r == Ok::<i64, AppError>(ms),
            None => r matches Err(e) && is_bad_request(e, "invalid timestamp: "@ + timestamp->0@),
        },
{
    match timestamp {
        Some(raw) => {
            if let Some(ms) = parse_i64(raw.as_str()) {
                return Ok(ms);
            }
            match rfc3339_millis(raw.as_str()) {
                Some(ms) => Ok(ms),
                None => Err(AppError::BadRequest(concat("invalid timestamp: ", raw.as_str()))),
            }
        },
        None => Ok(now_ms),
    }
}

/// The time of a metrics batch; a batch without a timestamp gets the current
/// time, and an internal error where the system clock reads before the Unix
/// epoch.
pub fn parse_batch_timestamp(timestamp: &Option<String>) -> (r: Result<i64, AppError>)
    ensures
        match timestamp {
            Some(raw) => match spec_batch_timestamp(Some(raw@), 0) {
                Some(ms) => r == Ok::<i64, AppError>(ms),
                None => r matches Err(e) && is_bad_request(e, "invalid timestamp: "@ + raw@),
            },
            None => r is Ok || (r matches Err(AppError::Internal(m)) && m@ == clock_failure_message()),
        },
{
    match timestamp {
        Some(_) => parse_batch_timestamp_at(timestamp, 0),
        None => match now_millis() {
            Some(now) => Ok(now),
            None => Err(AppError::Internal(clock_failure())),
        },
    }
}

/// Where and when a checked metrics batch is stored.
#[derive(Debug, Clone, PartialEq, Eq)]
pub struct IngestPlan {
    pub host: String,
    pub timestamp_ms: i64,
}

/// Checks a metrics batch before it is stored: the host (trimmed) must not
/// be empty; a host sample or at least one service check must be present;
/// the timestamp must be readable; at most 200 service checks.
pub fn plan_ingest(
    host: &str,
    timestamp: &Option<String>,
    has_system: bool,
    service_count: usize,
    now_ms: i64,
) -> (r: Result<IngestPlan, AppError>)
    ensures
        if trim_seq(host@).len() == 0 {
            r matches Err(e) && is_bad_request(e, "host is required"@)
        } else if !has_system && service_count == 0 {
            r matches Err(e) && is_bad_request(e, "system or services is required"@)
        } else {
            match spec_batch_timestamp(opt_view(*timestamp), now_ms) {
                None => r matches Err(e) && is_bad_request(e, "invalid timestamp: "@ + timestamp->0@),
                Some(ms) => if service_count > MAX_SERVICES {
                    r == Err::<IngestPlan, AppError>(AppError::PayloadTooLarge)
                } else {
                    r matches Ok(p) && p.host@ == trim_seq(host@) && p.timestamp_ms == ms
                },
            }
        },
{
    let h = trim(host);
    if h.as_str().is_empty() {
        return Err(AppError::bad_request("host is required"));
    }
    if !has_system && service_count == 0 {
        return Err(AppError::bad_request("system or services is required"));
    }
    let ts = match parse_batch_timestamp_at(timestamp, now_ms) {
        Ok(ms) => ms,
        Err(e) => return Err(e),
    };
    if service_count > MAX_SERVICES {
        return Err(AppError::PayloadTooLarge);
    }
    Ok(IngestPlan { host: h, timestamp_ms: ts })
}

/// What to read for the metrics history.
#[derive(Debug, Clone, PartialEq, Eq)]
pub enum HistoryPlan {
    /// Samples of one host, newest first.
    Hosts { host: String, from_ms: Option<i64>, to_ms: Option<i64>, limit: i64 },
    /// Service checks, optionally of one host and one service, newest first.
    Services {
        host: Option<String>,
        service: Option<String>,
        from_ms: Option<i64>,
        to_ms: Option<i64>,
        limit: i64,
    },
}

/// The kind of history asked for: the `kind` parameter, else `service` where
/// a service filter is given, else `host`; lowercased.
pub open spec fn spec_history_kind(kind: Option<Seq<char>>, service: Option<Seq<char>>) -> Seq<char> {
    match kind {
        Some(k) => spec_to_lowercase(k),
        None => if service matches Some(s) && s.len() > 0 {
            spec_to_lowercase("service"@)
        } else {
            spec_to_lowercase("host"@)
        },
    }
}

/// An optional filter kept only where it is not empty.
pub open spec fn given(o: Option<Seq<char>>) -> Option<Seq<char>> {
    match o {
        Some(s) => if s.len() > 0 {
            Some(s)
        } else {
            None
        },
        None => None,
    }
}

/// Both optional bounds read, the first error first.
pub open spec fn spec_bounds(from: Option<Seq<char>>, to: Option<Seq<char>>) -> Option<(Option<i64>, Option<i64>)> {
    let f = match from {
        Some(s) => match spec_parse_bound(s) {
            Some(ms) => Some(Some(ms)),
            None => None,
        },
        None => Some(None),
    };
    let t = match to {
        Some(s) => match spec_parse_bound(s) {
            Some(ms) => Some(Some(ms)),
            None => None,
        },
        None => Some(None),
    };
    match (f, t) {
        (Some(a), Some(b)) => Some((a, b)),
        _ => None,
    }
}

fn read_bounds(from: &Option<String>, to: &Option<String>) -> (r: Result<(Option<i64>, Option<i64>), AppError>)
    ensures
        match spec_bounds(opt_view(*from), opt_view(*to)) {
            Some(b) => r == Ok::<(Option<i64>, Option<i64>), AppError>(b),
            None => r matches Err(e) && e is BadRequest,
        },
{
    let f = match from {
        Some(s) => match parse_bound(s.as_str()) {
            Ok(ms) => Some(ms),
            Err(e) => return Err(e),
        },
        None => None,
    };
    let t = match to {
        Some(s) => match parse_bound(s.as_str()) {
            Ok(ms) => Some(ms),
            Err(e) => return Err(e),
        },
        None => None,
    };
    Ok((f, t))
}

fn given_exec(o: &Option<String>) -> (r: Option<String>)
    ensures
        opt_view(r) == given(opt_view(*o)),
{
    match o {
        Some(s) => if s.as_str().is_empty() {
            None
        } else {
            Some(s.clone())
        },
        None => None,
    }
}

impl MetricsHistoryQuery {
    /// What the history request reads: host samples (a host is then
    /// required) or service checks; a kind other than `host` or `service`
    /// is refused, and so is an unreadable bound.
    pub fn plan(&self) -> (r: Result<HistoryPlan, AppError>)
        ensures
            ({
                let kind = spec_history_kind(opt_view(self.kind), opt_view(self.service));
                let limit = spec_page_limit(self.limit);
                if kind == "host"@ {
                    match self.host {
                        Some(h) if h@.len() > 0 => match spec_bounds(opt_view(self.from), opt_view(self.to)) {
                            Some((f, t)) => r matches Ok(HistoryPlan::Hosts { host, from_ms, to_ms, limit: l })
                                && host@ == h@ && from_ms == f && to_ms == t && l == limit,
                            None => r matches Err(e) && e is BadRequest,
                        },
                        _ => r matches Err(e) && is_bad_request(e, "host is required for host history"@),
                    }
                } else if kind == "service"@ {
                    match spec_bounds(opt_view(self.from), opt_view(self.to)) {
                        Some((f, t)) => r matches Ok(HistoryPlan::Services { host, service, from_ms, to_ms, limit: l })
                            && opt_view(host) == given(opt_view(self.host)) && opt_view(service) == given(
                            opt_view(self.service),
                        ) && from_ms == f && to_ms == t && l == limit,
                        None => r matches Err(e) && e is BadRequest,
                    }
                } else {
                    r matches Err(e) && is_bad_request(e, "kind must be host or service"@)
                }
            }),
    {
        let kind = match &self.kind {
            Some(k) => to_lowercase(k.as_str()),
            None => {
                let has_service = match &self.service {
                    Some(s) => !s.as_str().is_empty(),
                    None => false,
                };
                if has_service {
                    to_lowercase("service")
                } else {
                    to_lowercase("host")
                }
            },
        };
        let limit = page_limit(self.limit);
        if str_eq(kind.as_str(), "host") {
            let host = match &self.host {
                Some(h) => if h.as_str().is_empty() {
                    return Err(AppError::bad_request("host is required for host history"));
                } else {
                    h.clone()
                },
                None => return Err(AppError::bad_request("host is required for host history")),
            };
            let (from_ms, to_ms) = match read_bounds(&self.from, &self.to) {
                Ok(b) => b,
                Err(e) => return Err(e),
            };
            Ok(HistoryPlan::Hosts { host, from_ms, to_ms, limit })
        } else if str_eq(kind.as_str(), "service") {
            let host = given_exec(&self.host);
            let service = given_exec(&self.service);
            let (from_ms, to_ms) = match read_bounds(&self.from, &self.to) {
                Ok(b) => b,
                Err(e) => return Err(e),
            };
            Ok(HistoryPlan::Services { host, service, from_ms, to_ms, limit })
        } else {
            Err(AppError::bad_request("kind must be host or service"))
        }
    }
}

/// The host of a capacity request, trimmed; it must not be empty.
pub fn capacity_host(host: &str) -> (r: Result<String, AppError>)
    ensures
        if trim_seq(host@).len() == 0 {
            r matches Err(e) && is_bad_request(e, "host is required"@)
        } else {
            r matches Ok(h) && h@ == trim_seq(host@)
        },
{
    let h = trim(host);
    if h.as_str().is_empty() {
        Err(AppError::bad_request("host is required"))
    } else {
        Ok(h)
    }
}

} // verus!
