//! Service probes: what to probe for a configured service, and how the outcome
//! of a probe becomes a check result with a load hint and a recommendation.
//!
//! The probes themselves (HTTP requests, TCP connects, reading `/proc`) are
//! performed by the caller, which hands their outcome back as plain values.
use vstd::prelude::*;
use crate::agent::config::ServiceConfig;
use crate::agent::load::{
    LoadHint, Recommend, apply_es_recommend, hint_from_label, hint_label, looks_like_cluster_health_url,
    merge_hint, parse_es_health_hint, recommend_label, spec_apply_es_recommend, spec_merge_hint,
    spec_parse_es_health_hint, spec_service_recommend, service_recommend,
};
use crate::num::{decimal, format_u64};
use crate::text::{concat, contains, contains_seq, opt_view, owned, spec_to_lowercase, str_eq, to_lowercase};

verus! {

/// Probes never wait longer than this many milliseconds.
pub const MAX_PROBE_TIMEOUT_MS: u64 = 2000;

/// The outcome of one service probe. CPU usage, a float, is kept by the
/// caller beside the result.
#[derive(Debug, Clone)]
pub struct ServiceCheckResult {
    pub name: String,
    pub kind: String,
    pub status: String,
    pub latency_ms: Option<i64>,
    pub message: Option<String>,
    pub mem_used_bytes: Option<i64>,
    pub mem_limit_bytes: Option<i64>,
    pub load_hint: Option<String>,
    pub recommend: Option<String>,
}

/// The fields of a result that carry no resource readings, by their views.
pub open spec fn result_is(
    r: ServiceCheckResult,
    name: Seq<char>,
    kind: Seq<char>,
    status: Seq<char>,
    latency_ms: Option<i64>,
    message: Option<Seq<char>>,
    load_hint: Option<Seq<char>>,
    recommend: Option<Seq<char>>,
) -> bool {
    &&& r.name@ == name
    &&& r.kind@ == kind
    &&& r.status@ == status
    &&& r.latency_ms == latency_ms
    &&& opt_view(r.message) == message
    &&& opt_view(r.load_hint) == load_hint
    &&& opt_view(r.recommend) == recommend
}

/// `r` has no memory readings.
pub open spec fn no_memory(r: ServiceCheckResult) -> bool {
    r.mem_used_bytes is None && r.mem_limit_bytes is None
}

/// The label of an optional hint.
pub open spec fn opt_hint_label(h: Option<LoadHint>) -> Option<Seq<char>> {
    match h {
        Some(x) => Some(hint_label(x)),
        None => None,
    }
}

fn opt_hint_string(h: Option<LoadHint>) -> (r: Option<String>)
    ensures
        opt_view(r) == opt_hint_label(h),
{
    match h {
        Some(x) => Some(owned(x.as_str())),
        None => None,
    }
}

fn recommend_string(r: Recommend) -> (s: Option<String>)
    ensures
        opt_view(s) == Some(recommend_label(r)),
{
    Some(owned(r.as_str()))
}

/// A result for a service that could not be probed: status `unknown`, and
/// the recommendation `limit`.
pub fn unknown_result(name: &str, kind: &str, message: &str) -> (r: ServiceCheckResult)
    ensures
        result_is(r, name@, kind@, "unknown"@, None, Some(message@), None, Some("limit"@)),
        no_memory(r),
{
    ServiceCheckResult {
        name: owned(name),
        kind: owned(kind),
        status: owned("unknown"),
        latency_ms: None,
        message: Some(owned(message)),
        mem_used_bytes: None,
        mem_limit_bytes: None,
        load_hint: None,
        recommend: recommend_string(Recommend::Limit),
    }
}

/// The timeout a probe uses: the configured one, two seconds by default,
/// and never more than two seconds.
pub open spec fn spec_probe_timeout(t: Option<u64>) -> u64 {
    match t {
        Some(v) => if v < MAX_PROBE_TIMEOUT_MS {
            v
        } else {
            MAX_PROBE_TIMEOUT_MS
        },
        None => MAX_PROBE_TIMEOUT_MS,
    }
}

/// The timeout of a probe in milliseconds.
pub fn probe_timeout_ms(t: Option<u64>) -> (r: u64)
    ensures
        r == spec_probe_timeout(t),
{
    let v = match t {
        Some(v) => v,
        None => MAX_PROBE_TIMEOUT_MS,
    };
    if v < MAX_PROBE_TIMEOUT_MS {
        v
    } else {
        MAX_PROBE_TIMEOUT_MS
    }
}

/// What to do for one configured service.
#[derive(Debug)]
pub enum ProbePlan {
    /// GET the URL within the timeout.
    Http { url: String, timeout_ms: u64 },
    /// Connect to the address within the timeout.
    Tcp { addr: String, timeout_ms: u64 },
    /// Look for processes whose command line contains the needle.
    Process { needle: String },
    /// Nothing to probe: the result is already known.
    Finished(ServiceCheckResult),
}

/// How a configured service is probed. The kind is compared lowercased; a
/// kind that needs a URL, an address or a match pattern and has none, or an
/// unknown kind, gives an `unknown` result with the recommendation `limit`.
pub open spec fn plan_matches(svc: ServiceConfig, p: ProbePlan) -> bool {
    let kind = spec_to_lowercase(svc.kind@);
    let t = spec_probe_timeout(svc.timeout_ms);
    if kind == "http"@ {
        match svc.url {
            Some(u) => p matches ProbePlan::Http { url, timeout_ms } && url@ == u@ && timeout_ms == t,
            None => p matches ProbePlan::Finished(r) && result_is(
                r,
                svc.name@,
                "http"@,
                "unknown"@,
                None,
                Some("url missing"@),
                None,
                Some("limit"@),
            ) && no_memory(r),
        }
    } else if kind == "tcp"@ {
        match svc.addr {
            Some(a) => p matches ProbePlan::Tcp { addr, timeout_ms } && addr@ == a@ && timeout_ms == t,
            None => p matches ProbePlan::Finished(r) && result_is(
                r,
                svc.name@,
                "tcp"@,
                "unknown"@,
                None,
                Some("addr missing"@),
                None,
                Some("limit"@),
            ) && no_memory(r),
        }
    } else if kind == "process"@ {
        match svc.process_match {
            Some(m) => p matches ProbePlan::Process { needle } && needle@ == m@,
            None => p matches ProbePlan::Finished(r) && result_is(
                r,
                svc.name@,
                "process"@,
                "unknown"@,
                None,
                Some("match missing"@),
                None,
                Some("limit"@),
            ) && no_memory(r),
        }
    } else {
        p matches ProbePlan::Finished(r) && result_is(
            r,
            svc.name@,
            kind,
            "unknown"@,
            None,
            Some("unsupported kind: "@ + kind),
            None,
            Some("limit"@),
        ) && no_memory(r)
    }
}

/// Decides how to probe one configured service.
pub fn probe_plan(svc: &ServiceConfig) -> (p: ProbePlan)
    ensures
        plan_matches(*svc, p),
{
    let timeout_ms = probe_timeout_ms(svc.timeout_ms);
    let kind = to_lowercase(svc.kind.as_str());
    if str_eq(kind.as_str(), "http") {
        match &svc.url {
            Some(u) => ProbePlan::Http { url: u.clone(), timeout_ms },
            None => ProbePlan::Finished(unknown_result(svc.name.as_str(), "http", "url missing")),
        }
    } else if str_eq(kind.as_str(), "tcp") {
        match &svc.addr {
            Some(a) => ProbePlan::Tcp { addr: a.clone(), timeout_ms },
            None => ProbePlan::Finished(unknown_result(svc.name.as_str(), "tcp", "addr missing")),
        }
    } else if str_eq(kind.as_str(), "process") {
        match &svc.process_match {
            Some(m) => ProbePlan::Process { needle: m.clone() },
            None => ProbePlan::Finished(
                unknown_result(svc.name.as_str(), "process", "match missing"),
            ),
        }
    } else {
        let message = concat("unsupported kind: ", kind.as_str());
        ProbePlan::Finished(unknown_result(svc.name.as_str(), kind.as_str(), message.as_str()))
    }
}

/// What an HTTP probe saw.
#[derive(Debug)]
pub enum HttpOutcome {
    /// The HTTP client could not be built; the error's text.
    ClientError(String),
    /// A response arrived after `latency_ms` with this status and body.
    Response { status_code: u16, latency_ms: i64, body: String },
    /// The request failed after `latency_ms`; the error's text.
    RequestError { latency_ms: i64, error: String },
}

/// `StatusCode::is_success`: a status in `200..=299`.
pub open spec fn is_success(code: u16) -> bool {
    200 <= code && code <= 299
}

/// The load hint a response gives: the body is read as cluster health where
/// the URL is a `_cluster/health` URL or the body mentions
/// `"number_of_pending_tasks"`.
pub open spec fn probe_es_hint(url: Seq<char>, body: Seq<char>) -> Option<LoadHint> {
    if contains_seq(url, "/_cluster/health"@) || contains_seq(body, "\"number_of_pending_tasks\""@) {
        spec_parse_es_health_hint(body)
    } else {
        None
    }
}

/// The message of a response: its status code, and the cluster load where
/// there is one.
pub open spec fn probe_message(code: u16, es: Option<LoadHint>) -> Seq<char> {
    match es {
        Some(h) => decimal(code as nat) + "; es_load="@ + hint_label(h),
        None => decimal(code as nat),
    }
}

/// The recommendation for a response.
pub open spec fn probe_recommend(url: Seq<char>, up: bool, es: Option<LoadHint>, latency_ms: i64) -> Recommend {
    let status = if up {
        "up"@
    } else {
        "down"@
    };
    let base = spec_service_recommend(status, es, Some(latency_ms));
    if contains_seq(url, "/_cluster/health"@) || es is Some {
        spec_apply_es_recommend(es, base)
    } else {
        base
    }
}

/// What an HTTP probe of `url` reports for what it saw.
pub open spec fn http_result_matches(
    r: ServiceCheckResult,
    name: Seq<char>,
    kind: Seq<char>,
    url: Seq<char>,
    outcome: HttpOutcome,
) -> bool {
    &&& no_memory(r)
    &&& match outcome {
        HttpOutcome::ClientError(e) => result_is(
            r,
            name,
            kind,
            "down"@,
            None,
            Some(e@),
            None,
            Some("limit"@),
        ),
        HttpOutcome::Response { status_code, latency_ms, body } => {
            let es = probe_es_hint(url, body@);
            let up = is_success(status_code);
            result_is(
                r,
                name,
                kind,
                if up {
                    "up"@
                } else {
                    "down"@
                },
                Some(latency_ms),
                Some(probe_message(status_code, es)),
                opt_hint_label(es),
                Some(recommend_label(probe_recommend(url, up, es, latency_ms))),
            )
        },
        HttpOutcome::RequestError { latency_ms, error } => result_is(
            r,
            name,
            kind,
            "down"@,
            Some(latency_ms),
            Some(error@),
            None,
            Some("limit"@),
        ),
    }
}

/// The check result of an HTTP probe of `url`, from what the probe saw. A
/// success status is `up`, any other `down`; a body that reads as cluster
/// health adds its load to the message and the hint.
pub fn http_probe_result(name: &str, kind: &str, url: &str, outcome: HttpOutcome) -> (r:
    ServiceCheckResult)
    ensures
        http_result_matches(r, name@, kind@, url@, outcome),
{
    match outcome {
        HttpOutcome::ClientError(e) => ServiceCheckResult {
            name: owned(name),
            kind: owned(kind),
            status: owned("down"),
            latency_ms: None,
            message: Some(e),
            mem_used_bytes: None,
            mem_limit_bytes: None,
            load_hint: None,
            recommend: recommend_string(Recommend::Limit),
        },
        HttpOutcome::Response { status_code, latency_ms, body } => {
            let ok = 200 <= status_code && status_code <= 299;
            let cluster = looks_like_cluster_health_url(url);
            let mut es_hint: Option<LoadHint> = None;
            let mut message = format_u64(status_code as u64);
            if cluster || contains(body.as_str(), "\"number_of_pending_tasks\"") {
                match parse_es_health_hint(body.as_str()) {
                    Some(h) => {
                        es_hint = Some(h);
                        let with_sep = concat(message.as_str(), "; es_load=");
                        message = concat(with_sep.as_str(), h.as_str());
                    },
                    None => {},
                }
            }
            let status = if ok {
                "up"
            } else {
                "down"
            };
            let mut rec = service_recommend(status, es_hint, Some(latency_ms));
            if cluster || es_hint.is_some() {
                rec = apply_es_recommend(es_hint, rec);
            }
            ServiceCheckResult {
                name: owned(name),
                kind: owned(kind),
                status: owned(status),
                latency_ms: Some(latency_ms),
                message: Some(message),
                mem_used_bytes: None,
                mem_limit_bytes: None,
                load_hint: opt_hint_string(es_hint),
                recommend: recommend_string(rec),
            }
        },
        HttpOutcome::RequestError { latency_ms, error } => ServiceCheckResult {
            name: owned(name),
            kind: owned(kind),
            status: owned("down"),
            latency_ms: Some(latency_ms),
            message: Some(error),
            mem_used_bytes: None,
            mem_limit_bytes: None,
            load_hint: None,
            recommend: recommend_string(Recommend::Limit),
        },
    }
}

/// What a TCP probe saw.
#[derive(Debug)]
pub enum TcpOutcome {
    /// Connected after `latency_ms`.
    Connected { latency_ms: i64 },
    /// The connect failed after `latency_ms`; the error's text.
    Failed { latency_ms: i64, error: String },
    /// No connection within the timeout, noticed after `latency_ms`.
    TimedOut { latency_ms: i64 },
}

/// What a TCP probe reports for what it saw.
pub open spec fn tcp_result_matches(r: ServiceCheckResult, name: Seq<char>, outcome: TcpOutcome) -> bool {
    &&& no_memory(r)
    &&& match outcome {
        TcpOutcome::Connected { latency_ms } => result_is(
            r,
            name,
            "tcp"@,
            "up"@,
            Some(latency_ms),
            Some("connected"@),
            None,
            None,
        ),
        TcpOutcome::Failed { latency_ms, error } => result_is(
            r,
            name,
            "tcp"@,
            "down"@,
            Some(latency_ms),
            Some(error@),
            None,
            Some("limit"@),
        ),
        TcpOutcome::TimedOut { latency_ms } => result_is(
            r,
            name,
            "tcp"@,
            "down"@,
            Some(latency_ms),
            Some("timeout"@),
            None,
            Some("limit"@),
        ),
    }
}

/// The check result of a TCP probe: `up` when it connected, otherwise
/// `down` with the recommendation `limit`.
pub fn tcp_probe_result(name: &str, outcome: TcpOutcome) -> (r: ServiceCheckResult)
    ensures
        tcp_result_matches(r, name@, outcome),
{
    let (status, latency_ms, message, recommend) = match outcome {
        TcpOutcome::Connected { latency_ms } => ("up", latency_ms, owned("connected"), None),
        TcpOutcome::Failed { latency_ms, error } => (
            "down",
            latency_ms,
            error,
            recommend_string(Recommend::Limit),
        ),
        TcpOutcome::TimedOut { latency_ms } => (
            "down",
            latency_ms,
            owned("timeout"),
            recommend_string(Recommend::Limit),
        ),
    };
    ServiceCheckResult {
        name: owned(name),
        kind: owned("tcp"),
        status: owned(status),
        latency_ms: Some(latency_ms),
        message: Some(message),
        mem_used_bytes: None,
        mem_limit_bytes: None,
        load_hint: None,
        recommend,
    }
}

/// `a + b`, clamped to the range of `i64` (`i64::saturating_add`).
pub open spec fn sat_add_i64(a: i64, b: i64) -> i64 {
    if a + b > i64::MAX {
        i64::MAX
    } else if a + b < i64::MIN {
        i64::MIN
    } else {
        (a + b) as i64
    }
}

/// The resident memory of the matched processes: the readings that were
/// had, added up with saturation, in order.
pub open spec fn spec_rss_total(rss: Seq<Option<i64>>) -> i64
    decreases rss.len(),
{
    if rss.len() == 0 {
        0
    } else {
        match rss.last() {
            Some(v) => sat_add_i64(spec_rss_total(rss.drop_last()), v),
            None => spec_rss_total(rss.drop_last()),
        }
    }
}

/// Adds up the resident memory readings of the matched processes; a
/// process whose reading failed counts for nothing.
pub fn rss_total(rss: &[Option<i64>]) -> (r: i64)
    ensures
        r == spec_rss_total(rss@),
{
    let mut total: i64 = 0;
    let mut i: usize = 0;
    while i < rss.len()
        invariant
            i <= rss@.len(),
            total == spec_rss_total(rss@.take(i as int)),
        decreases rss@.len() - i,
    {
        assert(rss@.take(i + 1).drop_last() =~= rss@.take(i as int));
        match rss[i] {
            Some(v) => {
                total = match total.checked_add(v) {
                    Some(t) => t,
                    None => if v > 0 {
                        i64::MAX
                    } else {
                        i64::MIN
                    },
                };
            },
            None => {},
        }
        i = i + 1;
    }
    assert(rss@.take(rss@.len() as int) =~= rss@);
    total
}

/// What a process probe reports for the number of matching processes, their
/// memory total and the host's memory.
pub open spec fn process_result_matches(
    r: ServiceCheckResult,
    name: Seq<char>,
    pid_count: usize,
    mem_used: i64,
    mem_limit: Option<i64>,
) -> bool {
    if pid_count == 0 {
        result_is(
            r,
            name,
            "process"@,
            "down"@,
            None,
            Some("process not found"@),
            None,
            Some("limit"@),
        ) && no_memory(r)
    } else {
        &&& result_is(
            r,
            name,
            "process"@,
            "up"@,
            None,
            Some("process found ("@ + decimal(pid_count as nat) + ")"@),
            None,
            None,
        )
        &&& r.mem_used_bytes == (if mem_used > 0 {
            Some(mem_used)
        } else {
            None
        })
        &&& r.mem_limit_bytes == mem_limit
    }
}

/// The check result of a process probe: `down` when no process matched,
/// otherwise `up` with the memory the processes hold (where it is above
/// zero) against the host's memory.
pub fn process_probe_result(name: &str, pid_count: usize, mem_used: i64, mem_limit: Option<i64>) -> (r:
    ServiceCheckResult)
    ensures
        process_result_matches(r, name@, pid_count, mem_used, mem_limit),
{
    if pid_count == 0 {
        return ServiceCheckResult {
            name: owned(name),
            kind: owned("process"),
            status: owned("down"),
            latency_ms: None,
            message: Some(owned("process not found")),
            mem_used_bytes: None,
            mem_limit_bytes: None,
            load_hint: None,
            recommend: recommend_string(Recommend::Limit),
        };
    }
    let count = format_u64(pid_count as u64);
    let head = concat("process found (", count.as_str());
    let message = concat(head.as_str(), ")");
    ServiceCheckResult {
        name: owned(name),
        kind: owned("process"),
        status: owned("up"),
        latency_ms: None,
        message: Some(message),
        mem_used_bytes: if mem_used > 0 {
            Some(mem_used)
        } else {
            None
        },
        mem_limit_bytes: mem_limit,
        load_hint: None,
        recommend: None,
    }
}

/// The result of a process probe where `/proc` cannot be read: status
/// `unknown`, with no recommendation.
pub fn process_unsupported_result(name: &str) -> (r: ServiceCheckResult)
    ensures
        result_is(
            r,
            name@,
            "process"@,
            "unknown"@,
            None,
            Some("process checks supported on Linux only"@),
            None,
            None,
        ),
        no_memory(r),
{
    ServiceCheckResult {
        name: owned(name),
        kind: owned("process"),
        status: owned("unknown"),
        latency_ms: None,
        message: Some(owned("process checks supported on Linux only")),
        mem_used_bytes: None,
        mem_limit_bytes: None,
        load_hint: None,
        recommend: None,
    }
}

/// The hint a result already carries, read back from its label.
pub open spec fn carried_hint(r: ServiceCheckResult) -> Option<LoadHint> {
    match opt_view(r.load_hint) {
        Some(s) => hint_from_label(s),
        None => None,
    }
}

/// The hint after refining: the worse of the carried hint and `extra`.
pub open spec fn refined_hint(r: ServiceCheckResult, extra: Option<LoadHint>) -> Option<LoadHint> {
    spec_merge_hint(carried_hint(r), extra)
}

/// The recommendation after refining; the cluster rule applies where `es`.
pub open spec fn refined_recommend(r: ServiceCheckResult, extra: Option<LoadHint>, es: bool) -> Recommend {
    let h = refined_hint(r, extra);
    let base = spec_service_recommend(r.status@, h, r.latency_ms);
    if es {
        spec_apply_es_recommend(h, base)
    } else {
        base
    }
}

/// `after` is `before` with its hint and recommendation refined by `extra`.
pub open spec fn refined_from(
    after: ServiceCheckResult,
    before: ServiceCheckResult,
    extra: Option<LoadHint>,
    es: bool,
) -> bool {
    &&& result_is(
        after,
        before.name@,
        before.kind@,
        before.status@,
        before.latency_ms,
        opt_view(before.message),
        opt_hint_label(refined_hint(before, extra)),
        Some(recommend_label(refined_recommend(before, extra, es))),
    )
    &&& after.mem_used_bytes == before.mem_used_bytes
    &&& after.mem_limit_bytes == before.mem_limit_bytes
}

fn carried_hint_exec(r: &ServiceCheckResult) -> (h: Option<LoadHint>)
    ensures
        h == carried_hint(*r),
{
    match &r.load_hint {
        Some(s) => LoadHint::from_label(s.as_str()),
        None => None,
    }
}

impl ServiceCheckResult {
    /// Refines the hint and the recommendation with `extra`, a further hint;
    /// where `es`, a tight cluster is limited.
    pub fn refine(self, extra: Option<LoadHint>, es: bool) -> (r: ServiceCheckResult)
        ensures
            refined_from(r, self, extra, es),
    {
        let existing = carried_hint_exec(&self);
        let hint = merge_hint(existing, extra);
        let mut rec = service_recommend(self.status.as_str(), hint, self.latency_ms);
        if es {
            rec = apply_es_recommend(hint, rec);
        }
        let mut out = self;
        out.load_hint = opt_hint_string(hint);
        out.recommend = recommend_string(rec);
        out
    }

    /// Folds the hint that the resource readings give (`resource_hint`, which
    /// the caller works out from CPU and memory percentages) into the result,
    /// and recommends from the merged hint.
    pub fn finalize_resources(self, resource_hint: Option<LoadHint>) -> (r: ServiceCheckResult)
        ensures
            refined_from(r, self, resource_hint, false),
    {
        self.refine(resource_hint, false)
    }
}

/// Refining a result a second time with the same hint changes neither its
/// hint nor its recommendation: finalizing is idempotent.
pub proof fn law_refine_idempotent(
    before: ServiceCheckResult,
    once: ServiceCheckResult,
    twice: ServiceCheckResult,
    extra: Option<LoadHint>,
    es: bool,
)
    requires
        refined_from(once, before, extra, es),
        refined_from(twice, once, extra, es),
    ensures
        opt_view(twice.load_hint) == opt_view(once.load_hint),
        opt_view(twice.recommend) == opt_view(once.recommend),
{
    let h = refined_hint(before, extra);
    match h {
        Some(x) => {
            crate::agent::load::law_hint_label_round_trip(x);
        },
        None => {},
    }
    assert(carried_hint(once) == h);
    crate::agent::load::law_merge_hint(carried_hint(before), extra, extra);
}

/// A probe that could not reach its service, or that had nothing to probe,
/// always recommends `limit`.
pub proof fn law_failed_probe_is_limited(name: Seq<char>, kind: Seq<char>, url: Seq<char>, r: ServiceCheckResult, outcome: HttpOutcome)
    requires
        http_result_matches(r, name, kind, url, outcome),
        !(outcome is Response),
    ensures
        opt_view(r.recommend) == Some("limit"@),
        r.status@ == "down"@,
{
}

/// A response is reported `up` exactly when its status code is a success
/// (200 to 299); any other code, a 4xx or 5xx among them, is reported
/// `down` and recommends `limit`, whatever the body and the latency.
pub proof fn law_http_status_decides(
    name: Seq<char>,
    kind: Seq<char>,
    url: Seq<char>,
    r: ServiceCheckResult,
    status_code: u16,
    latency_ms: i64,
    body: String,
)
    requires
        http_result_matches(r, name, kind, url, HttpOutcome::Response { status_code, latency_ms, body }),
    ensures
        (r.status@ == "up"@) <==> (200 <= status_code && status_code <= 299),
        !(200 <= status_code && status_code <= 299) ==> r.status@ == "down"@ && opt_view(r.recommend)
            == Some("limit"@),
{
    reveal_strlit("up");
    reveal_strlit("down");
    reveal_strlit("limit");
    assert("up"@ != "down"@) by {
        assert("up"@.len() != "down"@.len());
    }
    if !(200 <= status_code && status_code <= 299) {
        assert(crate::text::lowercase("down"@) =~= "down"@);
        let es = probe_es_hint(url, body@);
        let base = spec_service_recommend("down"@, es, Some(latency_ms));
        assert(base == Recommend::Limit);
    }
}

} // verus!
