//! Load hint and scale/limit recommendation (USE + golden-signal lite).
use vstd::prelude::*;
use crate::text::{contains, lowercase, opt_view, spec_to_lowercase, str_eq, to_lowercase};

verus! {

/// How loaded a service looks: `Okay < Watch < Tight`.
#[derive(Debug, Clone, Copy, PartialEq, Eq, Structural)]
pub enum LoadHint {
    Okay,
    Watch,
    Tight,
}

/// What to do about a service: `Okay < Watch < ScaleOut < Limit`.
#[derive(Debug, Clone, Copy, PartialEq, Eq, Structural)]
pub enum Recommend {
    Okay,
    Watch,
    ScaleOut,
    Limit,
}

/// Position of a hint in the order `Okay < Watch < Tight`.
pub open spec fn hint_rank(h: LoadHint) -> nat {
    match h {
        LoadHint::Okay => 0,
        LoadHint::Watch => 1,
        LoadHint::Tight => 2,
    }
}

/// Position of a recommendation in the order `Okay < Watch < ScaleOut < Limit`.
pub open spec fn recommend_rank(r: Recommend) -> nat {
    match r {
        Recommend::Okay => 0,
        Recommend::Watch => 1,
        Recommend::ScaleOut => 2,
        Recommend::Limit => 3,
    }
}

/// The larger of two hints.
pub open spec fn hint_max(a: LoadHint, b: LoadHint) -> LoadHint {
    if hint_rank(a) >= hint_rank(b) {
        a
    } else {
        b
    }
}

/// The larger of two recommendations.
pub open spec fn recommend_max(a: Recommend, b: Recommend) -> Recommend {
    if recommend_rank(a) >= recommend_rank(b) {
        a
    } else {
        b
    }
}

/// The label of a hint.
pub open spec fn hint_label(h: LoadHint) -> Seq<char> {
    match h {
        LoadHint::Okay => "ok"@,
        LoadHint::Watch => "watch"@,
        LoadHint::Tight => "tight"@,
    }
}

/// The label of a recommendation.
pub open spec fn recommend_label(r: Recommend) -> Seq<char> {
    match r {
        Recommend::Okay => "ok"@,
        Recommend::Watch => "watch"@,
        Recommend::ScaleOut => "scale_out"@,
        Recommend::Limit => "limit"@,
    }
}

/// The hint a label names, if any (exact, case-sensitive match).
pub open spec fn hint_from_label(s: Seq<char>) -> Option<LoadHint> {
    if s == "ok"@ {
        Some(LoadHint::Okay)
    } else if s == "watch"@ {
        Some(LoadHint::Watch)
    } else if s == "tight"@ {
        Some(LoadHint::Tight)
    } else {
        None
    }
}

/// The recommendation a label names, if any (exact, case-sensitive match).
pub open spec fn recommend_from_label(s: Seq<char>) -> Option<Recommend> {
    if s == "ok"@ {
        Some(Recommend::Okay)
    } else if s == "watch"@ {
        Some(Recommend::Watch)
    } else if s == "scale_out"@ {
        Some(Recommend::ScaleOut)
    } else if s == "limit"@ {
        Some(Recommend::Limit)
    } else {
        None
    }
}

impl LoadHint {
    /// The label written into results: `ok`, `watch` or `tight`.
    pub fn as_str(self) -> (r: &'static str)
        ensures
            r@ == hint_label(self),
    {
        match self {
            LoadHint::Okay => "ok",
            LoadHint::Watch => "watch",
            LoadHint::Tight => "tight",
        }
    }

    /// Reads a label back into a hint; anything but the three labels gives `None`.
    pub fn from_label(s: &str) -> (r: Option<LoadHint>)
        ensures
            r == hint_from_label(s@),
    {
        if str_eq(s, "ok") {
            Some(LoadHint::Okay)
        } else if str_eq(s, "watch") {
            Some(LoadHint::Watch)
        } else if str_eq(s, "tight") {
            Some(LoadHint::Tight)
        } else {
            None
        }
    }

    /// The larger of two hints (`Ord::max`).
    pub fn max(self, other: LoadHint) -> (r: LoadHint)
        ensures
            r == hint_max(self, other),
    {
        let a: u8 = match self {
            LoadHint::Okay => 0,
            LoadHint::Watch => 1,
            LoadHint::Tight => 2,
        };
        let b: u8 = match other {
            LoadHint::Okay => 0,
            LoadHint::Watch => 1,
            LoadHint::Tight => 2,
        };
        if a >= b {
            self
        } else {
            other
        }
    }
}

impl Recommend {
    /// The label written into results: `ok`, `watch`, `scale_out` or `limit`.
    pub fn as_str(self) -> (r: &'static str)
        ensures
            r@ == recommend_label(self),
    {
        match self {
            Recommend::Okay => "ok",
            Recommend::Watch => "watch",
            Recommend::ScaleOut => "scale_out",
            Recommend::Limit => "limit",
        }
    }

    /// Reads a label back into a recommendation.
    pub fn from_label(s: &str) -> (r: Option<Recommend>)
        ensures
            r == recommend_from_label(s@),
    {
        if str_eq(s, "ok") {
            Some(Recommend::Okay)
        } else if str_eq(s, "watch") {
            Some(Recommend::Watch)
        } else if str_eq(s, "scale_out") {
            Some(Recommend::ScaleOut)
        } else if str_eq(s, "limit") {
            Some(Recommend::Limit)
        } else {
            None
        }
    }
}

/// What `merge_hint` returns: the larger of the hints present.
pub open spec fn spec_merge_hint(a: Option<LoadHint>, b: Option<LoadHint>) -> Option<LoadHint> {
    match (a, b) {
        (Some(x), Some(y)) => Some(hint_max(x, y)),
        (Some(x), None) => Some(x),
        (None, Some(y)) => Some(y),
        (None, None) => None,
    }
}

/// Combines two optional hints, keeping the worse one.
pub fn merge_hint(a: Option<LoadHint>, b: Option<LoadHint>) -> (r: Option<LoadHint>)
    ensures
        r == spec_merge_hint(a, b),
{
    match (a, b) {
        (Some(x), Some(y)) => Some(x.max(y)),
        (Some(x), None) => Some(x),
        (None, Some(y)) => Some(y),
        (None, None) => None,
    }
}

/// A latency of two seconds or more counts as high.
pub open spec fn latency_high(latency_ms: Option<i64>) -> bool {
    match latency_ms {
        Some(l) => l >= 2000,
        None => false,
    }
}

/// The recommendation for a service whose lowercased status is `status`.
pub open spec fn spec_recommend_for(
    status: Seq<char>,
    load_hint: Option<LoadHint>,
    latency_ms: Option<i64>,
) -> Recommend {
    if status == "down"@ || status == "unknown"@ {
        Recommend::Limit
    } else {
        match load_hint {
            Some(LoadHint::Tight) => if latency_high(latency_ms) {
                Recommend::Limit
            } else {
                Recommend::ScaleOut
            },
            Some(LoadHint::Watch) => Recommend::Watch,
            _ => if latency_high(latency_ms) {
                Recommend::Watch
            } else {
                Recommend::Okay
            },
        }
    }
}

/// What `service_recommend` returns for a status as given (before lowercasing).
pub open spec fn spec_service_recommend(
    status: Seq<char>,
    load_hint: Option<LoadHint>,
    latency_ms: Option<i64>,
) -> Recommend {
    spec_recommend_for(lowercase(status), load_hint, latency_ms)
}

/// Recommendation for one service from its status, load hint and latency.
/// A status of `down` or `unknown` (in any case) always gives `Limit`.
pub fn service_recommend(status: &str, load_hint: Option<LoadHint>, latency_ms: Option<i64>) -> (r:
    Recommend)
    ensures
        r == spec_service_recommend(status@, load_hint, latency_ms),
{
    let status = to_lowercase(status);
    if str_eq(status.as_str(), "down") || str_eq(status.as_str(), "unknown") {
        return Recommend::Limit;
    }
    let high = match latency_ms {
        Some(l) => l >= 2000,
        None => false,
    };
    match load_hint {
        Some(LoadHint::Tight) => if high {
            Recommend::Limit
        } else {
            Recommend::ScaleOut
        },
        Some(LoadHint::Watch) => Recommend::Watch,
        _ => if high {
            Recommend::Watch
        } else {
            Recommend::Okay
        },
    }
}

/// What `apply_es_recommend` returns: a tight cluster raises the
/// recommendation to at least `Limit`.
pub open spec fn spec_apply_es_recommend(hint: Option<LoadHint>, base: Recommend) -> Recommend {
    match hint {
        Some(LoadHint::Tight) => recommend_max(Recommend::Limit, base),
        _ => base,
    }
}

/// ES red / high pending: prefer limit (protect the cluster).
pub fn apply_es_recommend(hint: Option<LoadHint>, base: Recommend) -> (r: Recommend)
    ensures
        r == spec_apply_es_recommend(hint, base),
{
    match hint {
        Some(LoadHint::Tight) => Recommend::Limit,
        _ => base,
    }
}

/// Whether a URL points at an Elasticsearch-style `_cluster/health` endpoint.
pub fn looks_like_cluster_health_url(url: &str) -> (r: bool)
    ensures
        r == crate::text::contains_seq(url@, "/_cluster/health"@),
{
    contains(url, "/_cluster/health")
}

/// What a `_cluster/health` JSON document holds that the hint is made from.
pub struct EsHealthFields {
    /// The document is an object with a `status` key.
    pub has_status: bool,
    /// `status`, where it is a string.
    pub status: Option<String>,
    /// `timed_out`, where it is a boolean.
    pub timed_out: Option<bool>,
    /// `number_of_pending_tasks`, where it is an integer that fits in `u64`.
    pub pending_u64: Option<u64>,
    /// `number_of_pending_tasks`, where it is an integer that fits in `i64`.
    pub pending_i64: Option<i64>,
}

/// The view of `EsHealthFields`: its strings as character sequences.
pub struct EsHealthFieldsView {
    pub has_status: bool,
    pub status: Option<Seq<char>>,
    pub timed_out: Option<bool>,
    pub pending_u64: Option<u64>,
    pub pending_i64: Option<i64>,
}

impl View for EsHealthFields {
    type V = EsHealthFieldsView;

    open spec fn view(&self) -> EsHealthFieldsView {
        EsHealthFieldsView {
            has_status: self.has_status,
            status: opt_view(self.status),
            timed_out: self.timed_out,
            pending_u64: self.pending_u64,
            pending_i64: self.pending_i64,
        }
    }
}

/// What `serde_json::from_str` followed by the field reads gives for a body:
/// `None` where the body is not JSON.
pub uninterp spec fn spec_es_health_fields(body: Seq<char>) -> Option<EsHealthFieldsView>;

/// Parses `body` with `serde_json::from_str::<serde_json::Value>` and reads the
/// `status`, `timed_out` and `number_of_pending_tasks` members with
/// `Value::get`, `as_str`, `as_bool`, `as_u64` and `as_i64`. The result is named;
/// besides, as serde_json documents, a string status means the key is present,
/// and an integer that is not a `u64` but is an `i64` is negative.
#[verifier::external_body]
fn read_es_health_fields(body: &str) -> (r: Option<EsHealthFields>)
    ensures
        match r {
            Some(f) => spec_es_health_fields(body@) == Some(f@),
            None => spec_es_health_fields(body@) is None,
        },
        r matches Some(f) ==> (f.status is Some ==> f.has_status),
        r matches Some(f) ==> (f.pending_u64 is None ==> (f.pending_i64 matches Some(i) ==> i < 0)),
{
    let v: serde_json::Value = serde_json::from_str(body).ok()?;
    let status = v.get("status");
    let pending = v.get("number_of_pending_tasks");
    Some(EsHealthFields {
        has_status: status.is_some(),
        status: status.and_then(|s| s.as_str()).map(|s| s.to_string()),
        timed_out: v.get("timed_out").and_then(|t| t.as_bool()),
        pending_u64: pending.and_then(|p| p.as_u64()),
        pending_i64: pending.and_then(|p| p.as_i64()),
    })
}

/// The pending-task count read as `u64`: a `u64` as is, else an `i64` cast.
pub open spec fn pending_tasks(f: EsHealthFieldsView) -> Option<u64> {
    match f.pending_u64 {
        Some(p) => Some(p),
        None => match f.pending_i64 {
            Some(i) => Some(i as u64),
            None => None,
        },
    }
}

/// The hint the status string gives on its own (after lowercasing).
pub open spec fn status_hint(status: Option<Seq<char>>) -> LoadHint {
    match status {
        Some(s) => if spec_to_lowercase(s) == "yellow"@ {
            LoadHint::Watch
        } else if spec_to_lowercase(s) == "red"@ {
            LoadHint::Tight
        } else {
            LoadHint::Okay
        },
        None => LoadHint::Okay,
    }
}

/// The hint the pending-task count gives on its own.
pub open spec fn pending_hint(pending: Option<u64>) -> LoadHint {
    match pending {
        Some(p) => if p >= 20 {
            LoadHint::Tight
        } else if p >= 5 {
            LoadHint::Watch
        } else {
            LoadHint::Okay
        },
        None => LoadHint::Okay,
    }
}

/// What the hint of a cluster-health document is: the worst of what its
/// status, its `timed_out` flag and its pending-task count say; `None`
/// where the document has no `status`.
pub open spec fn spec_es_hint_from_fields(f: EsHealthFieldsView) -> Option<LoadHint> {
    if !f.has_status {
        None
    } else {
        let timed = if f.timed_out == Some(true) {
            LoadHint::Tight
        } else {
            LoadHint::Okay
        };
        Some(hint_max(hint_max(status_hint(f.status), timed), pending_hint(pending_tasks(f))))
    }
}

/// The load hint of an Elasticsearch-style `_cluster/health` document, from
/// its fields.
pub fn es_health_hint_from_fields(f: &EsHealthFields) -> (r: Option<LoadHint>)
    ensures
        r == spec_es_hint_from_fields(f@),
{
    if !f.has_status {
        return None;
    }
    let mut hint = LoadHint::Okay;
    match &f.status {
        Some(s) => {
            let lower = to_lowercase(s.as_str());
            if str_eq(lower.as_str(), "yellow") {
                hint = hint.max(LoadHint::Watch);
            } else if str_eq(lower.as_str(), "red") {
                hint = hint.max(LoadHint::Tight);
            }
        },
        None => {},
    }
    if f.timed_out == Some(true) {
        hint = hint.max(LoadHint::Tight);
    }
    let pending: Option<u64> = match f.pending_u64 {
        Some(p) => Some(p),
        None => match f.pending_i64 {
            Some(i) => Some(i as u64),
            None => None,
        },
    };
    match pending {
        Some(p) => {
            if p >= 20 {
                hint = hint.max(LoadHint::Tight);
            } else if p >= 5 {
                hint = hint.max(LoadHint::Watch);
            }
        },
        None => {},
    }
    Some(hint)
}

/// What `parse_es_health_hint` returns for a body.
pub open spec fn spec_parse_es_health_hint(body: Seq<char>) -> Option<LoadHint> {
    match spec_es_health_fields(body) {
        Some(f) => spec_es_hint_from_fields(f),
        None => None,
    }
}

/// Parse an Elasticsearch-style `_cluster/health` JSON body (or similar) into
/// a load hint; `None` where it is not JSON or has no `status`.
pub fn parse_es_health_hint(body: &str) -> (r: Option<LoadHint>)
    ensures
        r == spec_parse_es_health_hint(body@),
{
    match read_es_health_fields(body) {
        Some(f) => es_health_hint_from_fields(&f),
        None => None,
    }
}

/// Reading back the label of a hint gives the hint.
pub proof fn law_hint_label_round_trip(h: LoadHint)
    ensures
        hint_from_label(hint_label(h)) == Some(h),
{
    reveal_strlit("ok");
    reveal_strlit("watch");
    reveal_strlit("tight");
    assert("ok"@.len() == 2 && "watch"@.len() == 5 && "tight"@.len() == 5);
    assert("watch"@[0] != "tight"@[0]);
}

/// Reading back the label of a recommendation gives the recommendation.
pub proof fn law_recommend_label_round_trip(r: Recommend)
    ensures
        recommend_from_label(recommend_label(r)) == Some(r),
{
    reveal_strlit("ok");
    reveal_strlit("watch");
    reveal_strlit("scale_out");
    reveal_strlit("limit");
    assert("ok"@.len() == 2 && "watch"@.len() == 5 && "scale_out"@.len() == 9 && "limit"@.len()
        == 5);
    assert("watch"@[0] != "limit"@[0]);
}

/// Merging hints is commutative and associative, `None` is its identity,
/// merging a hint with itself changes nothing, and the merge is never better
/// than either side.
pub proof fn law_merge_hint(a: Option<LoadHint>, b: Option<LoadHint>, c: Option<LoadHint>)
    ensures
        spec_merge_hint(a, b) == spec_merge_hint(b, a),
        spec_merge_hint(spec_merge_hint(a, b), c) == spec_merge_hint(a, spec_merge_hint(b, c)),
        spec_merge_hint(a, None) == a,
        spec_merge_hint(a, a) == a,
        a matches Some(x) ==> spec_merge_hint(a, b) matches Some(m) && hint_rank(m) >= hint_rank(
            x,
        ),
        b matches Some(y) ==> spec_merge_hint(a, b) matches Some(m) && hint_rank(m) >= hint_rank(
            y,
        ),
{
}

/// A service whose status lowercases to `down` or `unknown` is always limited.
pub proof fn law_down_or_unknown_is_limited(
    status: Seq<char>,
    load_hint: Option<LoadHint>,
    latency_ms: Option<i64>,
)
    requires
        lowercase(status) == "down"@ || lowercase(status) == "unknown"@,
    ensures
        spec_service_recommend(status, load_hint, latency_ms) == Recommend::Limit,
{
}

/// For a service that is not down, a worse load hint never gives a milder
/// recommendation, and neither does a higher latency.
pub proof fn law_recommend_monotone(
    status: Seq<char>,
    h1: Option<LoadHint>,
    h2: Option<LoadHint>,
    l1: Option<i64>,
    l2: Option<i64>,
)
    requires
        (match h1 {
            Some(x) => x,
            None => LoadHint::Okay,
        }) matches x1 && (match h2 {
            Some(y) => y,
            None => LoadHint::Okay,
        }) matches x2 && hint_rank(x1) <= hint_rank(x2),
        latency_high(l1) ==> latency_high(l2),
    ensures
        recommend_rank(spec_recommend_for(status, h1, l1)) <= recommend_rank(
            spec_recommend_for(status, h2, l2),
        ),
{
}

/// The cluster rule never lowers a recommendation, applying it twice is the
/// same as once, and a tight cluster is always limited.
pub proof fn law_apply_es_recommend(hint: Option<LoadHint>, base: Recommend)
    ensures
        recommend_rank(spec_apply_es_recommend(hint, base)) >= recommend_rank(base),
        spec_apply_es_recommend(hint, spec_apply_es_recommend(hint, base))
            == spec_apply_es_recommend(hint, base),
        hint == Some(LoadHint::Tight) ==> spec_apply_es_recommend(hint, base) == Recommend::Limit,
{
}

/// A negative pending-task count reads as a huge `u64`, so the hint is tight.
pub proof fn law_negative_pending_is_tight(f: EsHealthFieldsView, i: i64)
    requires
        f.has_status,
        f.pending_u64 is None,
        f.pending_i64 == Some(i),
        i < 0,
    ensures
        spec_es_hint_from_fields(f) == Some(LoadHint::Tight),
{
    assert(i < 0 ==> (i as u64) >= 20) by (bit_vector);
}

} // verus!
