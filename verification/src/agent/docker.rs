//! Docker containers as monitored services: which containers are watched,
//! under what name, and how their state, probes and load combine into a
//! check result.
//!
//! Talking to the Docker socket and probing URLs is left to the caller; the
//! functions here take what came back.
use vstd::prelude::*;
use crate::agent::checks::{
    ServiceCheckResult, carried_hint, no_memory, opt_hint_label, refined_from, refined_hint,
    refined_recommend, result_is,
};
use crate::agent::load::recommend_label;
use crate::agent::load::looks_like_cluster_health_url;
use crate::text::{
    concat, contains, contains_seq, opt_view, owned, spec_to_lowercase, str_eq, string_from_range,
    chars_of, to_lowercase, trim_start_char, trim_start_char_seq,
};

verus! {

/// A container as `GET /containers/json` lists it. The labels are the
/// members of the `Labels` object, each key once (`distinct_label_keys`).
#[derive(Debug, Clone)]
pub struct DockerContainer {
    pub id: String,
    pub names: Option<Vec<String>>,
    pub labels: Option<Vec<(String, String)>>,
    pub state: Option<String>,
    pub status: Option<String>,
}

/// The value of the first label with the given key.
pub open spec fn label_value(labels: Seq<(String, String)>, key: Seq<char>) -> Option<Seq<char>>
    decreases labels.len(),
{
    if labels.len() == 0 {
        None
    } else if labels[0].0@ == key {
        Some(labels[0].1@)
    } else {
        label_value(labels.drop_first(), key)
    }
}

/// No label key occurs twice, as in the `Labels` object Docker sends.
pub open spec fn distinct_label_keys(labels: Seq<(String, String)>) -> bool {
    forall|i: int, j: int|
        0 <= i < labels.len() && 0 <= j < labels.len() && i != j ==> #[trigger] labels[i].0@
            != #[trigger] labels[j].0@
}

/// With each key once, looking up a label does not depend on the order of
/// the labels: it gives the value paired with the key, wherever it stands,
/// and nothing where the key is absent.
pub proof fn law_label_lookup_is_order_free(labels: Seq<(String, String)>, key: Seq<char>, i: int)
    requires
        distinct_label_keys(labels),
    ensures
        0 <= i < labels.len() && labels[i].0@ == key ==> label_value(labels, key) == Some(labels[i].1@),
        (forall|j: int| 0 <= j < labels.len() ==> #[trigger] labels[j].0@ != key) ==> label_value(labels, key) is None,
    decreases labels.len(),
{
    if labels.len() > 0 {
        let rest = labels.drop_first();
        assert forall|a: int, b: int|
            0 <= a < rest.len() && 0 <= b < rest.len() && a != b implies #[trigger] rest[a].0@ != #[trigger] rest[b].0@ by {
            assert(rest[a] == labels[a + 1] && rest[b] == labels[b + 1]);
        }
        law_label_lookup_is_order_free(rest, key, i - 1);
        if 0 <= i < labels.len() && labels[i].0@ == key && i > 0 {
            assert(labels[0].0@ != labels[i].0@);
            assert(rest[i - 1] == labels[i]);
        }
        if forall|j: int| 0 <= j < labels.len() ==> #[trigger] labels[j].0@ != key {
            assert forall|j: int| 0 <= j < rest.len() implies #[trigger] rest[j].0@ != key by {
                assert(rest[j] == labels[j + 1]);
            }
            assert(labels[0].0@ != key);
        }
    }
}

/// The labels of a container; none where it has no `Labels` object.
pub open spec fn labels_of(c: DockerContainer) -> Seq<(String, String)> {
    match c.labels {
        Some(v) => v@,
        None => Seq::empty(),
    }
}

/// Looks up a label by key.
pub fn label<'a>(labels: &'a [(String, String)], key: &str) -> (r: Option<&'a String>)
    ensures
        match r {
            Some(v) => label_value(labels@, key@) == Some(v@),
            None => label_value(labels@, key@) is None,
        },
{
    let mut i: usize = 0;
    assert(labels@.skip(0) =~= labels@);
    while i < labels.len()
        invariant
            i <= labels@.len(),
            label_value(labels@, key@) == label_value(labels@.skip(i as int), key@),
        decreases labels@.len() - i,
    {
        assert(labels@.skip(i as int)[0] == labels@[i as int]);
        if str_eq(labels[i].0.as_str(), key) {
            return Some(&labels[i].1);
        }
        assert(labels@.skip(i as int).drop_first() =~= labels@.skip(i + 1));
        i = i + 1;
    }
    assert(labels@.skip(i as int) =~= Seq::<(String, String)>::empty());
    None
}

/// A monitor label opts in when it lowercases to `1`, `true` or `yes`.
pub open spec fn spec_monitor_flag(v: Seq<char>) -> bool {
    let l = spec_to_lowercase(v);
    l == "1"@ || l == "true"@ || l == "yes"@
}

/// The first twelve characters of a container id (all of a shorter one).
pub open spec fn short_id(id: Seq<char>) -> Seq<char> {
    if id.len() <= 12 {
        id
    } else {
        id.take(12)
    }
}

/// The service name of a container: its service label, else its first name
/// without the leading slashes, else the start of its id.
pub open spec fn spec_container_name(c: DockerContainer) -> Seq<char> {
    match label_value(labels_of(c), "tiny-log.service"@) {
        Some(n) => n,
        None => match c.names {
            Some(ns) if ns@.len() > 0 => trim_start_char_seq(ns@[0]@, '/'),
            _ => short_id(c.id@),
        },
    }
}

/// Whether Docker reports the container as running (in any case).
pub open spec fn spec_running(c: DockerContainer) -> bool {
    spec_to_lowercase(
        match c.state {
            Some(s) => s@,
            None => Seq::empty(),
        },
    ) == "running"@
}

/// How a watched container is checked.
#[derive(Debug, Clone)]
pub struct ContainerPlan {
    /// The service name results are reported under.
    pub name: String,
    /// Docker reports the container as running.
    pub running: bool,
    /// A URL to probe in place of Docker's health state.
    pub health_url: Option<String>,
    /// A URL whose body tells the service's load.
    pub load_url: Option<String>,
}

/// What `container_plan` decides for a container: nothing for a container
/// that has not opted in.
pub open spec fn container_plan_matches(c: DockerContainer, p: Option<ContainerPlan>) -> bool {
    let labels = labels_of(c);
    match label_value(labels, "tiny-log.monitor"@) {
        Some(v) if spec_monitor_flag(v) => p matches Some(plan) && plan.name@ == spec_container_name(
            c,
        ) && plan.running == spec_running(c) && opt_view(plan.health_url) == label_value(
            labels,
            "tiny-log.health"@,
        ) && opt_view(plan.load_url) == label_value(labels, "tiny-log.load"@),
        _ => p is None,
    }
}

fn short_id_exec(id: &str) -> (r: String)
    ensures
        r@ == short_id(id@),
{
    let v = chars_of(id);
    if v.len() <= 12 {
        owned(id)
    } else {
        assert(v@.subrange(0, 12) =~= id@.take(12));
        string_from_range(&v, 0, 12)
    }
}

fn label_string(labels: &[(String, String)], key: &str) -> (r: Option<String>)
    ensures
        opt_view(r) == label_value(labels@, key@),
{
    match label(labels, key) {
        Some(v) => Some(v.clone()),
        None => None,
    }
}

/// Decides whether a container is watched and, if so, how it is checked.
pub fn container_plan(c: &DockerContainer) -> (p: Option<ContainerPlan>)
    requires
        distinct_label_keys(labels_of(*c)),
    ensures
        container_plan_matches(*c, p),
{
    let empty: Vec<(String, String)> = Vec::new();
    let labels: &[(String, String)] = match &c.labels {
        Some(v) => v.as_slice(),
        None => empty.as_slice(),
    };
    assert(labels@ == labels_of(*c));
    let monitor = match label(labels, "tiny-log.monitor") {
        Some(v) => {
            let l = to_lowercase(v.as_str());
            str_eq(l.as_str(), "1") || str_eq(l.as_str(), "true") || str_eq(l.as_str(), "yes")
        },
        None => false,
    };
    if !monitor {
        return None;
    }
    let name = match label(labels, "tiny-log.service") {
        Some(n) => n.clone(),
        None => {
            let first: Option<&String> = match &c.names {
                Some(ns) => if ns.len() > 0 {
                    Some(&ns[0])
                } else {
                    None
                },
                None => None,
            };
            match first {
                Some(n) => trim_start_char(n.as_str(), '/'),
                None => short_id_exec(c.id.as_str()),
            }
        },
    };
    let state = match &c.state {
        Some(s) => to_lowercase(s.as_str()),
        None => to_lowercase(""),
    };
    proof {
        reveal_strlit("");
        assert(""@ =~= Seq::<char>::empty());
    }
    let running = str_eq(state.as_str(), "running");
    Some(
        ContainerPlan {
            name,
            running,
            health_url: label_string(labels, "tiny-log.health"),
            load_url: label_string(labels, "tiny-log.load"),
        },
    )
}

/// The URL of a separate load probe: the load URL, unless it is the health
/// URL already probed.
pub open spec fn spec_load_probe_url(p: ContainerPlan) -> Option<Seq<char>> {
    match p.load_url {
        Some(u) => if opt_view(p.health_url) == Some(u@) {
            None
        } else {
            Some(u@)
        },
        None => None,
    }
}

/// The URL to probe for load, if a separate probe is needed.
pub fn load_probe_url(p: &ContainerPlan) -> (r: Option<String>)
    ensures
        opt_view(r) == spec_load_probe_url(*p),
{
    match &p.load_url {
        Some(u) => {
            let same = match &p.health_url {
                Some(h) => str_eq(h.as_str(), u.as_str()),
                None => false,
            };
            if same {
                None
            } else {
                Some(u.clone())
            }
        },
        None => None,
    }
}

/// What Docker's own state says of a container: a running container is up
/// unless its status reports it unhealthy; a stopped one is down.
pub open spec fn docker_state_matches(
    r: ServiceCheckResult,
    name: Seq<char>,
    running: bool,
    status: Option<Seq<char>>,
) -> bool {
    let health = spec_to_lowercase(
        match status {
            Some(s) => s,
            None => Seq::empty(),
        },
    );
    let (st, msg) = if running {
        if contains_seq(health, "(healthy)"@) {
            ("up"@, "docker healthy"@)
        } else if contains_seq(health, "(unhealthy)"@) {
            ("down"@, "docker unhealthy"@)
        } else {
            ("up"@, "docker running"@)
        }
    } else {
        ("down"@, "docker not running"@)
    };
    result_is(r, name, "docker"@, st, None, Some(msg), None, None) && no_memory(r)
}

/// The check result of a container without a health URL, from Docker's own
/// state and status text.
pub fn docker_state_result(name: &str, running: bool, status: &Option<String>) -> (r:
    ServiceCheckResult)
    ensures
        docker_state_matches(r, name@, running, opt_view(*status)),
{
    let health = match status {
        Some(s) => to_lowercase(s.as_str()),
        None => to_lowercase(""),
    };
    proof {
        reveal_strlit("");
        assert(""@ =~= Seq::<char>::empty());
    }
    let (st, msg) = if running {
        if contains(health.as_str(), "(healthy)") {
            ("up", "docker healthy")
        } else if contains(health.as_str(), "(unhealthy)") {
            ("down", "docker unhealthy")
        } else {
            ("up", "docker running")
        }
    } else {
        ("down", "docker not running")
    };
    ServiceCheckResult {
        name: owned(name),
        kind: owned("docker"),
        status: owned(st),
        latency_ms: None,
        message: Some(owned(msg)),
        mem_used_bytes: None,
        mem_limit_bytes: None,
        load_hint: None,
        recommend: None,
    }
}

/// The message after a load probe: the result's message (empty if none),
/// `; load=` and the probe's message, where the probe has one.
pub open spec fn merged_message(result: Option<Seq<char>>, probe: Option<Seq<char>>) -> Option<Seq<char>> {
    match probe {
        Some(m) => Some(
            match result {
                Some(r) => r,
                None => Seq::empty(),
            } + "; load="@ + m,
        ),
        None => result,
    }
}

/// Folds a separate load probe of `load_url` into a container's result: the
/// worse of the two hints is kept, the recommendation is made anew (with the
/// cluster rule for a `_cluster/health` URL), and the probe's message is
/// appended.
pub fn merge_load_probe(result: ServiceCheckResult, load_url: &str, probe: &ServiceCheckResult) -> (r:
    ServiceCheckResult)
    ensures
        ({
            let es = contains_seq(load_url@, "/_cluster/health"@);
            &&& opt_view(r.message) == merged_message(opt_view(result.message), opt_view(probe.message))
            &&& r.name@ == result.name@
            &&& r.kind@ == result.kind@
            &&& r.status@ == result.status@
            &&& r.latency_ms == result.latency_ms
            &&& r.mem_used_bytes == result.mem_used_bytes
            &&& r.mem_limit_bytes == result.mem_limit_bytes
            &&& opt_view(r.load_hint) == opt_hint_label(refined_hint(result, carried_hint(*probe)))
            &&& opt_view(r.recommend) == Some(
                recommend_label(refined_recommend(result, carried_hint(*probe), es)),
            )
        }),
{
    let probe_hint = match &probe.load_hint {
        Some(s) => crate::agent::load::LoadHint::from_label(s.as_str()),
        None => None,
    };
    let es = looks_like_cluster_health_url(load_url);
    let mut out = result.refine(probe_hint, es);
    match &probe.message {
        Some(m) => {
            let before = match &out.message {
                Some(x) => x.clone(),
                None => owned(""),
            };
            proof {
                reveal_strlit("");
                assert(""@ =~= Seq::<char>::empty());
            }
            let head = concat(before.as_str(), "; load=");
            out.message = Some(concat(head.as_str(), m.as_str()));
        },
        None => {},
    }
    out
}

/// Whether the cluster rule applies to a container: its health or its load
/// URL is a `_cluster/health` URL.
pub open spec fn container_es(p: ContainerPlan) -> bool {
    (p.health_url matches Some(u) && contains_seq(u@, "/_cluster/health"@)) || (
    p.load_url matches Some(u) && contains_seq(u@, "/_cluster/health"@))
}

/// The last step of a container check: folds the hint of its resource
/// readings (worked out by the caller from CPU and memory percentages) into
/// the result, with the cluster rule where the container's health or load
/// URL is a `_cluster/health` URL.
pub fn finalize_container(result: ServiceCheckResult, p: &ContainerPlan, resource_hint: Option<
    crate::agent::load::LoadHint,
>) -> (r: ServiceCheckResult)
    ensures
        refined_from(r, result, resource_hint, container_es(*p)),
{
    let es_health = match &p.health_url {
        Some(u) => looks_like_cluster_health_url(u.as_str()),
        None => false,
    };
    let es_load = match &p.load_url {
        Some(u) => looks_like_cluster_health_url(u.as_str()),
        None => false,
    };
    result.refine(resource_hint, es_health || es_load)
}

} // verus!
