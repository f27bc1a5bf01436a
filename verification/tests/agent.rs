use tiny_log::agent::checks::{
    http_probe_result, probe_plan, probe_timeout_ms, process_probe_result, rss_total, tcp_probe_result,
    unknown_result, HttpOutcome, ProbePlan, ServiceCheckResult, TcpOutcome,
};
use tiny_log::agent::config::{
    clamp_interval, default_disk_name, resolve_disks, AgentConfig, AgentEnv, ConfigError, DiskFileConfig,
    FileConfig, ServiceConfig,
};
use tiny_log::agent::docker::{
    container_plan, docker_state_result, finalize_container, load_probe_url, merge_load_probe,
    DockerContainer,
};
use tiny_log::agent::host::{disk_usage, primary_disk, DiskSample};
use tiny_log::agent::load::{
    apply_es_recommend, looks_like_cluster_health_url, merge_hint, parse_es_health_hint,
    service_recommend, LoadHint, Recommend,
};
use tiny_log::agent::procfs::{
    cmdline_matches, cpu_times, field_kb, fields, kb_to_bytes, lines, memory_bytes, parse_kb, pid_of,
    proc_cpu_jiffies, total_jiffies,
};
use tiny_log::agent::push::{after_failed_push, push_url, push_verdict, PushVerdict, RetryAction};

fn env(url: Option<&str>, key: Option<&str>) -> AgentEnv {
    AgentEnv {
        url: url.map(|s| s.to_string()),
        api_key: key.map(|s| s.to_string()),
        host_name: None,
        system_interval_secs: None,
        service_interval_secs: None,
        docker_sock: None,
        docker: None,
        disk_path: None,
    }
}

fn empty_file() -> FileConfig {
    FileConfig {
        system_interval_secs: None,
        service_interval_secs: None,
        docker: None,
        docker_sock: None,
        disk_path: None,
        host_name: None,
        disk: Vec::new(),
        service: Vec::new(),
    }
}

fn svc(kind: &str) -> ServiceConfig {
    ServiceConfig {
        name: "api".to_string(),
        kind: kind.to_string(),
        url: None,
        addr: None,
        process_match: None,
        timeout_ms: None,
    }
}

#[test]
fn load_hint_labels_round_trip() {
    for h in [LoadHint::Okay, LoadHint::Watch, LoadHint::Tight] {
        assert_eq!(LoadHint::from_label(h.as_str()), Some(h));
    }
    for r in [Recommend::Okay, Recommend::Watch, Recommend::ScaleOut, Recommend::Limit] {
        assert_eq!(Recommend::from_label(r.as_str()), Some(r));
    }
    assert_eq!(Recommend::ScaleOut.as_str(), "scale_out");
    assert_eq!(LoadHint::from_label("OK"), None);
}

#[test]
fn merge_hint_keeps_the_worse() {
    assert_eq!(merge_hint(Some(LoadHint::Watch), Some(LoadHint::Tight)), Some(LoadHint::Tight));
    assert_eq!(merge_hint(Some(LoadHint::Watch), None), Some(LoadHint::Watch));
    assert_eq!(merge_hint(None, Some(LoadHint::Okay)), Some(LoadHint::Okay));
    assert_eq!(merge_hint(None, None), None);
    assert_eq!(LoadHint::Okay.max(LoadHint::Watch), LoadHint::Watch);
}

#[test]
fn service_recommend_rules() {
    assert_eq!(service_recommend("DOWN", Some(LoadHint::Okay), Some(5)), Recommend::Limit);
    assert_eq!(service_recommend("Unknown", None, None), Recommend::Limit);
    assert_eq!(service_recommend("up", Some(LoadHint::Tight), Some(2500)), Recommend::Limit);
    assert_eq!(service_recommend("up", Some(LoadHint::Tight), Some(10)), Recommend::ScaleOut);
    assert_eq!(service_recommend("up", Some(LoadHint::Watch), None), Recommend::Watch);
    assert_eq!(service_recommend("up", None, Some(2000)), Recommend::Watch);
    assert_eq!(service_recommend("up", None, Some(1999)), Recommend::Okay);
}

#[test]
fn es_recommend_limits_tight_cluster() {
    assert_eq!(apply_es_recommend(Some(LoadHint::Tight), Recommend::Okay), Recommend::Limit);
    assert_eq!(apply_es_recommend(Some(LoadHint::Watch), Recommend::Okay), Recommend::Okay);
    assert_eq!(apply_es_recommend(None, Recommend::ScaleOut), Recommend::ScaleOut);
    assert!(looks_like_cluster_health_url("http://es:9200/_cluster/health"));
    assert!(!looks_like_cluster_health_url("http://es:9200/_cat/health"));
}

#[test]
fn es_health_bodies() {
    assert_eq!(parse_es_health_hint(r#"{"status":"green"}"#), Some(LoadHint::Okay));
    assert_eq!(parse_es_health_hint(r#"{"status":"YELLOW"}"#), Some(LoadHint::Watch));
    assert_eq!(parse_es_health_hint(r#"{"status":"red"}"#), Some(LoadHint::Tight));
    assert_eq!(parse_es_health_hint(r#"{"status":"green","timed_out":true}"#), Some(LoadHint::Tight));
    assert_eq!(parse_es_health_hint(r#"{"status":"green","number_of_pending_tasks":5}"#), Some(LoadHint::Watch));
    assert_eq!(parse_es_health_hint(r#"{"status":"green","number_of_pending_tasks":20}"#), Some(LoadHint::Tight));
    assert_eq!(parse_es_health_hint(r#"{"status":"green","number_of_pending_tasks":4}"#), Some(LoadHint::Okay));
    assert_eq!(parse_es_health_hint(r#"{"status":"green","number_of_pending_tasks":-1}"#), Some(LoadHint::Tight));
    assert_eq!(parse_es_health_hint(r#"{"number_of_pending_tasks":50}"#), None);
    assert_eq!(parse_es_health_hint("not json"), None);
}

#[test]
fn disk_names() {
    assert_eq!(default_disk_name("/"), "root");
    assert_eq!(default_disk_name("///"), "root");
    assert_eq!(default_disk_name("/mnt/data/"), "data");
    assert_eq!(default_disk_name("/var/lib/docker"), "docker");
    assert_eq!(default_disk_name(""), "root");
}

#[test]
fn intervals_are_clamped() {
    assert_eq!(clamp_interval(0), 30);
    assert_eq!(clamp_interval(60), 60);
    assert_eq!(clamp_interval(10_000), 300);
}

#[test]
fn disks_from_file_and_defaults() {
    let mut file = empty_file();
    let d = resolve_disks(&file, &None).unwrap();
    assert_eq!(d.len(), 1);
    assert_eq!(d[0].name, "root");
    assert_eq!(d[0].path, "/");
    let d = resolve_disks(&file, &Some("/srv".to_string())).unwrap();
    assert_eq!(d[0].name, "srv");
    file.disk = vec![
        DiskFileConfig { name: Some("  sys ".to_string()), path: " / ".to_string() },
        DiskFileConfig { name: None, path: "/mnt/backup".to_string() },
    ];
    let d = resolve_disks(&file, &None).unwrap();
    assert_eq!(d.len(), 2);
    assert_eq!(d[0].name, "sys");
    assert_eq!(d[0].path, "/");
    assert_eq!(d[1].name, "backup");
    file.disk.push(DiskFileConfig { name: Some("sys".to_string()), path: "/x".to_string() });
    assert_eq!(resolve_disks(&file, &None).unwrap_err(), ConfigError::DuplicateDiskName("sys".to_string()));
    file.disk = vec![DiskFileConfig { name: None, path: "   ".to_string() }];
    assert_eq!(resolve_disks(&file, &None).unwrap_err(), ConfigError::EmptyDiskPath);
}

#[test]
fn agent_config_errors() {
    let file = empty_file();
    assert_eq!(AgentConfig::from_sources(&env(None, Some("k")), &file, &None, false).unwrap_err(), ConfigError::MissingUrl);
    assert_eq!(AgentConfig::from_sources(&env(Some("http://x"), None), &file, &None, false).unwrap_err(), ConfigError::MissingApiKey);
    assert_eq!(AgentConfig::from_sources(&env(Some("  "), Some("k")), &file, &None, false).unwrap_err(), ConfigError::BlankUrlOrKey);
}

#[test]
fn agent_config_from_sources() {
    let mut e = env(Some("http://server:8080///"), Some("secret"));
    e.system_interval_secs = Some("5".to_string());
    e.docker = Some("YES".to_string());
    let mut file = empty_file();
    file.service_interval_secs = Some(120);
    file.host_name = Some("from-file".to_string());
    let c = AgentConfig::from_sources(&e, &file, &Some("machine".to_string()), false).unwrap();
    assert_eq!(c.url, "http://server:8080");
    assert_eq!(c.api_key, "secret");
    assert_eq!(c.host_name, "from-file");
    assert_eq!(c.system_interval_secs, 30);
    assert_eq!(c.service_interval_secs, 120);
    assert!(c.docker_enabled);
    assert_eq!(c.docker_sock, "/var/run/docker.sock");
    let c2 = AgentConfig::from_sources(&env(Some("u"), Some("k")), &empty_file(), &None, true).unwrap();
    assert_eq!(c2.host_name, "unknown-host");
    assert!(c2.docker_enabled);
    assert_eq!(c2.system_interval_secs, 60);
}

#[test]
fn agent_config_load_asks_the_machine() {
    let c = AgentConfig::load(&env(Some("u"), Some("k")), &empty_file(), false).unwrap();
    assert!(!c.host_name.is_empty());
    let mut e = env(Some("u"), Some("k"));
    e.host_name = Some("named".to_string());
    assert_eq!(AgentConfig::load(&e, &empty_file(), false).unwrap().host_name, "named");
}

#[test]
fn probe_plans() {
    assert_eq!(probe_timeout_ms(None), 2000);
    assert_eq!(probe_timeout_ms(Some(500)), 500);
    assert_eq!(probe_timeout_ms(Some(9000)), 2000);
    let mut s = svc("HTTP");
    s.url = Some("http://x/health".to_string());
    s.timeout_ms = Some(750);
    match probe_plan(&s) {
        ProbePlan::Http { url, timeout_ms } => {
            assert_eq!(url, "http://x/health");
            assert_eq!(timeout_ms, 750);
        }
        other => panic!("unexpected plan {:?}", other),
    }
    match probe_plan(&svc("tcp")) {
        ProbePlan::Finished(r) => {
            assert_eq!(r.status, "unknown");
            assert_eq!(r.message.as_deref(), Some("addr missing"));
            assert_eq!(r.recommend.as_deref(), Some("limit"));
            assert_eq!(r.kind, "tcp");
        }
        other => panic!("unexpected plan {:?}", other),
    }
    match probe_plan(&svc("Ping")) {
        ProbePlan::Finished(r) => {
            assert_eq!(r.kind, "ping");
            assert_eq!(r.message.as_deref(), Some("unsupported kind: ping"));
        }
        other => panic!("unexpected plan {:?}", other),
    }
    let mut p = svc("process");
    p.process_match = Some("nginx".to_string());
    match probe_plan(&p) {
        ProbePlan::Process { needle } => assert_eq!(needle, "nginx"),
        other => panic!("unexpected plan {:?}", other),
    }
}

#[test]
fn http_probe_results() {
    let ok = http_probe_result("web", "http", "http://x/", HttpOutcome::Response { status_code: 204, latency_ms: 12, body: String::new() });
    assert_eq!(ok.status, "up");
    assert_eq!(ok.message.as_deref(), Some("204"));
    assert_eq!(ok.latency_ms, Some(12));
    assert_eq!(ok.load_hint, None);
    assert_eq!(ok.recommend.as_deref(), Some("ok"));
    let bad = http_probe_result("web", "http", "http://x/", HttpOutcome::Response { status_code: 503, latency_ms: 3000, body: String::new() });
    assert_eq!(bad.status, "down");
    assert_eq!(bad.recommend.as_deref(), Some("limit"));
    let es = http_probe_result(
        "es",
        "http",
        "http://es:9200/_cluster/health",
        HttpOutcome::Response { status_code: 200, latency_ms: 5, body: r#"{"status":"red"}"#.to_string() },
    );
    assert_eq!(es.message.as_deref(), Some("200; es_load=tight"));
    assert_eq!(es.load_hint.as_deref(), Some("tight"));
    assert_eq!(es.recommend.as_deref(), Some("limit"));
    let pending = http_probe_result(
        "svc",
        "http",
        "http://svc/status",
        HttpOutcome::Response { status_code: 200, latency_ms: 5, body: r#"{"status":"green","number_of_pending_tasks":7}"#.to_string() },
    );
    assert_eq!(pending.load_hint.as_deref(), Some("watch"));
    assert_eq!(pending.recommend.as_deref(), Some("watch"));
    let err = http_probe_result("web", "http", "http://x/", HttpOutcome::RequestError { latency_ms: 9, error: "refused".to_string() });
    assert_eq!(err.status, "down");
    assert_eq!(err.message.as_deref(), Some("refused"));
    assert_eq!(err.recommend.as_deref(), Some("limit"));
    let client = http_probe_result("web", "http", "http://x/", HttpOutcome::ClientError("tls".to_string()));
    assert_eq!(client.latency_ms, None);
    assert_eq!(client.recommend.as_deref(), Some("limit"));
}

#[test]
fn tcp_and_process_results() {
    let up = tcp_probe_result("db", TcpOutcome::Connected { latency_ms: 3 });
    assert_eq!(up.status, "up");
    assert_eq!(up.message.as_deref(), Some("connected"));
    assert_eq!(up.recommend, None);
    let t = tcp_probe_result("db", TcpOutcome::TimedOut { latency_ms: 2000 });
    assert_eq!(t.message.as_deref(), Some("timeout"));
    assert_eq!(t.recommend.as_deref(), Some("limit"));
    let f = tcp_probe_result("db", TcpOutcome::Failed { latency_ms: 1, error: "no route".to_string() });
    assert_eq!(f.status, "down");
    let none = process_probe_result("nginx", 0, 0, None);
    assert_eq!(none.message.as_deref(), Some("process not found"));
    assert_eq!(none.recommend.as_deref(), Some("limit"));
    let some = process_probe_result("nginx", 3, 4096, Some(8192));
    assert_eq!(some.message.as_deref(), Some("process found (3)"));
    assert_eq!(some.mem_used_bytes, Some(4096));
    assert_eq!(some.mem_limit_bytes, Some(8192));
    assert_eq!(process_probe_result("x", 1, 0, None).mem_used_bytes, None);
    assert_eq!(rss_total(&[Some(1), None, Some(2)]), 3);
    assert_eq!(rss_total(&[Some(i64::MAX), Some(1)]), i64::MAX);
}

#[test]
fn finalize_resources_merges_and_is_idempotent() {
    let r = unknown_result("a", "http", "m");
    let f = r.finalize_resources(Some(LoadHint::Tight));
    assert_eq!(f.load_hint.as_deref(), Some("tight"));
    assert_eq!(f.recommend.as_deref(), Some("limit"));
    let up = tcp_probe_result("db", TcpOutcome::Connected { latency_ms: 3 });
    let once = up.finalize_resources(Some(LoadHint::Watch));
    assert_eq!(once.recommend.as_deref(), Some("watch"));
    let twice = once.clone().finalize_resources(Some(LoadHint::Watch));
    assert_eq!(twice.load_hint, once.load_hint);
    assert_eq!(twice.recommend, once.recommend);
    let plain = tcp_probe_result("db", TcpOutcome::Connected { latency_ms: 3 }).finalize_resources(None);
    assert_eq!(plain.load_hint, None);
    assert_eq!(plain.recommend.as_deref(), Some("ok"));
}

fn container(labels: &[(&str, &str)], state: &str, status: &str) -> DockerContainer {
    DockerContainer {
        id: "0123456789abcdef0123".to_string(),
        names: Some(vec!["//web-1".to_string()]),
        labels: Some(labels.iter().map(|(k, v)| (k.to_string(), v.to_string())).collect()),
        state: Some(state.to_string()),
        status: Some(status.to_string()),
    }
}

#[test]
fn container_plans() {
    assert!(container_plan(&container(&[], "running", "Up")).is_none());
    assert!(container_plan(&container(&[("tiny-log.monitor", "off")], "running", "Up")).is_none());
    let p = container_plan(&container(&[("tiny-log.monitor", "TRUE")], "Running", "Up")).unwrap();
    assert_eq!(p.name, "web-1");
    assert!(p.running);
    assert_eq!(p.health_url, None);
    let p = container_plan(&container(&[("tiny-log.monitor", "1"), ("tiny-log.service", "shop")], "exited", "")).unwrap();
    assert_eq!(p.name, "shop");
    assert!(!p.running);
    let mut c = container(&[("tiny-log.monitor", "yes")], "running", "");
    c.names = None;
    assert_eq!(container_plan(&c).unwrap().name, "0123456789ab");
    let p = container_plan(&container(
        &[("tiny-log.monitor", "yes"), ("tiny-log.health", "http://a/h"), ("tiny-log.load", "http://a/h")],
        "running",
        "",
    ))
    .unwrap();
    assert_eq!(load_probe_url(&p), None);
    let p = container_plan(&container(
        &[("tiny-log.monitor", "yes"), ("tiny-log.load", "http://es/_cluster/health")],
        "running",
        "",
    ))
    .unwrap();
    assert_eq!(load_probe_url(&p).as_deref(), Some("http://es/_cluster/health"));
}

#[test]
fn docker_state_results() {
    let h = docker_state_result("w", true, &Some("Up 2 hours (healthy)".to_string()));
    assert_eq!((h.status.as_str(), h.message.as_deref()), ("up", Some("docker healthy")));
    let u = docker_state_result("w", true, &Some("Up 2 hours (Unhealthy)".to_string()));
    assert_eq!((u.status.as_str(), u.message.as_deref()), ("down", Some("docker unhealthy")));
    let r = docker_state_result("w", true, &None);
    assert_eq!((r.status.as_str(), r.message.as_deref()), ("up", Some("docker running")));
    let s = docker_state_result("w", false, &Some("(healthy)".to_string()));
    assert_eq!((s.status.as_str(), s.message.as_deref()), ("down", Some("docker not running")));
    assert_eq!(s.kind, "docker");
}

#[test]
fn load_probe_merges_into_container_result() {
    let base = docker_state_result("w", true, &None);
    let probe = http_probe_result(
        "w",
        "http",
        "http://es/_cluster/health",
        HttpOutcome::Response { status_code: 200, latency_ms: 4, body: r#"{"status":"yellow"}"#.to_string() },
    );
    let merged = merge_load_probe(base, "http://es/_cluster/health", &probe);
    assert_eq!(merged.message.as_deref(), Some("docker running; load=200; es_load=watch"));
    assert_eq!(merged.load_hint.as_deref(), Some("watch"));
    assert_eq!(merged.recommend.as_deref(), Some("watch"));
    let p = container_plan(&container(
        &[("tiny-log.monitor", "yes"), ("tiny-log.load", "http://es/_cluster/health")],
        "running",
        "",
    ))
    .unwrap();
    let done = finalize_container(merged, &p, Some(LoadHint::Tight));
    assert_eq!(done.load_hint.as_deref(), Some("tight"));
    assert_eq!(done.recommend.as_deref(), Some("limit"));
}

#[test]
fn proc_text_splitting() {
    assert_eq!(lines("a\r\nb\n\nc"), vec!["a", "b", "", "c"]);
    assert_eq!(lines("x\n"), vec!["x"]);
    assert!(lines("").is_empty());
    assert_eq!(fields("  1\t 2  kB \n"), vec!["1", "2", "kB"]);
    assert_eq!(parse_kb("   2048 kB"), Some(2048));
    assert_eq!(parse_kb(" kB"), None);
    assert_eq!(parse_kb(""), None);
}

#[test]
fn meminfo_and_fields() {
    let raw = "MemTotal:       16000 kB\nMemFree:  100 kB\nMemAvailable:    4000 kB\n";
    assert_eq!(memory_bytes(raw), (Some(12000 * 1024), Some(16000 * 1024)));
    assert_eq!(memory_bytes("MemTotal: 10 kB\n"), (None, Some(10240)));
    assert_eq!(memory_bytes("nothing"), (None, None));
    let status = "Name:\tnginx\nVmRSS:\t  300 kB\nVmRSS:\t 1 kB\n";
    assert_eq!(field_kb(status, "VmRSS:"), Some(300));
    assert_eq!(field_kb(status, "VmSwap:"), None);
    assert_eq!(kb_to_bytes(300), 307_200);
}

#[test]
fn cpu_time_parsing() {
    let stat = "cpu  10 0 5 100 7 0 0 0\ncpu0 1 2 3 4\n";
    assert_eq!(cpu_times(stat), Some((107, 122)));
    assert_eq!(cpu_times("cpu 1 2 3\n"), None);
    assert_eq!(cpu_times("intr 1 2 3 4\n"), None);
    assert_eq!(total_jiffies(stat), Some(122));
    let pid_stat = "1234 (my (odd) prog) S 1 2 3 4 5 6 7 8 9 10 40 2 0";
    assert_eq!(proc_cpu_jiffies(pid_stat), Some(42));
    assert_eq!(proc_cpu_jiffies("1234 (x)"), None);
    assert_eq!(pid_of("4321"), Some(4321));
    assert_eq!(pid_of("self"), None);
    assert_eq!(pid_of(""), None);
    assert!(cmdline_matches("nginx\0-g\0daemon off;", "nginx -g"));
    assert!(!cmdline_matches("nginx\0-g", "nginx -x"));
}

#[test]
fn disk_usage_from_statvfs() {
    assert_eq!(disk_usage(100, 40, 4096), (60 * 4096, 100 * 4096));
    assert_eq!(disk_usage(u64::MAX, 0, 2).1, -2);
}

#[test]
fn push_rules() {
    assert_eq!(push_url("http://s:8080"), "http://s:8080/api/v1/metrics/batch");
    assert_eq!(push_verdict(200, "200 OK", ""), PushVerdict::Accepted);
    assert_eq!(
        push_verdict(401, "401 Unauthorized", "no"),
        PushVerdict::Rejected("metrics push rejected: 401 Unauthorized no".to_string())
    );
    assert_eq!(
        push_verdict(500, "500 Internal Server Error", "boom"),
        PushVerdict::Failed("metrics push failed: 500 Internal Server Error boom".to_string())
    );
    assert_eq!(after_failed_push(0, "metrics push failed: 500"), RetryAction::Backoff(200));
    assert_eq!(after_failed_push(1, "timeout"), RetryAction::Backoff(400));
    assert_eq!(after_failed_push(2, "timeout"), RetryAction::Stop);
    assert_eq!(after_failed_push(0, "metrics push rejected: 413"), RetryAction::Stop);
}

fn disk(name: &str, used: Option<i64>, total: Option<i64>) -> DiskSample {
    DiskSample { name: name.to_string(), path: format!("/{name}"), used_bytes: used, total_bytes: total }
}

#[test]
fn primary_disk_is_the_fullest() {
    assert_eq!(primary_disk(&[]), (None, None));
    let d = vec![disk("a", Some(10), Some(100)), disk("b", Some(90), Some(100)), disk("c", Some(1), Some(2))];
    assert_eq!(primary_disk(&d), (Some(90), Some(100)));
    let tie = vec![disk("a", Some(1), Some(2)), disk("b", Some(50), Some(100))];
    assert_eq!(primary_disk(&tie), (Some(50), Some(100)));
    let none = vec![disk("a", None, Some(100)), disk("b", Some(5), Some(0))];
    assert_eq!(primary_disk(&none), (None, Some(100)));
    let big = vec![disk("a", Some(i64::MAX - 1), Some(i64::MAX)), disk("b", Some(1), Some(3))];
    assert_eq!(primary_disk(&big), (Some(i64::MAX - 1), Some(i64::MAX)));
}
