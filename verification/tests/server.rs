use tiny_log::auth::session::AdminUser;
use tiny_log::auth::session::Session;
use tiny_log::clock::ms_to_rfc3339;
use tiny_log::error::AppError;
use tiny_log::server::auth::{
    admin_access, require_api_key, require_client_token, require_logged_in_admin, session_verdict,
    AdminAccess, AuthUser, SessionAction,
};
use tiny_log::server::cli::{check_admin_absent, check_current_password, check_new_username, check_passwords_match};
use tiny_log::server::config::{
    resolve_auth_mode, resolve_database_paths, resolve_web_dir, sqlite_url, warn_prod_config, AuthMode,
    Config, ProdWarning, ServerEnv,
};
use tiny_log::server::db::logs::{page_limit, parse_bound, stored_meta, LogQuery};
use tiny_log::server::db::metrics::{
    capacity_host, normalize_load_hint, normalize_recommend, normalize_service_check,
    normalize_service_checks, parse_batch_timestamp, parse_batch_timestamp_at, plan_ingest, HistoryPlan,
    ServiceCheckFields,
};
use tiny_log::server::migrate::should_split_legacy;
use tiny_log::server::models::log::{client_source, parse_timestamp_ms, valid_level, validate_batch, NewLog};
use tiny_log::server::models::metrics::MetricsHistoryQuery;
use tiny_log::server::settings::{read_setting, retention_cutoff, setting_text, settings_from, Settings};
use tiny_log::server::state::LoginLimiter;
use tiny_log::server::web::{
    asset_allowed, content_type, login_page, monitor_page, root_page, settings_page, setup_page, Page,
};

fn server_env() -> ServerEnv {
    ServerEnv {
        host: None,
        port: None,
        logs_database: None,
        system_database: None,
        metrics_database: None,
        database: None,
        api_key: None,
        client_token: None,
        auth_mode: None,
        require_auth: None,
        retention_days: None,
        session_days: None,
        cookie_secure: None,
        max_body_mb: None,
        max_batch: None,
        cors_origin: None,
        web_dir: None,
        server_web_is_dir: false,
        web_is_dir: false,
    }
}

fn s(v: &str) -> Option<String> {
    Some(v.to_string())
}

fn admin() -> AdminUser {
    AdminUser { id: 1, username: "root".to_string(), password_hash: "x".to_string(), created_at: 0, updated_at: 0 }
}

fn file(p: &Page) -> &str {
    match p {
        Page::File(f) => f,
        Page::Redirect(_) => panic!("expected a file"),
    }
}

fn redirect(p: &Page) -> &str {
    match p {
        Page::Redirect(t) => t,
        Page::File(_) => panic!("expected a redirect"),
    }
}

#[test]
fn config_defaults() {
    let c = Config::from_env(&server_env());
    assert_eq!(c.host, "0.0.0.0");
    assert_eq!(c.port, 8080);
    assert_eq!(c.bind_addr(), "0.0.0.0:8080");
    assert_eq!(c.logs_database, "./data/logs.db");
    assert_eq!(c.system_database, "./data/system.db");
    assert_eq!(c.metrics_database, "./data/metrics.db");
    assert_eq!(c.logs_database_url(), "sqlite:./data/logs.db?mode=rwc");
    assert_eq!(c.system_database_url(), "sqlite:./data/system.db?mode=rwc");
    assert_eq!(c.metrics_database_url(), "sqlite:./data/metrics.db?mode=rwc");
    assert_eq!(c.retention_days, 30);
    assert_eq!(c.session_days, 7);
    assert_eq!(c.max_body_mb, 1);
    assert_eq!(c.max_batch, 500);
    assert!(c.cookie_secure);
    assert_eq!(c.auth_mode, AuthMode::Login);
    assert!(!c.is_anonymous());
    assert_eq!(c.web_dir, "./server/web");
}

#[test]
fn config_limits_are_clamped() {
    let mut e = server_env();
    e.retention_days = s("0");
    e.session_days = s("-4");
    e.max_batch = s("9000");
    e.max_body_mb = s("0");
    e.port = s("99999");
    let c = Config::from_env(&e);
    assert_eq!(c.retention_days, 1);
    assert_eq!(c.session_days, 1);
    assert_eq!(c.max_batch, 500);
    assert_eq!(c.max_body_mb, 1);
    assert_eq!(c.port, 8080);
    e.retention_days = s("99999");
    e.max_batch = s("0");
    let c = Config::from_env(&e);
    assert_eq!(c.retention_days, 3650);
    assert_eq!(c.max_batch, 1);
}

#[test]
fn auth_modes() {
    assert_eq!(resolve_auth_mode(&s("ANON"), &None), AuthMode::Anonymous);
    assert_eq!(resolve_auth_mode(&s("user"), &s("false")), AuthMode::Login);
    assert_eq!(resolve_auth_mode(&s("weird"), &s("no")), AuthMode::Anonymous);
    assert_eq!(resolve_auth_mode(&None, &s("on")), AuthMode::Login);
    assert_eq!(resolve_auth_mode(&None, &None), AuthMode::Login);
    assert_eq!(AuthMode::Anonymous.as_str(), "anonymous");
    assert_eq!(AuthMode::Login.as_str(), "login");
}

#[test]
fn database_paths() {
    assert_eq!(
        resolve_database_paths(&s("a.db"), &s("b.db"), &s("c.db"), &s("/x/y.db")),
        ("a.db".to_string(), "b.db".to_string(), "c.db".to_string())
    );
    assert_eq!(
        resolve_database_paths(&s("a.db"), &None, &s(""), &s("/srv/old/logs.db")),
        ("a.db".to_string(), "/srv/old/system.db".to_string(), "/srv/old/metrics.db".to_string())
    );
    assert_eq!(
        resolve_database_paths(&None, &None, &None, &s("legacy.db")),
        ("./logs.db".to_string(), "./system.db".to_string(), "./metrics.db".to_string())
    );
    assert_eq!(sqlite_url("/d/x.db"), "sqlite:/d/x.db?mode=rwc");
}

#[test]
fn web_dirs() {
    assert_eq!(resolve_web_dir(&s("/www"), true, true), "/www");
    assert_eq!(resolve_web_dir(&s(""), false, true), "./web");
    assert_eq!(resolve_web_dir(&None, true, true), "./server/web");
    assert_eq!(resolve_web_dir(&None, false, false), "./server/web");
}

#[test]
fn prod_warnings() {
    let c = Config::from_env(&server_env());
    let w = warn_prod_config(&c);
    assert_eq!(w, vec![ProdWarning::ApiKeyUnset, ProdWarning::ClientTokenUnset]);
    let mut e = server_env();
    e.api_key = s("k");
    e.client_token = s("t");
    e.cookie_secure = s("false");
    assert_eq!(warn_prod_config(&Config::from_env(&e)), vec![ProdWarning::InsecureCookie]);
    e.auth_mode = s("anonymous");
    assert_eq!(warn_prod_config(&Config::from_env(&e)), vec![ProdWarning::AnonymousMode]);
    assert!(ProdWarning::ApiKeyUnset.message().starts_with("TINY_LOG_API_KEY unset"));
}

#[test]
fn error_responses() {
    let cases = [
        (AppError::bad_request("nope"), 400, "nope"),
        (AppError::Unauthorized, 401, "unauthorized"),
        (AppError::Forbidden, 403, "forbidden"),
        (AppError::NotFound, 404, "not found"),
        (AppError::TooManyRequests, 429, "too many requests"),
        (AppError::PayloadTooLarge, 413, "payload too large"),
        (AppError::Conflict("dup".to_string()), 409, "dup"),
        (AppError::internal("db down"), 500, "internal server error"),
    ];
    for (e, code, msg) in cases {
        assert_eq!(e.status_code(), code);
        assert_eq!(e.client_message(), msg);
    }
}

#[test]
fn login_limiter_blocks_after_five_failures() {
    let mut l = LoginLimiter::new();
    assert!(l.check_allowed_at("1.2.3.4", 0));
    for _ in 0..4 {
        l.record_failure_at("1.2.3.4", 10);
    }
    assert!(l.check_allowed_at("1.2.3.4", 20));
    l.record_failure_at("1.2.3.4", 30);
    assert!(!l.check_allowed_at("1.2.3.4", 40));
    assert!(l.check_allowed_at("5.6.7.8", 40));
    let five_minutes: u128 = 300_000_000_000;
    assert!(l.check_allowed_at("1.2.3.4", 10 + five_minutes));
    l.clear("1.2.3.4");
    assert!(l.check_allowed_at("1.2.3.4", 50));
}

#[test]
fn login_limiter_on_the_clock() {
    let mut l = LoginLimiter::new();
    for _ in 0..5 {
        l.record_failure("9.9.9.9");
    }
    assert!(!l.check_allowed("9.9.9.9"));
    assert!(l.check_allowed("8.8.8.8"));
    l.clear("9.9.9.9");
    assert!(l.check_allowed("9.9.9.9"));
}

#[test]
fn admin_access_modes() {
    match admin_access(None, false, None) {
        AdminAccess::Granted(u) => {
            assert!(u.setup_required);
            assert!(u.admin.is_none());
            assert_eq!(u.username(), None);
        }
        _ => panic!("setup must be open"),
    }
    match admin_access(Some(admin()), true, None) {
        AdminAccess::Granted(u) => {
            assert!(!u.setup_required);
            assert_eq!(u.username(), Some("root"));
            assert_eq!(u.session_id, "");
        }
        _ => panic!("anonymous mode lets everyone in"),
    }
    match admin_access(Some(admin()), false, Some("")) {
        AdminAccess::Denied(e) => assert_eq!(e, AppError::Unauthorized),
        _ => panic!("an empty cookie is no session"),
    }
    match admin_access(Some(admin()), false, Some("tok")) {
        AdminAccess::CheckSession(t) => assert_eq!(t, "tok"),
        _ => panic!("a cookie leads to the session check"),
    }
}

fn session(admin_id: i64, expires_at: i64) -> Session {
    Session { id: "tok".to_string(), admin_id, expires_at, created_at: 0, last_seen_at: 0 }
}

#[test]
fn session_verdicts() {
    let (r, a) = session_verdict(Some(admin()), "tok".to_string(), None, 100);
    assert_eq!(r.unwrap_err(), AppError::Unauthorized);
    assert_eq!(a, SessionAction::Keep);
    let (r, a) = session_verdict(Some(admin()), "tok".to_string(), Some(session(1, 99)), 100);
    assert_eq!(r.unwrap_err(), AppError::Unauthorized);
    assert_eq!(a, SessionAction::Delete);
    let (r, a) = session_verdict(Some(admin()), "tok".to_string(), Some(session(2, 500)), 100);
    assert_eq!(r.unwrap_err(), AppError::Unauthorized);
    assert_eq!(a, SessionAction::Keep);
    let (r, a) = session_verdict(Some(admin()), "tok".to_string(), Some(session(1, 100)), 100);
    let u = r.unwrap();
    assert_eq!(u.session_id, "tok");
    assert_eq!(a, SessionAction::Touch);
}

#[test]
fn logged_in_admin_rules() {
    let setup = AuthUser { admin: None, session_id: String::new(), setup_required: true };
    assert_eq!(require_logged_in_admin(setup, true).unwrap_err(), AppError::Unauthorized);
    let anon = AuthUser { admin: Some(admin()), session_id: String::new(), setup_required: false };
    assert!(require_logged_in_admin(anon.clone(), true).is_ok());
    assert_eq!(require_logged_in_admin(anon, false).unwrap_err(), AppError::Unauthorized);
    let with_session = AuthUser { admin: Some(admin()), session_id: "s".to_string(), setup_required: false };
    assert!(require_logged_in_admin(with_session, false).is_ok());
}

#[test]
fn ingest_tokens() {
    let mut e = server_env();
    e.api_key = s("k1");
    e.client_token = s("c1");
    let c = Config::from_env(&e);
    assert!(require_api_key(&c, Some("Bearer k1")).is_ok());
    assert_eq!(require_api_key(&c, Some("Bearer k2")).unwrap_err(), AppError::Unauthorized);
    assert_eq!(require_api_key(&c, Some("bearer k1")).unwrap_err(), AppError::Unauthorized);
    assert_eq!(require_api_key(&c, None).unwrap_err(), AppError::Unauthorized);
    assert!(require_client_token(&c, Some("Bearer c1")).is_ok());
    let none = Config::from_env(&server_env());
    assert_eq!(require_api_key(&none, Some("Bearer ")).unwrap_err(), AppError::Unauthorized);
}

#[test]
fn pages() {
    assert_eq!(file(&root_page(false, false)), "setup.html");
    assert_eq!(file(&root_page(true, true)), "index.html");
    assert_eq!(file(&root_page(true, false)), "login.html");
    assert_eq!(redirect(&login_page(false, false)), "/setup");
    assert_eq!(redirect(&login_page(true, true)), "/");
    assert_eq!(file(&login_page(true, false)), "login.html");
    assert_eq!(redirect(&setup_page(true)), "/");
    assert_eq!(file(&setup_page(false)), "setup.html");
    assert_eq!(redirect(&settings_page(false, true)), "/setup");
    assert_eq!(file(&settings_page(true, true)), "settings.html");
    assert_eq!(redirect(&monitor_page(true, false)), "/login");
    assert_eq!(file(&monitor_page(true, true)), "monitor.html");
    assert!(asset_allowed("monitor.js"));
    assert!(!asset_allowed("index.html"));
    assert!(!asset_allowed("../secret"));
    assert_eq!(content_type("./web/index.html"), "text/html; charset=utf-8");
    assert_eq!(content_type("./web/app.js"), "application/javascript; charset=utf-8");
    assert_eq!(content_type("./web/style.css"), "text/css; charset=utf-8");
    assert_eq!(content_type("./web/openapi.json"), "application/json; charset=utf-8");
    assert_eq!(content_type("./web/README"), "application/octet-stream");
}

#[test]
fn time_bounds_and_timestamps() {
    assert_eq!(parse_bound("1700000000000").unwrap(), 1_700_000_000_000);
    assert_eq!(parse_bound("2024-01-01T00:00:00Z").unwrap(), 1_704_067_200_000);
    assert_eq!(parse_bound("2024-01-01T01:00:00+01:00").unwrap(), 1_704_067_200_000);
    assert_eq!(parse_bound("yesterday").unwrap_err(), AppError::BadRequest("invalid time bound: yesterday".to_string()));
    assert_eq!(parse_timestamp_ms("2024-01-01 00:00:00.250Z").unwrap(), 1_704_067_200_250);
    assert_eq!(parse_timestamp_ms("soon").unwrap_err(), "invalid timestamp: soon");
    assert_eq!(parse_batch_timestamp_at(&None, 42).unwrap(), 42);
    assert_eq!(parse_batch_timestamp_at(&s("7"), 42).unwrap(), 7);
    assert_eq!(parse_batch_timestamp_at(&s("x"), 42).unwrap_err(), AppError::BadRequest("invalid timestamp: x".to_string()));
    assert!(parse_batch_timestamp(&None).unwrap() > 1_600_000_000_000);
}

#[test]
fn rfc3339_rendering() {
    assert_eq!(ms_to_rfc3339(0), "1970-01-01T00:00:00.000Z");
    assert_eq!(ms_to_rfc3339(1_704_067_200_123), "2024-01-01T00:00:00.123Z");
    assert_eq!(ms_to_rfc3339(i64::MAX), "1970-01-01T00:00:00.000Z");
}

#[test]
fn log_query_filters() {
    let q = LogQuery {
        app: s(""),
        level: s("WARN"),
        source: s("web"),
        search: s("disk full"),
        from: s("10"),
        to: None,
        limit: Some(10_000),
        offset: Some(-5),
    };
    let f = q.to_filter().unwrap();
    assert_eq!(f.app, None);
    assert_eq!(f.level.as_deref(), Some("warn"));
    assert_eq!(f.source.as_deref(), Some("web"));
    assert_eq!(f.search_pattern.as_deref(), Some("%disk full%"));
    assert_eq!(f.from_ms, Some(10));
    assert_eq!(f.to_ms, None);
    assert_eq!(f.limit, 500);
    assert_eq!(f.offset, 0);
    assert_eq!(page_limit(None), 100);
    assert_eq!(page_limit(Some(0)), 1);
    let bad = LogQuery { app: None, level: None, source: None, search: None, from: None, to: s("never"), limit: None, offset: None };
    assert_eq!(bad.to_filter().unwrap_err(), AppError::BadRequest("invalid time bound: never".to_string()));
}

#[test]
fn stored_metadata() {
    assert_eq!(stored_meta(&None).unwrap(), None);
    assert_eq!(stored_meta(&s("")).unwrap(), None);
    assert_eq!(stored_meta(&s(r#"{"a":1}"#)).unwrap().as_deref(), Some(r#"{"a":1}"#));
    match stored_meta(&s("{")).unwrap_err() {
        AppError::Internal(m) => assert!(m.starts_with("corrupt meta_json: ")),
        other => panic!("unexpected {:?}", other),
    }
}

fn new_log(app: &str, level: &str, message: &str) -> NewLog {
    NewLog {
        app: app.to_string(),
        level: level.to_string(),
        message: message.to_string(),
        timestamp: None,
        source: None,
        meta_json: None,
    }
}

#[test]
fn log_validation() {
    let ok = new_log("  shop ", " INFO ", "hello").validate_and_normalize_at(5).unwrap();
    assert_eq!(ok.app, "shop");
    assert_eq!(ok.level, "info");
    assert_eq!(ok.timestamp_ms, 5);
    assert_eq!(new_log(" ", "info", "m").validate_and_normalize_at(0).unwrap_err(), "app is required");
    assert_eq!(new_log(&"a".repeat(129), "info", "m").validate_and_normalize_at(0).unwrap_err(), "app is too long");
    assert_eq!(new_log("a", "trace", "m").validate_and_normalize_at(0).unwrap_err(), "invalid level: trace");
    assert_eq!(new_log("a", "info", "").validate_and_normalize_at(0).unwrap_err(), "message is required");
    assert_eq!(
        new_log("a", "info", &"m".repeat(65537)).validate_and_normalize_at(0).unwrap_err(),
        "message exceeds maximum size"
    );
    let mut n = new_log("a", "fatal", "m");
    n.source = s("   ");
    n.timestamp = s("2024-01-01T00:00:00Z");
    let v = n.validate_and_normalize_at(0).unwrap();
    assert_eq!(v.source, None);
    assert_eq!(v.timestamp_ms, 1_704_067_200_000);
    let mut big = new_log("a", "info", "m");
    big.meta_json = Some("x".repeat(131073));
    assert_eq!(big.validate_and_normalize_at(0).unwrap_err(), "metadata exceeds maximum size");
    assert!(valid_level("debug") && valid_level("warn") && valid_level("error"));
    assert!(!valid_level("Info"));
}

#[test]
fn log_batches() {
    assert_eq!(validate_batch(Vec::new(), 10, 0).unwrap_err(), AppError::BadRequest("logs array is empty".to_string()));
    let three = vec![new_log("a", "info", "1"), new_log("a", "info", "2"), new_log("a", "info", "3")];
    assert_eq!(validate_batch(three.clone(), 2, 0).unwrap_err(), AppError::PayloadTooLarge);
    assert_eq!(validate_batch(three, 3, 0).unwrap().len(), 3);
    let bad = vec![new_log("a", "info", "1"), new_log("a", "nope", "2")];
    assert_eq!(validate_batch(bad, 5, 0).unwrap_err(), AppError::BadRequest("invalid level: nope".to_string()));
    assert_eq!(client_source(None).as_deref(), Some("browser"));
    assert_eq!(client_source(s("")).as_deref(), Some("browser"));
    assert_eq!(client_source(s("app")).as_deref(), Some("app"));
}

fn fields(name: &str, status: &str) -> ServiceCheckFields {
    ServiceCheckFields {
        name: name.to_string(),
        kind: " HTTP ".to_string(),
        status: status.to_string(),
        load_hint: s(" Watch "),
        recommend: s("nope"),
    }
}

#[test]
fn metrics_ingest_checks() {
    assert_eq!(normalize_load_hint(Some(" TIGHT ")).as_deref(), Some("tight"));
    assert_eq!(normalize_load_hint(Some("hot")), None);
    assert_eq!(normalize_recommend(Some("Scale_Out")).as_deref(), Some("scale_out"));
    assert_eq!(normalize_recommend(None), None);
    let c = normalize_service_check(&fields(" api ", " UP ")).unwrap().unwrap();
    assert_eq!(c.name, "api");
    assert_eq!(c.kind, "http");
    assert_eq!(c.status, "up");
    assert_eq!(c.load_hint.as_deref(), Some("watch"));
    assert_eq!(c.recommend, None);
    assert_eq!(normalize_service_check(&fields("  ", "bogus")).unwrap(), None);
    assert_eq!(
        normalize_service_check(&fields("api", "sideways")).unwrap_err(),
        AppError::BadRequest("invalid status: sideways".to_string())
    );
    let all = normalize_service_checks(&vec![fields("a", "down"), fields("", "x"), fields("b", "unknown")]).unwrap();
    assert_eq!(all.len(), 3);
    assert!(all[1].is_none());
    assert_eq!(
        normalize_service_checks(&vec![fields("a", "up"), fields("b", "BAD"), fields("c", "worse")]).unwrap_err(),
        AppError::BadRequest("invalid status: bad".to_string())
    );
}

#[test]
fn ingest_plans() {
    let p = plan_ingest("  web-1 ", &None, true, 0, 77).unwrap();
    assert_eq!(p.host, "web-1");
    assert_eq!(p.timestamp_ms, 77);
    assert_eq!(plan_ingest(" ", &None, true, 0, 0).unwrap_err(), AppError::BadRequest("host is required".to_string()));
    assert_eq!(
        plan_ingest("h", &None, false, 0, 0).unwrap_err(),
        AppError::BadRequest("system or services is required".to_string())
    );
    assert_eq!(plan_ingest("h", &None, false, 201, 0).unwrap_err(), AppError::PayloadTooLarge);
    assert_eq!(capacity_host("  h1 ").unwrap(), "h1");
    assert_eq!(capacity_host("").unwrap_err(), AppError::BadRequest("host is required".to_string()));
}

#[test]
fn history_plans() {
    let q = MetricsHistoryQuery { host: s("h"), service: None, from: None, to: None, limit: None, kind: None };
    match q.plan().unwrap() {
        HistoryPlan::Hosts { host, limit, .. } => {
            assert_eq!(host, "h");
            assert_eq!(limit, 100);
        }
        other => panic!("unexpected {:?}", other),
    }
    let q = MetricsHistoryQuery { host: None, service: s("api"), from: None, to: None, limit: Some(9), kind: None };
    match q.plan().unwrap() {
        HistoryPlan::Services { service, limit, .. } => {
            assert_eq!(service.as_deref(), Some("api"));
            assert_eq!(limit, 9);
        }
        other => panic!("unexpected {:?}", other),
    }
    let q = MetricsHistoryQuery { host: None, service: None, from: None, to: None, limit: None, kind: s("HOST") };
    assert_eq!(q.plan().unwrap_err(), AppError::BadRequest("host is required for host history".to_string()));
    let q = MetricsHistoryQuery { host: None, service: None, from: None, to: None, limit: None, kind: s("disk") };
    assert_eq!(q.plan().unwrap_err(), AppError::BadRequest("kind must be host or service".to_string()));
}

#[test]
fn settings_storage() {
    assert_eq!(setting_text(-12), "-12");
    assert_eq!(read_setting("retention_days", Some("30")).unwrap(), 30);
    assert_eq!(read_setting("retention_days", Some(&setting_text(i64::MIN))).unwrap(), i64::MIN);
    assert_eq!(
        read_setting("session_days", None).unwrap_err(),
        AppError::Internal("missing setting session_days".to_string())
    );
    assert_eq!(
        read_setting("session_days", Some("x")).unwrap_err(),
        AppError::Internal("invalid setting session_days".to_string())
    );
    let st = settings_from(Ok(30), Ok(7), Err(AppError::NotFound)).unwrap();
    assert_eq!(st, Settings { retention_days: 30, session_days: 7, metrics_retention_days: 14 });
    assert_eq!(settings_from(Err(AppError::NotFound), Err(AppError::Forbidden), Ok(1)).unwrap_err(), AppError::NotFound);
    assert_eq!(retention_cutoff(1_000_000_000_000, 1), 1_000_000_000_000 - 86_400_000);
}

#[test]
fn legacy_split_rule() {
    assert!(should_split_legacy(true, true, Some(0)));
    assert!(should_split_legacy(true, true, None));
    assert!(!should_split_legacy(true, true, Some(1)));
    assert!(!should_split_legacy(false, true, Some(0)));
    assert!(!should_split_legacy(true, false, None));
}

#[test]
fn cli_checks() {
    assert_eq!(check_new_username("  alice ").unwrap(), "alice");
    assert_eq!(check_new_username("   ").unwrap_err(), "username is required");
    assert!(check_passwords_match("a", "a").is_ok());
    assert_eq!(check_passwords_match("a", "b").unwrap_err(), "passwords do not match");
    assert_eq!(check_admin_absent(true).unwrap_err(), "admin user already exists");
    assert!(check_admin_absent(false).is_ok());
    assert_eq!(check_current_password(false).unwrap_err(), "current password is incorrect");
}

#[test]
fn login_limiter_counts_every_failure() {
    for k in 0..8u32 {
        let mut l = LoginLimiter::new();
        for n in 0..k {
            l.record_failure_at("1.2.3.4", 1_000 + n as u128);
        }
        assert_eq!(l.check_allowed_at("1.2.3.4", 2_000), k < 5);
        assert!(l.check_allowed_at("5.6.7.8", 2_000));
    }
}

#[test]
fn normalized_log_normalizes_to_itself() {
    let mut n = new_log("  shop  ", " WARN ", "disk filling");
    n.timestamp = Some("2024-01-02T03:04:05.678Z".to_string());
    n.source = Some("  worker-1 ".to_string());
    let first = n.validate_and_normalize().unwrap();
    let again = NewLog {
        app: first.app.clone(),
        level: first.level.clone(),
        message: first.message.clone(),
        timestamp: Some(first.timestamp_ms.to_string()),
        source: first.source.clone(),
        meta_json: first.meta_json.clone(),
    };
    let second = again.validate_and_normalize().unwrap();
    assert_eq!(second.app, "shop");
    assert_eq!(second.level, "warn");
    assert_eq!(second.source.as_deref(), Some("worker-1"));
    assert_eq!(second.timestamp_ms, first.timestamp_ms);
    assert_eq!(second.app, first.app);
    assert_eq!(second.level, first.level);
    assert_eq!(second.message, first.message);
    assert_eq!(second.source, first.source);
    assert_eq!(second.meta_json, first.meta_json);
}

#[test]
fn entry_with_its_own_time_is_normalized() {
    let mut n = new_log("  api  ", " WARN ", "  disk low  ");
    n.timestamp = Some("1700000000000".to_string());
    n.source = Some("   ".to_string());
    let i = n.validate_and_normalize().unwrap();
    assert_eq!(i.timestamp_ms, 1_700_000_000_000);
    assert_eq!(i.app, "api");
    assert_eq!(i.level, "warn");
    assert_eq!(i.source, None);
    assert_eq!(i.message, "  disk low  ");
    assert_eq!(i.meta_json, None);
}

#[test]
fn entry_size_limits() {
    let mut n = new_log(&"a".repeat(128), "info", &"x".repeat(65536));
    n.timestamp = Some("0".to_string());
    let i = n.clone().validate_and_normalize().unwrap();
    assert_eq!(i.timestamp_ms, 0);
    assert_eq!(i.app.len(), 128);
    assert_eq!(i.message.len(), 65536);
    let mut long_app = n.clone();
    long_app.app = "a".repeat(129);
    assert_eq!(long_app.validate_and_normalize().unwrap_err(), "app is too long");
    let mut long_message = n;
    long_message.message = "x".repeat(65537);
    assert_eq!(long_message.validate_and_normalize().unwrap_err(), "message exceeds maximum size");
}

#[test]
fn entry_without_time_gets_the_clock() {
    let i = new_log("api", "info", "m").validate_and_normalize().unwrap();
    assert!(i.timestamp_ms > 1_600_000_000_000);
    assert_eq!(new_log("", "info", "m").validate_and_normalize().unwrap_err(), "app is required");
}
