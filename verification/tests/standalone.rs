use tiny_log::auth::session::{AdminUser, Session};
use tiny_log::error::AppError;
use tiny_log::server::settings::Settings;
use tiny_log::server::state::LoginLimiter;
use tiny_log::server::web::Page;
use tiny_log::standalone::api::{
    admit_login, apply_setting_writes, change_password, check_login, settings_update, ChangePasswordRequest, LoginRequest,
    SettingWrite, UpdateSettings,
};
use tiny_log::standalone::auth::{bind_session, open_access, require_api_key, required_token};
use tiny_log::standalone::config::{Config, StandaloneEnv};
use tiny_log::standalone::web::{asset_allowed, content_type, login_page, root, settings_page};

fn standalone_env() -> StandaloneEnv {
    StandaloneEnv {
        host: None,
        port: None,
        database: None,
        api_key: None,
        client_token: None,
        require_auth: None,
        retention_days: None,
        session_days: None,
        cookie_secure: None,
        max_body_mb: None,
        max_batch: None,
        cors_origin: None,
        web_dir: None,
    }
}

fn admin_with_hash(hash: &str) -> AdminUser {
    AdminUser { id: 3, username: "admin".to_string(), password_hash: hash.to_string(), created_at: 0, updated_at: 0 }
}

#[test]
fn standalone_config() {
    let c = Config::from_env(&standalone_env());
    assert_eq!(c.bind_addr(), "0.0.0.0:8080");
    assert_eq!(c.database, "./data/logs.db");
    assert_eq!(c.database_url(), "sqlite:./data/logs.db?mode=rwc");
    assert!(c.require_auth);
    assert_eq!(c.web_dir, "./web");
    let mut e = standalone_env();
    e.require_auth = Some("off".to_string());
    e.port = Some("9000".to_string());
    e.database = Some("/tmp/x.db".to_string());
    e.retention_days = Some("10000".to_string());
    let c = Config::from_env(&e);
    assert!(!c.require_auth);
    assert_eq!(c.port, 9000);
    assert_eq!(c.retention_days, 3650);
    assert_eq!(c.database_url(), "sqlite:/tmp/x.db?mode=rwc");
}

#[test]
fn standalone_admin_check() {
    assert_eq!(open_access(None).unwrap_err(), AppError::Unauthorized);
    assert_eq!(open_access(Some(admin_with_hash("h"))).unwrap().session_id, "");
    assert_eq!(required_token(Some("")).unwrap_err(), AppError::Unauthorized);
    assert_eq!(required_token(Some("t")).unwrap(), "t");
    let s = Session { id: "t".to_string(), admin_id: 3, expires_at: 0, created_at: 0, last_seen_at: 0 };
    assert_eq!(bind_session(Some(admin_with_hash("h")), &s, "t".to_string()).unwrap().session_id, "t");
    assert_eq!(bind_session(None, &s, "t".to_string()).unwrap_err(), AppError::Unauthorized);
    let other = Session { admin_id: 4, ..s };
    assert_eq!(bind_session(Some(admin_with_hash("h")), &other, "t".to_string()).unwrap_err(), AppError::Unauthorized);
    let mut e = standalone_env();
    e.api_key = Some("key".to_string());
    assert!(require_api_key(&Config::from_env(&e), Some("Bearer key")).is_ok());
}

#[test]
fn standalone_pages() {
    match root(true) {
        Page::File(f) => assert_eq!(f, "index.html"),
        _ => panic!(),
    }
    match root(false) {
        Page::File(f) => assert_eq!(f, "login.html"),
        _ => panic!(),
    }
    match login_page() {
        Page::File(f) => assert_eq!(f, "login.html"),
        _ => panic!(),
    }
    match settings_page(false) {
        Page::Redirect(t) => assert_eq!(t, "/login"),
        _ => panic!(),
    }
    assert!(asset_allowed("settings.js"));
    assert!(!asset_allowed("setup.js"));
    assert_eq!(content_type("web/data.json"), "application/octet-stream");
    assert_eq!(content_type("web/login.html"), "text/html; charset=utf-8");
}

#[test]
fn settings_updates() {
    let (w, e) = settings_update(UpdateSettings { retention_days: Some(90), session_days: Some(3) });
    assert_eq!(w, vec![SettingWrite::RetentionDays(90), SettingWrite::SessionDays(3)]);
    assert!(e.is_none());
    let (w, e) = settings_update(UpdateSettings { retention_days: Some(0), session_days: Some(3) });
    assert!(w.is_empty());
    assert_eq!(e.unwrap(), AppError::BadRequest("retention_days must be between 1 and 3650".to_string()));
    let (w, e) = settings_update(UpdateSettings { retention_days: Some(10), session_days: Some(0) });
    assert_eq!(w, vec![SettingWrite::RetentionDays(10)]);
    assert_eq!(e.unwrap(), AppError::BadRequest("session_days must be at least 1".to_string()));
    let before = Settings { retention_days: 30, session_days: 7, metrics_retention_days: 14 };
    let after = apply_setting_writes(before, &vec![SettingWrite::SessionDays(2)]);
    assert_eq!(after, Settings { retention_days: 30, session_days: 2, metrics_retention_days: 14 });
}

#[test]
fn login_attempts_are_limited_and_counted() {
    let hash = tiny_log::auth::password::hash_password("a long enough password").unwrap();
    let mut limiter = LoginLimiter::new();
    let good = LoginRequest { username: "admin".to_string(), password: "a long enough password".to_string() };
    let bad = LoginRequest { username: "admin".to_string(), password: "wrong".to_string() };
    assert!(admit_login(&mut limiter, "1.1.1.1").is_ok());
    assert_eq!(check_login(&mut limiter, "1.1.1.1", None, &good).unwrap_err(), AppError::Unauthorized);
    assert_eq!(
        check_login(&mut limiter, "1.1.1.1", Some(admin_with_hash(&hash)), &bad).unwrap_err(),
        AppError::Unauthorized
    );
    for _ in 0..3 {
        limiter.record_failure("1.1.1.1");
    }
    assert_eq!(admit_login(&mut limiter, "1.1.1.1").unwrap_err(), AppError::TooManyRequests);
    assert_eq!(check_login(&mut limiter, "1.1.1.1", Some(admin_with_hash(&hash)), &good).unwrap().id, 3);
    assert!(admit_login(&mut limiter, "1.1.1.1").is_ok());
    match check_login(&mut limiter, "3.3.3.3", Some(admin_with_hash("garbage")), &good) {
        Err(AppError::Internal(m)) => assert_eq!(m, "invalid stored password hash"),
        other => panic!("unexpected {:?}", other),
    }
    assert!(admit_login(&mut limiter, "3.3.3.3").is_ok());
}

#[test]
fn password_changes() {
    let a = admin_with_hash("garbage");
    let mismatch = ChangePasswordRequest {
        current_password: "x".to_string(),
        new_password: "new password one".to_string(),
        confirm_password: "new password two".to_string(),
    };
    assert_eq!(change_password(&a, &mismatch).unwrap_err(), AppError::BadRequest("passwords do not match".to_string()));
    let same = ChangePasswordRequest {
        current_password: "x".to_string(),
        new_password: "new password one".to_string(),
        confirm_password: "new password one".to_string(),
    };
    assert_eq!(change_password(&a, &same).unwrap_err(), AppError::Internal("invalid stored password hash".to_string()));
}
