use tiny_log::auth::password::{hash_password, validate_password_strength, verify_password};
use tiny_log::auth::session::{
    clear_session_cookie, ensure_no_admin, generate_session_id, has_session_cookie, password_update_result,
    session_cookie, session_cookie_name_str, session_expires_at, session_state, session_token, Session,
    SessionState,
};
use tiny_log::auth::tokens::{client_ip, constant_time_eq, extract_bearer, require_token};
use tiny_log::error::AppError;

#[test]
fn password_strength() {
    assert_eq!(
        validate_password_strength("short").unwrap_err(),
        AppError::BadRequest("password must be at least 12 characters".to_string())
    );
    assert!(validate_password_strength("exactly12chr").is_ok());
    assert!(validate_password_strength("ééééééé").is_ok());
    assert!(validate_password_strength("éééééé").is_ok());
    assert!(validate_password_strength("ééééé").is_err());
    assert_eq!(
        hash_password("too short").unwrap_err(),
        AppError::BadRequest("password must be at least 12 characters".to_string())
    );
}

#[test]
fn password_hash_and_verify() {
    let h = hash_password("correct horse battery").unwrap();
    assert!(h.starts_with("$argon2id$v=19$m=65536,t=3,p=2$"));
    assert!(h.starts_with("$argon2id$v=19$m=65536,t=3,p=2$"));
    assert_eq!(verify_password("correct horse battery", &h).unwrap(), true);
    assert_eq!(verify_password("wrong horse battery", &h).unwrap(), false);
}

#[test]
fn password_bad_stored_hash() {
    assert_eq!(
        verify_password("whatever", "not a phc string").unwrap_err(),
        AppError::Internal("invalid stored password hash".to_string())
    );
}

#[test]
fn session_ids() {
    let a = generate_session_id().unwrap();
    let b = generate_session_id().unwrap();
    assert_eq!(a.len(), 64);
    assert!(a.chars().all(|c| c.is_ascii_hexdigit() && !c.is_ascii_uppercase()));
    assert_ne!(a, b);
}

#[test]
fn session_cookies() {
    assert_eq!(session_cookie_name_str(), "tiny_log_session");
    let c = session_cookie("tok", true, 7);
    assert_eq!(c.name, "tiny_log_session");
    assert_eq!(c.value, "tok");
    assert!(c.http_only && c.same_site_lax && c.secure);
    assert_eq!(c.path, "/");
    assert_eq!(c.max_age_secs, 7 * 86_400);
    let gone = clear_session_cookie(false);
    assert_eq!(gone.value, "");
    assert_eq!(gone.max_age_secs, 0);
    assert!(!gone.secure);
    assert_eq!(session_token(Some("abc")).as_deref(), Some("abc"));
    assert_eq!(session_token(Some("")), None);
    assert_eq!(session_token(None), None);
    assert!(has_session_cookie(Some("x")));
    assert!(!has_session_cookie(Some("")));
}

#[test]
fn session_lifetimes() {
    assert_eq!(session_expires_at(1_000, 2), 1_000 + 2 * 86_400_000);
    let s = Session { id: "t".to_string(), admin_id: 1, expires_at: 500, created_at: 0, last_seen_at: 0 };
    assert_eq!(session_state(&None, 0), SessionState::Missing);
    assert_eq!(session_state(&Some(s.clone()), 500), SessionState::Live);
    assert_eq!(session_state(&Some(s), 501), SessionState::Expired);
}

#[test]
fn admin_account_rules() {
    assert!(ensure_no_admin(false).is_ok());
    assert_eq!(ensure_no_admin(true).unwrap_err(), AppError::Conflict("admin user already exists".to_string()));
    assert_eq!(password_update_result(0).unwrap_err(), AppError::NotFound);
    assert!(password_update_result(1).is_ok());
}

#[test]
fn bearer_tokens() {
    assert_eq!(extract_bearer(Some("Bearer abc")).as_deref(), Some("abc"));
    assert_eq!(extract_bearer(Some("Bearer ")), None);
    assert_eq!(extract_bearer(Some("Basic abc")), None);
    assert_eq!(extract_bearer(Some("Bearer  two")).as_deref(), Some(" two"));
    assert_eq!(extract_bearer(None), None);
    assert!(require_token(&Some("k".to_string()), Some("Bearer k")).is_ok());
    assert_eq!(require_token(&None, Some("Bearer k")).unwrap_err(), AppError::Unauthorized);
    assert_eq!(require_token(&Some("k".to_string()), Some("Bearer kk")).unwrap_err(), AppError::Unauthorized);
}

#[test]
fn constant_time_comparison() {
    assert!(constant_time_eq(b"admin", b"admin"));
    assert!(!constant_time_eq(b"admin", b"admiN"));
    assert!(!constant_time_eq(b"admin", b"admin2"));
    assert!(constant_time_eq(b"", b""));
}

#[test]
fn client_addresses() {
    assert_eq!(client_ip(Some(" 10.0.0.1 , 10.0.0.2"), "127.0.0.1"), "10.0.0.1");
    assert_eq!(client_ip(Some("  ,10.0.0.2"), "127.0.0.1"), "127.0.0.1");
    assert_eq!(client_ip(Some("203.0.113.9"), "127.0.0.1"), "203.0.113.9");
    assert_eq!(client_ip(None, "::1"), "::1");
}
