//! Server configuration from the environment.
use vstd::prelude::*;
use crate::flags::{
    env_bool, env_i64, env_nonempty, env_u16, env_usize, spec_env_bool, spec_env_i64,
    spec_env_unsigned, spec_nonempty,
};
use crate::num::{decimal, format_u64};
use crate::paths::{path_join, path_parent, spec_path_join, spec_path_parent};
use crate::text::{concat, opt_view, owned, spec_to_lowercase, str_eq, to_lowercase};

verus! {

/// Whether the UI asks for a login.
#[derive(Debug, Clone, Copy, PartialEq, Eq, Structural)]
pub enum AuthMode {
    Anonymous,
    Login,
}

impl AuthMode {
    /// `anonymous` or `login`.
    pub fn as_str(self) -> (r: &'static str)
        ensures
            r@ == (match self {
                AuthMode::Anonymous => "anonymous"@,
                AuthMode::Login => "login"@,
            }),
    {
        match self {
            AuthMode::Anonymous => "anonymous",
            AuthMode::Login => "login",
        }
    }
}

/// The server's settings.
#[derive(Debug, Clone)]
pub struct Config {
    pub host: String,
    pub port: u16,
    pub logs_database: String,
    pub system_database: String,
    pub metrics_database: String,
    pub api_key: Option<String>,
    pub client_token: Option<String>,
    pub auth_mode: AuthMode,
    pub retention_days: i64,
    pub session_days: i64,
    pub cookie_secure: bool,
    pub max_body_mb: usize,
    pub max_batch: usize,
    pub cors_origin: Option<String>,
    pub web_dir: String,
}

/// The environment variables the server reads (`None` where unset), and
/// whether the two default web directories exist.
#[derive(Debug, Clone)]
pub struct ServerEnv {
    /// `TINY_LOG_HOST`
    pub host: Option<String>,
    /// `TINY_LOG_PORT`
    pub port: Option<String>,
    /// `TINY_LOG_LOGS_DATABASE`
    pub logs_database: Option<String>,
    /// `TINY_LOG_SYSTEM_DATABASE`
    pub system_database: Option<String>,
    /// `TINY_LOG_METRICS_DATABASE`
    pub metrics_database: Option<String>,
    /// `TINY_LOG_DATABASE` (the single file of older versions)
    pub database: Option<String>,
    /// `TINY_LOG_API_KEY`
    pub api_key: Option<String>,
    /// `TINY_LOG_CLIENT_TOKEN`
    pub client_token: Option<String>,
    /// `TINY_LOG_AUTH_MODE`
    pub auth_mode: Option<String>,
    /// `TINY_LOG_REQUIRE_AUTH`
    pub require_auth: Option<String>,
    /// `TINY_LOG_RETENTION_DAYS`
    pub retention_days: Option<String>,
    /// `TINY_LOG_SESSION_DAYS`
    pub session_days: Option<String>,
    /// `TINY_LOG_COOKIE_SECURE`
    pub cookie_secure: Option<String>,
    /// `TINY_LOG_MAX_BODY_MB`
    pub max_body_mb: Option<String>,
    /// `TINY_LOG_MAX_BATCH`
    pub max_batch: Option<String>,
    /// `TINY_LOG_CORS_ORIGIN`
    pub cors_origin: Option<String>,
    /// `TINY_LOG_WEB_DIR`
    pub web_dir: Option<String>,
    /// `./server/web` is a directory.
    pub server_web_is_dir: bool,
    /// `./web` is a directory.
    pub web_is_dir: bool,
}

/// The auth mode: `TINY_LOG_AUTH_MODE` where it names one, else the older
/// `TINY_LOG_REQUIRE_AUTH` switch where set, else login.
pub open spec fn spec_auth_mode(mode: Option<Seq<char>>, require_auth: Option<Seq<char>>) -> AuthMode {
    let named = match mode {
        Some(m) => {
            let l = spec_to_lowercase(m);
            if l == "anonymous"@ || l == "anon"@ || l == "none"@ {
                Some(AuthMode::Anonymous)
            } else if l == "login"@ || l == "user"@ || l == "auth"@ {
                Some(AuthMode::Login)
            } else {
                None
            }
        },
        None => None,
    };
    match named {
        Some(a) => a,
        None => match require_auth {
            Some(_) => if spec_env_bool(require_auth, true) {
                AuthMode::Login
            } else {
                AuthMode::Anonymous
            },
            None => AuthMode::Login,
        },
    }
}

/// The auth mode the environment asks for.
pub fn resolve_auth_mode(mode: &Option<String>, require_auth: &Option<String>) -> (r: AuthMode)
    ensures
        r == spec_auth_mode(opt_view(*mode), opt_view(*require_auth)),
{
    match mode {
        Some(m) => {
            let l = to_lowercase(m.as_str());
            if str_eq(l.as_str(), "anonymous") || str_eq(l.as_str(), "anon") || str_eq(
                l.as_str(),
                "none",
            ) {
                return AuthMode::Anonymous;
            }
            if str_eq(l.as_str(), "login") || str_eq(l.as_str(), "user") || str_eq(
                l.as_str(),
                "auth",
            ) {
                return AuthMode::Login;
            }
        },
        None => {},
    }
    match require_auth {
        Some(_) => if env_bool(require_auth, true) {
            AuthMode::Login
        } else {
            AuthMode::Anonymous
        },
        None => AuthMode::Login,
    }
}

/// The web directory: `TINY_LOG_WEB_DIR` where set and not empty, else the
/// first of `./server/web` and `./web` that is a directory, else `./server/web`.
pub open spec fn spec_web_dir(web_dir: Option<Seq<char>>, server_web_is_dir: bool, web_is_dir: bool) -> Seq<char> {
    match spec_nonempty(web_dir) {
        Some(d) => d,
        None => if server_web_is_dir {
            "./server/web"@
        } else if web_is_dir {
            "./web"@
        } else {
            "./server/web"@
        },
    }
}

/// Where the web assets are served from.
pub fn resolve_web_dir(web_dir: &Option<String>, server_web_is_dir: bool, web_is_dir: bool) -> (r: String)
    ensures
        r@ == spec_web_dir(opt_view(*web_dir), server_web_is_dir, web_is_dir),
{
    match env_nonempty(web_dir) {
        Some(d) => d,
        None => if server_web_is_dir {
            owned("./server/web")
        } else if web_is_dir {
            owned("./web")
        } else {
            owned("./server/web")
        },
    }
}

/// The directory of the databases that are not named: that of the older
/// single file where it is set (`.` where it has none), else `./data`.
pub open spec fn spec_data_dir(legacy: Option<Seq<char>>) -> Seq<char> {
    match spec_nonempty(legacy) {
        Some(l) => match spec_path_parent(l) {
            Some(p) => if p.len() > 0 {
                p
            } else {
                "."@
            },
            None => "."@,
        },
        None => "./data"@,
    }
}

/// The three database paths: each named one as given, the others in the data
/// directory as `logs.db`, `system.db` and `metrics.db`.
pub open spec fn spec_database_paths(
    logs: Option<Seq<char>>,
    system: Option<Seq<char>>,
    metrics: Option<Seq<char>>,
    legacy: Option<Seq<char>>,
) -> (Seq<char>, Seq<char>, Seq<char>) {
    let l = spec_nonempty(logs);
    let s = spec_nonempty(system);
    let m = spec_nonempty(metrics);
    if l is Some && s is Some && m is Some {
        (l->0, s->0, m->0)
    } else {
        let dir = spec_data_dir(legacy);
        (
            match l {
                Some(x) => x,
                None => spec_path_join(dir, "logs.db"@),
            },
            match s {
                Some(x) => x,
                None => spec_path_join(dir, "system.db"@),
            },
            match m {
                Some(x) => x,
                None => spec_path_join(dir, "metrics.db"@),
            },
        )
    }
}

/// Where the logs, system and metrics databases are.
pub fn resolve_database_paths(
    logs: &Option<String>,
    system: &Option<String>,
    metrics: &Option<String>,
    legacy: &Option<String>,
) -> (r: (String, String, String))
    ensures
        (r.0@, r.1@, r.2@) == spec_database_paths(
            opt_view(*logs),
            opt_view(*system),
            opt_view(*metrics),
            opt_view(*legacy),
        ),
{
    let l = env_nonempty(logs);
    let s = env_nonempty(system);
    let m = env_nonempty(metrics);
    if l.is_some() && s.is_some() && m.is_some() {
        return (l.unwrap(), s.unwrap(), m.unwrap());
    }
    let dir = match env_nonempty(legacy) {
        Some(lg) => match path_parent(lg.as_str()) {
            Some(p) => if p.as_str().is_empty() {
                owned(".")
            } else {
                p
            },
            None => owned("."),
        },
        None => owned("./data"),
    };
    let lp = match l {
        Some(x) => x,
        None => path_join(dir.as_str(), "logs.db"),
    };
    let sp = match s {
        Some(x) => x,
        None => path_join(dir.as_str(), "system.db"),
    };
    let mp = match m {
        Some(x) => x,
        None => path_join(dir.as_str(), "metrics.db"),
    };
    (lp, sp, mp)
}

/// `x` clamped to `lo..=hi`.
pub open spec fn clamp_i64(x: i64, lo: i64, hi: i64) -> i64 {
    if x < lo {
        lo
    } else if x > hi {
        hi
    } else {
        x
    }
}

/// `sqlite:<path>?mode=rwc`.
pub open spec fn spec_sqlite_url(path: Seq<char>) -> Seq<char> {
    "sqlite:"@ + path + "?mode=rwc"@
}

/// The SQLite URL of a database file (created where missing).
pub fn sqlite_url(path: &str) -> (r: String)
    ensures
        r@ == spec_sqlite_url(path@),
{
    let a = concat("sqlite:", path);
    concat(a.as_str(), "?mode=rwc")
}

/// A warning about a setting unsafe for production.
#[derive(Debug, Clone, Copy, PartialEq, Eq, Structural)]
pub enum ProdWarning {
    /// No API key: agent and log ingest refuse every request.
    ApiKeyUnset,
    /// No client token: browser ingest is off.
    ClientTokenUnset,
    /// Anonymous mode: the UI has no login gate.
    AnonymousMode,
    /// Session cookies may travel over plain HTTP.
    InsecureCookie,
}

/// The text logged for a warning.
pub open spec fn spec_warning_message(w: ProdWarning) -> Seq<char> {
    match w {
        ProdWarning::ApiKeyUnset => "TINY_LOG_API_KEY unset — agent/log ingest will reject requests"@,
        ProdWarning::ClientTokenUnset => "TINY_LOG_CLIENT_TOKEN unset — browser client ingest disabled"@,
        ProdWarning::AnonymousMode => "auth_mode=anonymous — UI has no login gate; use only on trusted networks"@,
        ProdWarning::InsecureCookie => "TINY_LOG_COOKIE_SECURE=false — session cookies can leak over HTTP"@,
    }
}

impl ProdWarning {
    /// The text logged for the warning.
    pub fn message(self) -> (r: &'static str)
        ensures
            r@ == spec_warning_message(self),
    {
        match self {
            ProdWarning::ApiKeyUnset => "TINY_LOG_API_KEY unset — agent/log ingest will reject requests",
            ProdWarning::ClientTokenUnset => "TINY_LOG_CLIENT_TOKEN unset — browser client ingest disabled",
            ProdWarning::AnonymousMode => "auth_mode=anonymous — UI has no login gate; use only on trusted networks",
            ProdWarning::InsecureCookie => "TINY_LOG_COOKIE_SECURE=false — session cookies can leak over HTTP",
        }
    }
}

/// The warnings due for a configuration, in the order they are logged.
pub open spec fn spec_prod_warnings(c: Config) -> Seq<ProdWarning> {
    let anon = c.auth_mode == AuthMode::Anonymous;
    (if c.api_key is None { seq![ProdWarning::ApiKeyUnset] } else { Seq::empty() })
        + (if c.client_token is None { seq![ProdWarning::ClientTokenUnset] } else { Seq::empty() })
        + (if anon { seq![ProdWarning::AnonymousMode] } else { Seq::empty() })
        + (if !c.cookie_secure && !anon { seq![ProdWarning::InsecureCookie] } else { Seq::empty() })
}

/// The settings that are unsafe in production (logged at start-up).
pub fn warn_prod_config(config: &Config) -> (r: Vec<ProdWarning>)
    ensures
        r@ == spec_prod_warnings(*config),
{
    let mut v: Vec<ProdWarning> = Vec::new();
    if config.api_key.is_none() {
        v.push(ProdWarning::ApiKeyUnset);
    }
    if config.client_token.is_none() {
        v.push(ProdWarning::ClientTokenUnset);
    }
    if config.is_anonymous() {
        v.push(ProdWarning::AnonymousMode);
    }
    if !config.cookie_secure && !config.is_anonymous() {
        v.push(ProdWarning::InsecureCookie);
    }
    assert(v@ =~= spec_prod_warnings(*config));
    v
}

impl Config {
    /// The settings the environment gives: retention clamped to 1..=3650 days
    /// (30 by default), sessions at least 1 day (7 by default), port 8080,
    /// host `0.0.0.0`, body limit at least 1 MiB (1), batches of 1..=500 (500),
    /// secure cookies unless switched off.
    pub fn from_env(env: &ServerEnv) -> (r: Config)
        ensures
            r.retention_days == clamp_i64(spec_env_i64(opt_view(env.retention_days), 30), 1, 3650),
            r.session_days == (if spec_env_i64(opt_view(env.session_days), 7) < 1 {
                1
            } else {
                spec_env_i64(opt_view(env.session_days), 7)
            }),
            r.host@ == (match opt_view(env.host) {
                Some(h) => h,
                None => "0.0.0.0"@,
            }),
            r.port as nat == spec_env_unsigned(opt_view(env.port), u16::MAX as nat, 8080),
            (r.logs_database@, r.system_database@, r.metrics_database@) == spec_database_paths(
                opt_view(env.logs_database),
                opt_view(env.system_database),
                opt_view(env.metrics_database),
                opt_view(env.database),
            ),
            opt_view(r.api_key) == spec_nonempty(opt_view(env.api_key)),
            opt_view(r.client_token) == spec_nonempty(opt_view(env.client_token)),
            r.auth_mode == spec_auth_mode(opt_view(env.auth_mode), opt_view(env.require_auth)),
            r.cookie_secure == spec_env_bool(opt_view(env.cookie_secure), true),
            r.max_body_mb as nat == (if spec_env_unsigned(opt_view(env.max_body_mb), usize::MAX as nat, 1) < 1 {
                1
            } else {
                spec_env_unsigned(opt_view(env.max_body_mb), usize::MAX as nat, 1)
            }),
            r.max_batch as nat == ({
                let b = spec_env_unsigned(opt_view(env.max_batch), usize::MAX as nat, 500);
                if b < 1 {
                    1
                } else if b > 500 {
                    500
                } else {
                    b
                }
            }),
            opt_view(r.cors_origin) == spec_nonempty(opt_view(env.cors_origin)),
            r.web_dir@ == spec_web_dir(opt_view(env.web_dir), env.server_web_is_dir, env.web_is_dir),
    {
        let rd = env_i64(&env.retention_days, 30);
        let retention_days = if rd < 1 {
            1
        } else if rd > 3650 {
            3650
        } else {
            rd
        };
        let sd = env_i64(&env.session_days, 7);
        let session_days = if sd < 1 {
            1
        } else {
            sd
        };
        let (logs_database, system_database, metrics_database) = resolve_database_paths(
            &env.logs_database,
            &env.system_database,
            &env.metrics_database,
            &env.database,
        );
        let mb = env_usize(&env.max_body_mb, 1);
        let max_body_mb = if mb < 1 {
            1
        } else {
            mb
        };
        let b = env_usize(&env.max_batch, 500);
        let b2 = if b > 500 {
            500
        } else {
            b
        };
        let max_batch = if b2 < 1 {
            1
        } else {
            b2
        };
        Config {
            host: match &env.host {
                Some(h) => h.clone(),
                None => owned("0.0.0.0"),
            },
            port: env_u16(&env.port, 8080),
            logs_database,
            system_database,
            metrics_database,
            api_key: env_nonempty(&env.api_key),
            client_token: env_nonempty(&env.client_token),
            auth_mode: resolve_auth_mode(&env.auth_mode, &env.require_auth),
            retention_days,
            session_days,
            cookie_secure: env_bool(&env.cookie_secure, true),
            max_body_mb,
            max_batch,
            cors_origin: env_nonempty(&env.cors_origin),
            web_dir: resolve_web_dir(&env.web_dir, env.server_web_is_dir, env.web_is_dir),
        }
    }

    /// `host:port`.
    pub fn bind_addr(&self) -> (r: String)
        ensures
            r@ == self.host@ + ":"@ + decimal(self.port as nat),
    {
        let a = concat(self.host.as_str(), ":");
        let p = format_u64(self.port as u64);
        concat(a.as_str(), p.as_str())
    }

    /// The SQLite URL of the logs database.
    pub fn logs_database_url(&self) -> (r: String)
        ensures
            r@ == spec_sqlite_url(self.logs_database@),
    {
        sqlite_url(self.logs_database.as_str())
    }

    /// The SQLite URL of the system (accounts, sessions, settings) database.
    pub fn system_database_url(&self) -> (r: String)
        ensures
            r@ == spec_sqlite_url(self.system_database@),
    {
        sqlite_url(self.system_database.as_str())
    }

    /// The SQLite URL of the metrics database.
    pub fn metrics_database_url(&self) -> (r: String)
        ensures
            r@ == spec_sqlite_url(self.metrics_database@),
    {
        sqlite_url(self.metrics_database.as_str())
    }

    /// Whether the UI is open without a login.
    pub fn is_anonymous(&self) -> (r: bool)
        ensures
            r == (self.auth_mode == AuthMode::Anonymous),
    {
        match self.auth_mode {
            AuthMode::Anonymous => true,
            AuthMode::Login => false,
        }
    }
}

/// Whatever the environment says, the limits a configuration is built
/// with lie in their ranges: retention 1..=3650 days, sessions of at least
/// a day, batches of 1..=500 entries, a body limit of at least 1 MiB.
pub proof fn law_config_limits(env: ServerEnv)
    ensures
        1 <= clamp_i64(spec_env_i64(opt_view(env.retention_days), 30), 1, 3650) <= 3650,
        (if spec_env_i64(opt_view(env.session_days), 7) < 1 {
            1
        } else {
            spec_env_i64(opt_view(env.session_days), 7)
        }) >= 1,
        ({
            let b = spec_env_unsigned(opt_view(env.max_batch), usize::MAX as nat, 500);
            1 <= (if b < 1 {
                1
            } else if b > 500 {
                500
            } else {
                b
            }) <= 500
        }),
{
}

} // verus!
