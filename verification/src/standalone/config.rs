//! Settings of the single-database server, from the environment.
use vstd::prelude::*;
use crate::flags::{
    env_bool, env_i64, env_nonempty, env_u16, env_usize, spec_env_bool, spec_env_i64,
    spec_env_unsigned, spec_nonempty,
};
use crate::num::{decimal, format_u64};
use crate::server::config::{clamp_i64, spec_sqlite_url, sqlite_url};
use crate::text::{concat, opt_view, owned};

verus! {

/// The single-database server's settings.
#[derive(Debug, Clone)]
pub struct Config {
    pub host: String,
    pub port: u16,
    pub database: String,
    pub api_key: Option<String>,
    pub client_token: Option<String>,
    pub require_auth: bool,
    pub retention_days: i64,
    pub session_days: i64,
    pub cookie_secure: bool,
    pub max_body_mb: usize,
    pub max_batch: usize,
    pub cors_origin: Option<String>,
    pub web_dir: String,
}

/// The environment variables it reads (`None` where unset).
#[derive(Debug, Clone)]
pub struct StandaloneEnv {
    /// `TINY_LOG_HOST`
    pub host: Option<String>,
    /// `TINY_LOG_PORT`
    pub port: Option<String>,
    /// `TINY_LOG_DATABASE`
    pub database: Option<String>,
    /// `TINY_LOG_API_KEY`
    pub api_key: Option<String>,
    /// `TINY_LOG_CLIENT_TOKEN`
    pub client_token: Option<String>,
    /// `TINY_LOG_REQUIRE_AUTH`
    pub require_auth: Option<String>,
    /// `TINY_LOG_RETENTION_DAYS`
    pub retention_days: Option<String>,
    /// `TINY_LOG_SESSION_DAYS`
    pub session_days: Option<String>,
    /// `TINY_LOG_COOKIE_SECURE`
    pub cookie_secure: Option<String>,
    /// `TINY_LOG_MAX_BODY_MB`
    pub max_body_mb: Option<String>,
    /// `TINY_LOG_MAX_BATCH`
    pub max_batch: Option<String>,
    /// `TINY_LOG_CORS_ORIGIN`
    pub cors_origin: Option<String>,
    /// `TINY_LOG_WEB_DIR`
    pub web_dir: Option<String>,
}

/// A value, or a default where it is unset.
pub open spec fn or_default(v: Option<Seq<char>>, d: Seq<char>) -> Seq<char> {
    match v {
        Some(s) => s,
        None => d,
    }
}

fn string_or(v: &Option<String>, d: &str) -> (r: String)
    ensures
        r@ == or_default(opt_view(*v), d@),
{
    match v {
        Some(s) => s.clone(),
        None => owned(d),
    }
}

impl Config {
    /// The settings the environment gives: retention clamped to 1..=3650
    /// days (30 by default), sessions at least 1 day (7), port 8080, host
    /// `0.0.0.0`, database `./data/logs.db`, body limit at least 1 MiB (1),
    /// batches of 1..=500 (500), login required and secure cookies unless
    /// switched off, web assets in `./web`.
    pub fn from_env(env: &StandaloneEnv) -> (r: Config)
        ensures
            r.host@ == or_default(opt_view(env.host), "0.0.0.0"@),
            r.port as nat == spec_env_unsigned(opt_view(env.port), u16::MAX as nat, 8080),
            r.database@ == or_default(opt_view(env.database), "./data/logs.db"@),
            opt_view(r.api_key) == spec_nonempty(opt_view(env.api_key)),
            opt_view(r.client_token) == spec_nonempty(opt_view(env.client_token)),
            r.require_auth == spec_env_bool(opt_view(env.require_auth), true),
            r.retention_days == clamp_i64(spec_env_i64(opt_view(env.retention_days), 30), 1, 3650),
            r.session_days == (if spec_env_i64(opt_view(env.session_days), 7) < 1 {
                1
            } else {
                spec_env_i64(opt_view(env.session_days), 7)
            }),
            r.cookie_secure == spec_env_bool(opt_view(env.cookie_secure), true),
            r.max_body_mb as nat == (if spec_env_unsigned(opt_view(env.max_body_mb), usize::MAX as nat, 1) < 1 {
                1
            } else {
                spec_env_unsigned(opt_view(env.max_body_mb), usize::MAX as nat, 1)
            }),
            r.max_batch as nat == ({
                let b = spec_env_unsigned(opt_view(env.max_batch), usize::MAX as nat, 500);
                if b < 1 {
                    1
                } else if b > 500 {
                    500
                } else {
                    b
                }
            }),
            opt_view(r.cors_origin) == spec_nonempty(opt_view(env.cors_origin)),
            r.web_dir@ == or_default(opt_view(env.web_dir), "./web"@),
            1 <= r.retention_days <= 3650,
            r.session_days >= 1,
            1 <= r.max_batch <= 500,
            r.max_body_mb >= 1,
    {
        let rd = env_i64(&env.retention_days, 30);
        let retention_days = if rd < 1 {
            1
        } else if rd > 3650 {
            3650
        } else {
            rd
        };
        let sd = env_i64(&env.session_days, 7);
        let session_days = if sd < 1 {
            1
        } else {
            sd
        };
        let mb = env_usize(&env.max_body_mb, 1);
        let max_body_mb = if mb < 1 {
            1
        } else {
            mb
        };
        let b = env_usize(&env.max_batch, 500);
        let b2 = if b > 500 {
            500
        } else {
            b
        };
        let max_batch = if b2 < 1 {
            1
        } else {
            b2
        };
        Config {
            host: string_or(&env.host, "0.0.0.0"),
            port: env_u16(&env.port, 8080),
            database: string_or(&env.database, "./data/logs.db"),
            api_key: env_nonempty(&env.api_key),
            client_token: env_nonempty(&env.client_token),
            require_auth: env_bool(&env.require_auth, true),
            retention_days,
            session_days,
            cookie_secure: env_bool(&env.cookie_secure, true),
            max_body_mb,
            max_batch,
            cors_origin: env_nonempty(&env.cors_origin),
            web_dir: string_or(&env.web_dir, "./web"),
        }
    }

    /// `host:port`.
    pub fn bind_addr(&self) -> (r: String)
        ensures
            r@ == self.host@ + ":"@ + decimal(self.port as nat),
    {
        let a = concat(self.host.as_str(), ":");
        let p = format_u64(self.port as u64);
        concat(a.as_str(), p.as_str())
    }

    /// The SQLite URL of the database (created where missing).
    pub fn database_url(&self) -> (r: String)
        ensures
            r@ == spec_sqlite_url(self.database@),
    {
        sqlite_url(self.database.as_str())
    }
}

} // verus!
