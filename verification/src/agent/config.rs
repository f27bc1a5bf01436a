//! Agent configuration: what the environment and `agent.toml` give, and
//! how they combine.
use vstd::prelude::*;
use crate::flags::{is_truthy, spec_is_truthy};
use crate::num::{parse_u64, spec_parse_u64};
use crate::paths::{path_file_name, spec_path_file_name};
use crate::text::{concat, owned, opt_view, str_eq, trim, trim_end_char, trim_end_char_seq, trim_seq};

verus! {

/// The agent's settings.
#[derive(Debug, Clone)]
pub struct AgentConfig {
    pub url: String,
    pub api_key: String,
    pub host_name: String,
    pub system_interval_secs: u64,
    pub service_interval_secs: u64,
    pub docker_enabled: bool,
    pub docker_sock: String,
    /// Mounts to sample; at least one (defaults to `/` as `root`).
    pub disks: Vec<DiskMount>,
    pub services: Vec<ServiceConfig>,
}

/// A mount to sample, under a display name.
#[derive(Debug, Clone)]
pub struct DiskMount {
    pub name: String,
    pub path: String,
}

/// A configured service probe (`[[service]]` in `agent.toml`).
#[derive(Debug, Clone)]
pub struct ServiceConfig {
    pub name: String,
    pub kind: String,
    pub url: Option<String>,
    pub addr: Option<String>,
    pub process_match: Option<String>,
    pub timeout_ms: Option<u64>,
}

/// A `[[disk]]` entry of `agent.toml`.
#[derive(Debug, Clone)]
pub struct DiskFileConfig {
    pub name: Option<String>,
    pub path: String,
}

/// What `agent.toml` holds (all optional).
#[derive(Debug, Clone)]
pub struct FileConfig {
    pub system_interval_secs: Option<u64>,
    pub service_interval_secs: Option<u64>,
    pub docker: Option<bool>,
    pub docker_sock: Option<String>,
    /// Legacy single-disk path (used when `[[disk]]` is empty).
    pub disk_path: Option<String>,
    pub host_name: Option<String>,
    pub disk: Vec<DiskFileConfig>,
    pub service: Vec<ServiceConfig>,
}

/// The environment variables the agent reads (`None` where unset).
#[derive(Debug, Clone)]
pub struct AgentEnv {
    /// `TINY_LOG_URL`
    pub url: Option<String>,
    /// `TINY_LOG_API_KEY`
    pub api_key: Option<String>,
    /// `TINY_LOG_HOST_NAME`
    pub host_name: Option<String>,
    /// `TINY_LOG_SYSTEM_INTERVAL_SECS`
    pub system_interval_secs: Option<String>,
    /// `TINY_LOG_SERVICE_INTERVAL_SECS`
    pub service_interval_secs: Option<String>,
    /// `TINY_LOG_DOCKER_SOCK`
    pub docker_sock: Option<String>,
    /// `TINY_LOG_DOCKER`
    pub docker: Option<String>,
    /// `TINY_LOG_DISK_PATH`
    pub disk_path: Option<String>,
}

/// Why the agent's configuration is refused.
#[derive(Debug, Clone, PartialEq, Eq)]
pub enum ConfigError {
    /// A `[[disk]]` entry with an empty path.
    EmptyDiskPath,
    /// Two `[[disk]]` entries with the same name.
    DuplicateDiskName(String),
    /// `TINY_LOG_URL` is unset.
    MissingUrl,
    /// `TINY_LOG_API_KEY` is unset.
    MissingApiKey,
    /// The URL or the API key is blank.
    BlankUrlOrKey,
}

/// The text an agent configuration error is reported with.
pub open spec fn spec_config_error_message(e: ConfigError) -> Seq<char> {
    match e {
        ConfigError::EmptyDiskPath => "[[disk]] path must be non-empty"@,
        ConfigError::DuplicateDiskName(n) => "duplicate [[disk]] name: "@ + n@,
        ConfigError::MissingUrl => "TINY_LOG_URL is required"@,
        ConfigError::MissingApiKey => "TINY_LOG_API_KEY is required"@,
        ConfigError::BlankUrlOrKey => "TINY_LOG_URL and TINY_LOG_API_KEY must be non-empty"@,
    }
}

impl ConfigError {
    /// The text the error is reported with.
    pub fn message(&self) -> (r: String)
        ensures
            r@ == spec_config_error_message(*self),
    {
        match self {
            ConfigError::EmptyDiskPath => owned("[[disk]] path must be non-empty"),
            ConfigError::DuplicateDiskName(n) => concat("duplicate [[disk]] name: ", n.as_str()),
            ConfigError::MissingUrl => owned("TINY_LOG_URL is required"),
            ConfigError::MissingApiKey => owned("TINY_LOG_API_KEY is required"),
            ConfigError::BlankUrlOrKey => owned("TINY_LOG_URL and TINY_LOG_API_KEY must be non-empty"),
        }
    }
}

/// The display name of a mount given by its path: `root` for `/`, else the
/// last component of the path, else `disk`.
pub open spec fn spec_default_disk_name(path: Seq<char>) -> Seq<char> {
    let trimmed = trim_end_char_seq(path, '/');
    if trimmed.len() == 0 || trimmed == "/"@ {
        "root"@
    } else {
        match spec_path_file_name(trimmed) {
            Some(n) => if n.len() > 0 {
                n
            } else {
                "disk"@
            },
            None => "disk"@,
        }
    }
}

/// The display name of a mount given by its path.
pub fn default_disk_name(path: &str) -> (r: String)
    ensures
        r@ == spec_default_disk_name(path@),
{
    let trimmed = trim_end_char(path, '/');
    if trimmed.as_str().is_empty() || str_eq(trimmed.as_str(), "/") {
        return owned("root");
    }
    match path_file_name(trimmed.as_str()) {
        Some(n) => if n.as_str().is_empty() {
            owned("disk")
        } else {
            n
        },
        None => owned("disk"),
    }
}

/// `v` clamped to `30..=300` seconds.
pub open spec fn spec_clamp_interval(v: u64) -> u64 {
    if v < 30 {
        30
    } else if v > 300 {
        300
    } else {
        v
    }
}

/// A sampling interval clamped to `30..=300` seconds.
pub fn clamp_interval(v: u64) -> (r: u64)
    ensures
        r == spec_clamp_interval(v),
        30 <= r <= 300,
{
    if v < 30 {
        30
    } else if v > 300 {
        300
    } else {
        v
    }
}

/// A mount by its name and path, as character sequences.
pub struct DiskMountView {
    pub name: Seq<char>,
    pub path: Seq<char>,
}

/// The mount a `[[disk]]` entry names, or an empty-path error.
pub enum DiskErrorView {
    EmptyPath,
    Duplicate(Seq<char>),
}

/// The name of a `[[disk]]` entry: its trimmed `name` if not blank, else
/// the default name of its (trimmed) path.
pub open spec fn spec_entry_name(name: Option<Seq<char>>, path: Seq<char>) -> Seq<char> {
    match name {
        Some(n) => if trim_seq(n).len() > 0 {
            trim_seq(n)
        } else {
            spec_default_disk_name(path)
        },
        None => spec_default_disk_name(path),
    }
}

/// Whether some mount in `ms` has the name `n`.
pub open spec fn has_name(ms: Seq<DiskMountView>, n: Seq<char>) -> bool {
    exists|i: int| 0 <= i < ms.len() && #[trigger] ms[i].name == n
}

/// The `[[disk]]` entries resolved in order; the first empty path or
/// repeated name stops it.
pub open spec fn spec_resolve_entries(ds: Seq<DiskFileConfig>) -> Result<Seq<DiskMountView>, DiskErrorView>
    decreases ds.len(),
{
    if ds.len() == 0 {
        Ok(Seq::empty())
    } else {
        match spec_resolve_entries(ds.drop_last()) {
            Err(e) => Err(e),
            Ok(prev) => {
                let d = ds.last();
                let path = trim_seq(d.path@);
                if path.len() == 0 {
                    Err(DiskErrorView::EmptyPath)
                } else {
                    let name = spec_entry_name(opt_view(d.name), path);
                    if has_name(prev, name) {
                        Err(DiskErrorView::Duplicate(name))
                    } else {
                        Ok(prev.push(DiskMountView { name, path }))
                    }
                }
            },
        }
    }
}

/// The mounts of the configuration: the `[[disk]]` entries where there are
/// any, else the one legacy path (environment first, then file, then `/`).
pub open spec fn spec_resolve_disks(file: FileConfig, env_disk_path: Option<Seq<char>>) -> Result<
    Seq<DiskMountView>,
    DiskErrorView,
> {
    if file.disk@.len() > 0 {
        spec_resolve_entries(file.disk@)
    } else {
        let path = match env_disk_path {
            Some(p) => p,
            None => match opt_view(file.disk_path) {
                Some(p) => p,
                None => "/"@,
            },
        };
        Ok(seq![DiskMountView { name: spec_default_disk_name(path), path }])
    }
}

/// The views of a list of mounts.
pub open spec fn mounts_view(v: Seq<DiskMount>) -> Seq<DiskMountView> {
    v.map_values(|m: DiskMount| DiskMountView { name: m.name@, path: m.path@ })
}

/// The view of a disk error.
pub open spec fn disk_error_view(e: ConfigError) -> DiskErrorView {
    match e {
        ConfigError::DuplicateDiskName(n) => DiskErrorView::Duplicate(n@),
        _ => DiskErrorView::EmptyPath,
    }
}

/// Names are pairwise distinct.
pub open spec fn distinct_names(ms: Seq<DiskMountView>) -> bool {
    forall|i: int, j: int| 0 <= i < ms.len() && 0 <= j < ms.len() && i != j ==> ms[i].name != ms[j].name
}

proof fn lemma_resolve_prefix_err(ds: Seq<DiskFileConfig>, k: int)
    requires
        0 <= k <= ds.len(),
        spec_resolve_entries(ds.take(k)) is Err,
    ensures
        spec_resolve_entries(ds) == spec_resolve_entries(ds.take(k)),
    decreases ds.len() - k,
{
    if k < ds.len() {
        assert(ds.take(k + 1).drop_last() =~= ds.take(k));
        lemma_resolve_prefix_err(ds, k + 1);
    } else {
        assert(ds.take(k) =~= ds);
    }
}

/// Resolved mounts have distinct names and non-empty paths.
pub proof fn lemma_resolved_entries_wellformed(ds: Seq<DiskFileConfig>)
    requires
        spec_resolve_entries(ds) is Ok,
    ensures
        ({
            let ms = spec_resolve_entries(ds)->Ok_0;
            &&& ms.len() == ds.len()
            &&& distinct_names(ms)
            &&& forall|i: int| 0 <= i < ms.len() ==> (#[trigger] ms[i]).path.len() > 0
        }),
    decreases ds.len(),
{
    if ds.len() > 0 {
        lemma_resolved_entries_wellformed(ds.drop_last());
    }
}

/// The mounts to sample (see `spec_resolve_disks`); `env_disk_path` is
/// `TINY_LOG_DISK_PATH`.
pub fn resolve_disks(file: &FileConfig, env_disk_path: &Option<String>) -> (r: Result<Vec<DiskMount>, ConfigError>)
    ensures
        match spec_resolve_disks(*file, opt_view(*env_disk_path)) {
            Ok(ms) => r matches Ok(v) && mounts_view(v@) == ms,
            Err(e) => r matches Err(x) && (x is EmptyDiskPath || x is DuplicateDiskName)
                && disk_error_view(x) == e,
        },
{
    if file.disk.len() > 0 {
        let mut out: Vec<DiskMount> = Vec::new();
        let n = file.disk.len();
        let mut i: usize = 0;
        assert(file.disk@.take(0) =~= Seq::<DiskFileConfig>::empty());
        assert(mounts_view(out@) =~= Seq::<DiskMountView>::empty());
        #[verifier::loop_isolation(false)]
        while i < n
            invariant
                n == file.disk@.len(),
                i <= n,
                spec_resolve_entries(file.disk@.take(i as int)) == Ok::<Seq<DiskMountView>, DiskErrorView>(mounts_view(out@)),
            decreases n - i,
        {
            let d = &file.disk[i];
            let ghost ds = file.disk@;
            assert(ds.take(i + 1).drop_last() =~= ds.take(i as int));
            assert(ds.take(i + 1).last() == *d);
            let path = trim(d.path.as_str());
            if path.as_str().is_empty() {
                proof {
                    lemma_resolve_prefix_err(ds, i + 1);
                }
                return Err(ConfigError::EmptyDiskPath);
            }
            let name = match &d.name {
                Some(nm) => {
                    let t = trim(nm.as_str());
                    if t.as_str().is_empty() {
                        default_disk_name(path.as_str())
                    } else {
                        t
                    }
                },
                None => default_disk_name(path.as_str()),
            };
            let mut k: usize = 0;
            #[verifier::loop_isolation(false)]
            while k < out.len()
                invariant
                    k <= out@.len(),
                    forall|j: int| 0 <= j < k ==> (#[trigger] mounts_view(out@)[j]).name != name@,
                decreases out@.len() - k,
            {
                if str_eq(out[k].name.as_str(), name.as_str()) {
                    proof {
                        assert(mounts_view(out@)[k as int].name == name@);
                        lemma_resolve_prefix_err(ds, i + 1);
                    }
                    return Err(ConfigError::DuplicateDiskName(name));
                }
                k = k + 1;
            }
            let ghost before = out@;
            out.push(DiskMount { name, path });
            assert(mounts_view(out@) =~= mounts_view(before).push(DiskMountView { name: name@, path: path@ }));
            i = i + 1;
        }
        assert(file.disk@.take(n as int) =~= file.disk@);
        Ok(out)
    } else {
        let path = match env_disk_path {
            Some(p) => p.clone(),
            None => match &file.disk_path {
                Some(p) => p.clone(),
                None => owned("/"),
            },
        };
        let name = default_disk_name(path.as_str());
        let mut v: Vec<DiskMount> = Vec::new();
        v.push(DiskMount { name, path });
        assert(mounts_view(v@) =~= seq![DiskMountView { name: name@, path: path@ }]);
        Ok(v)
    }
}

/// Configured mounts are at least one, with distinct names.
pub proof fn law_resolved_disks_wellformed(file: FileConfig, env_disk_path: Option<Seq<char>>)
    requires
        spec_resolve_disks(file, env_disk_path) is Ok,
    ensures
        spec_resolve_disks(file, env_disk_path)->Ok_0.len() >= 1,
        distinct_names(spec_resolve_disks(file, env_disk_path)->Ok_0),
{
    if file.disk@.len() > 0 {
        lemma_resolved_entries_wellformed(file.disk@);
    }
}

/// The Docker socket path: environment, then file, then `/var/run/docker.sock`.
pub open spec fn spec_docker_sock(env: AgentEnv, file: FileConfig) -> Seq<char> {
    match opt_view(env.docker_sock) {
        Some(s) => s,
        None => match opt_view(file.docker_sock) {
            Some(s) => s,
            None => "/var/run/docker.sock"@,
        },
    }
}

/// The Docker socket the agent talks to.
pub fn docker_sock_path(env: &AgentEnv, file: &FileConfig) -> (r: String)
    ensures
        r@ == spec_docker_sock(*env, *file),
{
    match &env.docker_sock {
        Some(s) => s.clone(),
        None => match &file.docker_sock {
            Some(s) => s.clone(),
            None => owned("/var/run/docker.sock"),
        },
    }
}

/// An interval: the environment's value where it reads as a number, else the
/// file's, else 60 seconds; then clamped.
pub open spec fn spec_interval(env: Option<Seq<char>>, file: Option<u64>) -> u64 {
    let e = match env {
        Some(s) => spec_parse_u64(s),
        None => None,
    };
    spec_clamp_interval(
        match e {
            Some(v) => v,
            None => match file {
                Some(v) => v,
                None => 60,
            },
        },
    )
}

fn interval(env: &Option<String>, file: Option<u64>) -> (r: u64)
    ensures
        r == spec_interval(opt_view(*env), file),
{
    let e = match env {
        Some(s) => parse_u64(s.as_str()),
        None => None,
    };
    let v = match e {
        Some(v) => v,
        None => match file {
            Some(v) => v,
            None => 60,
        },
    };
    clamp_interval(v)
}

/// The host name: a non-empty `TINY_LOG_HOST_NAME`, else the file's, else the
/// system's, else `unknown-host`.
pub open spec fn spec_host_name(env: Option<Seq<char>>, file: Option<Seq<char>>, system: Option<Seq<char>>) -> Seq<char> {
    match env {
        Some(h) if h.len() > 0 => h,
        _ => match file {
            Some(h) => h,
            None => match system {
                Some(h) => h,
                None => "unknown-host"@,
            },
        },
    }
}

/// `hostname::get()` as UTF-8 text; `None` where it fails or is not valid
/// UTF-8. It is the machine's name, so nothing is stated of it.
#[verifier::external_body]
fn system_host_name() -> Option<String> {
    match hostname::get() {
        Ok(h) => h.into_string().ok(),
        Err(_) => None,
    }
}

/// What the agent's settings are, from the environment, the file, the
/// system host name and whether the Docker socket exists. Errors, in order:
/// the mounts; `TINY_LOG_URL` unset; `TINY_LOG_API_KEY` unset; either blank.
pub open spec fn config_matches(
    r: Result<AgentConfig, ConfigError>,
    env: AgentEnv,
    file: FileConfig,
    system_host_name: Option<Seq<char>>,
    docker_sock_exists: bool,
) -> bool {
    match spec_resolve_disks(file, opt_view(env.disk_path)) {
        Err(e) => r matches Err(x) && disk_error_view(x) == e && (x is EmptyDiskPath
            || x is DuplicateDiskName),
        Ok(ms) => match (env.url, env.api_key) {
            (None, _) => r == Err::<AgentConfig, ConfigError>(ConfigError::MissingUrl),
            (Some(_), None) => r == Err::<AgentConfig, ConfigError>(ConfigError::MissingApiKey),
            (Some(u), Some(k)) => if trim_seq(u@).len() == 0 || trim_seq(k@).len() == 0 {
                r == Err::<AgentConfig, ConfigError>(ConfigError::BlankUrlOrKey)
            } else {
                r matches Ok(c) && {
                    &&& c.url@ == trim_end_char_seq(u@, '/')
                    &&& c.api_key@ == k@
                    &&& c.host_name@ == spec_host_name(opt_view(env.host_name), opt_view(file.host_name), system_host_name)
                    &&& c.system_interval_secs == spec_interval(opt_view(env.system_interval_secs), file.system_interval_secs)
                    &&& c.service_interval_secs == spec_interval(opt_view(env.service_interval_secs), file.service_interval_secs)
                    &&& c.docker_sock@ == spec_docker_sock(env, file)
                    &&& c.docker_enabled == (match opt_view(env.docker) {
                        Some(v) => spec_is_truthy(v),
                        None => match file.docker {
                            Some(b) => b,
                            None => docker_sock_exists,
                        },
                    })
                    &&& mounts_view(c.disks@) == ms
                    &&& c.services@ == file.service@
                }
            },
        },
    }
}

impl AgentConfig {
    /// Combines the environment, the file, the system host name and whether
    /// the Docker socket exists into the agent's settings. Errors, in order:
    /// the mounts; `TINY_LOG_URL` unset; `TINY_LOG_API_KEY` unset; either blank.
    pub fn from_sources(
        env: &AgentEnv,
        file: &FileConfig,
        system_host_name: &Option<String>,
        docker_sock_exists: bool,
    ) -> (r: Result<AgentConfig, ConfigError>)
        ensures
            config_matches(r, *env, *file, opt_view(*system_host_name), docker_sock_exists),
    {
        let disks = match resolve_disks(file, &env.disk_path) {
            Ok(d) => d,
            Err(e) => return Err(e),
        };
        let url = match &env.url {
            Some(u) => u.clone(),
            None => return Err(ConfigError::MissingUrl),
        };
        let api_key = match &env.api_key {
            Some(k) => k.clone(),
            None => return Err(ConfigError::MissingApiKey),
        };
        let host_name = match &env.host_name {
            Some(h) if !h.as_str().is_empty() => h.clone(),
            _ => match &file.host_name {
                Some(h) => h.clone(),
                None => match system_host_name {
                    Some(h) => h.clone(),
                    None => owned("unknown-host"),
                },
            },
        };
        let system_interval_secs = interval(&env.system_interval_secs, file.system_interval_secs);
        let service_interval_secs = interval(&env.service_interval_secs, file.service_interval_secs);
        let docker_sock = docker_sock_path(env, file);
        let docker_enabled = match &env.docker {
            Some(v) => is_truthy(v.as_str()),
            None => match file.docker {
                Some(b) => b,
                None => docker_sock_exists,
            },
        };
        let tu = trim(url.as_str());
        let tk = trim(api_key.as_str());
        if tu.as_str().is_empty() || tk.as_str().is_empty() {
            return Err(ConfigError::BlankUrlOrKey);
        }
        let services = clone_services(&file.service);
        Ok(AgentConfig {
            url: trim_end_char(url.as_str(), '/'),
            api_key,
            host_name,
            system_interval_secs,
            service_interval_secs,
            docker_enabled,
            docker_sock,
            disks,
            services,
        })
    }

    /// Loads the settings: as `from_sources`, with the machine's host name
    /// (asked for only where neither the environment nor the file names the
    /// host).
    pub fn load(env: &AgentEnv, file: &FileConfig, docker_sock_exists: bool) -> (r: Result<AgentConfig, ConfigError>)
        ensures
            exists|h: Option<Seq<char>>| #[trigger] config_matches(r, *env, *file, h, docker_sock_exists),
    {
        let named = match &env.host_name {
            Some(h) => h.unicode_len() > 0,
            None => false,
        } || file.host_name.is_some();
        let system = if named {
            None
        } else {
            system_host_name()
        };
        Self::from_sources(env, file, &system, docker_sock_exists)
    }
}

/// A copy of a service probe, field by field.
fn clone_service(s: &ServiceConfig) -> (r: ServiceConfig)
    ensures
        r == *s,
{
    ServiceConfig {
        name: s.name.clone(),
        kind: s.kind.clone(),
        url: match &s.url {
            Some(u) => Some(u.clone()),
            None => None,
        },
        addr: match &s.addr {
            Some(u) => Some(u.clone()),
            None => None,
        },
        process_match: match &s.process_match {
            Some(u) => Some(u.clone()),
            None => None,
        },
        timeout_ms: s.timeout_ms,
    }
}

fn clone_services(v: &Vec<ServiceConfig>) -> (r: Vec<ServiceConfig>)
    ensures
        r@ == v@,
{
    let mut out: Vec<ServiceConfig> = Vec::new();
    let mut i: usize = 0;
    while i < v.len()
        invariant
            i <= v@.len(),
            out@ == v@.take(i as int),
        decreases v@.len() - i,
    {
        out.push(clone_service(&v[i]));
        assert(v@.take(i + 1) =~= v@.take(i as int).push(v@[i as int]));
        i = i + 1;
    }
    assert(v@.take(v@.len() as int) =~= v@);
    out
}

/// Sampling intervals always lie in `30..=300` seconds.
pub proof fn law_intervals_bounded(env: Option<Seq<char>>, file: Option<u64>)
    ensures
        30 <= spec_interval(env, file) <= 300,
{
}

/// Whether Docker containers are watched: `TINY_LOG_DOCKER` decides where it
/// is set; otherwise the file's `docker` setting decides, whether or not the
/// socket exists; only where neither says does the socket's presence decide.
pub proof fn law_docker_setting_precedence(
    r: Result<AgentConfig, ConfigError>,
    env: AgentEnv,
    file: FileConfig,
    system_host_name: Option<Seq<char>>,
    docker_sock_exists: bool,
)
    requires
        config_matches(r, env, file, system_host_name, docker_sock_exists),
        r is Ok,
    ensures
        env.docker is None && file.docker == Some(true) ==> r->Ok_0.docker_enabled,
        env.docker is None && file.docker == Some(false) ==> !r->Ok_0.docker_enabled,
        env.docker is None && file.docker is None ==> r->Ok_0.docker_enabled == docker_sock_exists,
        env.docker matches Some(v) ==> r->Ok_0.docker_enabled == spec_is_truthy(v@),
{
}

} // verus!
