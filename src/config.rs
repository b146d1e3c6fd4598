use vstd::prelude::*;

verus! {

/// Everything the server is configured with.
#[derive(Debug, Clone)]
pub struct ServerConfig {
    pub server: ServerSettings,
    pub docker: DockerSettings,
    pub security: SecuritySettings,
    pub logging: LoggingSettings,
}

#[derive(Debug, Clone)]
pub struct ServerSettings {
    pub name: String,
    pub version: String,
    pub transport: TransportType,
    /// Deadline of one request, in milliseconds.
    pub request_timeout: u64,
}

#[derive(Debug, Clone, Copy, PartialEq, Eq)]
pub enum TransportType {
    Stdio,
    Sse,
}

#[derive(Debug, Clone)]
pub struct DockerSettings {
    /// Docker socket path or TCP endpoint.
    pub host: String,
    /// Docker API version to use.
    pub api_version: Option<String>,
    /// Compose projects that may be used; any when absent.
    pub allowed_compose_projects: Option<Vec<String>>,
    /// Path of the docker-compose program.
    pub compose_path: String,
    /// Timeout of one backend operation, in milliseconds.
    pub operation_timeout: u64,
    /// Refuse every operation that changes something.
    pub read_only: bool,
    /// Largest log text returned, in bytes.
    pub max_log_size: usize,
}

#[derive(Debug, Clone)]
pub struct SecuritySettings {
    pub rate_limiting: RateLimitSettings,
    pub quotas: QuotaSettings,
    pub registries: RegistrySettings,
    pub volumes: VolumeSettings,
    pub networks: NetworkSettings,
    pub commands: CommandSettings,
}

#[derive(Debug, Clone, Copy)]
pub struct RateLimitSettings {
    pub enabled: bool,
    /// Steady rate, in requests per minute.
    pub requests_per_minute: u32,
    /// Allowance above the steady rate.
    pub burst: u32,
}

#[derive(Debug, Clone, Copy)]
pub struct QuotaSettings {
    pub enabled: bool,
    pub max_containers: u32,
    pub max_images: u32,
    /// Longest image build, in milliseconds.
    pub max_build_time: u64,
    pub max_log_size: usize,
}

/// An allow list, when present, is exclusive; the deny list is consulted
/// only when no allow list is present. The same holds of the other rule sets.
#[derive(Debug, Clone)]
pub struct RegistrySettings {
    pub allowed_registries: Option<Vec<String>>,
    pub denied_registries: Vec<String>,
    pub allowed_base_images: Option<Vec<String>>,
    pub denied_base_images: Vec<String>,
}

#[derive(Debug, Clone)]
pub struct VolumeSettings {
    pub allowed_mounts: Option<Vec<String>>,
    pub denied_mounts: Vec<String>,
}

#[derive(Debug, Clone)]
pub struct NetworkSettings {
    pub allowed_networks: Option<Vec<String>>,
    pub denied_networks: Vec<String>,
}

#[derive(Debug, Clone)]
pub struct CommandSettings {
    pub allowed_commands: Option<Vec<String>>,
    pub denied_commands: Vec<String>,
}

#[derive(Debug, Clone)]
pub struct LoggingSettings {
    pub level: String,
    /// `json` or `text`.
    pub format: String,
    /// Log file; standard error when absent.
    pub file: Option<String>,
    pub log_requests: bool,
    pub audit_logging: bool,
    /// Audit log file; the regular log when absent.
    pub audit_file: Option<String>,
}

pub fn default_true() -> (r: bool)
    ensures
        r,
{
    true
}

pub fn default_request_timeout() -> (r: u64)
    ensures
        r == 30_000,
{
    30_000
}

pub fn default_operation_timeout() -> (r: u64)
    ensures
        r == 60_000,
{
    60_000
}

/// The Docker endpoint on a Unix host.
pub fn default_docker_host() -> (r: String)
    ensures
        r@ == "unix:///var/run/docker.sock"@,
{
    docker_host_for(true)
}

/// The local Docker endpoint: the Unix socket, or the named pipe elsewhere.
pub fn docker_host_for(unix: bool) -> (r: String)
    ensures
        unix ==> r@ == "unix:///var/run/docker.sock"@,
        !unix ==> r@ == "npipe:////./pipe/docker_engine"@,
{
    if unix {
        "unix:///var/run/docker.sock".to_string()
    } else {
        "npipe:////./pipe/docker_engine".to_string()
    }
}

pub fn default_compose_path() -> (r: String)
    ensures
        r@ == "docker-compose"@,
{
    "docker-compose".to_string()
}

pub fn default_rate_limit() -> (r: u32)
    ensures
        r == 60,
{
    60
}

pub fn default_burst_limit() -> (r: u32)
    ensures
        r == 10,
{
    10
}

pub fn default_max_containers() -> (r: u32)
    ensures
        r == 20,
{
    20
}

pub fn default_max_images() -> (r: u32)
    ensures
        r == 50,
{
    50
}

/// Five minutes.
pub fn default_max_build_time() -> (r: u64)
    ensures
        r == 300_000,
{
    300_000
}

/// One mebibyte.
pub fn default_max_log_size() -> (r: usize)
    ensures
        r == 1024 * 1024,
{
    1024 * 1024
}

pub fn default_log_level() -> (r: String)
    ensures
        r@ == "info"@,
{
    "info".to_string()
}

pub fn default_log_format() -> (r: String)
    ensures
        r@ == "text"@,
{
    "text".to_string()
}

impl Default for TransportType {
    fn default() -> (r: TransportType)
        ensures
            r == TransportType::Stdio,
    {
        TransportType::Stdio
    }
}

impl Default for DockerSettings {
    fn default() -> (r: DockerSettings)
        ensures
            r.host@ == "unix:///var/run/docker.sock"@,
            r.api_version is None,
            r.allowed_compose_projects is None,
            r.compose_path@ == "docker-compose"@,
            r.operation_timeout == 60_000,
            !r.read_only,
            r.max_log_size == 1024 * 1024,
    {
        DockerSettings {
            host: default_docker_host(),
            api_version: None,
            allowed_compose_projects: None,
            compose_path: default_compose_path(),
            operation_timeout: default_operation_timeout(),
            read_only: false,
            max_log_size: default_max_log_size(),
        }
    }
}

impl Default for SecuritySettings {
    /// Rate limiting and quotas on, every allow list absent, every deny list empty.
    fn default() -> (r: SecuritySettings)
        ensures
            r.rate_limiting.enabled,
            r.rate_limiting.requests_per_minute == 60,
            r.rate_limiting.burst == 10,
            r.quotas.enabled,
            r.quotas.max_containers == 20,
            r.quotas.max_images == 50,
            r.quotas.max_build_time == 300_000,
            r.quotas.max_log_size == 1024 * 1024,
            r.registries.allowed_registries is None,
            r.registries.denied_registries@.len() == 0,
            r.registries.allowed_base_images is None,
            r.registries.denied_base_images@.len() == 0,
            r.volumes.allowed_mounts is None,
            r.volumes.denied_mounts@.len() == 0,
            r.networks.allowed_networks is None,
            r.networks.denied_networks@.len() == 0,
            r.commands.allowed_commands is None,
            r.commands.denied_commands@.len() == 0,
    {
        SecuritySettings {
            rate_limiting: RateLimitSettings {
                enabled: default_true(),
                requests_per_minute: default_rate_limit(),
                burst: default_burst_limit(),
            },
            quotas: QuotaSettings {
                enabled: default_true(),
                max_containers: default_max_containers(),
                max_images: default_max_images(),
                max_build_time: default_max_build_time(),
                max_log_size: default_max_log_size(),
            },
            registries: RegistrySettings {
                allowed_registries: None,
                denied_registries: Vec::new(),
                allowed_base_images: None,
                denied_base_images: Vec::new(),
            },
            volumes: VolumeSettings { allowed_mounts: None, denied_mounts: Vec::new() },
            networks: NetworkSettings { allowed_networks: None, denied_networks: Vec::new() },
            commands: CommandSettings { allowed_commands: None, denied_commands: Vec::new() },
        }
    }
}

impl Default for LoggingSettings {
    fn default() -> (r: LoggingSettings)
        ensures
            r.level@ == "info"@,
            r.format@ == "text"@,
            r.file is None,
            r.log_requests,
            r.audit_logging,
            r.audit_file is None,
    {
        LoggingSettings {
            level: default_log_level(),
            format: default_log_format(),
            file: None,
            log_requests: default_true(),
            audit_logging: default_true(),
            audit_file: None,
        }
    }
}

/// A place configuration is read from; later sources override earlier ones.
#[derive(Debug, Clone)]
pub enum ConfigSource {
    /// The defaults built into the program.
    Embedded,
    /// A YAML file; a required one must exist.
    File { path: String, required: bool },
    /// Environment variables named with this prefix, nested by this separator.
    Environment { prefix: String, separator: String },
}

/// A configuration source as values.
pub enum SourceView {
    Embedded,
    File(Seq<char>, bool),
    Environment(Seq<char>, Seq<char>),
}

pub open spec fn source_view(s: ConfigSource) -> SourceView {
    match s {
        ConfigSource::Embedded => SourceView::Embedded,
        ConfigSource::File { path, required } => SourceView::File(path@, required),
        ConfigSource::Environment { prefix, separator } => SourceView::Environment(
            prefix@,
            separator@,
        ),
    }
}

#[derive(Debug, Clone)]
pub enum ConfigError {
    /// The configuration file asked for does not exist.
    NotFound(String),
}

/// The places looked at for a configuration file, in order.
pub open spec fn location(i: int) -> Seq<char> {
    if i == 0 {
        "config/default.yaml"@
    } else if i == 1 {
        "/etc/docker-mcp-server/config.yaml"@
    } else {
        "./config.yaml"@
    }
}

pub fn default_config_locations() -> (r: Vec<String>)
    ensures
        r@.len() == 3,
        forall|i: int| 0 <= i < 3 ==> #[trigger] r@[i]@ == location(i),
{
    let mut r: Vec<String> = Vec::new();
    r.push("config/default.yaml".to_string());
    r.push("/etc/docker-mcp-server/config.yaml".to_string());
    r.push("./config.yaml".to_string());
    r
}

/// The optional files among the first `n` locations that are present.
pub open spec fn found_files(present: Seq<bool>, n: int) -> Seq<SourceView>
    decreases n,
{
    if n <= 0 {
        Seq::empty()
    } else if present[n - 1] {
        found_files(present, n - 1).push(SourceView::File(location(n - 1), false))
    } else {
        found_files(present, n - 1)
    }
}

/// The sources, lowest priority first: the built-in defaults, each default
/// location that holds a file, the file asked for, and the environment.
pub open spec fn planned_sources(present: Seq<bool>, path: Option<Seq<char>>) -> Seq<SourceView> {
    let files = seq![SourceView::Embedded] + found_files(present, 3);
    let with_path = match path {
        Some(p) => files.push(SourceView::File(p, true)),
        None => files,
    };
    with_path.push(SourceView::Environment("DOCKER_MCP"@, "_"@))
}

/// Plan where configuration is read from. `present` tells which of the
/// default locations hold a file; a file asked for by path must exist.
pub fn load_config(present: &Vec<bool>, path: Option<&str>, path_exists: bool) -> (r: Result<
    Vec<ConfigSource>,
    ConfigError,
>)
    requires
        present@.len() == 3,
    ensures
        r is Err <==> path is Some && !path_exists,
        r matches Err(ConfigError::NotFound(p)) ==> p@ == path.unwrap()@,
        r is Ok ==> r->Ok_0@.map_values(|s: ConfigSource| source_view(s)) == planned_sources(
            present@,
            match path {
                Some(p) => Some(p@),
                None => None,
            },
        ),
{
    match path {
        Some(p) => {
            if !path_exists {
                return Err(ConfigError::NotFound(p.to_string()));
            }
        },
        None => {},
    }
    let locations = default_config_locations();
    let mut sources: Vec<ConfigSource> = Vec::new();
    sources.push(ConfigSource::Embedded);
    let mut i: usize = 0;
    while i < 3
        invariant
            i <= 3,
            present@.len() == 3,
            locations@.len() == 3,
            forall|j: int| 0 <= j < 3 ==> #[trigger] locations@[j]@ == location(j),
            sources@.map_values(|s: ConfigSource| source_view(s)) == seq![SourceView::Embedded]
                + found_files(present@, i as int),
        decreases 3 - i,
    {
        let ghost before = sources@;
        if present[i] {
            let entry = ConfigSource::File { path: locations[i].clone(), required: false };
            assert(source_view(entry) == SourceView::File(location(i as int), false));
            sources.push(entry);
            assert(sources@.map_values(|s: ConfigSource| source_view(s)) =~= before.map_values(
                |s: ConfigSource| source_view(s),
            ).push(SourceView::File(location(i as int), false)));
        }
        proof {
            assert(sources@.map_values(|s: ConfigSource| source_view(s)) =~= seq![SourceView::Embedded]
                + found_files(present@, i + 1));
        }
        i = i + 1;
    }
    match path {
        Some(p) => {
            sources.push(ConfigSource::File { path: p.to_string(), required: true });
        },
        None => {},
    }
    sources.push(
        ConfigSource::Environment { prefix: "DOCKER_MCP".to_string(), separator: "_".to_string() },
    );
    proof {
        let ghost pv = match path {
            Some(p) => Some(p@),
            None => None,
        };
        assert(sources@.map_values(|s: ConfigSource| source_view(s)) =~= planned_sources(present@, pv));
    }
    Ok(sources)
}

} // verus!
