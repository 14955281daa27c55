//! Gateway configuration: its shape, its defaults and the rules a valid
//! configuration obeys.
//!
//! Maps of the configuration file are held as keyed lists (see `table`).
//! Floating-point settings are held as their IEEE-754 bit patterns.
use vstd::prelude::*;

use crate::error::GatewayError;
use crate::json::{copy_entries, entries_model, JsonValue};
use crate::table::{find_key, has_key, keys_distinct, named};

verus! {

#[derive(Debug, Clone)]
pub struct Config {
    pub server: ServerConfig,
    pub gateway: GatewayConfig,
    pub upstream: UpstreamConfig,
    pub security: SecurityConfig,
    pub metrics: MetricsConfig,
    pub logging: LoggingConfig,
    pub middleware: MiddlewareConfig,
}

#[derive(Debug, Clone)]
pub struct ServerConfig {
    pub host: String,
    pub port: u16,
    pub workers: Option<usize>,
    pub max_connections: Option<usize>,
    pub keepalive_timeout: Option<u64>,
    pub request_timeout: Option<u64>,
    pub graceful_shutdown_timeout: Option<u64>,
}

#[derive(Debug, Clone)]
pub struct GatewayConfig {
    pub name: String,
    pub version: String,
    pub environment: String,
    pub routes: Vec<RouteConfig>,
    pub load_balancing: LoadBalancingConfig,
    pub circuit_breaker: CircuitBreakerConfig,
    pub retry: RetryConfig,
    pub cache: CacheConfig,
}

#[derive(Debug, Clone)]
pub struct RouteConfig {
    pub id: String,
    pub path: String,
    pub method: Option<String>,
    pub upstream_group: String,
    pub timeout: Option<u64>,
    pub rate_limit: Option<RateLimitConfig>,
    pub auth_required: bool,
    pub transform: Option<TransformConfig>,
    pub headers: Option<Vec<(String, String)>>,
}

#[derive(Debug, Clone)]
pub struct UpstreamConfig {
    /// Upstream groups by name (see `Config::wf`: names are distinct).
    pub groups: Vec<(String, UpstreamGroup)>,
    pub health_check: HealthCheckConfig,
    pub connection_pool: ConnectionPoolConfig,
}

#[derive(Debug, Clone)]
pub struct UpstreamGroup {
    pub servers: Vec<UpstreamServer>,
    pub strategy: LoadBalancingStrategy,
    pub health_check_override: Option<HealthCheckConfig>,
}

#[derive(Debug, Clone)]
pub struct UpstreamServer {
    pub id: String,
    pub url: String,
    pub weight: Option<u32>,
    pub max_requests: Option<u32>,
    pub backup: bool,
    pub metadata: Option<Vec<(String, String)>>,
}

#[derive(Debug, Clone)]
pub struct LoadBalancingConfig {
    pub default_strategy: LoadBalancingStrategy,
    pub sticky_sessions: bool,
    pub session_cookie_name: Option<String>,
}

#[derive(Debug, Clone, Copy, PartialEq, Eq, Structural)]
pub enum LoadBalancingStrategy {
    RoundRobin,
    WeightedRoundRobin,
    LeastConnections,
    IpHash,
    Random,
    WeightedRandom,
}

#[derive(Debug, Clone)]
pub struct CircuitBreakerConfig {
    pub enabled: bool,
    pub failure_threshold: u32,
    pub recovery_timeout: u64,
    pub min_request_threshold: u32,
    /// The error-rate threshold, as the bits of an `f32`.
    pub error_rate_threshold_bits: u32,
}

#[derive(Debug, Clone)]
pub struct RetryConfig {
    pub enabled: bool,
    pub max_attempts: u32,
    pub backoff_strategy: BackoffStrategy,
    pub initial_delay: u64,
    pub max_delay: u64,
    /// The backoff multiplier, as the bits of an `f32`.
    pub multiplier_bits: u32,
}

#[derive(Debug, Clone, Copy, PartialEq, Eq, Structural)]
pub enum BackoffStrategy {
    Fixed,
    Exponential,
    Linear,
}

#[derive(Debug, Clone)]
pub struct CacheConfig {
    pub enabled: bool,
    pub ttl: Option<u64>,
    pub max_size: Option<usize>,
    pub redis_url: Option<String>,
}

#[derive(Debug, Clone)]
pub struct SecurityConfig {
    pub auth: AuthConfig,
    pub cors: CorsConfig,
    pub tls: Option<TlsConfig>,
    pub rate_limiting: GlobalRateLimitConfig,
}

#[derive(Debug, Clone)]
pub struct AuthConfig {
    pub enabled: bool,
    pub jwt_secret: Option<String>,
    pub jwt_issuer: Option<String>,
    pub jwt_audience: Option<String>,
    pub jwt_expiration: Option<u64>,
    pub api_key_header: Option<String>,
    /// User name to password (see `AuthConfig::wf`: names are distinct).
    pub basic_auth_users: Option<Vec<(String, String)>>,
}

#[derive(Debug, Clone)]
pub struct CorsConfig {
    pub enabled: bool,
    pub allowed_origins: Vec<String>,
    pub allowed_methods: Vec<String>,
    pub allowed_headers: Vec<String>,
    pub max_age: Option<u64>,
    pub allow_credentials: bool,
}

#[derive(Debug, Clone)]
pub struct TlsConfig {
    pub cert_file: String,
    pub key_file: String,
    pub ca_file: Option<String>,
    pub verify_client: bool,
}

#[derive(Debug, Clone)]
pub struct GlobalRateLimitConfig {
    pub enabled: bool,
    pub requests_per_minute: u32,
    pub burst_size: u32,
    pub key_strategy: RateLimitKeyStrategy,
}

#[derive(Debug, Clone)]
pub struct RateLimitConfig {
    pub requests_per_minute: u32,
    pub burst_size: u32,
    pub key_strategy: RateLimitKeyStrategy,
}

#[derive(Debug, Clone)]
pub enum RateLimitKeyStrategy {
    IpAddress,
    UserId,
    ApiKey,
    Custom(String),
}

#[derive(Debug, Clone)]
pub struct HealthCheckConfig {
    pub enabled: bool,
    pub interval: u64,
    pub timeout: u64,
    pub path: String,
    pub method: String,
    pub expected_status: u16,
    pub healthy_threshold: u32,
    pub unhealthy_threshold: u32,
}

#[derive(Debug, Clone)]
pub struct ConnectionPoolConfig {
    pub max_idle_per_host: Option<usize>,
    pub max_connections_per_host: Option<usize>,
    pub idle_timeout: Option<u64>,
    pub connect_timeout: Option<u64>,
}

#[derive(Debug, Clone)]
pub struct MetricsConfig {
    pub enabled: bool,
    pub host: String,
    pub port: u16,
    pub path: String,
    /// Histogram bucket bounds, as the bits of `f64` values.
    pub histogram_bucket_bits: Option<Vec<u64>>,
    pub push_gateway: Option<PushGatewayConfig>,
}

#[derive(Debug, Clone)]
pub struct PushGatewayConfig {
    pub url: String,
    pub interval: u64,
    pub job_name: String,
    pub instance: Option<String>,
}

#[derive(Debug, Clone)]
pub struct LoggingConfig {
    pub level: String,
    pub format: LogFormat,
    pub output: LogOutput,
    pub file_path: Option<String>,
    pub max_file_size: Option<u64>,
    pub max_files: Option<u32>,
    pub structured: bool,
}

#[derive(Debug, Clone, Copy, PartialEq, Eq, Structural)]
pub enum LogFormat {
    Json,
    Text,
    Pretty,
}

#[derive(Debug, Clone, Copy, PartialEq, Eq, Structural)]
pub enum LogOutput {
    Stdout,
    Stderr,
    File,
    Both,
}

#[derive(Debug, Clone)]
pub struct MiddlewareConfig {
    pub request_id: RequestIdConfig,
    pub compression: CompressionConfig,
    pub timeout: TimeoutConfig,
    pub transform: Vec<TransformConfig>,
}

#[derive(Debug, Clone)]
pub struct RequestIdConfig {
    pub enabled: bool,
    pub header_name: String,
    pub generate_if_missing: bool,
}

#[derive(Debug, Clone)]
pub struct CompressionConfig {
    pub enabled: bool,
    pub algorithms: Vec<String>,
    pub min_size: u32,
}

#[derive(Debug, Clone)]
pub struct TimeoutConfig {
    pub request: Option<u64>,
    pub upstream: Option<u64>,
    pub keepalive: Option<u64>,
}

#[derive(Debug, Clone)]
pub struct TransformConfig {
    pub name: String,
    pub enabled: bool,
    pub config: Vec<(String, JsonValue)>,
}

/// The first server, from position `i` on, whose URL is empty, reported.
pub open spec fn server_problem_from(servers: Seq<UpstreamServer>, i: int) -> Option<Seq<char>>
    decreases servers.len() - i,
{
    if i < 0 || i >= servers.len() {
        None
    } else if servers[i].url@.len() == 0 {
        Some("Server '"@ + servers[i].id@ + "' has empty URL"@)
    } else {
        server_problem_from(servers, i + 1)
    }
}

/// What is wrong with an upstream group, if anything: it has no servers,
/// or one of them has no URL.
pub open spec fn group_problem(name: Seq<char>, group: UpstreamGroup) -> Option<Seq<char>> {
    if group.servers@.len() == 0 {
        Some("Upstream group '"@ + name + "' has no servers"@)
    } else {
        server_problem_from(group.servers@, 0)
    }
}

/// The first problem among the upstream groups from position `i` on.
pub open spec fn groups_problem_from(groups: Seq<(String, UpstreamGroup)>, i: int) -> Option<Seq<char>>
    decreases groups.len() - i,
{
    if i < 0 || i >= groups.len() {
        None
    } else {
        match group_problem(groups[i].0@, groups[i].1) {
            Some(m) => Some(m),
            None => groups_problem_from(groups, i + 1),
        }
    }
}

/// What is wrong with a route, if anything: it has no path, or it names an
/// upstream group that does not exist.
pub open spec fn route_problem(route: RouteConfig, groups: Seq<(String, UpstreamGroup)>) -> Option<Seq<char>> {
    if route.path@.len() == 0 {
        Some("Route '"@ + route.id@ + "' has empty path"@)
    } else if !has_key(named(groups), route.upstream_group@) {
        Some(
            "Route '"@ + route.id@ + "' references unknown upstream group '"@ + route.upstream_group@
                + "'"@,
        )
    } else {
        None
    }
}

/// The first problem among the routes from position `i` on.
pub open spec fn routes_problem_from(
    routes: Seq<RouteConfig>,
    groups: Seq<(String, UpstreamGroup)>,
    i: int,
) -> Option<Seq<char>>
    decreases routes.len() - i,
{
    if i < 0 || i >= routes.len() {
        None
    } else {
        match route_problem(routes[i], groups) {
            Some(m) => Some(m),
            None => routes_problem_from(routes, groups, i + 1),
        }
    }
}

/// The first rule a configuration breaks, checked in this order: the server
/// port, the upstream groups, the routes, and the JWT secret that enabled
/// authentication needs.
pub open spec fn config_problem(c: Config) -> Option<Seq<char>> {
    if c.server.port == 0 {
        Some("Server port cannot be 0"@)
    } else if groups_problem_from(c.upstream.groups@, 0) is Some {
        groups_problem_from(c.upstream.groups@, 0)
    } else if routes_problem_from(c.gateway.routes@, c.upstream.groups@, 0) is Some {
        routes_problem_from(c.gateway.routes@, c.upstream.groups@, 0)
    } else if c.security.auth.enabled && c.security.auth.jwt_secret is None {
        Some("JWT secret is required when authentication is enabled"@)
    } else {
        None
    }
}

/// A `Duration` of `secs` seconds.
pub uninterp spec fn duration_of_secs(secs: u64) -> core::time::Duration;

/// `Duration::from_secs`: the result is determined by the number of seconds.
#[verifier::external_body]
pub(crate) fn secs(n: u64) -> (r: core::time::Duration)
    ensures
        r == duration_of_secs(n),
{
    core::time::Duration::from_secs(n)
}

/// The first server, from position `i` on, that has an empty URL.
fn check_servers(servers: &Vec<UpstreamServer>) -> (r: Result<(), GatewayError>)
    ensures
        match server_problem_from(servers@, 0) {
            None => r is Ok,
            Some(m) => r matches Err(GatewayError::Validation(s)) && s@ == m,
        },
{
    let mut i: usize = 0;
    while i < servers.len()
        invariant
            i <= servers@.len(),
            server_problem_from(servers@, 0) == server_problem_from(servers@, i as int),
        decreases servers@.len() - i,
    {
        if servers[i].url.as_str().is_empty() {
            let msg = String::from_str("Server '").concat(servers[i].id.as_str()).concat(
                "' has empty URL",
            );
            return Err(GatewayError::Validation(msg));
        }
        i = i + 1;
    }
    Ok(())
}

fn check_groups(groups: &Vec<(String, UpstreamGroup)>) -> (r: Result<(), GatewayError>)
    ensures
        match groups_problem_from(groups@, 0) {
            None => r is Ok,
            Some(m) => r matches Err(GatewayError::Validation(s)) && s@ == m,
        },
{
    let mut i: usize = 0;
    while i < groups.len()
        invariant
            i <= groups@.len(),
            groups_problem_from(groups@, 0) == groups_problem_from(groups@, i as int),
        decreases groups@.len() - i,
    {
        let name = groups[i].0.as_str();
        let group = &groups[i].1;
        if group.servers.len() == 0 {
            let msg = String::from_str("Upstream group '").concat(name).concat("' has no servers");
            return Err(GatewayError::Validation(msg));
        }
        match check_servers(&group.servers) {
            Ok(()) => {},
            Err(e) => {
                return Err(e);
            },
        }
        i = i + 1;
    }
    Ok(())
}

fn check_routes(routes: &Vec<RouteConfig>, groups: &Vec<(String, UpstreamGroup)>) -> (r: Result<
    (),
    GatewayError,
>)
    ensures
        match routes_problem_from(routes@, groups@, 0) {
            None => r is Ok,
            Some(m) => r matches Err(GatewayError::Validation(s)) && s@ == m,
        },
{
    let mut i: usize = 0;
    while i < routes.len()
        invariant
            i <= routes@.len(),
            routes_problem_from(routes@, groups@, 0) == routes_problem_from(routes@, groups@, i as int),
        decreases routes@.len() - i,
    {
        let route = &routes[i];
        if route.path.as_str().is_empty() {
            let msg = String::from_str("Route '").concat(route.id.as_str()).concat("' has empty path");
            return Err(GatewayError::Validation(msg));
        }
        let found = find_key(groups, route.upstream_group.as_str());
        if let Some(j) = found {
            assert(named(groups@)[j as int].0 == route.upstream_group@);
        }
        if found.is_none() {
            let msg = String::from_str("Route '").concat(route.id.as_str()).concat(
                "' references unknown upstream group '",
            ).concat(route.upstream_group.as_str()).concat("'");
            return Err(GatewayError::Validation(msg));
        }
        i = i + 1;
    }
    Ok(())
}

/// A map held as a list of named entries, when present, names each key once.
pub open spec fn map_keys_distinct<V>(m: Option<Vec<(String, V)>>) -> bool {
    match m {
        Some(v) => keys_distinct(named(v@)),
        None => true,
    }
}

impl AuthConfig {
    /// The basic-authentication users form a map: no name is listed twice.
    pub open spec fn wf(&self) -> bool {
        map_keys_distinct(self.basic_auth_users)
    }
}

impl Config {
    /// Every map of the configuration names each key once: the upstream
    /// groups, the metadata of each upstream server, the headers of each
    /// route, and the basic-authentication users.
    pub open spec fn wf(&self) -> bool {
        &&& keys_distinct(named(self.upstream.groups@))
        &&& forall|i: int, j: int|
            0 <= i < self.upstream.groups@.len() && 0 <= j < self.upstream.groups@[i].1.servers@.len()
                ==> map_keys_distinct(#[trigger] self.upstream.groups@[i].1.servers@[j].metadata)
        &&& forall|i: int|
            0 <= i < self.gateway.routes@.len() ==> map_keys_distinct(#[trigger] self.gateway.routes@[i].headers)
        &&& self.security.auth.wf()
    }
}

impl Config {
    /// Checks the configuration, and reports the first rule it breaks (see
    /// `config_problem`).
    pub fn validate(&self) -> (r: Result<(), GatewayError>)
        ensures
            match config_problem(*self) {
                None => r is Ok,
                Some(m) => r matches Err(GatewayError::Validation(s)) && s@ == m,
            },
    {
        if self.server.port == 0 {
            return Err(GatewayError::Validation(String::from_str("Server port cannot be 0")));
        }
        match check_groups(&self.upstream.groups) {
            Ok(()) => {},
            Err(e) => {
                return Err(e);
            },
        }
        match check_routes(&self.gateway.routes, &self.upstream.groups) {
            Ok(()) => {},
            Err(e) => {
                return Err(e);
            },
        }
        if self.security.auth.enabled && self.security.auth.jwt_secret.is_none() {
            return Err(
                GatewayError::Validation(
                    String::from_str("JWT secret is required when authentication is enabled"),
                ),
            );
        }
        Ok(())
    }

    /// The request timeout: the configured number of seconds, 30 by default.
    pub fn request_timeout(&self) -> (r: core::time::Duration)
        ensures
            r == duration_of_secs(
                match self.server.request_timeout {
                    Some(t) => t,
                    None => 30,
                },
            ),
    {
        secs(
            match self.server.request_timeout {
                Some(t) => t,
                None => 30,
            },
        )
    }

    /// The keep-alive timeout: the configured number of seconds, 30 by default.
    pub fn keepalive_timeout(&self) -> (r: core::time::Duration)
        ensures
            r == duration_of_secs(
                match self.server.keepalive_timeout {
                    Some(t) => t,
                    None => 30,
                },
            ),
    {
        secs(
            match self.server.keepalive_timeout {
                Some(t) => t,
                None => 30,
            },
        )
    }

    /// The graceful-shutdown timeout: the configured number of seconds, 30 by
    /// default.
    pub fn graceful_shutdown_timeout(&self) -> (r: core::time::Duration)
        ensures
            r == duration_of_secs(
                match self.server.graceful_shutdown_timeout {
                    Some(t) => t,
                    None => 30,
                },
            ),
    {
        secs(
            match self.server.graceful_shutdown_timeout {
                Some(t) => t,
                None => 30,
            },
        )
    }

    /// The interval between health checks.
    pub fn health_check_interval(&self) -> (r: core::time::Duration)
        ensures
            r == duration_of_secs(self.upstream.health_check.interval),
    {
        secs(self.upstream.health_check.interval)
    }

    /// The timeout of one health check.
    pub fn health_check_timeout(&self) -> (r: core::time::Duration)
        ensures
            r == duration_of_secs(self.upstream.health_check.timeout),
    {
        secs(self.upstream.health_check.timeout)
    }

    /// How long an open circuit breaker waits before it tries again.
    pub fn circuit_breaker_recovery_timeout(&self) -> (r: core::time::Duration)
        ensures
            r == duration_of_secs(self.gateway.circuit_breaker.recovery_timeout),
    {
        secs(self.gateway.circuit_breaker.recovery_timeout)
    }

    /// How long cached entries live: the configured number of seconds, 300 by
    /// default.
    pub fn cache_ttl(&self) -> (r: core::time::Duration)
        ensures
            r == duration_of_secs(
                match self.gateway.cache.ttl {
                    Some(t) => t,
                    None => 300,
                },
            ),
    {
        secs(
            match self.gateway.cache.ttl {
                Some(t) => t,
                None => 300,
            },
        )
    }
}

/// The strings of a vector, as character sequences.
pub open spec fn strings(v: Seq<String>) -> Seq<Seq<char>> {
    v.map_values(|x: String| x@)
}

/// The bit patterns of the default histogram buckets: 0.001, 0.005, 0.01,
/// 0.025, 0.05, 0.1, 0.25, 0.5, 1, 2.5, 5 and 10 seconds.
pub open spec fn default_bucket_bits() -> Seq<u64> {
    seq![
        0x3f50624dd2f1a9fcu64,
        0x3f747ae147ae147bu64,
        0x3f847ae147ae147bu64,
        0x3f9999999999999au64,
        0x3fa999999999999au64,
        0x3fb999999999999au64,
        0x3fd0000000000000u64,
        0x3fe0000000000000u64,
        0x3ff0000000000000u64,
        0x4004000000000000u64,
        0x4014000000000000u64,
        0x4024000000000000u64,
    ]
}

/// The default configuration: a development gateway on port 8080 with no
/// routes and no upstream groups, authentication off, CORS open, metrics on
/// port 9090, JSON logs to standard output.
pub open spec fn is_default_config(c: Config) -> bool {
    &&& c.server.host@ == "0.0.0.0"@
    &&& c.server.port == 8080
    &&& c.server.workers is None
    &&& c.server.max_connections == Some(10000usize)
    &&& c.server.keepalive_timeout == Some(30u64)
    &&& c.server.request_timeout == Some(30u64)
    &&& c.server.graceful_shutdown_timeout == Some(30u64)
    &&& c.gateway.name@ == "mcp-gateway"@
    &&& c.gateway.version@ == crate::VERSION@
    &&& c.gateway.environment@ == "development"@
    &&& c.gateway.routes@.len() == 0
    &&& c.gateway.load_balancing.default_strategy == LoadBalancingStrategy::RoundRobin
    &&& !c.gateway.load_balancing.sticky_sessions
    &&& c.gateway.load_balancing.session_cookie_name is None
    &&& c.gateway.circuit_breaker.enabled
    &&& c.gateway.circuit_breaker.failure_threshold == 5
    &&& c.gateway.circuit_breaker.recovery_timeout == 30
    &&& c.gateway.circuit_breaker.min_request_threshold == 10
    &&& c.gateway.circuit_breaker.error_rate_threshold_bits == 0x3f000000
    &&& c.gateway.retry.enabled
    &&& c.gateway.retry.max_attempts == 3
    &&& c.gateway.retry.backoff_strategy == BackoffStrategy::Exponential
    &&& c.gateway.retry.initial_delay == 100
    &&& c.gateway.retry.max_delay == 5000
    &&& c.gateway.retry.multiplier_bits == 0x40000000
    &&& !c.gateway.cache.enabled
    &&& c.gateway.cache.ttl == Some(300u64)
    &&& c.gateway.cache.max_size == Some(1000usize)
    &&& c.gateway.cache.redis_url is None
    &&& c.upstream.groups@.len() == 0
    &&& c.upstream.health_check.enabled
    &&& c.upstream.health_check.interval == 30
    &&& c.upstream.health_check.timeout == 5
    &&& c.upstream.health_check.path@ == "/health"@
    &&& c.upstream.health_check.method@ == "GET"@
    &&& c.upstream.health_check.expected_status == 200
    &&& c.upstream.health_check.healthy_threshold == 2
    &&& c.upstream.health_check.unhealthy_threshold == 3
    &&& c.upstream.connection_pool.max_idle_per_host == Some(32usize)
    &&& c.upstream.connection_pool.max_connections_per_host == Some(128usize)
    &&& c.upstream.connection_pool.idle_timeout == Some(90u64)
    &&& c.upstream.connection_pool.connect_timeout == Some(10u64)
    &&& !c.security.auth.enabled
    &&& c.security.auth.jwt_secret is None
    &&& c.security.auth.jwt_issuer is None
    &&& c.security.auth.jwt_audience is None
    &&& c.security.auth.jwt_expiration == Some(3600u64)
    &&& c.security.auth.api_key_header matches Some(h) && h@ == "X-API-Key"@
    &&& c.security.auth.basic_auth_users is None
    &&& c.security.cors.enabled
    &&& strings(c.security.cors.allowed_origins@) == seq!["*"@]
    &&& strings(c.security.cors.allowed_methods@) == seq!["GET"@, "POST"@, "PUT"@, "DELETE"@]
    &&& strings(c.security.cors.allowed_headers@) == seq!["*"@]
    &&& c.security.cors.max_age == Some(3600u64)
    &&& !c.security.cors.allow_credentials
    &&& c.security.tls is None
    &&& !c.security.rate_limiting.enabled
    &&& c.security.rate_limiting.requests_per_minute == 1000
    &&& c.security.rate_limiting.burst_size == 100
    &&& c.security.rate_limiting.key_strategy is IpAddress
    &&& c.metrics.enabled
    &&& c.metrics.host@ == "0.0.0.0"@
    &&& c.metrics.port == 9090
    &&& c.metrics.path@ == "/metrics"@
    &&& c.metrics.histogram_bucket_bits matches Some(b) && b@ == default_bucket_bits()
    &&& c.metrics.push_gateway is None
    &&& c.logging.level@ == "info"@
    &&& c.logging.format == LogFormat::Json
    &&& c.logging.output == LogOutput::Stdout
    &&& c.logging.file_path is None
    &&& c.logging.max_file_size == Some(104857600u64)
    &&& c.logging.max_files == Some(10u32)
    &&& c.logging.structured
    &&& c.middleware.request_id.enabled
    &&& c.middleware.request_id.header_name@ == "X-Request-ID"@
    &&& c.middleware.request_id.generate_if_missing
    &&& c.middleware.compression.enabled
    &&& strings(c.middleware.compression.algorithms@) == seq!["gzip"@, "deflate"@]
    &&& c.middleware.compression.min_size == 1024
    &&& c.middleware.timeout.request == Some(30u64)
    &&& c.middleware.timeout.upstream == Some(30u64)
    &&& c.middleware.timeout.keepalive == Some(60u64)
    &&& c.middleware.transform@.len() == 0
}

fn string_vec1(a: &str) -> (r: Vec<String>)
    ensures
        strings(r@) == seq![a@],
{
    let mut v: Vec<String> = Vec::new();
    v.push(String::from_str(a));
    assert(strings(v@) =~= seq![a@]);
    v
}

impl Default for Config {
    fn default() -> (r: Self)
        ensures
            is_default_config(r),
            r.wf(),
    {
        let mut methods: Vec<String> = Vec::new();
        methods.push(String::from_str("GET"));
        methods.push(String::from_str("POST"));
        methods.push(String::from_str("PUT"));
        methods.push(String::from_str("DELETE"));
        assert(strings(methods@) =~= seq!["GET"@, "POST"@, "PUT"@, "DELETE"@]);
        let mut algorithms: Vec<String> = Vec::new();
        algorithms.push(String::from_str("gzip"));
        algorithms.push(String::from_str("deflate"));
        assert(strings(algorithms@) =~= seq!["gzip"@, "deflate"@]);
        let mut buckets: Vec<u64> = Vec::new();
        buckets.push(0x3f50624dd2f1a9fc);
        buckets.push(0x3f747ae147ae147b);
        buckets.push(0x3f847ae147ae147b);
        buckets.push(0x3f9999999999999a);
        buckets.push(0x3fa999999999999a);
        buckets.push(0x3fb999999999999a);
        buckets.push(0x3fd0000000000000);
        buckets.push(0x3fe0000000000000);
        buckets.push(0x3ff0000000000000);
        buckets.push(0x4004000000000000);
        buckets.push(0x4014000000000000);
        buckets.push(0x4024000000000000);
        assert(buckets@ =~= default_bucket_bits());
        Config {
            server: ServerConfig {
                host: String::from_str("0.0.0.0"),
                port: 8080,
                workers: None,
                max_connections: Some(10000),
                keepalive_timeout: Some(30),
                request_timeout: Some(30),
                graceful_shutdown_timeout: Some(30),
            },
            gateway: GatewayConfig {
                name: String::from_str("mcp-gateway"),
                version: String::from_str(crate::VERSION),
                environment: String::from_str("development"),
                routes: Vec::new(),
                load_balancing: LoadBalancingConfig {
                    default_strategy: LoadBalancingStrategy::RoundRobin,
                    sticky_sessions: false,
                    session_cookie_name: None,
                },
                circuit_breaker: CircuitBreakerConfig {
                    enabled: true,
                    failure_threshold: 5,
                    recovery_timeout: 30,
                    min_request_threshold: 10,
                    error_rate_threshold_bits: 0x3f000000,
                },
                retry: RetryConfig {
                    enabled: true,
                    max_attempts: 3,
                    backoff_strategy: BackoffStrategy::Exponential,
                    initial_delay: 100,
                    max_delay: 5000,
                    multiplier_bits: 0x40000000,
                },
                cache: CacheConfig { enabled: false, ttl: Some(300), max_size: Some(1000), redis_url: None },
            },
            upstream: UpstreamConfig {
                groups: Vec::new(),
                health_check: HealthCheckConfig {
                    enabled: true,
                    interval: 30,
                    timeout: 5,
                    path: String::from_str("/health"),
                    method: String::from_str("GET"),
                    expected_status: 200,
                    healthy_threshold: 2,
                    unhealthy_threshold: 3,
                },
                connection_pool: ConnectionPoolConfig {
                    max_idle_per_host: Some(32),
                    max_connections_per_host: Some(128),
                    idle_timeout: Some(90),
                    connect_timeout: Some(10),
                },
            },
            security: SecurityConfig {
                auth: AuthConfig {
                    enabled: false,
                    jwt_secret: None,
                    jwt_issuer: None,
                    jwt_audience: None,
                    jwt_expiration: Some(3600),
                    api_key_header: Some(String::from_str("X-API-Key")),
                    basic_auth_users: None,
                },
                cors: CorsConfig {
                    enabled: true,
                    allowed_origins: string_vec1("*"),
                    allowed_methods: methods,
                    allowed_headers: string_vec1("*"),
                    max_age: Some(3600),
                    allow_credentials: false,
                },
                tls: None,
                rate_limiting: GlobalRateLimitConfig {
                    enabled: false,
                    requests_per_minute: 1000,
                    burst_size: 100,
                    key_strategy: RateLimitKeyStrategy::IpAddress,
                },
            },
            metrics: MetricsConfig {
                enabled: true,
                host: String::from_str("0.0.0.0"),
                port: 9090,
                path: String::from_str("/metrics"),
                histogram_bucket_bits: Some(buckets),
                push_gateway: None,
            },
            logging: LoggingConfig {
                level: String::from_str("info"),
                format: LogFormat::Json,
                output: LogOutput::Stdout,
                file_path: None,
                max_file_size: Some(104857600),
                max_files: Some(10),
                structured: true,
            },
            middleware: MiddlewareConfig {
                request_id: RequestIdConfig {
                    enabled: true,
                    header_name: String::from_str("X-Request-ID"),
                    generate_if_missing: true,
                },
                compression: CompressionConfig { enabled: true, algorithms, min_size: 1024 },
                timeout: TimeoutConfig { request: Some(30), upstream: Some(30), keepalive: Some(60) },
                transform: Vec::new(),
            },
        }
    }
}

/// The default configuration is valid.
pub proof fn law_default_config_is_valid(c: Config)
    requires
        is_default_config(c),
    ensures
        config_problem(c) is None,
{
    assert(groups_problem_from(c.upstream.groups@, 0) is None);
    assert(routes_problem_from(c.gateway.routes@, c.upstream.groups@, 0) is None);
}

/// A copy of a list of strings.
pub fn copy_strings(v: &Vec<String>) -> (r: Vec<String>)
    ensures
        r@ == v@,
{
    let mut out: Vec<String> = Vec::new();
    let mut i: usize = 0;
    while i < v.len()
        invariant
            i <= v@.len(),
            out@ == v@.subrange(0, i as int),
        decreases v@.len() - i,
    {
        out.push(v[i].clone());
        assert(out@ =~= v@.subrange(0, i + 1));
        i = i + 1;
    }
    assert(v@.subrange(0, v@.len() as int) =~= v@);
    out
}

/// Two transformation settings that agree: the same name, the same switch
/// and the same JSON settings.
pub open spec fn same_transform(a: TransformConfig, b: TransformConfig) -> bool {
    a.name == b.name && a.enabled == b.enabled && entries_model(a.config@) == entries_model(b.config@)
}

/// Two lists of transformation settings that agree item by item.
pub open spec fn same_transforms(a: Seq<TransformConfig>, b: Seq<TransformConfig>) -> bool {
    a.len() == b.len() && forall|i: int| 0 <= i < a.len() ==> same_transform(#[trigger] a[i], b[i])
}

/// Two middleware configurations that agree.
pub open spec fn same_middleware(a: MiddlewareConfig, b: MiddlewareConfig) -> bool {
    &&& a.request_id == b.request_id
    &&& a.compression.enabled == b.compression.enabled
    &&& a.compression.algorithms@ == b.compression.algorithms@
    &&& a.compression.min_size == b.compression.min_size
    &&& a.timeout == b.timeout
    &&& same_transforms(a.transform@, b.transform@)
}

impl MiddlewareConfig {
    /// A copy of these settings.
    pub fn copy(&self) -> (r: Self)
        ensures
            same_middleware(r, *self),
    {
        let mut transform: Vec<TransformConfig> = Vec::new();
        let mut i: usize = 0;
        while i < self.transform.len()
            invariant
                i <= self.transform@.len(),
                transform@.len() == i,
                forall|j: int| 0 <= j < i ==> same_transform(#[trigger] transform@[j], self.transform@[j]),
            decreases self.transform@.len() - i,
        {
            let t = &self.transform[i];
            transform.push(
                TransformConfig { name: t.name.clone(), enabled: t.enabled, config: copy_entries(&t.config) },
            );
            i = i + 1;
        }
        MiddlewareConfig {
            request_id: RequestIdConfig {
                enabled: self.request_id.enabled,
                header_name: self.request_id.header_name.clone(),
                generate_if_missing: self.request_id.generate_if_missing,
            },
            compression: CompressionConfig {
                enabled: self.compression.enabled,
                algorithms: copy_strings(&self.compression.algorithms),
                min_size: self.compression.min_size,
            },
            timeout: TimeoutConfig {
                request: self.timeout.request,
                upstream: self.timeout.upstream,
                keepalive: self.timeout.keepalive,
            },
            transform,
        }
    }
}

} // verus!
