use mcp_gateway::config::{Config, LoadBalancingStrategy, RouteConfig, UpstreamGroup, UpstreamServer};
use mcp_gateway::error::GatewayError;
use std::time::Duration;

fn validation_message(config: &Config) -> Option<String> {
    match config.validate() {
        Ok(()) => None,
        Err(GatewayError::Validation(m)) => Some(m),
        Err(other) => panic!("unexpected error {:?}", other),
    }
}

fn server(id: &str, url: &str) -> UpstreamServer {
    UpstreamServer {
        id: id.to_string(),
        url: url.to_string(),
        weight: None,
        max_requests: None,
        backup: false,
        metadata: None,
    }
}

fn group(servers: Vec<UpstreamServer>) -> UpstreamGroup {
    UpstreamGroup { servers, strategy: LoadBalancingStrategy::RoundRobin, health_check_override: None }
}

fn route(id: &str, path: &str, upstream_group: &str) -> RouteConfig {
    RouteConfig {
        id: id.to_string(),
        path: path.to_string(),
        method: None,
        upstream_group: upstream_group.to_string(),
        timeout: None,
        rate_limit: None,
        auth_required: false,
        transform: None,
        headers: None,
    }
}

#[test]
fn test_default_config() {
    let config = Config::default();
    assert!(config.validate().is_ok());
}

#[test]
fn test_validation_errors() {
    let mut config = Config::default();

    config.server.port = 0;
    assert!(config.validate().is_err());

    config = Config::default();
    config.upstream.groups.push(("empty".to_string(), group(vec![])));
    assert!(config.validate().is_err());
}

#[test]
fn default_config_values() {
    let config = Config::default();
    assert_eq!(config.server.host, "0.0.0.0");
    assert_eq!(config.server.port, 8080);
    assert_eq!(config.gateway.name, "mcp-gateway");
    assert_eq!(config.gateway.version, "0.1.0");
    assert_eq!(config.gateway.retry.multiplier_bits, 2.0f32.to_bits());
    assert_eq!(config.gateway.circuit_breaker.error_rate_threshold_bits, 0.5f32.to_bits());
    let expected: Vec<u64> = [0.001f64, 0.005, 0.01, 0.025, 0.05, 0.1, 0.25, 0.5, 1.0, 2.5, 5.0, 10.0]
        .iter()
        .map(|b| b.to_bits())
        .collect();
    assert_eq!(config.metrics.histogram_bucket_bits, Some(expected));
    assert_eq!(config.security.cors.allowed_methods, vec!["GET", "POST", "PUT", "DELETE"]);
    assert_eq!(config.logging.max_file_size, Some(100 * 1024 * 1024));
}

#[test]
fn validation_messages_in_order() {
    let mut config = Config::default();
    config.server.port = 0;
    config.security.auth.enabled = true;
    assert_eq!(validation_message(&config), Some("Server port cannot be 0".to_string()));

    let mut config = Config::default();
    config.upstream.groups.push(("empty".to_string(), group(vec![])));
    assert_eq!(validation_message(&config), Some("Upstream group 'empty' has no servers".to_string()));

    let mut config = Config::default();
    config.upstream.groups.push(("g".to_string(), group(vec![server("a", "http://a"), server("b", "")])));
    assert_eq!(validation_message(&config), Some("Server 'b' has empty URL".to_string()));

    let mut config = Config::default();
    config.upstream.groups.push(("g".to_string(), group(vec![server("a", "http://a")])));
    config.gateway.routes.push(route("r1", "/api", "g"));
    assert_eq!(validation_message(&config), None);
    config.gateway.routes.push(route("r2", "", "g"));
    assert_eq!(validation_message(&config), Some("Route 'r2' has empty path".to_string()));

    let mut config = Config::default();
    config.gateway.routes.push(route("r3", "/x", "missing"));
    assert_eq!(
        validation_message(&config),
        Some("Route 'r3' references unknown upstream group 'missing'".to_string())
    );

    let mut config = Config::default();
    config.security.auth.enabled = true;
    assert_eq!(
        validation_message(&config),
        Some("JWT secret is required when authentication is enabled".to_string())
    );
    config.security.auth.jwt_secret = Some("secret".to_string());
    assert_eq!(validation_message(&config), None);
}

#[test]
fn timeouts_and_their_defaults() {
    let mut config = Config::default();
    assert_eq!(config.request_timeout(), Duration::from_secs(30));
    assert_eq!(config.health_check_interval(), Duration::from_secs(30));
    assert_eq!(config.health_check_timeout(), Duration::from_secs(5));
    assert_eq!(config.cache_ttl(), Duration::from_secs(300));
    config.server.request_timeout = None;
    config.gateway.cache.ttl = None;
    config.server.keepalive_timeout = Some(7);
    assert_eq!(config.request_timeout(), Duration::from_secs(30));
    assert_eq!(config.cache_ttl(), Duration::from_secs(300));
    assert_eq!(config.keepalive_timeout(), Duration::from_secs(7));
    assert_eq!(config.graceful_shutdown_timeout(), Duration::from_secs(30));
    assert_eq!(config.circuit_breaker_recovery_timeout(), Duration::from_secs(30));
}
