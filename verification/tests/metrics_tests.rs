use mcp_gateway::config::Config;
use mcp_gateway::metrics::{histogram_buckets, metric_catalog, MetricKind, MetricsState};

#[test]
fn test_health_check_recording() {
    let mut state = MetricsState::new();

    state.record_health_check_success("server1", 1_700_000_000);
    state.record_health_check_failure("server2", 1_700_000_001);

    let server_metrics = state.get_server_metrics("server1");
    assert!(server_metrics.is_some());
    assert_eq!(server_metrics.unwrap().health_checks_success, 1);
    let other = state.get_server_metrics("server2").unwrap();
    assert_eq!(other.health_checks_total, 1);
    assert_eq!(other.health_checks_success, 0);
    assert_eq!(other.last_health_check, Some(1_700_000_001));
}

#[test]
fn test_gateway_metrics() {
    let state = MetricsState::new();

    let totals = state.gateway_totals();
    assert_eq!(totals.total_requests, 0);
    assert_eq!(totals.upstream_servers, 0);
}

#[test]
fn catalogue_of_metrics() {
    let catalog = metric_catalog();
    assert_eq!(catalog.len(), 18);
    assert_eq!(catalog[0].name, "mcp_gateway_requests_total");
    assert_eq!(catalog[0].labels, vec!["method", "status", "route"]);
    assert_eq!(catalog[4].kind, MetricKind::IntCounter);
    assert!(catalog.iter().any(|m| m.name == "mcp_gateway_connections_total"));
    let config = Config::default();
    assert_eq!(histogram_buckets(&config.metrics).len(), 12);
}

#[test]
fn repeated_checks_accumulate() {
    let mut state = MetricsState::new();
    state.record_health_check_success("s", 1);
    state.record_health_check_success("s", 2);
    state.record_health_check_failure("s", 3);
    let m = state.get_server_metrics("s").unwrap();
    assert_eq!(m.health_checks_total, 3);
    assert_eq!(m.health_checks_success, 2);
    assert_eq!(state.get_all_server_metrics().len(), 1);
    state.reset_metrics();
    assert!(state.get_server_metrics("s").is_none());
}
