use mcp_gateway::config::HealthCheckConfig;
use mcp_gateway::health::{HealthChecker, HealthStatus, ServerHealthState};

fn create_test_config() -> HealthCheckConfig {
    HealthCheckConfig {
        enabled: true,
        interval: 5,
        timeout: 3,
        path: "/health".to_string(),
        method: "ping".to_string(),
        expected_status: 200,
        healthy_threshold: 2,
        unhealthy_threshold: 3,
    }
}

const MILLI: u128 = 1_000_000;

#[test]
fn test_health_checker_creation() {
    let config = create_test_config();
    let checker: HealthChecker<(), u64> = HealthChecker::new(config);

    assert!(checker.config().enabled);
    assert_eq!(checker.config().interval, 5);
    assert_eq!(checker.healthy_server_count(), 0);
}

#[test]
fn test_server_health_state() {
    let mut state: ServerHealthState<u64> = ServerHealthState::default();

    assert_eq!(state.status, HealthStatus::Unknown);
    assert_eq!(state.total_checks, 0);

    state.record_success(1, 100 * MILLI);
    assert_eq!(state.total_checks, 1);
    assert_eq!(state.total_successes, 1);
    assert_eq!(state.consecutive_successes, 1);

    state.record_failure(2);
    assert_eq!(state.total_checks, 2);
    assert_eq!(state.total_failures, 1);
    assert_eq!(state.consecutive_failures, 1);
    assert_eq!(state.consecutive_successes, 0);
}

#[test]
fn test_health_stats_conversion() {
    let mut state: ServerHealthState<u64> = ServerHealthState::default();

    state.record_success(1, 100 * MILLI);
    state.record_success(2, 150 * MILLI);
    state.record_failure(3);

    assert_eq!(state.total_checks, 3);
    assert_eq!(state.total_successes, 2);
    assert_eq!(state.total_failures, 1);
    assert_eq!(state.consecutive_failures, 1);
    let uptime_percentage = state.total_successes as f64 / state.total_checks as f64 * 100.0;
    assert!((uptime_percentage - 66.67).abs() < 0.1);
    let average_response_time_ms =
        state.total_response_time_millis() as f64 / state.response_times.len() as f64;
    assert!((average_response_time_ms - 125.0).abs() < 0.1);
}

#[test]
fn test_health_status_equality() {
    assert_eq!(HealthStatus::Healthy, HealthStatus::Healthy);
    assert_eq!(HealthStatus::Unhealthy, HealthStatus::Unhealthy);
    assert_eq!(HealthStatus::Unknown, HealthStatus::Unknown);

    assert_ne!(HealthStatus::Healthy, HealthStatus::Unhealthy);
    assert_ne!(HealthStatus::Healthy, HealthStatus::Unknown);
    assert_ne!(HealthStatus::Unhealthy, HealthStatus::Unknown);
}

#[test]
fn thresholds_move_the_status() {
    let mut state: ServerHealthState<u64> = ServerHealthState::default();
    state.apply_check(1, Some(5 * MILLI), 2, 3);
    assert_eq!(state.status, HealthStatus::Unknown);
    state.apply_check(2, Some(5 * MILLI), 2, 3);
    assert_eq!(state.status, HealthStatus::Healthy);
    state.apply_check(3, None, 2, 3);
    state.apply_check(4, None, 2, 3);
    assert_eq!(state.status, HealthStatus::Healthy);
    state.apply_check(5, None, 2, 3);
    assert_eq!(state.status, HealthStatus::Unhealthy);
    assert_eq!(state.total_checks, 5);
    assert_eq!(state.first_check, Some(1));
    assert_eq!(state.last_failure, Some(5));
    assert_eq!(state.last_success, Some(2));
}

#[test]
fn response_window_keeps_the_latest_hundred() {
    let mut state: ServerHealthState<u64> = ServerHealthState::default();
    for i in 0..105u64 {
        state.record_success(i, (i as u128 + 1) * MILLI);
    }
    assert_eq!(state.response_times.len(), 100);
    assert_eq!(state.response_times[0], 6 * MILLI);
    assert_eq!(state.total_response_time_millis(), (6..=105u128).sum::<u128>());
}

#[test]
fn checker_tracks_servers() {
    let mut checker: HealthChecker<&str, u64> = HealthChecker::new(create_test_config());
    checker.add_server("a".to_string(), "client-a");
    checker.add_server("b".to_string(), "client-b");
    assert_eq!(checker.server_ids(), vec!["a".to_string(), "b".to_string()]);
    assert!(!checker.overall_health());
    checker.record_check_result("a", 1, Some(MILLI));
    checker.record_check_result("a", 2, Some(MILLI));
    assert!(checker.is_server_healthy("a"));
    assert_eq!(checker.get_healthy_servers(), vec!["a".to_string()]);
    assert_eq!(checker.healthy_server_count(), 1);
    for t in 3..6 {
        checker.record_check_result("b", t, None);
    }
    assert_eq!(checker.get_unhealthy_servers(), vec!["b".to_string()]);
    assert!(checker.overall_health());
    assert_eq!(checker.get_client("b"), Some(&"client-b"));
    assert!(checker.force_check_target("zzz").is_err());
    checker.remove_server("a");
    assert_eq!(checker.server_ids(), vec!["b".to_string()]);
    assert!(!checker.is_server_healthy("a"));
}

#[test]
fn recording_checks_keeps_the_whole_history() {
    let mut checker: HealthChecker<(), u64> = HealthChecker::new(create_test_config());
    checker.record_check_result("s", 10, Some(3 * MILLI));
    checker.record_check_result("s", 20, None);
    checker.record_check_result("s", 30, Some(5 * MILLI));
    let st = checker.get_server_state("s").unwrap();
    assert_eq!(st.first_check, Some(10));
    assert_eq!(st.last_check, Some(30));
    assert_eq!(st.last_success, Some(30));
    assert_eq!(st.last_failure, Some(20));
    assert_eq!(st.response_times, vec![3 * MILLI, 5 * MILLI]);
    assert_eq!(st.total_checks, 3);
    assert_eq!(st.consecutive_successes, 1);
}

#[test]
fn response_window_drops_only_the_oldest() {
    let mut state: ServerHealthState<u64> = ServerHealthState::default();
    for i in 0..100u64 {
        state.record_success(i, i as u128);
    }
    assert_eq!(state.response_times.len(), 100);
    state.record_success(100, 999);
    assert_eq!(state.response_times.len(), 100);
    assert_eq!(state.response_times[0], 1);
    assert_eq!(state.response_times[99], 999);
}
