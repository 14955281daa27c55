use mcp_gateway::error::GatewayError;
use mcp_gateway::gateway::{health_check, list_connections, liveness_check, probe_body, readiness_check, status_check};
use mcp_gateway::text::decimal_text;
use mcp_gateway::json::JsonValue;

fn field<'a>(v: &'a JsonValue, key: &str) -> &'a JsonValue {
    match v {
        JsonValue::Object(entries) => &entries.iter().find(|(k, _)| k == key).unwrap().1,
        other => panic!("not an object: {:?}", other),
    }
}

fn text(s: &str) -> JsonValue {
    JsonValue::String(s.to_string())
}

#[test]
fn test_health_check() {
    let json = health_check("2024-01-01T00:00:00+00:00");
    assert_eq!(field(&json, "status"), &text("healthy"));
    assert_eq!(field(&json, "service"), &text("mcp-gateway"));
    assert_eq!(field(&json, "version"), &text("0.1.0"));
}

#[test]
fn test_readiness_check() {
    let json = readiness_check("t");
    assert_eq!(field(&json, "status"), &text("ready"));
}

#[test]
fn test_liveness_check() {
    let json = liveness_check("t");
    assert_eq!(field(&json, "status"), &text("alive"));
}

#[test]
fn probe_body_keys_are_sorted() {
    match probe_body("x", "t") {
        JsonValue::Object(entries) => {
            let keys: Vec<&str> = entries.iter().map(|(k, _)| k.as_str()).collect();
            assert_eq!(keys, vec!["service", "status", "timestamp", "version"]);
        },
        other => panic!("{:?}", other),
    }
}

#[test]
fn error_response_bodies() {
    let e = GatewayError::NotFound("Connection abc".to_string());
    assert_eq!(e.status_code(), 404);
    assert_eq!(e.error_code(), "NOT_FOUND");
    let body = e.response_body("t");
    let inner = field(&body, "error");
    assert_eq!(field(inner, "code"), &text("NOT_FOUND"));
    assert_eq!(field(inner, "message"), &text("Resource not found: Connection abc"));
    assert_eq!(field(inner, "timestamp"), &text("t"));
    assert_eq!(GatewayError::RateLimit.status_code(), 429);
    assert_eq!(GatewayError::RateLimit.message(), "Rate limit exceeded");
}

fn number(s: &str) -> JsonValue {
    JsonValue::Number(s.to_string())
}

#[test]
fn status_reports_the_clock_and_fixed_figures() {
    let json = status_check(1_700_000_000);
    let keys: Vec<&str> = match &json {
        JsonValue::Object(entries) => entries.iter().map(|(k, _)| k.as_str()).collect(),
        other => panic!("not an object: {:?}", other),
    };
    assert_eq!(
        keys,
        vec![
            "active_connections",
            "health_check_enabled",
            "healthy_upstreams",
            "metrics_enabled",
            "upstream_servers",
            "uptime",
            "version"
        ]
    );
    assert_eq!(field(&json, "uptime"), &number("1700000000"));
    assert_eq!(field(&json, "upstream_servers"), &number("0"));
    assert_eq!(field(&json, "metrics_enabled"), &JsonValue::Bool(true));
    assert_eq!(field(&json, "version"), &text("0.1.0"));
}

#[test]
fn connection_list_is_empty() {
    assert_eq!(field(&list_connections(), "connections"), &JsonValue::Array(vec![]));
}

#[test]
fn decimal_notation() {
    assert_eq!(decimal_text(0), "0");
    assert_eq!(decimal_text(7), "7");
    assert_eq!(decimal_text(10), "10");
    assert_eq!(decimal_text(1234567890), "1234567890");
    assert_eq!(decimal_text(u64::MAX), "18446744073709551615");
}
