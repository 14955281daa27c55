use mcp_gateway::config::{CompressionConfig, MiddlewareConfig, RequestIdConfig, TimeoutConfig};
use mcp_gateway::middleware::{security_headers, MiddlewareLayer, MiddlewareStack};

fn create_test_config() -> MiddlewareConfig {
    MiddlewareConfig {
        request_id: RequestIdConfig {
            enabled: true,
            header_name: "X-Request-ID".to_string(),
            generate_if_missing: true,
        },
        compression: CompressionConfig { enabled: true, algorithms: vec!["gzip".to_string()], min_size: 1024 },
        timeout: TimeoutConfig { request: Some(30), upstream: Some(30), keepalive: Some(60) },
        transform: vec![],
    }
}

#[test]
fn test_middleware_stack_creation() {
    let config = create_test_config();
    let stack = MiddlewareStack::new(&config);
    assert!(stack.config.request_id.enabled);
    assert!(stack.config.compression.enabled);
}

#[test]
fn layer_plan_follows_configuration() {
    let config = create_test_config();
    let stack = MiddlewareStack::new(&config);
    assert_eq!(
        stack.apply(),
        vec![
            MiddlewareLayer::SetRequestId,
            MiddlewareLayer::PropagateRequestId,
            MiddlewareLayer::Timeout(30),
            MiddlewareLayer::Compression,
            MiddlewareLayer::Trace,
        ]
    );
    assert!(stack.with_auth());
    let mut config = create_test_config();
    config.request_id.enabled = false;
    config.timeout.request = None;
    config.compression.enabled = false;
    let stack = MiddlewareStack::new(&config);
    assert_eq!(stack.apply(), vec![MiddlewareLayer::Trace]);
    assert!(!stack.with_auth());
}

#[test]
fn security_header_values() {
    let headers = security_headers();
    assert_eq!(headers.len(), 4);
    assert_eq!(headers[0], ("X-Content-Type-Options".to_string(), "nosniff".to_string()));
    assert_eq!(headers[3], ("Referrer-Policy".to_string(), "strict-origin-when-cross-origin".to_string()));
}
