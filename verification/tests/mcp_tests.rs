use mcp_gateway::error::GatewayError;
use mcp_gateway::json::JsonValue;
use mcp_gateway::mcp::client::{response_result, Channel, ConnectionState, Incoming, McpClient};
use mcp_gateway::mcp::protocol::{validate_message, validate_notification, validate_request, validate_response, McpProtocol};
use mcp_gateway::mcp::server::{
    forward_outcome, ConnectionEvent, DefaultMessageRouter, McpServer, RouteDecision, ServerStep,
};
use mcp_gateway::mcp::transport::{received_line, trim, unix_connect_step, ConnectStep, ParsedUrl, TransportFactory, TransportType};
use mcp_gateway::mcp::{
    error_codes, generate_request_id, is_notification_method, methods, McpError, McpMessage, McpNotification,
    McpRequest, McpResponse, MCP_VERSION,
};

fn text(s: &str) -> JsonValue {
    JsonValue::String(s.to_string())
}

fn object(entries: Vec<(&str, JsonValue)>) -> JsonValue {
    JsonValue::Object(entries.into_iter().map(|(k, v)| (k.to_string(), v)).collect())
}

fn init_params_json() -> JsonValue {
    init_params_json_of("test-client", "1.0.0")
}

fn init_params_json_of(name: &str, version: &str) -> JsonValue {
    object(vec![
        ("capabilities", object(vec![])),
        ("clientInfo", object(vec![("name", text(name)), ("version", text(version))])),
        ("protocolVersion", text(MCP_VERSION)),
    ])
}

fn response_of(message: Option<McpMessage>) -> McpResponse {
    match message {
        Some(McpMessage::Response(resp)) => resp,
        other => panic!("expected a response, got {:?}", other),
    }
}

#[test]
fn test_mcp_error_creation() {
    let error = McpError::tool_not_found("test_tool");
    assert_eq!(error.code, error_codes::TOOL_NOT_FOUND);
    assert!(error.message.contains("test_tool"));
}

#[test]
fn test_generate_request_id() {
    let id1 = generate_request_id();
    let id2 = generate_request_id();
    assert_ne!(id1, id2);
}

#[test]
fn test_notification_method_detection() {
    assert!(is_notification_method("notifications/tools/list_changed"));
    assert!(!is_notification_method("tools/list"));
}

#[test]
fn test_protocol_initialization() {
    let mut protocol = McpProtocol::new("test-gateway".to_string(), "1.0.0".to_string());
    assert!(!protocol.is_initialized());

    let request = McpMessage::new_request(
        generate_request_id(),
        methods::INITIALIZE.to_string(),
        Some(init_params_json()),
    );

    let response = protocol.process_message(request).unwrap();
    assert!(response.is_some());
    assert!(protocol.is_initialized());
}

#[test]
fn test_ping_without_initialization() {
    let mut protocol = McpProtocol::new("test-gateway".to_string(), "1.0.0".to_string());

    let request = McpMessage::new_request(generate_request_id(), methods::PING.to_string(), None);

    let response = protocol.process_message(request).unwrap();
    assert!(response.is_some());

    if let Some(McpMessage::Response(resp)) = response {
        assert!(resp.error.is_some());
    } else {
        panic!("Expected error response");
    }
}

#[test]
fn test_message_validation() {
    let valid_request = McpRequest { id: generate_request_id(), method: "test/method".to_string(), params: None };

    assert!(validate_request(&valid_request).is_ok());

    let invalid_request = McpRequest { id: generate_request_id(), method: "".to_string(), params: None };

    assert!(validate_request(&invalid_request).is_err());
}

#[test]
fn test_response_validation() {
    let valid_response = McpResponse { id: generate_request_id(), result: Some(JsonValue::Null), error: None };

    assert!(validate_response(&valid_response).is_ok());

    let invalid_response = McpResponse {
        id: generate_request_id(),
        result: Some(JsonValue::Null),
        error: Some(McpError::internal_error("test")),
    };

    assert!(validate_response(&invalid_response).is_err());
}

#[test]
fn validation_messages() {
    let r = McpRequest { id: JsonValue::Null, method: methods::TOOLS_CALL.to_string(), params: None };
    match validate_request(&r) {
        Err(GatewayError::McpProtocol(m)) => assert_eq!(m, "Method 'tools/call' requires parameters"),
        other => panic!("{:?}", other),
    }
    let r = McpResponse { id: JsonValue::Null, result: None, error: None };
    match validate_response(&r) {
        Err(GatewayError::McpProtocol(m)) => assert_eq!(m, "Response must have either result or error"),
        other => panic!("{:?}", other),
    }
    let n = McpNotification { method: "tools/list".to_string(), params: None };
    match validate_notification(&n) {
        Err(GatewayError::McpProtocol(m)) => assert_eq!(m, "Invalid notification method: tools/list"),
        other => panic!("{:?}", other),
    }
    let n = McpMessage::new_notification("notifications/prompts/list_changed".to_string(), None);
    assert!(validate_message(&n).is_ok());
}

#[test]
fn protocol_session() {
    let mut protocol = McpProtocol::new("gw".to_string(), "2.0".to_string());
    let tools = McpMessage::new_request(text("1"), methods::TOOLS_LIST.to_string(), None);
    let resp = response_of(protocol.process_message(tools).unwrap());
    assert_eq!(resp.error.unwrap().code, error_codes::INVALID_REQUEST);

    let init = McpMessage::new_request(text("2"), methods::INITIALIZE.to_string(), Some(init_params_json()));
    let resp = response_of(protocol.process_message(init).unwrap());
    let result = resp.result.unwrap();
    match result {
        JsonValue::Object(entries) => {
            let keys: Vec<&str> = entries.iter().map(|(k, _)| k.as_str()).collect();
            assert_eq!(keys, vec!["capabilities", "protocolVersion", "serverInfo"]);
            assert_eq!(entries[1].1, text(MCP_VERSION));
            assert_eq!(entries[2].1, object(vec![("name", text("gw")), ("version", text("2.0"))]));
        },
        other => panic!("{:?}", other),
    }

    let ping = McpMessage::new_request(text("3"), methods::PING.to_string(), None);
    let resp = response_of(protocol.process_message(ping).unwrap());
    assert_eq!(resp.result, Some(object(vec![])));
    assert_eq!(resp.id, text("3"));

    let call = McpMessage::new_request(
        text("4"),
        methods::TOOLS_CALL.to_string(),
        Some(object(vec![("name", text("echo"))])),
    );
    let resp = response_of(protocol.process_message(call).unwrap());
    let expected = object(vec![
        (
            "content",
            JsonValue::Array(vec![object(vec![
                ("text", text("Tool call forwarded to upstream server")),
                ("type", text("text")),
            ])]),
        ),
        ("isError", JsonValue::Bool(false)),
    ]);
    assert_eq!(resp.result, Some(expected));

    let unknown = McpMessage::new_request(text("5"), "nope".to_string(), None);
    let resp = response_of(protocol.process_message(unknown).unwrap());
    let err = resp.error.unwrap();
    assert_eq!(err.code, error_codes::INVALID_REQUEST);
    assert_eq!(err.message, "Invalid request");

    let shutdown = McpMessage::new_request(text("6"), methods::SHUTDOWN.to_string(), None);
    protocol.process_message(shutdown).unwrap();
    assert!(!protocol.is_initialized());

    let note = McpMessage::new_notification("notifications/tools/list_changed".to_string(), None);
    assert!(protocol.process_message(note).unwrap().is_none());
}

#[test]
fn gateway_errors_map_to_mcp_errors() {
    let protocol = McpProtocol::new("gw".to_string(), "1".to_string());
    let e = protocol.gateway_error_to_mcp_error(GatewayError::NotFound("tool:search".to_string()));
    assert_eq!(e.code, error_codes::TOOL_NOT_FOUND);
    assert_eq!(e.message, "Tool 'search' not found");
    let e = protocol.gateway_error_to_mcp_error(GatewayError::NotFound("resource:file:///a".to_string()));
    assert_eq!(e.message, "Resource 'file:///a' not found");
    let e = protocol.gateway_error_to_mcp_error(GatewayError::NotFound("other".to_string()));
    assert_eq!(e.message, "Internal error: Resource not found: other");
    let e = protocol.gateway_error_to_mcp_error(GatewayError::RateLimit);
    assert_eq!(e.code, error_codes::RATE_LIMITED);
    let e = protocol.gateway_error_to_mcp_error(GatewayError::Internal("boom".to_string()));
    assert_eq!(e.message, "Internal error: Internal server error: boom");
}

#[test]
fn test_client_creation() {
    let url = ParsedUrl::parse("ws://localhost:8080").unwrap();
    let client = McpClient::new("test-server".to_string(), url);

    assert_eq!(client.server_id(), "test-server");
    assert!(!client.is_ready());
    assert_eq!(client.connection_state(), ConnectionState::Disconnected);
}

#[test]
fn test_client_state_transitions() {
    let url = ParsedUrl::parse("ws://localhost:8080").unwrap();
    let mut client = McpClient::new("test-server".to_string(), url);

    assert_eq!(client.connection_state(), ConnectionState::Disconnected);

    assert_eq!(client.connect().unwrap(), Some(Channel::WebSocket));

    assert_eq!(client.connection_state(), ConnectionState::Connecting);
}

#[test]
fn client_requests_and_responses() {
    let url = ParsedUrl::parse("http://localhost:9000/mcp").unwrap();
    let mut client = McpClient::new("up".to_string(), url);
    match client.begin_request(methods::PING, None) {
        Err(GatewayError::McpProtocol(m)) => assert_eq!(m, "Client not ready: Disconnected"),
        other => panic!("{:?}", other),
    }
    assert_eq!(client.connect().unwrap(), Some(Channel::Http));
    client.mark_connected();
    let init = client.initialize_request();
    assert_eq!(client.connection_state(), ConnectionState::Initializing);
    let init_id = match &init {
        McpMessage::Request(r) => {
            assert_eq!(r.method, methods::INITIALIZE);
            assert_eq!(r.params, Some(init_params_json_of("mcp-gateway", mcp_gateway::VERSION)));
            r.id.clone()
        },
        other => panic!("{:?}", other),
    };
    let refusal = McpMessage::new_error_response(init_id, McpError::internal_error("nope"));
    let delivered = match client.handle_incoming(refusal) {
        Incoming::Deliver(m) => m,
        other => panic!("{:?}", other),
    };
    match client.finish_initialize(delivered, None) {
        Err(GatewayError::McpProtocol(m)) => assert_eq!(m, "Initialize failed: Internal error: nope"),
        other => panic!("{:?}", other),
    }
    assert_eq!(client.connection_state(), ConnectionState::Initializing);
    client.mark_connected();
    let request = client.begin_request(methods::TOOLS_LIST, None).unwrap();
    let id = match &request {
        McpMessage::Request(r) => r.id.clone(),
        other => panic!("{:?}", other),
    };
    let unrelated = McpMessage::new_response(text("other"), Some(JsonValue::Null));
    assert!(matches!(client.handle_incoming(unrelated), Incoming::Unmatched));
    let answer = McpMessage::new_response(id, Some(object(vec![("tools", JsonValue::Array(vec![]))])));
    match client.handle_incoming(answer) {
        Incoming::Deliver(m) => {
            assert_eq!(response_result(m).unwrap(), object(vec![("tools", JsonValue::Array(vec![]))]))
        },
        other => panic!("{:?}", other),
    }
    client.on_stream_error("reset".to_string());
    match client.begin_request(methods::PING, None) {
        Err(GatewayError::McpProtocol(m)) => assert_eq!(m, "Client not ready: Error(\"reset\")"),
        other => panic!("{:?}", other),
    }
    let bye = client.disconnect();
    assert!(matches!(bye, McpMessage::Notification(ref n) if n.method == "shutdown"));
    assert_eq!(client.connection_state(), ConnectionState::Disconnected);

    let ftp = McpClient::new("x".to_string(), ParsedUrl::parse("ftp://host/").unwrap()).send_channel();
    match ftp {
        Err(GatewayError::McpProtocol(m)) => assert_eq!(m, "Unsupported URL scheme: ftp"),
        other => panic!("{:?}", other),
    }
}

#[test]
fn response_results() {
    let err = McpMessage::new_error_response(text("1"), McpError::invalid_params("x"));
    match response_result(err) {
        Err(GatewayError::McpProtocol(m)) => assert_eq!(m, "Invalid params: x"),
        other => panic!("{:?}", other),
    }
    let empty = McpMessage::new_response(text("1"), None);
    match response_result(empty) {
        Err(GatewayError::McpProtocol(m)) => assert_eq!(m, "Invalid response format"),
        other => panic!("{:?}", other),
    }
}

#[test]
fn test_server_creation() {
    let server = McpServer::new("test-server".to_string());

    assert_eq!(server.connection_count(), 0);
}

#[test]
fn test_connection_info() {
    let server = McpServer::new("test-server".to_string());

    let connections = server.list_connections();
    assert!(connections.is_empty());
}

#[test]
fn test_message_router() {
    let router = DefaultMessageRouter::new();

    let clients = router.list_upstream_clients();
    assert!(clients.is_empty());
}

#[test]
fn server_connection_lifecycle() {
    let mut server = McpServer::new("edge".to_string());
    let id = server.open_connection();
    assert_eq!(id.len(), 36);
    assert_eq!(server.connection_count(), 1);

    let init = McpMessage::new_request(text("1"), methods::INITIALIZE.to_string(), Some(init_params_json()));
    let parsed = Some(Ok(mcp_gateway::mcp::InitializeParams {
        protocol_version: MCP_VERSION.to_string(),
        capabilities: mcp_gateway::mcp::ClientCapabilities { experimental: None, sampling: None },
        client_info: mcp_gateway::mcp::ClientInfo { name: "test-client".to_string(), version: "1.0.0".to_string() },
    }));
    let step = server.on_event(&id, ConnectionEvent::Message { message: init, raw_id: Some(text("1")), init_params: parsed });
    match step {
        ServerStep::Reply(McpMessage::Response(resp)) => assert!(resp.result.is_some()),
        other => panic!("{:?}", other),
    }
    let info = server.get_connection_info(&id).unwrap();
    assert!(info.initialized);
    assert_eq!(info.client_info.unwrap().name, "test-client");

    let ping = McpMessage::new_request(text("2"), methods::PING.to_string(), None);
    match server.on_event(&id, ConnectionEvent::Message { message: ping, raw_id: Some(text("2")), init_params: None }) {
        ServerStep::Reply(McpMessage::Response(resp)) => assert_eq!(resp.result, Some(object(vec![]))),
        other => panic!("{:?}", other),
    }

    let call = McpMessage::new_request(text("3"), methods::TOOLS_LIST.to_string(), None);
    assert!(matches!(
        server.on_event(&id, ConnectionEvent::Message { message: call, raw_id: Some(text("3")), init_params: None }),
        ServerStep::Route(_)
    ));

    let bad = McpMessage::new_request(text("4"), "".to_string(), None);
    match server.on_event(&id, ConnectionEvent::Message { message: bad, raw_id: Some(text("4")), init_params: None }) {
        ServerStep::Reply(McpMessage::Response(resp)) => {
            let e = resp.error.unwrap();
            assert_eq!(e.code, error_codes::INTERNAL_ERROR);
            assert_eq!(e.message, "Internal error: MCP protocol error: Request method cannot be empty");
        },
        other => panic!("{:?}", other),
    }

    match server.on_event(&id, ConnectionEvent::Unparsable) {
        ServerStep::Reply(McpMessage::Response(resp)) => {
            assert_eq!(resp.id, JsonValue::Null);
            assert_eq!(resp.error.unwrap().code, error_codes::PARSE_ERROR);
        },
        other => panic!("{:?}", other),
    }
    assert!(matches!(server.on_event(&id, ConnectionEvent::Ping(vec![1, 2])), ServerStep::Pong(ref d) if d == &vec![1, 2]));
    assert!(matches!(server.on_event(&id, ConnectionEvent::Close), ServerStep::Close));
    assert_eq!(server.connection_count(), 0);
    match server.close_connection(&id) {
        Err(GatewayError::NotFound(m)) => assert_eq!(m, format!("Connection {}", id)),
        other => panic!("{:?}", other),
    }
}

#[test]
fn router_decisions() {
    let mut router = DefaultMessageRouter::new();
    let request = McpMessage::new_request(text("7"), "tools/list".to_string(), None);
    match router.route_message(request, &vec![]) {
        RouteDecision::Reply(McpMessage::Response(resp)) => {
            let e = resp.error.unwrap();
            assert_eq!(e.code, error_codes::METHOD_NOT_FOUND);
            assert_eq!(e.message, "Method 'tools/list' not found");
        },
        other => panic!("{:?}", other),
    }
    router.add_upstream_client("a".to_string());
    router.add_upstream_client("b".to_string());
    router.add_upstream_client("a".to_string());
    assert_eq!(router.list_upstream_clients(), vec!["a".to_string(), "b".to_string()]);
    let request = McpMessage::new_request(text("8"), "tools/list".to_string(), None);
    match router.route_message(request, &vec![true, false]) {
        RouteDecision::Forward { client, request } => {
            assert_eq!(client, "a");
            assert_eq!(request.method, "tools/list");
        },
        other => panic!("{:?}", other),
    }
    let note = McpMessage::new_notification("notifications/x".to_string(), None);
    match router.route_message(note, &vec![false, true]) {
        RouteDecision::Notify { clients, .. } => assert_eq!(clients, vec!["b".to_string()]),
        other => panic!("{:?}", other),
    }
    router.remove_upstream_client("a");
    assert!(!router.has_upstream_client("a"));
    let failed = forward_outcome(text("9"), Err(GatewayError::Timeout("slow".to_string())));
    match failed {
        McpMessage::Response(resp) => {
            let e = resp.error.unwrap();
            assert_eq!(e.code, error_codes::SERVER_ERROR);
            assert_eq!(e.message, "Server error: Timeout error: slow");
        },
        other => panic!("{:?}", other),
    }
}

#[test]
fn test_transport_factory_from_url() {
    let transport = TransportFactory::from_url("ws://localhost:8080").unwrap();
    assert_eq!(transport.transport_type(), TransportType::WebSocket);

    let transport = TransportFactory::from_url("http://localhost:8080").unwrap();
    assert_eq!(transport.transport_type(), TransportType::Http);

    assert!(TransportFactory::from_url("invalid://url").is_err());
}

#[test]
fn test_transport_factory_from_command() {
    let transport = TransportFactory::from_command("echo", Some(vec!["hello".to_string()]));
    assert_eq!(transport.transport_type(), TransportType::Stdio);
}

#[test]
fn transport_details() {
    match TransportFactory::from_url("not a url") {
        Err(GatewayError::McpProtocol(m)) => assert!(m.starts_with("Invalid URL: ")),
        Ok(_) => panic!("accepted"),
        Err(other) => panic!("{:?}", other),
    }
    match TransportFactory::from_url("gopher://x") {
        Err(GatewayError::McpProtocol(m)) => assert_eq!(m, "Unsupported URL scheme: gopher"),
        Ok(_) => panic!("accepted"),
        Err(other) => panic!("{:?}", other),
    }
    let t = TransportFactory::from_url("unix:///tmp/mcp.sock").unwrap();
    assert_eq!(t.transport_type(), TransportType::Unix);
    assert_eq!(t.config.url.as_deref(), Some("unix:///tmp/mcp.sock"));
    assert!(t.check_connected().is_err());
    let mut config = mcp_gateway::mcp::transport::TransportConfig::default();
    config.transport_type = TransportType::Tcp;
    let t = TransportFactory::create_transport(config);
    assert_eq!(t.transport_type(), TransportType::WebSocket);
    assert_eq!(trim("  {\"a\":1}\r\n"), "{\"a\":1}");
    assert_eq!(received_line(" \n"), None);
    assert_eq!(received_line("x\n"), Some("x".to_string()));
}

#[test]
fn closing_an_opened_connection_restores_the_others() {
    let mut server = McpServer::new("s".to_string());
    let a = server.open_connection();
    let before = server.list_connections();
    let b = server.open_connection();
    assert_eq!(server.connection_count(), before.len() + 1);
    server.close_connection(&b).unwrap();
    let after = server.list_connections();
    assert_eq!(after.len(), before.len());
    assert_eq!(after[0].connection_id, a);
    assert!(server.get_connection_info(&b).is_none());
}

#[test]
fn unix_transport_connects_to_the_path_of_its_url() {
    let t = TransportFactory::from_url("unix:///tmp/mcp.sock").unwrap();
    match t.connect_step() {
        Ok(ConnectStep::OpenUnixSocket(p)) => assert_eq!(p, b"/tmp/mcp.sock".to_vec()),
        other => panic!("{:?}", other),
    }
    let raw = TransportFactory::from_url("unix:///tmp/a%FF.sock").unwrap();
    match raw.connect_step() {
        Ok(ConnectStep::OpenUnixSocket(p)) => assert_eq!(p, b"/tmp/a\xFF.sock".to_vec()),
        other => panic!("{:?}", other),
    }
    let remote = TransportFactory::from_url("unix://example.com/mcp.sock").unwrap();
    match remote.connect_step() {
        Err(GatewayError::McpProtocol(m)) => assert_eq!(m, "Valid file path required for Unix transport"),
        other => panic!("{:?}", other),
    }
    match unix_connect_step(None) {
        Err(GatewayError::McpProtocol(m)) => assert_eq!(m, "Valid file path required for Unix transport"),
        other => panic!("{:?}", other),
    }
}

#[test]
fn parsed_urls_choose_the_transport_by_scheme() {
    let t = TransportFactory::from_parsed_url("wss://h/x".to_string(), "wss").unwrap();
    assert_eq!(t.transport_type(), TransportType::WebSocket);
    assert_eq!(t.config.url.as_deref(), Some("wss://h/x"));
    match TransportFactory::from_parsed_url("gopher://h/".to_string(), "gopher") {
        Err(GatewayError::McpProtocol(m)) => assert_eq!(m, "Unsupported URL scheme: gopher"),
        other => panic!("{:?}", other.map(|t| t.transport_type())),
    }
}

#[test]
fn request_ids_are_version_4_uuids() {
    let id = match generate_request_id() {
        JsonValue::String(s) => s,
        other => panic!("{:?}", other),
    };
    let chars: Vec<char> = id.chars().collect();
    assert_eq!(chars.len(), 36);
    for (i, c) in chars.iter().enumerate() {
        if [8, 13, 18, 23].contains(&i) {
            assert_eq!(*c, '-');
        } else {
            assert!(c.is_ascii_hexdigit() && !c.is_ascii_uppercase());
        }
    }
    assert_eq!(chars[14], '4');
    assert!(['8', '9', 'a', 'b'].contains(&chars[19]));
}
