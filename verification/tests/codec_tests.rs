use mcp_gateway::json::JsonValue;
use mcp_gateway::mcp::client::gateway_initialize_params;
use mcp_gateway::mcp::{
    ClientCapabilities, ClientInfo, InitializeParams, PromptsGetParams, PromptsListParams, ResourcesListParams,
    ResourcesReadParams, ToolCallParams, ToolsListParams, MCP_VERSION,
};

fn text(s: &str) -> JsonValue {
    JsonValue::String(s.to_string())
}

fn object(entries: Vec<(&str, JsonValue)>) -> JsonValue {
    JsonValue::Object(entries.into_iter().map(|(k, v)| (k.to_string(), v)).collect())
}

#[test]
fn listing_params_hold_the_cursor_only_when_there_is_one() {
    let with = ToolsListParams { cursor: Some("page-2".to_string()) }.to_json();
    assert_eq!(with, object(vec![("cursor", text("page-2"))]));
    let without = ResourcesListParams { cursor: None }.to_json();
    assert_eq!(without, object(vec![]));
    let prompts = PromptsListParams { cursor: Some("c".to_string()) }.to_json();
    assert_eq!(prompts, object(vec![("cursor", text("c"))]));
}

#[test]
fn tool_call_params_are_written_with_sorted_keys() {
    let args = object(vec![("x", JsonValue::Number("1".to_string()))]);
    let v = ToolCallParams { name: "add".to_string(), arguments: Some(args.clone()) }.to_json();
    assert_eq!(v, object(vec![("arguments", args), ("name", text("add"))]));
    let bare = ToolCallParams { name: "ping".to_string(), arguments: None }.to_json();
    assert_eq!(bare, object(vec![("name", text("ping"))]));
}

#[test]
fn tool_call_params_round_trip() {
    let args = object(vec![("city", text("Paris"))]);
    let written = ToolCallParams { name: "weather".to_string(), arguments: Some(args.clone()) }.to_json();
    let read = ToolCallParams::from_json(&written).unwrap();
    assert_eq!(read.name, "weather");
    assert_eq!(read.arguments, Some(args));
}

#[test]
fn null_tool_arguments_read_back_as_absent() {
    let written = ToolCallParams { name: "t".to_string(), arguments: Some(JsonValue::Null) }.to_json();
    assert_eq!(written, object(vec![("arguments", JsonValue::Null), ("name", text("t"))]));
    let read = ToolCallParams::from_json(&written).unwrap();
    assert_eq!(read.arguments, None);
}

#[test]
fn resources_read_params_round_trip() {
    let written = ResourcesReadParams { uri: "file:///a.txt".to_string() }.to_json();
    assert_eq!(written, object(vec![("uri", text("file:///a.txt"))]));
    let read = ResourcesReadParams::from_json(&written).unwrap();
    assert_eq!(read.uri, "file:///a.txt");
}

#[test]
fn prompts_get_params_round_trip() {
    let p = PromptsGetParams {
        name: "greet".to_string(),
        arguments: Some(vec![("who".to_string(), "world".to_string()), ("how".to_string(), "warmly".to_string())]),
    };
    let written = p.to_json();
    assert_eq!(
        written,
        object(vec![
            ("arguments", object(vec![("who", text("world")), ("how", text("warmly"))])),
            ("name", text("greet")),
        ])
    );
    let read = PromptsGetParams::from_json(&written).unwrap();
    assert_eq!(read.name, "greet");
    assert_eq!(read.arguments, p.arguments);
}

#[test]
fn gateway_introduces_itself() {
    let p = gateway_initialize_params();
    assert_eq!(p.protocol_version, MCP_VERSION);
    assert_eq!(p.client_info.name, "mcp-gateway");
    assert_eq!(p.client_info.version, mcp_gateway::VERSION);
    assert!(p.capabilities.experimental.is_none());
    assert!(p.capabilities.sampling.is_none());
    assert_eq!(
        p.to_json(),
        object(vec![
            ("capabilities", object(vec![])),
            ("clientInfo", object(vec![("name", text("mcp-gateway")), ("version", text(mcp_gateway::VERSION))])),
            ("protocolVersion", text(MCP_VERSION)),
        ])
    );
}

#[test]
fn initialize_params_round_trip() {
    let p = InitializeParams {
        protocol_version: "2024-11-05".to_string(),
        capabilities: ClientCapabilities {
            experimental: Some(vec![("feature".to_string(), JsonValue::Bool(true))]),
            sampling: Some(mcp_gateway::mcp::SamplingCapabilities {}),
        },
        client_info: ClientInfo { name: "c".to_string(), version: "9".to_string() },
    };
    let written = p.to_json();
    let read = InitializeParams::from_json(&written).unwrap();
    assert_eq!(read.protocol_version, "2024-11-05");
    assert_eq!(read.capabilities.experimental, p.capabilities.experimental);
    assert!(read.capabilities.sampling.is_some());
    assert_eq!(read.client_info.name, "c");
    assert_eq!(read.client_info.version, "9");
}
