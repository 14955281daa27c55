//! The Model Context Protocol: JSON-RPC messages, the MCP request and
//! result types, error constructors, and the protocol state machine.
use vstd::prelude::*;

pub mod client;
pub mod codec;
pub mod error_codes;
pub mod methods;
pub mod protocol;
pub mod server;
pub mod transport;

use crate::json::JsonValue;
use crate::text::{is_prefix, starts_with};

verus! {

/// JSON-RPC version.
pub const JSONRPC_VERSION: &'static str = "2.0";

/// MCP protocol version.
pub const MCP_VERSION: &'static str = "2024-11-05";

/// A JSON-RPC message.
#[derive(Debug, Clone)]
pub enum McpMessage {
    Request(McpRequest),
    Response(McpResponse),
    Notification(McpNotification),
}

#[derive(Debug, Clone)]
pub struct McpRequest {
    pub id: JsonValue,
    pub method: String,
    pub params: Option<JsonValue>,
}

#[derive(Debug, Clone)]
pub struct McpResponse {
    pub id: JsonValue,
    pub result: Option<JsonValue>,
    pub error: Option<McpError>,
}

#[derive(Debug, Clone)]
pub struct McpNotification {
    pub method: String,
    pub params: Option<JsonValue>,
}

#[derive(Debug, Clone)]
pub struct McpError {
    pub code: i32,
    pub message: String,
    pub data: Option<JsonValue>,
}

/// Initialize request parameters.
#[derive(Debug, Clone)]
pub struct InitializeParams {
    pub protocol_version: String,
    pub capabilities: ClientCapabilities,
    pub client_info: ClientInfo,
}

#[derive(Debug, Clone)]
pub struct ClientCapabilities {
    pub experimental: Option<Vec<(String, JsonValue)>>,
    pub sampling: Option<SamplingCapabilities>,
}

#[derive(Debug, Clone)]
pub struct SamplingCapabilities {}

#[derive(Debug, Clone)]
pub struct ClientInfo {
    pub name: String,
    pub version: String,
}

/// Initialize response.
#[derive(Debug, Clone)]
pub struct InitializeResult {
    pub protocol_version: String,
    pub capabilities: ServerCapabilities,
    pub server_info: ServerInfo,
}

#[derive(Debug, Clone)]
pub struct ServerCapabilities {
    pub experimental: Option<Vec<(String, JsonValue)>>,
    pub logging: Option<LoggingCapabilities>,
    pub prompts: Option<PromptsCapabilities>,
    pub resources: Option<ResourcesCapabilities>,
    pub tools: Option<ToolsCapabilities>,
}

#[derive(Debug, Clone)]
pub struct LoggingCapabilities {}

#[derive(Debug, Clone)]
pub struct PromptsCapabilities {
    pub list_changed: Option<bool>,
}

#[derive(Debug, Clone)]
pub struct ResourcesCapabilities {
    pub list_changed: Option<bool>,
    pub subscribe: Option<bool>,
}

#[derive(Debug, Clone)]
pub struct ToolsCapabilities {
    pub list_changed: Option<bool>,
}

#[derive(Debug, Clone)]
pub struct ServerInfo {
    pub name: String,
    pub version: String,
}

/// A tool offered by a server.
#[derive(Debug, Clone)]
pub struct Tool {
    pub name: String,
    pub description: Option<String>,
    pub input_schema: JsonValue,
}

#[derive(Debug, Clone)]
pub struct ToolsListParams {
    pub cursor: Option<String>,
}

#[derive(Debug, Clone)]
pub struct ToolsListResult {
    pub tools: Vec<Tool>,
    pub next_cursor: Option<String>,
}

#[derive(Debug, Clone)]
pub struct ToolCallParams {
    pub name: String,
    pub arguments: Option<JsonValue>,
}

#[derive(Debug, Clone)]
pub struct ToolCallResult {
    pub content: Vec<ToolContent>,
    pub is_error: Option<bool>,
}

#[derive(Debug, Clone)]
pub enum ToolContent {
    Text { text: String },
    Image { data: String, mime_type: String },
    Resource { resource: ResourceReference },
}

/// A resource offered by a server.
#[derive(Debug, Clone)]
pub struct Resource {
    pub uri: String,
    pub name: String,
    pub description: Option<String>,
    pub mime_type: Option<String>,
}

#[derive(Debug, Clone)]
pub struct ResourceReference {
    pub uri: String,
    pub resource_type: String,
}

#[derive(Debug, Clone)]
pub struct ResourcesListParams {
    pub cursor: Option<String>,
}

#[derive(Debug, Clone)]
pub struct ResourcesListResult {
    pub resources: Vec<Resource>,
    pub next_cursor: Option<String>,
}

#[derive(Debug, Clone)]
pub struct ResourcesReadParams {
    pub uri: String,
}

#[derive(Debug, Clone)]
pub struct ResourcesReadResult {
    pub contents: Vec<ResourceContent>,
}

#[derive(Debug, Clone)]
pub enum ResourceContent {
    Text { uri: String, text: String, mime_type: Option<String> },
    Blob { uri: String, blob: String, mime_type: Option<String> },
}

/// A prompt offered by a server.
#[derive(Debug, Clone)]
pub struct Prompt {
    pub name: String,
    pub description: Option<String>,
    pub arguments: Option<Vec<PromptArgument>>,
}

#[derive(Debug, Clone)]
pub struct PromptArgument {
    pub name: String,
    pub description: Option<String>,
    pub required: Option<bool>,
}

#[derive(Debug, Clone)]
pub struct PromptsListParams {
    pub cursor: Option<String>,
}

#[derive(Debug, Clone)]
pub struct PromptsListResult {
    pub prompts: Vec<Prompt>,
    pub next_cursor: Option<String>,
}

#[derive(Debug, Clone)]
pub struct PromptsGetParams {
    pub name: String,
    pub arguments: Option<Vec<(String, String)>>,
}

#[derive(Debug, Clone)]
pub struct PromptsGetResult {
    pub description: Option<String>,
    pub messages: Vec<PromptMessage>,
}

#[derive(Debug, Clone)]
pub struct PromptMessage {
    pub role: PromptRole,
    pub content: PromptContent,
}

#[derive(Debug, Clone, Copy, PartialEq, Eq, Structural)]
pub enum PromptRole {
    User,
    Assistant,
    System,
}

#[derive(Debug, Clone)]
pub enum PromptContent {
    Text { text: String },
    Image { data: String, mime_type: String },
    Resource { resource: ResourceReference },
}

impl McpMessage {
    pub fn new_request(id: JsonValue, method: String, params: Option<JsonValue>) -> (r: Self)
        ensures
            r == McpMessage::Request(McpRequest { id, method, params }),
    {
        McpMessage::Request(McpRequest { id, method, params })
    }

    pub fn new_response(id: JsonValue, result: Option<JsonValue>) -> (r: Self)
        ensures
            r == McpMessage::Response(McpResponse { id, result, error: None }),
    {
        McpMessage::Response(McpResponse { id, result, error: None })
    }

    pub fn new_error_response(id: JsonValue, error: McpError) -> (r: Self)
        ensures
            r == McpMessage::Response(McpResponse { id, result: None, error: Some(error) }),
    {
        McpMessage::Response(McpResponse { id, result: None, error: Some(error) })
    }

    pub fn new_notification(method: String, params: Option<JsonValue>) -> (r: Self)
        ensures
            r == McpMessage::Notification(McpNotification { method, params }),
    {
        McpMessage::Notification(McpNotification { method, params })
    }

    pub fn is_request(&self) -> (r: bool)
        ensures
            r == (*self is Request),
    {
        match self {
            McpMessage::Request(_) => true,
            _ => false,
        }
    }

    pub fn is_response(&self) -> (r: bool)
        ensures
            r == (*self is Response),
    {
        match self {
            McpMessage::Response(_) => true,
            _ => false,
        }
    }

    pub fn is_notification(&self) -> (r: bool)
        ensures
            r == (*self is Notification),
    {
        match self {
            McpMessage::Notification(_) => true,
            _ => false,
        }
    }

    /// The method of a request or notification.
    pub fn method(&self) -> (r: Option<&str>)
        ensures
            match *self {
                McpMessage::Request(req) => r matches Some(m) && m@ == req.method@,
                McpMessage::Notification(n) => r matches Some(m) && m@ == n.method@,
                McpMessage::Response(_) => r is None,
            },
    {
        match self {
            McpMessage::Request(req) => Some(req.method.as_str()),
            McpMessage::Notification(notif) => Some(notif.method.as_str()),
            _ => None,
        }
    }

    /// The id of a request or response.
    pub fn id(&self) -> (r: Option<&JsonValue>)
        ensures
            match *self {
                McpMessage::Request(req) => r == Some(&req.id),
                McpMessage::Response(resp) => r == Some(&resp.id),
                McpMessage::Notification(_) => r is None,
            },
    {
        match self {
            McpMessage::Request(req) => Some(&req.id),
            McpMessage::Response(resp) => Some(&resp.id),
            _ => None,
        }
    }
}

/// An error whose code is `code` and whose message is `message`.
pub open spec fn error_is(e: McpError, code: i32, message: Seq<char>) -> bool {
    e.code == code && e.message@ == message && e.data is None
}

/// `a` + `b` + `c` as one string.
fn join3(a: &str, b: &str, c: &str) -> (r: String)
    ensures
        r@ == a@ + b@ + c@,
{
    String::from_str(a).concat(b).concat(c)
}

impl McpError {
    pub fn new(code: i32, message: String) -> (r: Self)
        ensures
            r == (McpError { code, message, data: None }),
    {
        McpError { code, message, data: None }
    }

    pub fn with_data(code: i32, message: String, data: JsonValue) -> (r: Self)
        ensures
            r == (McpError { code, message, data: Some(data) }),
    {
        McpError { code, message, data: Some(data) }
    }

    pub fn parse_error() -> (r: Self)
        ensures
            error_is(r, error_codes::PARSE_ERROR, "Parse error"@),
    {
        Self::new(error_codes::PARSE_ERROR, String::from_str("Parse error"))
    }

    pub fn invalid_request() -> (r: Self)
        ensures
            error_is(r, error_codes::INVALID_REQUEST, "Invalid request"@),
    {
        Self::new(error_codes::INVALID_REQUEST, String::from_str("Invalid request"))
    }

    pub fn method_not_found(method: &str) -> (r: Self)
        ensures
            error_is(r, error_codes::METHOD_NOT_FOUND, "Method '"@ + method@ + "' not found"@),
    {
        Self::new(error_codes::METHOD_NOT_FOUND, join3("Method '", method, "' not found"))
    }

    pub fn invalid_params(message: &str) -> (r: Self)
        ensures
            error_is(r, error_codes::INVALID_PARAMS, "Invalid params: "@ + message@),
    {
        Self::new(error_codes::INVALID_PARAMS, String::from_str("Invalid params: ").concat(message))
    }

    pub fn internal_error(message: &str) -> (r: Self)
        ensures
            error_is(r, error_codes::INTERNAL_ERROR, "Internal error: "@ + message@),
    {
        Self::new(error_codes::INTERNAL_ERROR, String::from_str("Internal error: ").concat(message))
    }

    pub fn tool_not_found(tool_name: &str) -> (r: Self)
        ensures
            error_is(r, error_codes::TOOL_NOT_FOUND, "Tool '"@ + tool_name@ + "' not found"@),
    {
        Self::new(error_codes::TOOL_NOT_FOUND, join3("Tool '", tool_name, "' not found"))
    }

    pub fn resource_not_found(uri: &str) -> (r: Self)
        ensures
            error_is(r, error_codes::RESOURCE_NOT_FOUND, "Resource '"@ + uri@ + "' not found"@),
    {
        Self::new(error_codes::RESOURCE_NOT_FOUND, join3("Resource '", uri, "' not found"))
    }

    pub fn unauthorized() -> (r: Self)
        ensures
            error_is(r, error_codes::UNAUTHORIZED, "Unauthorized"@),
    {
        Self::new(error_codes::UNAUTHORIZED, String::from_str("Unauthorized"))
    }

    pub fn forbidden() -> (r: Self)
        ensures
            error_is(r, error_codes::FORBIDDEN, "Forbidden"@),
    {
        Self::new(error_codes::FORBIDDEN, String::from_str("Forbidden"))
    }

    pub fn rate_limited() -> (r: Self)
        ensures
            error_is(r, error_codes::RATE_LIMITED, "Rate limited"@),
    {
        Self::new(error_codes::RATE_LIMITED, String::from_str("Rate limited"))
    }

    pub fn timeout() -> (r: Self)
        ensures
            error_is(r, error_codes::TIMEOUT, "Request timeout"@),
    {
        Self::new(error_codes::TIMEOUT, String::from_str("Request timeout"))
    }

    pub fn server_error(message: &str) -> (r: Self)
        ensures
            error_is(r, error_codes::SERVER_ERROR, "Server error: "@ + message@),
    {
        Self::new(error_codes::SERVER_ERROR, String::from_str("Server error: ").concat(message))
    }
}

/// A lowercase hexadecimal digit.
pub open spec fn is_lower_hex_digit(c: char) -> bool {
    ('0' <= c && c <= '9') || ('a' <= c && c <= 'f')
}

/// The text of a version-4 UUID in lowercase hyphenated form: 36
/// characters, hyphens at positions 8, 13, 18 and 23 and lowercase hex
/// digits elsewhere, the version digit `4` at position 14 and one of
/// `8`, `9`, `a`, `b` (the RFC 4122 variant) at position 19.
pub open spec fn is_uuid_v4_text(s: Seq<char>) -> bool {
    &&& s.len() == 36
    &&& forall|i: int|
        0 <= i < 36 ==> if i == 8 || i == 13 || i == 18 || i == 23 {
            #[trigger] s[i] == '-'
        } else {
            is_lower_hex_digit(s[i])
        }
    &&& s[14] == '4'
    &&& (s[19] == '8' || s[19] == '9' || s[19] == 'a' || s[19] == 'b')
}

/// `uuid::Uuid::new_v4` rendered by its `Display` implementation: a fresh
/// random version-4 UUID (version nibble 4, RFC 4122 variant bits) in
/// lowercase hyphenated form. Which random digits come out is not claimed.
#[verifier::external_body]
pub(crate) fn new_uuid_v4_string() -> (r: String)
    ensures
        is_uuid_v4_text(r@),
{
    uuid::Uuid::new_v4().to_string()
}

/// A fresh request id: a random UUID as a JSON string.
pub fn generate_request_id() -> (r: JsonValue)
    ensures
        r matches JsonValue::String(s) && is_uuid_v4_text(s@),
{
    JsonValue::String(new_uuid_v4_string())
}

/// Notification methods are those in the `notifications/` namespace.
pub open spec fn is_notification_method_spec(method: Seq<char>) -> bool {
    is_prefix("notifications/"@, method)
}

/// Whether `method` names a notification.
pub fn is_notification_method(method: &str) -> (r: bool)
    ensures
        r == is_notification_method_spec(method@),
{
    starts_with(method, "notifications/")
}

} // verus!
