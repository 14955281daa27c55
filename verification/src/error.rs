//! The gateway's error kinds, their HTTP status codes, machine-readable
//! codes and human-readable messages.
use vstd::prelude::*;

use crate::json::{JsonModel, JsonValue};

verus! {

/// Errors raised by the gateway. Errors that originate in other libraries
/// (configuration parsing, serialization, I/O) carry that library's message.
#[derive(Debug, Clone)]
pub enum GatewayError {
    Config(String),
    Server(String),
    McpProtocol(String),
    UpstreamServer { server_id: String, message: String },
    Authentication(String),
    Authorization(String),
    RateLimit,
    CircuitBreakerOpen(String),
    Timeout(String),
    Serialization(String),
    Io(String),
    InvalidRequest(String),
    NotFound(String),
    ServiceUnavailable(String),
    Internal(String),
    Validation(String),
    HealthCheckFailed(String),
    LoadBalancer(String),
    Middleware(String),
}

pub type Result<T> = core::result::Result<T, GatewayError>;

/// The HTTP status code that answers an error of this kind.
pub open spec fn status_code_of(e: GatewayError) -> u16 {
    match e {
        GatewayError::Config(_) => 500,
        GatewayError::Server(_) => 500,
        GatewayError::McpProtocol(_) => 400,
        GatewayError::UpstreamServer { .. } => 502,
        GatewayError::Authentication(_) => 401,
        GatewayError::Authorization(_) => 403,
        GatewayError::RateLimit => 429,
        GatewayError::CircuitBreakerOpen(_) => 503,
        GatewayError::Timeout(_) => 504,
        GatewayError::Serialization(_) => 400,
        GatewayError::Io(_) => 500,
        GatewayError::InvalidRequest(_) => 400,
        GatewayError::NotFound(_) => 404,
        GatewayError::ServiceUnavailable(_) => 503,
        GatewayError::Internal(_) => 500,
        GatewayError::Validation(_) => 400,
        GatewayError::HealthCheckFailed(_) => 503,
        GatewayError::LoadBalancer(_) => 503,
        GatewayError::Middleware(_) => 500,
    }
}

/// The machine-readable code of an error of this kind.
pub open spec fn error_code_of(e: GatewayError) -> Seq<char> {
    match e {
        GatewayError::Config(_) => "CONFIG_ERROR"@,
        GatewayError::Server(_) => "SERVER_ERROR"@,
        GatewayError::McpProtocol(_) => "MCP_PROTOCOL_ERROR"@,
        GatewayError::UpstreamServer { .. } => "UPSTREAM_SERVER_ERROR"@,
        GatewayError::Authentication(_) => "AUTHENTICATION_ERROR"@,
        GatewayError::Authorization(_) => "AUTHORIZATION_ERROR"@,
        GatewayError::RateLimit => "RATE_LIMIT_EXCEEDED"@,
        GatewayError::CircuitBreakerOpen(_) => "CIRCUIT_BREAKER_OPEN"@,
        GatewayError::Timeout(_) => "TIMEOUT_ERROR"@,
        GatewayError::Serialization(_) => "SERIALIZATION_ERROR"@,
        GatewayError::Io(_) => "IO_ERROR"@,
        GatewayError::InvalidRequest(_) => "INVALID_REQUEST"@,
        GatewayError::NotFound(_) => "NOT_FOUND"@,
        GatewayError::ServiceUnavailable(_) => "SERVICE_UNAVAILABLE"@,
        GatewayError::Internal(_) => "INTERNAL_ERROR"@,
        GatewayError::Validation(_) => "VALIDATION_ERROR"@,
        GatewayError::HealthCheckFailed(_) => "HEALTH_CHECK_FAILED"@,
        GatewayError::LoadBalancer(_) => "LOAD_BALANCER_ERROR"@,
        GatewayError::Middleware(_) => "MIDDLEWARE_ERROR"@,
    }
}

/// The human-readable message of an error.
pub open spec fn message_of(e: GatewayError) -> Seq<char> {
    match e {
        GatewayError::Config(s) => "Configuration error: "@ + s@,
        GatewayError::Server(s) => "Server error: "@ + s@,
        GatewayError::McpProtocol(s) => "MCP protocol error: "@ + s@,
        GatewayError::UpstreamServer { server_id, message } => "Upstream server error: "@
            + server_id@ + ": "@ + message@,
        GatewayError::Authentication(s) => "Authentication error: "@ + s@,
        GatewayError::Authorization(s) => "Authorization error: "@ + s@,
        GatewayError::RateLimit => "Rate limit exceeded"@,
        GatewayError::CircuitBreakerOpen(s) => "Circuit breaker is open for server: "@ + s@,
        GatewayError::Timeout(s) => "Timeout error: "@ + s@,
        GatewayError::Serialization(s) => "Serialization error: "@ + s@,
        GatewayError::Io(s) => "IO error: "@ + s@,
        GatewayError::InvalidRequest(s) => "Invalid request: "@ + s@,
        GatewayError::NotFound(s) => "Resource not found: "@ + s@,
        GatewayError::ServiceUnavailable(s) => "Service unavailable: "@ + s@,
        GatewayError::Internal(s) => "Internal server error: "@ + s@,
        GatewayError::Validation(s) => "Validation error: "@ + s@,
        GatewayError::HealthCheckFailed(s) => "Health check failed for server: "@ + s@,
        GatewayError::LoadBalancer(s) => "Load balancer error: "@ + s@,
        GatewayError::Middleware(s) => "Middleware error: "@ + s@,
    }
}

/// `prefix` followed by `s`.
pub fn prefixed(prefix: &str, s: &str) -> (r: String)
    ensures
        r@ == prefix@ + s@,
{
    String::from_str(prefix).concat(s)
}

impl GatewayError {
    /// The HTTP status code for this error.
    pub fn status_code(&self) -> (r: u16)
        ensures
            r == status_code_of(*self),
    {
        match self {
            GatewayError::Config(_) => 500,
            GatewayError::Server(_) => 500,
            GatewayError::McpProtocol(_) => 400,
            GatewayError::UpstreamServer { .. } => 502,
            GatewayError::Authentication(_) => 401,
            GatewayError::Authorization(_) => 403,
            GatewayError::RateLimit => 429,
            GatewayError::CircuitBreakerOpen(_) => 503,
            GatewayError::Timeout(_) => 504,
            GatewayError::Serialization(_) => 400,
            GatewayError::Io(_) => 500,
            GatewayError::InvalidRequest(_) => 400,
            GatewayError::NotFound(_) => 404,
            GatewayError::ServiceUnavailable(_) => 503,
            GatewayError::Internal(_) => 500,
            GatewayError::Validation(_) => 400,
            GatewayError::HealthCheckFailed(_) => 503,
            GatewayError::LoadBalancer(_) => 503,
            GatewayError::Middleware(_) => 500,
        }
    }

    /// The machine-readable code for this error.
    pub fn error_code(&self) -> (r: &'static str)
        ensures
            r@ == error_code_of(*self),
    {
        match self {
            GatewayError::Config(_) => "CONFIG_ERROR",
            GatewayError::Server(_) => "SERVER_ERROR",
            GatewayError::McpProtocol(_) => "MCP_PROTOCOL_ERROR",
            GatewayError::UpstreamServer { .. } => "UPSTREAM_SERVER_ERROR",
            GatewayError::Authentication(_) => "AUTHENTICATION_ERROR",
            GatewayError::Authorization(_) => "AUTHORIZATION_ERROR",
            GatewayError::RateLimit => "RATE_LIMIT_EXCEEDED",
            GatewayError::CircuitBreakerOpen(_) => "CIRCUIT_BREAKER_OPEN",
            GatewayError::Timeout(_) => "TIMEOUT_ERROR",
            GatewayError::Serialization(_) => "SERIALIZATION_ERROR",
            GatewayError::Io(_) => "IO_ERROR",
            GatewayError::InvalidRequest(_) => "INVALID_REQUEST",
            GatewayError::NotFound(_) => "NOT_FOUND",
            GatewayError::ServiceUnavailable(_) => "SERVICE_UNAVAILABLE",
            GatewayError::Internal(_) => "INTERNAL_ERROR",
            GatewayError::Validation(_) => "VALIDATION_ERROR",
            GatewayError::HealthCheckFailed(_) => "HEALTH_CHECK_FAILED",
            GatewayError::LoadBalancer(_) => "LOAD_BALANCER_ERROR",
            GatewayError::Middleware(_) => "MIDDLEWARE_ERROR",
        }
    }

    /// The human-readable message for this error.
    pub fn message(&self) -> (r: String)
        ensures
            r@ == message_of(*self),
    {
        match self {
            GatewayError::Config(s) => prefixed("Configuration error: ", s.as_str()),
            GatewayError::Server(s) => prefixed("Server error: ", s.as_str()),
            GatewayError::McpProtocol(s) => prefixed("MCP protocol error: ", s.as_str()),
            GatewayError::UpstreamServer { server_id, message } => {
                let head = prefixed("Upstream server error: ", server_id.as_str());
                head.concat(": ").concat(message.as_str())
            },
            GatewayError::Authentication(s) => prefixed("Authentication error: ", s.as_str()),
            GatewayError::Authorization(s) => prefixed("Authorization error: ", s.as_str()),
            GatewayError::RateLimit => String::from_str("Rate limit exceeded"),
            GatewayError::CircuitBreakerOpen(s) => prefixed(
                "Circuit breaker is open for server: ",
                s.as_str(),
            ),
            GatewayError::Timeout(s) => prefixed("Timeout error: ", s.as_str()),
            GatewayError::Serialization(s) => prefixed("Serialization error: ", s.as_str()),
            GatewayError::Io(s) => prefixed("IO error: ", s.as_str()),
            GatewayError::InvalidRequest(s) => prefixed("Invalid request: ", s.as_str()),
            GatewayError::NotFound(s) => prefixed("Resource not found: ", s.as_str()),
            GatewayError::ServiceUnavailable(s) => prefixed("Service unavailable: ", s.as_str()),
            GatewayError::Internal(s) => prefixed("Internal server error: ", s.as_str()),
            GatewayError::Validation(s) => prefixed("Validation error: ", s.as_str()),
            GatewayError::HealthCheckFailed(s) => prefixed(
                "Health check failed for server: ",
                s.as_str(),
            ),
            GatewayError::LoadBalancer(s) => prefixed("Load balancer error: ", s.as_str()),
            GatewayError::Middleware(s) => prefixed("Middleware error: ", s.as_str()),
        }
    }
}

/// The JSON body that reports an error: its code, its message and when it
/// happened.
pub open spec fn error_body_model(code: Seq<char>, message: Seq<char>, timestamp: Seq<char>) -> JsonModel {
    JsonModel::Object(
        seq![
            (
                "error"@,
                JsonModel::Object(
                    seq![
                        ("code"@, JsonModel::Str(code)),
                        ("message"@, JsonModel::Str(message)),
                        ("timestamp"@, JsonModel::Str(timestamp)),
                    ],
                ),
            ),
        ],
    )
}

/// The JSON body that reports an error.
pub fn error_body(code: &str, message: &str, timestamp: &str) -> (r: JsonValue)
    ensures
        r@ == error_body_model(code@, message@, timestamp@),
{
    let mut inner: Vec<(String, JsonValue)> = Vec::new();
    inner.push((String::from_str("code"), JsonValue::String(String::from_str(code))));
    inner.push((String::from_str("message"), JsonValue::String(String::from_str(message))));
    inner.push((String::from_str("timestamp"), JsonValue::String(String::from_str(timestamp))));
    let ghost gi = seq![
        ("code"@, JsonModel::Str(code@)),
        ("message"@, JsonModel::Str(message@)),
        ("timestamp"@, JsonModel::Str(timestamp@)),
    ];
    proof {
        crate::json::lemma_object_model(inner);
        assert(crate::json::entries_model(inner@) =~= gi);
    }
    let inner_value = JsonValue::Object(inner);
    let mut outer: Vec<(String, JsonValue)> = Vec::new();
    outer.push((String::from_str("error"), inner_value));
    proof {
        crate::json::lemma_object_model(outer);
        assert(crate::json::entries_model(outer@) =~= seq![("error"@, JsonModel::Object(gi))]);
    }
    JsonValue::Object(outer)
}

impl GatewayError {
    /// The JSON body of the HTTP response that reports this error at
    /// `timestamp`.
    pub fn response_body(&self, timestamp: &str) -> (r: JsonValue)
        ensures
            r@ == error_body_model(error_code_of(*self), message_of(*self), timestamp@),
    {
        let m = self.message();
        error_body(self.error_code(), m.as_str(), timestamp)
    }
}

/// A request whose caller is not authenticated is answered 401
/// (Unauthorized), and one whose authenticated caller lacks a permission is
/// answered 403 (Forbidden), whatever the message.
pub proof fn law_auth_errors_status(message: String)
    ensures
        status_code_of(GatewayError::Authentication(message)) == 401,
        status_code_of(GatewayError::Authorization(message)) == 403,
{
}

/// Errors the caller caused are answered with a 4xx status: 400 for a
/// malformed or invalid request, 401 and 403 for authentication and
/// authorization, 404 for something not found and 429 for too many
/// requests. Failures on the gateway's side are answered with a 5xx status:
/// 502 for an upstream server's failure, 503 when a service is unavailable
/// (an open circuit breaker, a failed health check, no server to balance
/// to), 504 for a timeout and 500 otherwise.
pub proof fn law_status_classes(message: String, server_id: String)
    ensures
        status_code_of(GatewayError::McpProtocol(message)) == 400,
        status_code_of(GatewayError::Serialization(message)) == 400,
        status_code_of(GatewayError::InvalidRequest(message)) == 400,
        status_code_of(GatewayError::Validation(message)) == 400,
        status_code_of(GatewayError::Authentication(message)) == 401,
        status_code_of(GatewayError::Authorization(message)) == 403,
        status_code_of(GatewayError::NotFound(message)) == 404,
        status_code_of(GatewayError::RateLimit) == 429,
        status_code_of(GatewayError::Config(message)) == 500,
        status_code_of(GatewayError::Server(message)) == 500,
        status_code_of(GatewayError::Io(message)) == 500,
        status_code_of(GatewayError::Internal(message)) == 500,
        status_code_of(GatewayError::Middleware(message)) == 500,
        status_code_of(GatewayError::UpstreamServer { server_id, message }) == 502,
        status_code_of(GatewayError::CircuitBreakerOpen(message)) == 503,
        status_code_of(GatewayError::ServiceUnavailable(message)) == 503,
        status_code_of(GatewayError::HealthCheckFailed(message)) == 503,
        status_code_of(GatewayError::LoadBalancer(message)) == 503,
        status_code_of(GatewayError::Timeout(message)) == 504,
{
}

} // verus!
