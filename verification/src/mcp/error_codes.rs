//! Standard JSON-RPC and MCP error codes.
use vstd::prelude::*;

verus! {

pub const PARSE_ERROR: i32 = -32700;
pub const INVALID_REQUEST: i32 = -32600;
pub const METHOD_NOT_FOUND: i32 = -32601;
pub const INVALID_PARAMS: i32 = -32602;
pub const INTERNAL_ERROR: i32 = -32603;

// MCP-specific error codes
pub const TOOL_NOT_FOUND: i32 = -32000;
pub const RESOURCE_NOT_FOUND: i32 = -32001;
pub const UNAUTHORIZED: i32 = -32002;
pub const FORBIDDEN: i32 = -32003;
pub const RATE_LIMITED: i32 = -32004;
pub const TIMEOUT: i32 = -32005;
pub const SERVER_ERROR: i32 = -32006;

} // verus!
