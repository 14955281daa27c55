//! An MCP (Model Context Protocol) gateway: configuration, error
//! classification, upstream health tracking, the MCP message model and
//! protocol state machine, authentication rules and the middleware plan.
use vstd::prelude::*;

pub mod json;
pub mod table;
pub mod text;
pub mod error;
pub mod gateway;
pub mod config;
pub mod health;
pub mod mcp;
pub mod metrics;
pub mod middleware;

verus! {

/// Current version of the MCP Gateway.
pub const VERSION: &'static str = "0.1.0";

/// MCP protocol version supported.
pub const MCP_VERSION: &'static str = "2024-11-05";

} // verus!
