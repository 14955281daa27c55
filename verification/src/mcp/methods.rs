//! MCP method names.
use vstd::prelude::*;

verus! {

// Core protocol methods
pub const INITIALIZE: &'static str = "initialize";
pub const PING: &'static str = "ping";
pub const SHUTDOWN: &'static str = "shutdown";

// Tool methods
pub const TOOLS_LIST: &'static str = "tools/list";
pub const TOOLS_CALL: &'static str = "tools/call";

// Resource methods
pub const RESOURCES_LIST: &'static str = "resources/list";
pub const RESOURCES_READ: &'static str = "resources/read";
pub const RESOURCES_WRITE: &'static str = "resources/write";
pub const RESOURCES_DELETE: &'static str = "resources/delete";

// Prompt methods
pub const PROMPTS_LIST: &'static str = "prompts/list";
pub const PROMPTS_GET: &'static str = "prompts/get";

// Notification methods
pub const NOTIFICATIONS_TOOLS_LIST_CHANGED: &'static str = "notifications/tools/list_changed";
pub const NOTIFICATIONS_RESOURCES_LIST_CHANGED: &'static str = "notifications/resources/list_changed";
pub const NOTIFICATIONS_PROMPTS_LIST_CHANGED: &'static str = "notifications/prompts/list_changed";

} // verus!
