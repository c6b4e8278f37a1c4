//! The agent command line: hook callbacks and in-process MCP servers.

pub mod hook_laws;
pub mod hooks;
pub mod mcp;
pub mod mcp_laws;
pub mod registry;
pub mod registry_laws;

pub use hooks::{HookEvent, HookInput, HookOutput, PermissionDecision};
pub use mcp::{
    tool_response, Handling, JsonRpcError, SdkMcpServer, SdkMcpTool, ToolCall, ToolResult,
    PROTOCOL_VERSION,
};
pub use registry::{CallbackTable, HookMatcher, HookRegistry};
