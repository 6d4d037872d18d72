//! The Model Context Protocol: request and response handling, transport
//! settings, and tools served by an MCP server.
pub mod protocol;
pub mod transport;

pub use protocol::{JsonRpcError, JsonRpcRequest, JsonRpcResponse, Tool};
pub use transport::HttpTransportConfig;
pub mod tool;

pub use tool::McpTool;
