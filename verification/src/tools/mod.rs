//! Tools that agents can call, the registry that offers them, and the checks
//! each tool applies before acting.
pub mod registry;

pub use registry::{ToolRegistry, ToolSchema};
pub mod execute_command;
pub mod paths;

pub use execute_command::ExecuteCommandTool;
pub mod file_read;
pub mod file_write;
pub mod http_request;
pub mod weather;

pub use file_read::FileReadTool;
pub use file_write::FileWriteTool;
pub use http_request::HttpRequestTool;
pub use weather::WeatherTool;
