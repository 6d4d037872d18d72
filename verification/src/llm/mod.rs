//! Chat message model and the decisions around a chat request.
pub mod types;

pub use types::{Function, FunctionCall, FunctionView, Message, MessageView, ToolCall};
pub mod stream;
