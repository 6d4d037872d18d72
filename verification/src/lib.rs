//! A multi-agent assistant core: task routing, conversation memory, tool
//! permissions, retry decisions and streaming-response decoding, with their
//! contracts proved by Verus.
pub mod text;
pub mod clock;
pub mod error;
pub mod headers;
pub mod json;
pub mod llm;
pub mod memory;
pub mod tools;
pub mod agents;
pub mod mcp;
pub mod console;
