//! JSON-RPC messages of the Model Context Protocol and how a response is read.
use serde_json::Value;
use vstd::prelude::*;

use crate::text::{concat2, concat3, owned, signed_decimal, signed_decimal_string};

verus! {

/// The method that opens a session.
pub const METHOD_INITIALIZE: &'static str = "initialize";
/// The method that lists the server's tools.
pub const METHOD_TOOLS_LIST: &'static str = "tools/list";
/// The method that calls a tool.
pub const METHOD_TOOLS_CALL: &'static str = "tools/call";

/// A JSON-RPC 2.0 request.
pub struct JsonRpcRequest {
    pub jsonrpc: String,
    pub id: u64,
    pub method: String,
    pub params: Option<Value>,
}

impl JsonRpcRequest {
    /// Request `id` of `method` with `params`.
    pub fn new(id: u64, method: &str, params: Option<Value>) -> (r: Self)
        ensures
            r.jsonrpc@ == "2.0"@,
            r.id == id,
            r.method@ == method@,
            r.params == params,
    {
        JsonRpcRequest { jsonrpc: owned("2.0"), id, method: owned(method), params }
    }
}

/// The error member of a JSON-RPC response.
pub struct JsonRpcError {
    pub code: i64,
    pub message: String,
}

/// A JSON-RPC 2.0 response: a result or an error.
pub struct JsonRpcResponse {
    pub jsonrpc: String,
    pub id: Option<u64>,
    pub result: Option<Value>,
    pub error: Option<JsonRpcError>,
}

/// A tool as an MCP server lists it.
pub struct Tool {
    pub name: String,
    pub description: String,
    pub input_schema: Value,
}

/// The result of a request from its response: the error when there is one,
/// else the result, which must be present.
pub fn rpc_result(response: JsonRpcResponse) -> (r: Result<Value, String>)
    ensures
        match response.error {
            Some(e) => r matches Err(msg) && msg@ == "JSON-RPC error: "@ + signed_decimal(e.code as int) + " - "@ + e.message@,
            None => match response.result {
                Some(v) => r == Ok::<Value, String>(v),
                None => r matches Err(msg) && msg@ == "No result in response"@,
            },
        },
{
    match response.error {
        Some(e) => {
            let code = signed_decimal_string(e.code);
            let head = concat3("JSON-RPC error: ", code.as_str(), " - ");
            Err(concat2(head.as_str(), e.message.as_str()))
        },
        None => match response.result {
            Some(v) => Ok(v),
            None => Err(owned("No result in response")),
        },
    }
}

/// The outcome of a tool call from the server's reply, if one came: the
/// server's error message, or the result (`None` standing for JSON null).
pub fn tool_call_outcome(response: Option<JsonRpcResponse>) -> (r: Result<Option<Value>, String>)
    ensures
        match response {
            None => r matches Err(msg) && msg@ == "No response from tool call"@,
            Some(resp) => match resp.error {
                Some(e) => r matches Err(msg) && msg@ == "Tool call error: "@ + e.message@,
                None => r == Ok::<Option<Value>, String>(resp.result),
            },
        },
{
    match response {
        None => Err(owned("No response from tool call")),
        Some(resp) => match resp.error {
            Some(e) => Err(concat2("Tool call error: ", e.message.as_str())),
            None => Ok(resp.result),
        },
    }
}

} // verus!
