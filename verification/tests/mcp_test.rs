use mi7_agent::headers::Headers;
use mi7_agent::mcp::protocol::{rpc_result, tool_call_outcome, JsonRpcError, JsonRpcRequest, JsonRpcResponse, Tool, METHOD_TOOLS_CALL};
use mi7_agent::mcp::tool::{find_tool, http_tools, init_step, stdio_tools, InitStep};
use mi7_agent::mcp::transport::{
    connect_outcome, http_error, require_initialized, require_uninitialized, root_endpoint, rpc_endpoint,
    HttpTransportConfig,
};
use mi7_agent::mcp::McpTool;

fn response(result: Option<serde_json::Value>, error: Option<JsonRpcError>) -> JsonRpcResponse {
    JsonRpcResponse { jsonrpc: "2.0".into(), id: Some(1), result, error }
}

#[test]
fn rpc_results() {
    assert_eq!(rpc_result(response(Some(serde_json::Value::Bool(true)), None)).unwrap(), serde_json::Value::Bool(true));
    assert_eq!(rpc_result(response(None, None)).unwrap_err(), "No result in response");
    let e = JsonRpcError { code: -32601, message: "Method not found".into() };
    assert_eq!(rpc_result(response(None, Some(e))).unwrap_err(), "JSON-RPC error: -32601 - Method not found");
    let r = JsonRpcRequest::new(4, METHOD_TOOLS_CALL, None);
    assert_eq!(r.jsonrpc, "2.0");
    assert_eq!(r.method, "tools/call");
}

#[test]
fn tool_call_outcomes() {
    assert_eq!(tool_call_outcome(None).unwrap_err(), "No response from tool call");
    let e = JsonRpcError { code: 1, message: "bad".into() };
    assert_eq!(tool_call_outcome(Some(response(None, Some(e)))).unwrap_err(), "Tool call error: bad");
    assert_eq!(tool_call_outcome(Some(response(None, None))).unwrap(), None);
}

#[test]
fn transport_settings() {
    assert_eq!(
        HttpTransportConfig::from_settings(None, None, None).err().unwrap(),
        "MCP_SERVER_URL environment variable not set"
    );
    let c = HttpTransportConfig::from_settings(Some("http://h".into()), Some("12".into()), Some("tok".into())).ok().unwrap();
    assert_eq!(c.server_url, "http://h");
    assert_eq!(c.timeout_secs, 12);
    assert_eq!(c.headers.get("Authorization").map(|s| s.as_str()), Some("tok"));
    let d = HttpTransportConfig::from_settings(Some("u".into()), Some("soon".into()), None).ok().unwrap();
    assert_eq!(d.timeout_secs, 30);
    assert_eq!(d.headers.len(), 0);
    let timeout_of = |t: &str| {
        HttpTransportConfig::from_settings(Some("u".into()), Some(t.into()), None).ok().unwrap().timeout_secs
    };
    assert_eq!(timeout_of("+7"), 7);
    assert_eq!(timeout_of("007"), 7);
    assert_eq!(timeout_of("18446744073709551615"), u64::MAX);
    assert_eq!(timeout_of("18446744073709551616"), 30);
    assert_eq!(timeout_of("-1"), 30);
    assert_eq!(timeout_of("+"), 30);
    assert_eq!(timeout_of(""), 30);
    assert_eq!(timeout_of(" 5"), 30);
    assert_eq!(timeout_of("1_000"), 30);
    let _ = Headers::new();
}

#[test]
fn endpoints_and_statuses() {
    assert_eq!(rpc_endpoint("http://h:8080//"), "http://h:8080/rpc");
    assert_eq!(root_endpoint("http://h"), "http://h/");
    assert!(connect_outcome(200).is_ok());
    assert!(connect_outcome(404).is_ok());
    assert_eq!(connect_outcome(500).unwrap_err(), "Server returned: 500 Internal Server Error");
    assert_eq!(http_error(502, "x"), "HTTP error: 502 Bad Gateway - x");
    assert!(require_initialized(true).is_ok());
    assert_eq!(require_initialized(false).unwrap_err(), "Not initialized");
    assert_eq!(require_uninitialized(true).unwrap_err(), "Already initialized");
    assert!(require_uninitialized(false).is_ok());
}

#[test]
fn mcp_tools() {
    let listed = vec![Tool { name: "echo".into(), description: "d".into(), input_schema: serde_json::Value::Null }];
    let ts = stdio_tools(listed, "server", &vec!["--x".to_string()]);
    assert_eq!(ts[0].name(), "echo");
    assert_eq!(ts[0].command(), "server");
    assert_eq!(ts[0].args(), &vec!["--x".to_string()]);
    assert!(!ts[0].is_http());
    let hs = http_tools(vec![Tool { name: "h".into(), description: "d".into(), input_schema: serde_json::Value::Null }]);
    assert!(hs[0].is_http());
    assert_eq!(hs[0].schema().name, "h");
    assert_eq!(find_tool(&ts, "echo").unwrap().name(), "echo");
    assert_eq!(find_tool(&ts, "nope").err().unwrap(), "Tool not found: nope");
    let t = McpTool::new_http("a".into(), "b".into(), serde_json::Value::Null);
    assert_eq!(t.description(), "b");
    assert!(*t.initialized_flag().try_read().unwrap());
    assert!(!*ts[0].initialized_flag().try_read().unwrap());
    assert!(*hs[0].initialized_flag().try_read().unwrap());
    let s = McpTool::new("s".into(), "d".into(), serde_json::Value::Null, "srv".into(), vec![]);
    assert!(!*s.initialized_flag().try_read().unwrap());
}

#[test]
fn initialize_only_once() {
    assert!(matches!(init_step(false), InitStep::Initialize));
    assert!(matches!(init_step(true), InitStep::Skip));
    let t = McpTool::new("s".into(), "d".into(), serde_json::Value::Null, "srv".into(), vec![]);
    let flag = *t.initialized_flag().try_read().unwrap();
    assert!(matches!(init_step(flag), InitStep::Initialize));
}
