use mi7_agent::headers::Headers;
use mi7_agent::tools::execute_command::{clip_output, command_output};
use mi7_agent::tools::file_read::clip_content;
use mi7_agent::tools::file_write::{default_false, write_mode};
use mi7_agent::tools::http_request::{default_method, parse_method, response_body, HttpMethod, ResponseBody};
use mi7_agent::tools::{ExecuteCommandTool, FileReadTool, FileWriteTool, HttpRequestTool, WeatherTool};

#[test]
fn test_weather_tool_mock() {
    let mut params = serde_json::Map::new();
    params.insert("city".to_string(), serde_json::Value::String("Beijing".to_string()));
    let params = serde_json::Value::Object(params);
    assert_eq!(params["city"], "Beijing");

    let report = WeatherTool.report(params["city"].as_str()).unwrap();
    assert_eq!(report.city, "Beijing");
    assert_eq!(report.temperature, "22°C");
    assert_eq!(report.condition, "Sunny");
}

#[test]
fn weather_needs_city() {
    assert_eq!(WeatherTool.report(None).err().unwrap(), "Missing city parameter");
    assert_eq!(WeatherTool.name(), "get_weather");
    assert_eq!(WeatherTool.report(Some("Paris")).unwrap().humidity, "45%");
}

#[test]
fn command_allow_list() {
    let t = ExecuteCommandTool::new(vec!["ls".into(), "cat".into()], 30);
    assert!(t.is_allowed("ls"));
    assert!(t.is_allowed("lsblk"));
    assert!(!t.is_allowed("rm"));
    assert!(t.check_command("cat").is_ok());
    assert_eq!(t.check_command("rm").unwrap_err(), "Command not allowed: rm. Allowed: [\"ls\", \"cat\"]");
    let any = ExecuteCommandTool::new(vec!["*".into()], 1);
    assert!(any.is_allowed("rm"));
    let none = ExecuteCommandTool::new(vec![], 1);
    assert!(!none.is_allowed("ls"));
    assert_eq!(t.name(), "execute_command");
}

#[test]
fn command_output_clipping() {
    assert_eq!(clip_output("short"), "short");
    let long = "x".repeat(20481);
    let clipped = clip_output(&long);
    assert_eq!(clipped, format!("{}...[truncated]", "x".repeat(20480)));
}

#[test]
fn file_paths() {
    let r = FileReadTool::new(vec!["/data".into()]);
    assert!(r.is_allowed("/data/a.txt"));
    assert!(r.is_allowed("/root/work/b"));
    assert!(!r.is_allowed("/database"));
    assert!(!r.is_allowed("/etc/passwd"));
    assert_eq!(r.check_path("/etc/passwd").unwrap_err(), "Path not allowed: /etc/passwd");
    let none = FileReadTool::new(vec![]);
    assert!(!none.is_allowed("/root/work/b"));
    let w = FileWriteTool::new(vec!["/tmp/out".into()]);
    assert!(w.is_allowed("/tmp/out/x"));
    assert!(w.check_path("/tmp/outside").is_err());
    assert_eq!(r.name(), "file_read");
    assert_eq!(w.name(), "file_write");
}

#[test]
fn path_prefixes_by_component() {
    let t = FileReadTool::new(vec!["/srv/data".into()]);
    assert!(t.is_allowed("/srv/data/a.txt"));
    assert!(t.is_allowed("/root/work/a"));
    assert!(!t.is_allowed("/srv/database"));
    assert!(!t.is_allowed("/root/workshop"));
}

#[test]
fn content_clipping() {
    assert_eq!(clip_content("abc"), "abc");
    let long = "y".repeat(51200 + 7);
    assert_eq!(clip_content(&long), format!("{}...[truncated 7 bytes]", "y".repeat(51200)));
}

#[test]
fn write_defaults() {
    assert!(!default_false());
    assert_eq!(write_mode(true), "appended");
    assert_eq!(write_mode(false), "written");
}

#[test]
fn http_methods() {
    assert_eq!(default_method(), "GET");
    assert_eq!(parse_method("get").unwrap(), HttpMethod::Get);
    assert_eq!(parse_method("Post").unwrap(), HttpMethod::Post);
    assert_eq!(parse_method("PUT").unwrap(), HttpMethod::Put);
    assert_eq!(parse_method("delete").unwrap(), HttpMethod::Delete);
    assert_eq!(parse_method("patch").unwrap_err(), "不支持的方法: patch");
}

#[test]
fn http_headers() {
    let t = HttpRequestTool::with_token("abc".into());
    let mut custom = Headers::new();
    custom.insert("X-A".into(), "1".into());
    custom.insert("Authorization".into(), "other".into());
    let hs = t.request_headers(&custom);
    assert_eq!(hs, vec![
        ("Authorization".to_string(), "Bearer abc".to_string()),
        ("X-A".to_string(), "1".to_string()),
        ("Authorization".to_string(), "other".to_string()),
    ]);
    let plain = HttpRequestTool::new(Headers::new());
    assert!(plain.request_headers(&Headers::new()).is_empty());
    assert_eq!(t.name(), "http_request");
}

#[test]
fn header_map_replaces() {
    let mut h = Headers::new();
    h.insert("a".into(), "1".into());
    h.insert("b".into(), "2".into());
    h.insert("a".into(), "3".into());
    assert_eq!(h.len(), 2);
    assert_eq!(h.get("a").map(|s| s.as_str()), Some("3"));
    assert_eq!(h.get("c"), None);
    assert_eq!(h.to_pairs(), vec![("a".to_string(), "3".to_string()), ("b".to_string(), "2".to_string())]);
}

#[test]
fn command_output_decodes_and_clips() {
    let (out, err) = command_output(b"ok\n", b"warn\xff").unwrap();
    assert_eq!(out, "ok\n");
    assert_eq!(err, "warn\u{FFFD}");
    let long = vec![b'z'; 20480 + 3];
    let (out, _) = command_output(&long, b"").unwrap();
    assert_eq!(out, format!("{}...[truncated]", "z".repeat(20480)));
    let mut cut = vec![b'a'; 20479];
    cut.extend_from_slice("é".as_bytes());
    assert!(command_output(&cut, b"").is_none());
}

#[test]
fn response_bodies() {
    match response_body("{\"a\": 1}".to_string()) {
        ResponseBody::Json(v) => assert_eq!(v["a"], serde_json::Value::from(1)),
        ResponseBody::Text(_) => panic!("expected JSON"),
    }
    match response_body("<html>".to_string()) {
        ResponseBody::Text(t) => assert_eq!(t, "<html>"),
        ResponseBody::Json(_) => panic!("expected text"),
    }
    match response_body("".to_string()) {
        ResponseBody::Text(t) => assert_eq!(t, ""),
        ResponseBody::Json(_) => panic!("expected text"),
    }
}

#[test]
fn default_headers_come_first_in_order() {
    let mut d = Headers::new();
    d.insert("X-B".into(), "2".into());
    d.insert("X-A".into(), "1".into());
    let tool = HttpRequestTool::new(d);
    let mut c = Headers::new();
    c.insert("X-C".into(), "3".into());
    let pairs = tool.request_headers(&c);
    assert_eq!(
        pairs,
        vec![("X-B".to_string(), "2".to_string()), ("X-A".to_string(), "1".to_string()), ("X-C".to_string(), "3".to_string())]
    );
}
