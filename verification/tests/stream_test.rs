use mi7_agent::llm::stream::{collect_events, split_lines, StreamDecoder};

fn lines(s: &str) -> Vec<String> {
    split_lines(s).into_iter().map(|l| l.into_iter().collect()).collect()
}

#[test]
fn lines_like_std() {
    for s in ["", "a", "a\n", "a\nb", "a\r\nb\r\n", "\n", "a\n\nb", "x\r", "x\ry\n"] {
        let std_lines: Vec<String> = s.lines().map(|l| l.to_string()).collect();
        assert_eq!(lines(s), std_lines, "{:?}", s);
    }
}

#[test]
fn events_until_done() {
    let ls = split_lines("data: one\n: comment\ndata: two\ndata: [DONE]\ndata: three\n");
    let (payloads, done) = collect_events(&ls);
    assert_eq!(payloads, vec!["one".to_string(), "two".to_string()]);
    assert!(done);
    let (payloads, done) = collect_events(&split_lines("data:x\ndata: y"));
    assert_eq!(payloads, vec!["y".to_string()]);
    assert!(!done);
}

#[test]
fn decoder_holds_split_characters() {
    let mut d = StreamDecoder::new();
    let bytes = "data: 你\n".as_bytes();
    // Split inside the three bytes of '你'.
    let first = d.process_chunk(&bytes[..7]);
    assert_eq!(first.payloads, vec![String::new()]);
    assert!(!first.done);
    let second = d.process_chunk(&bytes[7..]);
    assert!(second.payloads.is_empty());
    assert_eq!(d.feed(b""), Some(String::new()));
}

#[test]
fn decoder_returns_decodable_prefix() {
    let mut d = StreamDecoder::new();
    let bytes = "ab你".as_bytes();
    assert_eq!(d.feed(&bytes[..3]), Some("ab".to_string()));
    assert_eq!(d.feed(&bytes[3..4]), None);
    assert_eq!(d.feed(&bytes[4..]), Some("你".to_string()));
}

#[test]
fn decoder_reports_done() {
    let mut d = StreamDecoder::new();
    let out = d.process_chunk(b"data: {\"x\":1}\n\ndata: [DONE]\n");
    assert_eq!(out.payloads, vec!["{\"x\":1}".to_string()]);
    assert!(out.done);
}

#[test]
fn decoder_keeps_invalid_bytes() {
    let mut d = StreamDecoder::new();
    assert_eq!(d.feed(&[b'o', b'k', 0xff, b'z']), Some("ok".to_string()));
    assert_eq!(d.feed(b"more"), None);
}
