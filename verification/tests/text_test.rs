use mi7_agent::agents::base::TaskType;
use mi7_agent::tools::http_request::{parse_method, HttpMethod};
use mi7_agent::text::{
    concat3, contains, decimal_string, signed_decimal_string, starts_with, text_eq, trim, trim_trailing_slashes,
    truncate_string,
};

#[test]
fn truncate_keeps_short_text() {
    assert_eq!(truncate_string("hello", 10), "hello");
    assert_eq!(truncate_string("hello", 5), "hello");
    assert_eq!(truncate_string("", 0), "");
}

#[test]
fn truncate_cuts_ascii() {
    assert_eq!(truncate_string("hello world", 5), "hello...");
    assert_eq!(truncate_string("abc", 0), "...");
}

#[test]
fn truncate_backs_off_to_char_boundary() {
    // "你好" is 6 bytes; a cut at 4 falls inside the second character.
    assert_eq!(truncate_string("你好", 4), "你...");
    assert_eq!(truncate_string("你好", 2), "...");
    assert_eq!(truncate_string("a你好", 3), "a...");
}

#[test]
fn contains_and_starts_with() {
    assert!(contains("please research this", "research"));
    assert!(!contains("short", "much longer needle"));
    assert!(contains("anything", ""));
    assert!(starts_with("data: x", "data: "));
    assert!(!starts_with("data", "data: "));
    assert!(text_eq("same", "same"));
    assert!(!text_eq("same", "Same"));
}

#[test]
fn case_mapping_uses_std() {
    assert_eq!(TaskType::from_str("ReSeArCh"), TaskType::Research);
    assert_eq!(TaskType::from_str("PLANNING"), TaskType::Planning);
    assert_eq!(parse_method("post").unwrap(), HttpMethod::Post);
    assert_eq!(parse_method("dElEtE").unwrap(), HttpMethod::Delete);
}

#[test]
fn decimal_text() {
    assert_eq!(decimal_string(0), "0");
    assert_eq!(decimal_string(404), "404");
    assert_eq!(decimal_string(u64::MAX), u64::MAX.to_string());
    assert_eq!(signed_decimal_string(-32600), "-32600");
    assert_eq!(signed_decimal_string(i64::MIN), i64::MIN.to_string());
    assert_eq!(signed_decimal_string(7), "7");
}

#[test]
fn trimming() {
    assert_eq!(trim("  quit \n"), "quit");
    assert_eq!(trim("\u{3000}x\u{a0}"), "x");
    assert_eq!(trim("   "), "");
    assert_eq!(trim_trailing_slashes("http://h:1///"), "http://h:1");
    assert_eq!(trim_trailing_slashes("/"), "");
    assert_eq!(concat3("a", "b", "c"), "abc");
}

#[test]
fn trim_agrees_with_std() {
    for s in ["\t a b \r\n", "\u{2028}z\u{205f}", "no-space", "\u{85}\u{1680}y"] {
        assert_eq!(trim(s), s.trim());
    }
}
