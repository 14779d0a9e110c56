use handy_llm::json::{json_number, json_string, read_reply_fields};
use handy_llm::text::{is_blank, trim};
use handy_llm::SidecarClient;

#[test]
fn strings_are_quoted_and_escaped() {
    assert_eq!(json_string(""), "\"\"");
    assert_eq!(json_string("plain"), "\"plain\"");
    assert_eq!(json_string("a\"b\\c"), "\"a\\\"b\\\\c\"");
    assert_eq!(json_string("\u{8}\u{c}\n\r\t"), "\"\\b\\f\\n\\r\\t\"");
    assert_eq!(json_string("\u{1f}é/"), "\"\\u001fé/\"");
}

#[test]
fn numbers_are_decimal() {
    assert_eq!(json_number(0), "0");
    assert_eq!(json_number(120), "120");
    assert_eq!(json_number(u64::MAX), "18446744073709551615");
}

#[test]
fn reply_members_are_read_by_type() {
    let f = read_reply_fields("{\"ok\":true,\"text\":\"x\",\"error\":5}").unwrap();
    assert_eq!(f.ok, Some(true));
    assert_eq!(f.text.as_deref(), Some("x"));
    assert_eq!(f.error, None);
    let f = read_reply_fields("[1,2]").unwrap();
    assert_eq!(f.ok, None);
    assert!(read_reply_fields("{").is_none());
}

#[test]
fn trimming_removes_unicode_white_space() {
    assert_eq!(trim("  a b \n"), "a b");
    assert_eq!(trim("\u{2003}x\u{85}"), "x");
    assert_eq!(trim("x"), "x");
    assert_eq!(trim(" \t "), "");
    assert!(is_blank("\u{2028}\u{2029} "));
    assert!(!is_blank(" . "));
}

fn strings(parts: &[&str]) -> Vec<String> {
    parts.iter().map(|p| String::from(*p)).collect()
}

#[test]
fn candidates_follow_the_order_of_preference() {
    let c = SidecarClient::binary_candidates(Some("res"), Some("app"), None, "x86_64-unknown-linux-gnu", false);
    assert_eq!(c.len(), 12);
    assert_eq!(c[0], strings(&["res", "handier-llm"]));
    assert_eq!(c[1], strings(&["res", "handier-llm-x86_64-unknown-linux-gnu"]));
    assert_eq!(c[2], strings(&["app", "handier-llm"]));
    assert_eq!(c[3], strings(&["app", "handier-llm-x86_64-unknown-linux-gnu"]));
    assert_eq!(c[4], strings(&["binaries", "handier-llm-x86_64-unknown-linux-gnu"]));
    assert_eq!(c[5], strings(&["binaries", "handier-llm"]));
    assert_eq!(c[10], strings(&["crates/handy-llm/target", "release", "handier-llm"]));
    assert_eq!(c[11], strings(&["crates/handy-llm/target", "debug", "handier-llm"]));
    let w = SidecarClient::binary_candidates(None, None, Some("D:/hl/handier-llm.exe"), "x86_64-pc-windows-msvc", true);
    assert_eq!(w.len(), 9);
    assert_eq!(w[0], strings(&["D:/hl/handier-llm.exe"]));
    assert_eq!(w[1], strings(&["binaries", "handier-llm-x86_64-pc-windows-msvc.exe"]));
    assert_eq!(w[2], strings(&["binaries", "handier-llm.exe"]));
}

#[test]
fn bundled_binary_wins_over_developer_builds() {
    let c = SidecarClient::binary_candidates(Some("res"), None, None, "t", false);
    let mut present = vec![false; c.len()];
    present[0] = true;
    present[2] = true; // a developer build lying around
    let found = SidecarClient::find_binary(c, &present);
    assert_eq!(found, Some(strings(&["res", "handier-llm"])));
}

#[test]
fn nothing_present_finds_nothing() {
    let c = SidecarClient::binary_candidates(Some("res"), None, None, "t", false);
    let present = vec![false; c.len()];
    assert_eq!(SidecarClient::find_binary(c, &present), None);
    let c = SidecarClient::binary_candidates(None, None, None, "t", false);
    let mut present = vec![false; c.len()];
    present[7] = true;
    assert_eq!(SidecarClient::find_binary(c, &present), Some(strings(&["crates/handy-llm/target", "debug", "handier-llm"])));
    assert_eq!(SidecarClient::exe_name(true), "handier-llm.exe");
    assert_eq!(SidecarClient::staged_name("t", true), "handier-llm-t.exe");
}
