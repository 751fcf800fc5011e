//! Tests for the string and number helpers.

use dropbox_sdk::text::{
    fmt_u64, fmt_u64_pad, iso8601_from_fields, json_escape, json_string, parse_u64, str_eq,
};

#[test]
fn decimal_rendering() {
    assert_eq!(fmt_u64(0), "0");
    assert_eq!(fmt_u64(7), "7");
    assert_eq!(fmt_u64(10), "10");
    assert_eq!(fmt_u64(4194304), "4194304");
    assert_eq!(fmt_u64(u64::MAX), "18446744073709551615");
}

#[test]
fn decimal_parsing() {
    assert_eq!(parse_u64(&vec![]), None);
    assert_eq!(parse_u64(&vec!['0']), Some(0));
    assert_eq!(parse_u64(&vec!['4', '2']), Some(42));
    assert_eq!(parse_u64(&vec!['0', '0', '7']), Some(7));
    assert_eq!(parse_u64(&vec!['x', '1']), None);
    assert_eq!(parse_u64(&vec!['1', ' ']), None);
    let max: Vec<char> = "18446744073709551615".chars().collect();
    assert_eq!(parse_u64(&max), Some(u64::MAX));
    let over: Vec<char> = "18446744073709551616".chars().collect();
    assert_eq!(parse_u64(&over), None);
}

#[test]
fn round_trip_format_parse() {
    for n in [0u64, 1, 9, 10, 99, 100, 12345678901234567, u64::MAX] {
        let chars: Vec<char> = fmt_u64(n).chars().collect();
        assert_eq!(parse_u64(&chars), Some(n));
    }
}

#[test]
fn padded_decimal_rendering() {
    assert_eq!(fmt_u64_pad(7, 2), "07");
    assert_eq!(fmt_u64_pad(0, 4), "0000");
    assert_eq!(fmt_u64_pad(2024, 4), "2024");
    assert_eq!(fmt_u64_pad(12345, 4), "12345");
    assert_eq!(fmt_u64_pad(5, 0), "5");
}

#[test]
fn iso8601_rendering() {
    assert_eq!(iso8601_from_fields(2024, 1, 2, 3, 4, 5), "2024-01-02T03:04:05Z");
    assert_eq!(iso8601_from_fields(1970, 12, 31, 23, 59, 59), "1970-12-31T23:59:59Z");
    assert_eq!(iso8601_from_fields(999, 10, 5, 0, 0, 0), "0999-10-05T00:00:00Z");
}

#[test]
fn json_escaping() {
    assert_eq!(json_escape("plain"), "plain");
    assert_eq!(json_escape("say \"hi\""), "say \\\"hi\\\"");
    assert_eq!(json_escape("back\\slash"), "back\\\\slash");
    assert_eq!(json_escape("line\nbreak"), "line\\nbreak");
    assert_eq!(json_escape("tab\there"), "tab\\there");
    assert_eq!(json_escape("cr\rhere"), "cr\\rhere");
    assert_eq!(json_escape("bell\u{7}"), "bell\\u0007");
    assert_eq!(json_escape("esc\u{1b}!"), "esc\\u001b!");
    assert_eq!(json_escape("héllo"), "héllo");
}

#[test]
fn json_string_literals_parse_back() {
    for s in ["", "plain", "with \"quotes\" and \\slashes\\", "ctrl\u{1}\u{1f}", "uni héllo"] {
        let lit = json_string(s);
        let parsed: String = serde_json::from_str(&lit).expect("must be a valid JSON string");
        assert_eq!(parsed, s);
    }
}

#[test]
fn string_equality() {
    assert!(str_eq("", ""));
    assert!(str_eq("abc", "abc"));
    assert!(!str_eq("abc", "abd"));
    assert!(!str_eq("abc", "abcd"));
}
