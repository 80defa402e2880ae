use popbill_fax::decimal::{decimal, parse_u64};
use popbill_fax::text::{is_blank, is_whitespace, trim};

#[test]
fn trim_removes_unicode_whitespace_at_both_ends() {
    assert_eq!(trim("  \t hello world \r\n"), "hello world");
    assert_eq!(trim("\u{3000}x\u{a0}"), "x");
    assert_eq!(trim("   "), "");
    assert_eq!(trim("a b"), "a b");
}

#[test]
fn blank_text_is_only_whitespace() {
    assert!(is_blank(""));
    assert!(is_blank(" \t\n"));
    assert!(!is_blank(" x "));
    assert!(is_whitespace('\u{2028}'));
    assert!(!is_whitespace('_'));
}

#[test]
fn decimal_formats_like_to_string() {
    assert_eq!(decimal(0), "0");
    assert_eq!(decimal(7), "7");
    assert_eq!(decimal(600), "600");
    assert_eq!(decimal(u64::MAX), u64::MAX.to_string());
}

#[test]
fn parse_u64_follows_str_parse() {
    for text in ["0", "12", "+12", "-12", "", "+", " 12", "12 ", "1a", "18446744073709551615", "18446744073709551616", "007"] {
        assert_eq!(parse_u64(text), text.parse::<u64>().ok(), "{text:?}");
    }
}

#[test]
fn decimal_round_trip_on_samples() {
    for n in [0u64, 1, 9, 10, 99, 100, 12345, u64::MAX - 1, u64::MAX] {
        assert_eq!(parse_u64(&decimal(n)), Some(n));
    }
}
