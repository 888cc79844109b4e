use uishell::text::{decimal_string, is_blank, parse_unsigned_str, str_eq, text_le_exec, trim};

#[test]
fn trim_removes_unicode_whitespace() {
    assert_eq!(trim("  a b \t"), "a b");
    assert_eq!(trim("\u{3000}x\u{a0}"), "x");
    assert_eq!(trim(""), "");
    assert!(is_blank(" \n\t"));
    assert!(!is_blank(" x "));
}

#[test]
fn decimal_text() {
    assert_eq!(decimal_string(0), "0");
    assert_eq!(decimal_string(1234567890), "1234567890");
    assert_eq!(decimal_string(u64::MAX), u64::MAX.to_string());
}

#[test]
fn parse_like_std() {
    assert_eq!(parse_unsigned_str("42", 65535), Some(42));
    assert_eq!(parse_unsigned_str("+42", 65535), Some(42));
    assert_eq!(parse_unsigned_str("65536", 65535), None);
    assert_eq!(parse_unsigned_str("", 65535), None);
    assert_eq!(parse_unsigned_str("+", 65535), None);
    assert_eq!(parse_unsigned_str("-1", 65535), None);
    assert_eq!(parse_unsigned_str("007", 65535), Some(7));
    for s in ["0", "255", "256", "1x", " 1"] {
        assert_eq!(parse_unsigned_str(s, 255), s.parse::<u8>().ok().map(u64::from));
    }
}

#[test]
fn text_order_matches_str() {
    for (a, b) in [("a", "b"), ("b", "a"), ("ab", "a"), ("a", "ab"), ("", ""), ("é", "z")] {
        assert_eq!(text_le_exec(a, b), a <= b);
        assert_eq!(str_eq(a, b), a == b);
    }
}
