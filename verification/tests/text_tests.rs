use webauth::utils::text::{contains_str, parse_decimal};

#[test]
fn parse_decimal_accepts_std_grammar() {
    assert_eq!(parse_decimal("0", 10), Some(0));
    assert_eq!(parse_decimal("+7", 10), Some(7));
    assert_eq!(parse_decimal("10", 10), Some(10));
    assert_eq!(parse_decimal("0010", 10), Some(10));
    assert_eq!(parse_decimal("65535", 65535), Some(65535));
    assert_eq!(parse_decimal("18446744073709551615", u64::MAX), Some(u64::MAX));
}

#[test]
fn parse_decimal_rejects_what_std_rejects() {
    assert_eq!(parse_decimal("11", 10), None);
    assert_eq!(parse_decimal("", 10), None);
    assert_eq!(parse_decimal("+", 10), None);
    assert_eq!(parse_decimal("-0", 10), None);
    assert_eq!(parse_decimal("++1", 10), None);
    assert_eq!(parse_decimal("1a", 10), None);
    assert_eq!(parse_decimal("18446744073709551616", u64::MAX), None);
    assert_eq!(parse_decimal("99999999999999999999999", u64::MAX), None);
}

#[test]
fn parse_decimal_agrees_with_std_for_u16() {
    for s in ["0", "1", "+1", "65535", "65536", "", "+", "-1", "0x10", "1 ", "٣", "00000000000000000000001"] {
        assert_eq!(parse_decimal(s, 65535).map(|v| v as u16), s.parse::<u16>().ok(), "{s:?}");
    }
}

#[test]
fn contains_str_finds_substrings() {
    assert!(contains_str("abc", ""));
    assert!(contains_str("abc", "abc"));
    assert!(contains_str("xxabcxx", "bc"));
    assert!(contains_str("ééa", "éa"));
    assert!(!contains_str("abc", "abcd"));
    assert!(!contains_str("abc", "ac"));
    assert!(!contains_str("", "a"));
}
