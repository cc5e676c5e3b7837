use dzsspeedy::text::{parse_u32, split_first_words, str_contains, str_eq};

#[test]
fn parses_u32_like_str_parse() {
    assert_eq!(parse_u32("42"), Some(42));
    assert_eq!(parse_u32("+7"), Some(7));
    assert_eq!(parse_u32("0004294967295"), Some(4_294_967_295));
    assert_eq!(parse_u32("4294967296"), None);
    assert_eq!(parse_u32(""), None);
    assert_eq!(parse_u32("+"), None);
    assert_eq!(parse_u32("-0"), None);
    assert_eq!(parse_u32("12a"), None);
    assert_eq!(parse_u32(" 1"), None);
    for s in ["0", "1", "65535", "99999999999", "+0", "++1"] {
        assert_eq!(parse_u32(s), s.parse::<u32>().ok(), "{s}");
    }
}

#[test]
fn splits_the_first_two_words() {
    assert_eq!(split_first_words("  INJECT   42  extra"), ("INJECT".to_string(), Some("42".to_string())));
    assert_eq!(split_first_words("PING"), ("PING".to_string(), None));
    assert_eq!(split_first_words("   "), (String::new(), None));
    assert_eq!(split_first_words("a\u{3000}b"), ("a".to_string(), Some("b".to_string())));
}

#[test]
fn compares_and_searches_strings() {
    assert!(str_eq("abc", "abc"));
    assert!(!str_eq("abc", "abd"));
    assert!(str_contains("SP_Install: FAILED", "FAILED"));
    assert!(str_contains("x", ""));
    assert!(!str_contains("FAIL", "FAILED"));
}
