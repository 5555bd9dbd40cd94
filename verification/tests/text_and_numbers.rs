use ot_gitlab_tools::decimal::{parse_u64_decimal, u64_to_decimal};
use ot_gitlab_tools::text::{chars_of, find_char, text_equals};

#[test]
fn decimal_formatting() {
    assert_eq!(u64_to_decimal(0), "0");
    assert_eq!(u64_to_decimal(7), "7");
    assert_eq!(u64_to_decimal(680), "680");
    assert_eq!(u64_to_decimal(1000), "1000");
    assert_eq!(u64_to_decimal(u64::MAX), "18446744073709551615");
}

#[test]
fn decimal_parsing_accepts_what_std_accepts() {
    assert_eq!(parse_u64_decimal("680"), Some(680));
    assert_eq!(parse_u64_decimal("+7"), Some(7));
    assert_eq!(parse_u64_decimal("007"), Some(7));
    assert_eq!(parse_u64_decimal("0"), Some(0));
    assert_eq!(parse_u64_decimal("18446744073709551615"), Some(u64::MAX));
}

#[test]
fn decimal_parsing_refuses_what_std_refuses() {
    assert_eq!(parse_u64_decimal(""), None);
    assert_eq!(parse_u64_decimal("+"), None);
    assert_eq!(parse_u64_decimal("-1"), None);
    assert_eq!(parse_u64_decimal("12a"), None);
    assert_eq!(parse_u64_decimal(" 12"), None);
    assert_eq!(parse_u64_decimal("++1"), None);
    assert_eq!(parse_u64_decimal("18446744073709551616"), None);
    assert_eq!(parse_u64_decimal("99999999999999999999x"), None);
}

#[test]
fn decimal_parsing_agrees_with_std() {
    for s in ["", "+", "-0", "0", "+0", "42", "0042", "1a", "18446744073709551615", "18446744073709551616", "४२"] {
        assert_eq!(parse_u64_decimal(s), s.parse::<u64>().ok(), "input {s:?}");
    }
}

#[test]
fn decimal_round_trip() {
    for n in [0u64, 1, 9, 10, 99, 100, 12345, 4294967296, u64::MAX - 1, u64::MAX] {
        assert_eq!(parse_u64_decimal(&u64_to_decimal(n)), Some(n));
        assert_eq!(u64_to_decimal(n), n.to_string());
    }
}

#[test]
fn text_helpers() {
    assert!(text_equals("abc", "abc"));
    assert!(!text_equals("abc", "abd"));
    assert!(!text_equals("abc", "ab"));
    assert_eq!(chars_of("aü!"), vec!['a', 'ü', '!']);
    assert_eq!(find_char(&chars_of("ab!c!"), '!'), Some(2));
    assert_eq!(find_char(&chars_of("abc"), '!'), None);
}
