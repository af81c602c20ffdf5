use ai_task_manager::text::{chars_of, decimal_text, is_blank, signed_decimal_text, text_no_later, text_or_else};

#[test]
fn blank_texts_are_those_trim_empties() {
    assert!(is_blank(""));
    assert!(is_blank("   "));
    assert!(is_blank(" \t\n\r"));
    assert!(is_blank("\u{3000}\u{00a0}"));
    assert!(!is_blank(" a "));
    assert!(!is_blank("task"));
    assert!(!is_blank("_"));
}

#[test]
fn decimal_text_matches_to_string() {
    assert_eq!(decimal_text(0), "0");
    assert_eq!(decimal_text(7), "7");
    assert_eq!(decimal_text(10), "10");
    assert_eq!(decimal_text(1700000000123), "1700000000123");
    assert_eq!(decimal_text(u128::MAX), u128::MAX.to_string());
}

#[test]
fn signed_decimal_text_matches_to_string() {
    assert_eq!(signed_decimal_text(0), "0");
    assert_eq!(signed_decimal_text(42), "42");
    assert_eq!(signed_decimal_text(-42), "-42");
    assert_eq!(signed_decimal_text(i64::MIN), i64::MIN.to_string());
    assert_eq!(signed_decimal_text(i64::MAX), i64::MAX.to_string());
}

#[test]
fn text_order_is_code_point_order() {
    assert!(text_no_later("", "a"));
    assert!(text_no_later("abc", "abc"));
    assert!(text_no_later("ab", "abc"));
    assert!(!text_no_later("abc", "ab"));
    assert!(text_no_later("1000", "999"));
    assert!(!text_no_later("999", "1000"));
    assert!(text_no_later("Z", "a"));
    assert!(text_no_later("z", "\u{e9}"));
}

#[test]
fn chars_of_lists_the_characters() {
    assert_eq!(chars_of("h\u{e9}llo"), vec!['h', '\u{e9}', 'l', 'l', 'o']);
    assert_eq!(chars_of(""), Vec::<char>::new());
}

#[test]
fn text_or_else_takes_the_value_or_the_fallback() {
    assert_eq!(text_or_else(Some("x".to_string()), "json"), "x");
    assert_eq!(text_or_else(None, "json"), "json");
}
