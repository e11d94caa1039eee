use piri::text::{decimal_string, is_decimal_of, str_equal};

#[test]
fn decimal_string_prints_like_display() {
    assert_eq!(decimal_string(0), "0");
    assert_eq!(decimal_string(7), "7");
    assert_eq!(decimal_string(42), "42");
    assert_eq!(decimal_string(100), "100");
    assert_eq!(decimal_string(u64::MAX), u64::MAX.to_string());
}

#[test]
fn is_decimal_of_matches_exact_form_only() {
    assert!(is_decimal_of("3", 3));
    assert!(is_decimal_of("1234", 1234));
    assert!(!is_decimal_of("03", 3));
    assert!(!is_decimal_of("3 ", 3));
    assert!(!is_decimal_of("", 0));
    assert!(!is_decimal_of("main", 3));
}

#[test]
fn str_equal_compares_characters() {
    assert!(str_equal("main", "main"));
    assert!(!str_equal("main", "mail"));
    assert!(!str_equal("ma", "main"));
    assert!(str_equal("", ""));
    assert!(str_equal("工作", "工作"));
}

