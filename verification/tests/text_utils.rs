use abby_bot::text;
use abby_bot::text::{
    capitalize, join, parse_u64, split, split_terminator, str_eq_ignore_ascii_case, str_less,
    to_ascii_uppercase, trim_end_matches, u64_to_decimal,
};

#[test]
fn concat_joins_two_slices() {
    assert_eq!(text::concat("Hello", " World"), "Hello World");
    assert_eq!(text::concat("", ""), "");
}

#[test]
fn decimal_numbers() {
    assert_eq!(u64_to_decimal(0), "0");
    assert_eq!(u64_to_decimal(1234567890), "1234567890");
    assert_eq!(u64_to_decimal(u64::MAX), "18446744073709551615");
}

#[test]
fn parsing_numbers() {
    assert_eq!(parse_u64("42"), Some(42));
    assert_eq!(parse_u64("+12"), Some(12));
    assert_eq!(parse_u64("007"), Some(7));
    assert_eq!(parse_u64(""), None);
    assert_eq!(parse_u64("+"), None);
    assert_eq!(parse_u64("-1"), None);
    assert_eq!(parse_u64("12a"), None);
    assert_eq!(parse_u64("18446744073709551615"), Some(u64::MAX));
    assert_eq!(parse_u64("18446744073709551616"), None);
}

#[test]
fn decimal_reads_back() {
    for n in [0u64, 9, 10, 99, 100, 1 << 40, u64::MAX] {
        assert_eq!(parse_u64(&u64_to_decimal(n)), Some(n));
    }
}

#[test]
fn splitting() {
    assert_eq!(split("a/b/", '/'), vec!["a", "b", ""]);
    assert_eq!(split("", '/'), vec![""]);
    assert_eq!(split_terminator("a.b.", '.'), vec!["a", "b"]);
    assert_eq!(split_terminator("", '.'), Vec::<String>::new());
}

#[test]
fn joining() {
    let parts = vec![String::from("a"), String::from("b"), String::from("c")];
    assert_eq!(join(&parts, ", "), "a, b, c");
    assert_eq!(join(&Vec::new(), ", "), "");
}

#[test]
fn case_helpers() {
    assert_eq!(capitalize("roles"), "Roles");
    assert_eq!(capitalize(""), "");
    assert_eq!(to_ascii_uppercase("Manage Roles"), "MANAGE ROLES");
    assert!(str_eq_ignore_ascii_case("DeBuG", "debug"));
    assert!(!str_eq_ignore_ascii_case("debug", "debu"));
}

#[test]
fn trimming_and_order() {
    assert_eq!(trim_end_matches("data//", '/'), "data");
    assert_eq!(trim_end_matches("///", '/'), "");
    assert!(str_less("abc", "abd"));
    assert!(str_less("ab", "abc"));
    assert!(!str_less("b", "a"));
    assert!(!str_less("a", "a"));
}
