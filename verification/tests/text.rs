use ggrs_plot_operator::lookup::find_last;
use ggrs_plot_operator::text::{
    copy_strings, decimal_string, eq_ignore_ascii_case, join, parse_i32, parse_usize,
    starts_with, str_eq,
};

#[test]
fn decimal_and_join() {
    assert_eq!(decimal_string(0), "0");
    assert_eq!(decimal_string(1234), "1234");
    let parts = vec!["a".to_string(), "b".to_string(), "c".to_string()];
    assert_eq!(join(&parts, ", "), "a, b, c");
    assert_eq!(join(&vec![], ", "), "");
    assert_eq!(copy_strings(&parts), parts);
}

#[test]
fn comparisons() {
    assert!(str_eq("abc", "abc"));
    assert!(!str_eq("abc", "abd"));
    assert!(eq_ignore_ascii_case("GPU", "gpu"));
    assert!(!eq_ignore_ascii_case("gpu", "gpus"));
    assert!(starts_with("color_3", "color_"));
    assert!(!starts_with("colo", "color_"));
}

#[test]
fn integer_parsing() {
    assert_eq!(parse_usize("42"), Some(42));
    assert_eq!(parse_usize("+7"), Some(7));
    assert_eq!(parse_usize(""), None);
    assert_eq!(parse_usize("-1"), None);
    assert_eq!(parse_usize("1x"), None);
    assert_eq!(parse_i32("-2147483648"), Some(i32::MIN));
    assert_eq!(parse_i32("2147483647"), Some(i32::MAX));
    assert_eq!(parse_i32("2147483648"), None);
    assert_eq!(parse_i32("-"), None);
    assert_eq!(parse_i32("+15"), Some(15));
}

#[test]
fn last_binding_of_a_key() {
    let pairs = vec![
        ("a".to_string(), "1".to_string()),
        ("b".to_string(), "2".to_string()),
        ("a".to_string(), "3".to_string()),
    ];
    assert_eq!(find_last(&pairs, "a"), Some(2));
    assert_eq!(find_last(&pairs, "b"), Some(1));
    assert_eq!(find_last(&pairs, "c"), None);
}
