use tui_client::text::{
    contains_str, eq_ignore_ascii_case, is_blank_str, join_from, replace_str, same_text,
    split_whitespace, starts_with_str, trim_str, u32_to_text, u64_to_text, u64_to_two_digits,
};

#[test]
fn split_whitespace_finds_words() {
    assert_eq!(split_whitespace("  say  hello\tworld \n"), vec!["say", "hello", "world"]);
    assert!(split_whitespace("   ").is_empty());
    assert!(split_whitespace("").is_empty());
}

#[test]
fn join_from_skips_the_first_parts() {
    let parts: Vec<String> = vec!["say".into(), "hello".into(), "world".into()];
    assert_eq!(join_from(&parts, 1, " "), "hello world");
    assert_eq!(join_from(&parts, 3, " "), "");
    assert_eq!(join_from(&parts, 0, ", "), "say, hello, world");
}

#[test]
fn blank_texts() {
    assert!(is_blank_str(""));
    assert!(is_blank_str(" \t\n"));
    assert!(!is_blank_str(" a "));
}

#[test]
fn text_comparisons() {
    assert!(same_text("abc", "abc"));
    assert!(!same_text("abc", "abd"));
    assert!(!same_text("abc", "ab"));
    assert!(eq_ignore_ascii_case("Alice", "aLICE"));
    assert!(!eq_ignore_ascii_case("Alice", "Alicia"));
    assert!(!eq_ignore_ascii_case("É", "é"));
}

#[test]
fn searching_texts() {
    assert!(contains_str("hello world", "o w"));
    assert!(contains_str("hello", ""));
    assert!(!contains_str("hello", "world"));
    assert!(starts_with_str("[END] bye", "[END]"));
    assert!(!starts_with_str("bye [END]", "[END]"));
}

#[test]
fn replacing_and_trimming() {
    assert_eq!(replace_str("a-b-c", "-", ""), "abc");
    assert_eq!(replace_str("aaa", "aa", "b"), "ba");
    assert_eq!(replace_str("none", "x", "y"), "none");
    assert_eq!(trim_str("  padded \t"), "padded");
    assert_eq!(trim_str("   "), "");
}

#[test]
fn decimal_numbers() {
    assert_eq!(u32_to_text(0), "0");
    assert_eq!(u32_to_text(42), "42");
    assert_eq!(u32_to_text(u32::MAX), u32::MAX.to_string());
    assert_eq!(u64_to_text(u64::MAX), u64::MAX.to_string());
    assert_eq!(u64_to_two_digits(7), "07");
    assert_eq!(u64_to_two_digits(59), "59");
    assert_eq!(u64_to_two_digits(125), "125");
}
