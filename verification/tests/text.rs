use satty_ipc::text::{decimal_string, join, same_text, starts_with, strip_prefix};

#[test]
fn same_text_compares_characters() {
    assert!(same_text("", ""));
    assert!(same_text("Ping", "Ping"));
    assert!(!same_text("Ping", "Pong"));
    assert!(!same_text("Ping", "Pin"));
    assert!(!same_text("Pin", "Ping"));
    assert!(same_text("größe", "größe"));
    assert!(!same_text("große", "größe"));
}

#[test]
fn starts_with_finds_a_prefix() {
    assert!(starts_with("Error: x", "Error:"));
    assert!(starts_with("Error:", "Error:"));
    assert!(starts_with("anything", ""));
    assert!(starts_with("", ""));
    assert!(!starts_with("Error", "Error:"));
    assert!(!starts_with("", "E"));
    assert!(!starts_with("error: x", "Error:"));
    assert!(starts_with("äöü", "äö"));
    assert!(!starts_with("aöü", "äö"));
}

#[test]
fn strip_prefix_returns_the_rest() {
    assert_eq!(strip_prefix("Error: boom", "Error: "), Some("boom"));
    assert_eq!(strip_prefix("Error: ", "Error: "), Some(""));
    assert_eq!(strip_prefix("Error:boom", "Error: "), None);
    assert_eq!(strip_prefix("abc", ""), Some("abc"));
    assert_eq!(strip_prefix("ab", "abc"), None);
    assert_eq!(strip_prefix("ä→b", "ä"), Some("→b"));
}

#[test]
fn join_concatenates() {
    assert_eq!(join("", ""), "");
    assert_eq!(join("a", ""), "a");
    assert_eq!(join("", "b"), "b");
    assert_eq!(join("Error: ", "no such file"), "Error: no such file");
}

#[test]
fn decimal_string_writes_numerals() {
    assert_eq!(decimal_string(0), "0");
    assert_eq!(decimal_string(7), "7");
    assert_eq!(decimal_string(9), "9");
    assert_eq!(decimal_string(10), "10");
    assert_eq!(decimal_string(105), "105");
    assert_eq!(decimal_string(1234567890), "1234567890");
    assert_eq!(decimal_string(u32::MAX), "4294967295");
}

#[test]
fn decimal_string_agrees_with_the_standard_formatting() {
    let samples: [u32; 12] = [0, 1, 9, 10, 11, 99, 100, 101, 999, 1000, 65535, 4294967294];
    for n in samples {
        assert_eq!(decimal_string(n), format!("{}", n));
    }
}
