use hcloud_projects::text::{decimal, same_text, starts_with};

#[test]
fn a_text_starts_with_its_prefixes() {
    assert!(starts_with("https://console.hetzner.cloud/#a", "https://console.hetzner.cloud"));
    assert!(starts_with("abc", ""));
    assert!(starts_with("abc", "abc"));
    assert!(starts_with("", ""));
    assert!(!starts_with("abc", "abcd"));
    assert!(!starts_with("abc", "b"));
    assert!(!starts_with("", "a"));
    assert!(!starts_with("Abc", "a"));
}

#[test]
fn prefixes_are_compared_by_character() {
    assert!(starts_with("\u{e9}t\u{e9}", "\u{e9}"));
    assert!(!starts_with("\u{e9}t\u{e9}", "\u{e8}"));
    assert!(!starts_with("e\u{301}", "\u{e9}"));
}

#[test]
fn texts_are_the_same_if_their_characters_are() {
    assert!(same_text("", ""));
    assert!(same_text("login", "login"));
    assert!(!same_text("login", "login "));
    assert!(!same_text("login", "Login"));
    assert!(!same_text("login", "logi"));
    assert!(!same_text("", "x"));
    assert!(same_text("\u{1f600}", "\u{1f600}"));
}

#[test]
fn numbers_are_written_in_decimal_notation() {
    assert_eq!(decimal(0), "0");
    assert_eq!(decimal(7), "7");
    assert_eq!(decimal(9), "9");
    assert_eq!(decimal(10), "10");
    assert_eq!(decimal(25), "25");
    assert_eq!(decimal(1090), "1090");
    assert_eq!(decimal(1234567890), "1234567890");
    assert_eq!(decimal(u32::MAX), "4294967295");
}
