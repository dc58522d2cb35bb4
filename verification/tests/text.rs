use tauri_leptos_core::text::{
    concat2, concat3, contains_str, is_white_space_char, str_eq, str_is_blank, str_starts_with,
};

#[test]
fn white_space_matches_char_is_whitespace() {
    for u in 0u32..0x3100 {
        if let Some(c) = char::from_u32(u) {
            assert_eq!(is_white_space_char(c), c.is_whitespace(), "U+{u:04X}");
        }
    }
    assert!(str_is_blank(""));
    assert!(str_is_blank(" \u{85}\u{202f}"));
    assert!(!str_is_blank(" x "));
}

#[test]
fn string_helpers() {
    assert!(str_eq("abc", "abc"));
    assert!(!str_eq("abc", "abd"));
    assert!(!str_eq("ab", "abc"));
    assert!(str_starts_with("https://x", "https://"));
    assert!(!str_starts_with("http", "https://"));
    assert!(contains_str(&["a".to_owned(), "b".to_owned()], "b"));
    assert!(!contains_str(&[], "b"));
    assert_eq!(concat2("a", "b"), "ab");
    assert_eq!(concat3("a", "b", "c"), "abc");
}
