use gleanmark::text::{
    chars_of, contains_char, decimal_string, is_blank, join, replace_char, str_eq, string_of, trim,
    trim_end_char, trim_start_char, utf8_len_at_least,
};

#[test]
fn trim_removes_unicode_white_space_at_both_ends() {
    assert_eq!(trim("  a b \t\n"), "a b");
    assert_eq!(trim("\u{3000}中文\u{3000}"), "中文");
    assert_eq!(trim("   "), "");
    assert_eq!(trim(""), "");
    assert_eq!(trim("x"), "x");
}

#[test]
fn blank_means_only_white_space() {
    assert!(is_blank(""));
    assert!(is_blank(" \t\n"));
    assert!(!is_blank(" a "));
}

#[test]
fn trims_single_characters() {
    assert_eq!(trim_end_char("https://x.io///", '/'), "https://x.io");
    assert_eq!(trim_end_char("///", '/'), "");
    assert_eq!(trim_start_char("//a/b", '/'), "a/b");
    assert_eq!(trim_start_char("a", '/'), "a");
}

#[test]
fn joins_and_replaces() {
    let words = vec!["a".to_string(), "b".to_string(), "c".to_string()];
    assert_eq!(join(&words, ", "), "a, b, c");
    assert_eq!(join(&Vec::new(), ", "), "");
    assert_eq!(join(&vec!["only".to_string()], " "), "only");
    assert_eq!(replace_char("it's 'x'", '\'', "\\'"), "it\\'s \\'x\\'");
}

#[test]
fn decimal_text_of_numbers() {
    assert_eq!(decimal_string(0), "0");
    assert_eq!(decimal_string(7), "7");
    assert_eq!(decimal_string(1234567890), "1234567890");
    assert_eq!(decimal_string(u64::MAX), u64::MAX.to_string());
}

#[test]
fn character_helpers() {
    assert!(str_eq("abc", "abc"));
    assert!(!str_eq("abc", "abd"));
    assert!(!str_eq("ab", "abc"));
    assert!(contains_char("a@b", '@'));
    assert!(!contains_char("ab", '@'));
    assert_eq!(string_of(&chars_of("héllo")), "héllo");
    assert!(utf8_len_at_least("a@b", 3));
    assert!(!utf8_len_at_least("@b", 3));
    assert!(utf8_len_at_least("é@", 3));
    assert!(utf8_len_at_least("", 0));
}

#[test]
fn white_space_is_the_unicode_property() {
    assert!(is_blank(" \t\n\r\u{b}\u{c}\u{85}\u{a0}\u{1680}\u{2000}\u{200a}\u{2028}\u{2029}\u{202f}\u{205f}\u{3000}"));
    assert!(!is_blank("\u{200b}"));
    assert!(!is_blank("\u{feff}"));
    assert_eq!(trim("\u{3000}词\u{85}"), "词");
}
