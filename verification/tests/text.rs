use riftbar::text::{
    begins_with, chars_of, contains, find_char, joined, push_decimal, strip_prefix, take_chars,
};

#[test]
fn take_chars_cuts_after_x_characters() {
    assert_eq!(take_chars("hello", 0), "");
    assert_eq!(take_chars("hello", 2), "he");
    assert_eq!(take_chars("hello", 5), "hello");
    assert_eq!(take_chars("hello", 6), "hello");
    assert_eq!(take_chars("hello", u64::MAX), "hello");
    assert_eq!(take_chars("", 0), "");
    assert_eq!(take_chars("", 3), "");
}

#[test]
fn take_chars_counts_characters_not_bytes() {
    assert_eq!(take_chars("\u{e4}\u{f6}\u{fc}xyz", 2), "\u{e4}\u{f6}");
    assert_eq!(take_chars("\u{1f600}a", 1), "\u{1f600}");
    assert_eq!(take_chars("a\u{1f600}", 1), "a");
}

#[test]
fn chars_of_a_string() {
    assert_eq!(chars_of("a\u{e4}/b"), vec!['a', '\u{e4}', '/', 'b']);
    assert_eq!(chars_of(""), Vec::<char>::new());
}

#[test]
fn joined_strings() {
    assert_eq!(joined("ab", "cd"), "abcd");
    assert_eq!(joined("", "cd"), "cd");
    assert_eq!(joined("ab", ""), "ab");
}

#[test]
fn begins_with_char() {
    assert!(begins_with("/path", '/'));
    assert!(!begins_with("path/", '/'));
    assert!(!begins_with("", '/'));
}

#[test]
fn find_char_gives_the_first() {
    assert_eq!(find_char(&chars_of("a/b/c"), '/'), Some(1));
    assert_eq!(find_char(&chars_of("/"), '/'), Some(0));
    assert_eq!(find_char(&chars_of("abc"), '/'), None);
    assert_eq!(find_char(&chars_of(""), '/'), None);
    assert_eq!(find_char(&chars_of("\u{e4}\u{e4}/"), '/'), Some(2));
}

#[test]
fn contains_finds_substrings() {
    assert!(contains("org.discord.app", "discord"));
    assert!(contains("discord", "discord"));
    assert!(contains("xdiscord", "discord"));
    assert!(contains("discordx", "discord"));
    assert!(!contains("discor", "discord"));
    assert!(!contains("disc0rd", "discord"));
    assert!(contains("anything", ""));
    assert!(contains("", ""));
    assert!(!contains("", "a"));
    assert!(contains("aab", "ab"));
    assert!(contains("ababac", "abac"));
}

#[test]
fn decimal_numerals() {
    let mut s = String::from("n=");
    push_decimal(&mut s, 0);
    assert_eq!(s, "n=0");
    push_decimal(&mut s, 7);
    assert_eq!(s, "n=07");
    push_decimal(&mut s, 120);
    assert_eq!(s, "n=07120");
    let mut s = String::new();
    push_decimal(&mut s, 4294967295);
    assert_eq!(s, "4294967295");
    let mut s = String::new();
    push_decimal(&mut s, 1000000);
    assert_eq!(s, "1000000");
}

#[test]
fn prefix_is_cut_off() {
    assert_eq!(strip_prefix("custom/weather", "custom/"), Some("weather".to_string()));
    assert_eq!(strip_prefix("custom/", "custom/"), Some("".to_string()));
    assert_eq!(strip_prefix("custom", "custom/"), None);
    assert_eq!(strip_prefix("xcustom/weather", "custom/"), None);
    assert_eq!(strip_prefix("abc", ""), Some("abc".to_string()));
    assert_eq!(strip_prefix("", ""), Some("".to_string()));
    assert_eq!(strip_prefix("", "a"), None);
    assert_eq!(strip_prefix("\u{e4}\u{f6}x", "\u{e4}"), Some("\u{f6}x".to_string()));
}
