use media_downloader::text::{
    chars_of, concat_str, contains_str, decimal_string, eq_ignore_ascii_case_str, owned,
    replace_char_str, trim_str,
};

#[test]
fn trim_removes_surrounding_white_space() {
    assert_eq!(trim_str("  hello world \n"), "hello world");
    assert_eq!(trim_str("\t\r\n"), "");
    assert_eq!(trim_str(""), "");
    assert_eq!(trim_str("\u{3000}x\u{a0}"), "x");
    assert_eq!(trim_str("a b"), "a b");
}

#[test]
fn trim_twice_is_trim_once() {
    for s in ["  y \n", "\n\n", "x", " \u{2028} a \u{2029} "] {
        let once = trim_str(s);
        assert_eq!(trim_str(&once), once);
        assert_eq!(once, s.trim());
    }
}

#[test]
fn contains_finds_pieces() {
    assert!(contains_str("['Music']", "Music"));
    assert!(contains_str("abc", ""));
    assert!(contains_str("abc", "abc"));
    assert!(!contains_str("abc", "abcd"));
    assert!(!contains_str("Musi", "Music"));
    assert!(contains_str("xxMusic", "Music"));
}

#[test]
fn ascii_case_is_ignored_only_for_ascii() {
    assert!(eq_ignore_ascii_case_str("y", "Y"));
    assert!(eq_ignore_ascii_case_str("HeLLo", "hello"));
    assert!(!eq_ignore_ascii_case_str("yes", "y"));
    assert!(!eq_ignore_ascii_case_str("é", "É"));
    assert!(eq_ignore_ascii_case_str("", ""));
}

#[test]
fn replace_char_replaces_every_occurrence() {
    assert_eq!(replace_char_str("C:/a/b.mp4", '/', '\\'), "C:\\a\\b.mp4");
    assert_eq!(replace_char_str("none", '/', '\\'), "none");
}

#[test]
fn decimal_string_writes_numbers() {
    assert_eq!(decimal_string(0), "0");
    assert_eq!(decimal_string(7), "7");
    assert_eq!(decimal_string(28), "28");
    assert_eq!(decimal_string(1000), "1000");
    assert_eq!(decimal_string(u64::MAX), u64::MAX.to_string());
}

#[test]
fn concat_and_copies() {
    assert_eq!(concat_str("test_", "123"), "test_123");
    assert_eq!(concat_str("", ""), "");
    assert_eq!(owned("Vidéo"), "Vidéo");
    assert_eq!(chars_of("héllo"), vec!['h', 'é', 'l', 'l', 'o']);
}
