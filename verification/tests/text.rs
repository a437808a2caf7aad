use rust_canvas_mcp::text::{
    chars_of, contains_char, decimal_text, ends_with, join, same_text, starts_with, take_chars,
    trim_end_matches, trim_start_matches,
};

#[test]
fn chars_come_in_order() {
    assert_eq!(chars_of("aßc"), vec!['a', 'ß', 'c']);
    assert_eq!(chars_of(""), Vec::<char>::new());
}

#[test]
fn ends_with_compares_the_last_characters() {
    assert!(ends_with("https://x.edu/api/v1", "/api/v1"));
    assert!(ends_with("/api/v1", "/api/v1"));
    assert!(ends_with("abc", ""));
    assert!(ends_with("", ""));
    assert!(!ends_with("api/v1", "/api/v1"));
    assert!(!ends_with("https://x.edu/api/v2", "/api/v1"));
    assert!(!ends_with("https://x.edu/api/v1/", "/api/v1"));
    assert!(ends_with("grüße", "üße"));
}

#[test]
fn starts_with_compares_the_first_characters() {
    assert!(starts_with("https://x.edu", "https://"));
    assert!(starts_with("http://", "http://"));
    assert!(starts_with("abc", ""));
    assert!(!starts_with("http:/", "http://"));
    assert!(!starts_with("xhttp://", "http://"));
    assert!(starts_with("über", "üb"));
}

#[test]
fn same_text_is_equality() {
    assert!(same_text("true", "true"));
    assert!(same_text("", ""));
    assert!(!same_text("true", "True"));
    assert!(!same_text("true", "tru"));
    assert!(!same_text("tru", "true"));
}

#[test]
fn trim_end_takes_the_whole_run() {
    assert_eq!(trim_end_matches("https://x.edu///", '/'), "https://x.edu");
    assert_eq!(trim_end_matches("https://x.edu", '/'), "https://x.edu");
    assert_eq!(trim_end_matches("a/b/", '/'), "a/b");
    assert_eq!(trim_end_matches("///", '/'), "");
    assert_eq!(trim_end_matches("", '/'), "");
    assert_eq!(trim_end_matches("é/", '/'), "é");
}

#[test]
fn trim_start_takes_the_whole_run() {
    assert_eq!(trim_start_matches("///courses/1", '/'), "courses/1");
    assert_eq!(trim_start_matches("courses/", '/'), "courses/");
    assert_eq!(trim_start_matches("///", '/'), "");
    assert_eq!(trim_start_matches("", '/'), "");
    assert_eq!(trim_start_matches("/é", '/'), "é");
}

#[test]
fn take_chars_counts_characters() {
    assert_eq!(take_chars("hello", 2), "he");
    assert_eq!(take_chars("hello", 5), "hello");
    assert_eq!(take_chars("hello", 9), "hello");
    assert_eq!(take_chars("hello", 0), "");
    assert_eq!(take_chars("żółw", 2), "żó");
    assert_eq!(take_chars("", 3), "");
}

#[test]
fn join_puts_one_text_behind_the_other() {
    assert_eq!(join("Bearer ", "t"), "Bearer t");
    assert_eq!(join("", ""), "");
}

#[test]
fn decimal_text_has_no_leading_zeros() {
    assert_eq!(decimal_text(0), "0");
    assert_eq!(decimal_text(7), "7");
    assert_eq!(decimal_text(10), "10");
    assert_eq!(decimal_text(404), "404");
    assert_eq!(decimal_text(1234), "1234");
    assert_eq!(decimal_text(65535), "65535");
    for n in [1u16, 9, 19, 99, 100, 101, 999, 1000, 9999, 10000, 60000] {
        assert_eq!(decimal_text(n), n.to_string());
    }
}

#[test]
fn contains_char_finds_a_character_anywhere() {
    assert!(contains_char("courses/7", '/'));
    assert!(contains_char("/", '/'));
    assert!(contains_char("a/", '/'));
    assert!(!contains_char("courses", '/'));
    assert!(!contains_char("", '/'));
    assert!(contains_char("grüße", 'ß'));
}
