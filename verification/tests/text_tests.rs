use mekai::text::{byte_len, byte_prefix, starts_with, str_eq, usize_to_string};
use mekai::text_split::{blank, has_char, split_lines, split_words, trim};

fn strs(v: &[String]) -> Vec<&str> {
    v.iter().map(|s| s.as_str()).collect()
}

#[test]
fn words_are_split_at_any_white_space() {
    let w = split_words("  /todo  add\tbuy milk \n");
    assert_eq!(strs(&w), vec!["/todo", "add", "buy", "milk"]);
    assert!(split_words("   ").is_empty());
    assert_eq!(strs(&split_words("a\u{3000}b")), vec!["a", "b"]);
}

#[test]
fn lines_drop_carriage_returns_and_a_final_break() {
    let l = split_lines("a\r\nb\n\nc\n");
    assert_eq!(strs(&l), vec!["a", "b", "", "c"]);
    assert!(split_lines("").is_empty());
    assert_eq!(strs(&split_lines("x\r")), vec!["x\r"]);
}

#[test]
fn trimming_and_blank_text() {
    assert_eq!(trim("  hi there \n"), "hi there");
    assert_eq!(trim(" \t "), "");
    assert!(blank(" \n\t"));
    assert!(!blank(" x "));
    assert!(has_char("git@host:repo", ':'));
    assert!(!has_char("abc", ':'));
}

#[test]
fn decimal_rendering_and_byte_prefixes() {
    assert_eq!(usize_to_string(0), "0");
    assert_eq!(usize_to_string(1203), "1203");
    assert_eq!(byte_prefix("héllo", 3), "hé");
    assert_eq!(byte_prefix("abcdefghij", 8), "abcdefgh");
}

#[test]
fn byte_lengths_equality_and_prefixes_follow_the_characters() {
    assert_eq!(byte_len(""), 0);
    assert_eq!(byte_len("héllo"), 6);
    assert!(str_eq("héllo", "héllo"));
    assert!(!str_eq("héllo", "hello"));
    assert!(!str_eq("ab", "abc"));
    assert!(starts_with("héllo", "hé"));
    assert!(starts_with("héllo", ""));
    assert!(starts_with("héllo", "héllo"));
    assert!(!starts_with("héllo", "he"));
    assert!(!starts_with("hé", "héllo"));
    assert!(!starts_with("\u{e9}", "\u{e8}"));
}
