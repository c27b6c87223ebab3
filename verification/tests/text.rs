use cargo_mobile::text::{
    chars_of, contains_char, contains_str, ends_with, join_strs, lines_of, listed,
    split_str, starts_with, string_of, strip_prefix, trim, trim_end, with_char,
};

fn strings(items: &[&str]) -> Vec<String> {
    items.iter().map(|s| s.to_string()).collect()
}

#[test]
fn characters_go_in_and_out() {
    assert_eq!(chars_of("héllo"), vec!['h', 'é', 'l', 'l', 'o']);
    let chars = chars_of("abcdef");
    assert_eq!(string_of(&chars, 1, 4), "bcd");
    assert_eq!(string_of(&chars, 0, 0), "");
    assert_eq!(with_char(String::from("ab"), 'c'), "abc");
}

#[test]
fn split_gives_the_pieces_between_separators() {
    assert_eq!(split_str("a.b.c", '.'), strings(&["a", "b", "c"]));
    assert_eq!(split_str("", '.'), strings(&[""]));
    assert_eq!(split_str(".", '.'), strings(&["", ""]));
    assert_eq!(split_str("a..b", '.'), strings(&["a", "", "b"]));
    assert_eq!(split_str(".a.", '.'), strings(&["", "a", ""]));
    assert_eq!(split_str("abc", '.'), strings(&["abc"]));
}

#[test]
fn split_agrees_with_the_standard_split() {
    for text in ["", ".", "..", "a", "a.b", ".a", "a.", "com.example.app", "ラスト.テスト"] {
        let expected: Vec<String> = text.split('.').map(|s| s.to_string()).collect();
        assert_eq!(split_str(text, '.'), expected);
    }
}

#[test]
fn join_puts_the_separator_between_neighbours() {
    assert_eq!(join_strs(&strings(&[]), ", "), "");
    assert_eq!(join_strs(&strings(&["a"]), ", "), "a");
    assert_eq!(join_strs(&strings(&["a", "b", "c"]), ", "), "a, b, c");
    assert_eq!(join_strs(&strings(&["", ""]), "."), ".");
}

#[test]
fn joining_a_split_gives_the_text_back() {
    for text in ["", ".", "a.b", "..a..", "com.example"] {
        assert_eq!(join_strs(&split_str(text, '.'), "."), text);
    }
}

#[test]
fn prefixes_and_suffixes() {
    assert!(starts_with("hello", "he"));
    assert!(starts_with("hello", ""));
    assert!(!starts_with("hello", "lo"));
    assert!(!starts_with("he", "hello"));
    assert!(ends_with("hello", "lo"));
    assert!(ends_with("hello", ""));
    assert!(!ends_with("hello", "he"));
    assert_eq!(strip_prefix("hello", "he"), Some(String::from("llo")));
    assert_eq!(strip_prefix("hello", "x"), None);
    assert_eq!(strip_prefix("hello", "hello"), Some(String::new()));
}

#[test]
fn containment() {
    assert!(contains_char("a b", ' '));
    assert!(!contains_char("ab", ' '));
    assert!(contains_str("/Applications/Xcode.app/Contents/Developer", "Xcode.app"));
    assert!(contains_str("abc", ""));
    assert!(contains_str("", ""));
    assert!(!contains_str("abc", "abcd"));
    assert!(!contains_str("aab", "abb"));
    assert!(contains_str("aaab", "aab"));
    assert!(listed(&strings(&["a", "b"]), "b"));
    assert!(!listed(&strings(&["a", "b"]), "c"));
}

#[test]
fn lines_agree_with_the_standard_lines() {
    for text in ["", "a", "a\n", "a\nb", "a\r\nb\r\n", "a\rb", "a\r", "\n", "\n\n", "a\n\nb", "\r\n"] {
        let expected: Vec<String> = text.lines().map(|s| s.to_string()).collect();
        assert_eq!(lines_of(text), expected, "{:?}", text);
    }
}

#[test]
fn trimming_agrees_with_the_standard_trim() {
    for text in ["", " ", "a", " a ", "\ta b\r\n", "\u{a0}x\u{3000}", "x\u{200b}", "  \n"] {
        assert_eq!(trim(text), text.trim(), "{:?}", text);
        assert_eq!(trim_end(text), text.trim_end(), "{:?}", text);
    }
}
