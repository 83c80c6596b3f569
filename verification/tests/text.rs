use chat_tui::text::{
    chars_of, contains, i32_to_string, i64_to_string, insert_char, is_whitespace, parse_i32,
    remove_char, u64_to_string,
};

#[test]
fn insert_char_at_each_position() {
    assert_eq!(insert_char("abc", 0, 'x'), "xabc");
    assert_eq!(insert_char("abc", 2, 'x'), "abxc");
    assert_eq!(insert_char("abc", 3, 'x'), "abcx");
    assert_eq!(insert_char("", 0, '群'), "群");
    assert_eq!(insert_char("你好", 1, 'a'), "你a好");
    assert_eq!(insert_char("abc", 9, 'x'), "abcx");
}

#[test]
fn remove_char_at_each_position() {
    assert_eq!(remove_char("abc", 0), "bc");
    assert_eq!(remove_char("abc", 2), "ab");
    assert_eq!(remove_char("abc", 3), "abc");
    assert_eq!(remove_char("你群好", 1), "你好");
    assert_eq!(remove_char("", 0), "");
}

#[test]
fn integers_are_written_in_base_ten() {
    assert_eq!(u64_to_string(0), "0");
    assert_eq!(u64_to_string(7), "7");
    assert_eq!(u64_to_string(1203), "1203");
    assert_eq!(u64_to_string(u64::MAX), u64::MAX.to_string());
    assert_eq!(i64_to_string(-1), "-1");
    assert_eq!(i64_to_string(i64::MIN), i64::MIN.to_string());
    assert_eq!(i64_to_string(i64::MAX), i64::MAX.to_string());
    assert_eq!(i32_to_string(-45), "-45");
    assert_eq!(i32_to_string(i32::MIN), "-2147483648");
}

#[test]
fn parse_i32_reads_what_std_reads() {
    for text in [
        "0", "7", "42", "-3", "+5", "007", "-0", "2147483647", "2147483648", "-2147483648",
        "-2147483649", "99999999999999999999", "", "-", "+", "all", "1a", "a1", " 1", "1 ", "--1",
        "１",
    ] {
        assert_eq!(parse_i32(text), text.parse::<i32>().ok(), "{text:?}");
    }
}

#[test]
fn parse_i32_reads_back_what_was_written() {
    for n in [0, 1, -1, 9, 10, 99, 100, i32::MAX, i32::MIN, 123456] {
        assert_eq!(parse_i32(&i32_to_string(n)), Some(n));
    }
}

#[test]
fn contains_finds_a_text_within_a_text() {
    assert!(contains("alice", "lic"));
    assert!(contains("alice", "alice"));
    assert!(contains("alice", ""));
    assert!(contains("", ""));
    assert!(contains("张三丰", "三"));
    assert!(!contains("alice", "bob"));
    assert!(!contains("alice", "alicee"));
    assert!(!contains("", "a"));
    assert!(contains("aab", "ab"));
}

#[test]
fn chars_of_gives_the_characters() {
    assert_eq!(chars_of("a群b"), vec!['a', '群', 'b']);
    assert_eq!(chars_of(""), Vec::<char>::new());
}

#[test]
fn utf8_widths_and_byte_indices() {
    assert_eq!(chat_tui::text::utf8_width('a'), 1);
    assert_eq!(chat_tui::text::utf8_width('é'), 2);
    assert_eq!(chat_tui::text::utf8_width('群'), 3);
    assert_eq!(chat_tui::text::utf8_width('😄'), 4);
    let text = "a群é😄z";
    for (n, (at, _)) in text.char_indices().enumerate() {
        assert_eq!(chat_tui::text::byte_index_of(text, n), at);
    }
    assert_eq!(chat_tui::text::byte_index_of(text, 5), text.len());
    assert_eq!(chat_tui::text::byte_index_of(text, 50), text.len());
    assert_eq!(chat_tui::text::byte_index_of("", 0), 0);
}

#[test]
fn white_space_is_what_std_takes_for_white_space() {
    for code in 0..=0x10FFFFu32 {
        if let Some(c) = char::from_u32(code) {
            assert_eq!(is_whitespace(c), c.is_whitespace(), "U+{code:04X}");
        }
    }
}

#[test]
fn white_space_code_points() {
    for c in ['\t', '\n', '\u{0B}', '\u{0C}', '\r', ' ', '\u{85}', '\u{A0}', '\u{1680}', '\u{2000}',
        '\u{200A}', '\u{2028}', '\u{2029}', '\u{202F}', '\u{205F}', '\u{3000}']
    {
        assert!(is_whitespace(c), "{c:?}");
    }
    for c in ['a', '0', '\u{08}', '\u{0E}', '\u{1F}', '\u{200B}', '\u{180E}', '\u{FEFF}', '群'] {
        assert!(!is_whitespace(c), "{c:?}");
    }
}
