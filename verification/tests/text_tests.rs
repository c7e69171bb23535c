use rust_agent::text::{
    char_is_whitespace, decimal_string, lines_of, replace_text, str_contains, str_eq,
    str_is_blank, to_chars,
};

#[test]
fn equality_compares_characters() {
    assert!(str_eq("", ""));
    assert!(str_eq("héllo", "héllo"));
    assert!(!str_eq("hello", "hellp"));
    assert!(!str_eq("hello", "hell"));
}

#[test]
fn blank_means_only_whitespace() {
    assert!(str_is_blank(""));
    assert!(str_is_blank(" \t\r\n\u{3000}\u{a0}\u{2003}"));
    assert!(!str_is_blank(" a "));
    assert!(!str_is_blank("\u{200b}"));
    for code in 0u32..0x3100 {
        if let Some(c) = char::from_u32(code) {
            assert_eq!(char_is_whitespace(c), c.is_whitespace(), "code point {:x}", code);
        }
    }
}

#[test]
fn contains_finds_a_part_anywhere() {
    assert!(str_contains("hello world", "lo w"));
    assert!(str_contains("hello", ""));
    assert!(str_contains("", ""));
    assert!(str_contains("查询天气", "天气"));
    assert!(!str_contains("hello", "world"));
    assert!(!str_contains("ab", "abc"));
    assert!(str_contains("aab", "ab"));
}

#[test]
fn lines_split_at_line_feeds() {
    assert_eq!(lines_of(""), Vec::<String>::new());
    assert_eq!(lines_of("one"), vec!["one"]);
    assert_eq!(lines_of("one\n"), vec!["one"]);
    assert_eq!(lines_of("one\r\ntwo\n\nthree"), vec!["one", "two", "", "three"]);
    assert_eq!(lines_of("\n"), vec![""]);
    assert_eq!(lines_of("a\rb\r"), vec!["a\rb\r"]);
    for text in ["", "a", "a\n", "a\r\n", "\r\n\r\n", "x\ny\r\nz\r", "\n\nq"] {
        let expected: Vec<String> = text.lines().map(|l| l.to_string()).collect();
        assert_eq!(lines_of(text), expected, "text {:?}", text);
    }
}

#[test]
fn replace_puts_text_in_the_place_of_each_occurrence() {
    assert_eq!(replace_text("a{x}b{x}", "{x}", "12"), "a12b12");
    assert_eq!(replace_text("aaa", "aa", "b"), "ba");
    assert_eq!(replace_text("abc", "", "z"), "zazbzcz");
    assert_eq!(replace_text("", "", "z"), "z");
    for (text, pattern, with) in [("abc", "", "-"), ("aaaa", "aa", "b"), ("x{y}", "{y}", ""), ("", "q", "r")] {
        assert_eq!(replace_text(text, pattern, with), text.replace(pattern, with));
    }
    assert_eq!(replace_text("abc", "abcd", "z"), "abc");
    assert_eq!(replace_text("", "a", "z"), "");
    assert_eq!(replace_text("天气 天气", "天气", "w"), "w w");
}

#[test]
fn characters_come_out_one_by_one() {
    assert_eq!(to_chars("aé天"), vec!['a', 'é', '天']);
    assert_eq!(to_chars(""), Vec::<char>::new());
}

#[test]
fn numbers_are_written_in_decimal_digits() {
    assert_eq!(decimal_string(0), "0");
    assert_eq!(decimal_string(7), "7");
    assert_eq!(decimal_string(10), "10");
    assert_eq!(decimal_string(120_045), "120045");
    assert_eq!(decimal_string(u64::MAX), "18446744073709551615");
    for n in [1u64, 9, 11, 99, 100, 101, 65_535, 1_000_000_007] {
        assert_eq!(decimal_string(n), n.to_string());
    }
}
