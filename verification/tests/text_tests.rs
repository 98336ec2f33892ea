use server_fn::text::{
    char_is_whitespace, chars_equal, chars_of, contains, contains_pair, eq_ignore_ascii_case,
    find_char, matches_at, push_decimal, split_trimmed, starts_with, str_equal, string_of,
    to_ascii_lower, trim_range, uppercase_char,
};

fn chars(text: &str) -> Vec<char> {
    text.chars().collect()
}

#[test]
fn white_space_is_what_the_standard_library_says() {
    for code in 0..=0x10FFFFu32 {
        if let Some(c) = char::from_u32(code) {
            assert_eq!(char_is_whitespace(c), c.is_whitespace(), "U+{:04X}", code);
        }
    }
}

#[test]
fn ascii_lower_is_what_the_standard_library_says() {
    for code in 0..=0x10FFFFu32 {
        if let Some(c) = char::from_u32(code) {
            assert_eq!(to_ascii_lower(c), c.to_ascii_lowercase(), "U+{:04X}", code);
        }
    }
}

#[test]
fn upper_case_of_a_character_is_what_the_standard_library_says() {
    for c in ['a', 'z', 'A', '0', '_', '\u{df}', '\u{e9}', '\u{149}', '\u{1f0}', '\u{4e2d}'] {
        assert_eq!(uppercase_char(c), c.to_uppercase().collect::<String>());
    }
    assert_eq!(uppercase_char('a'), "A");
    assert_eq!(uppercase_char('\u{df}'), "SS");
}

#[test]
fn characters_of_a_string() {
    assert_eq!(chars_of(""), Vec::<char>::new());
    assert_eq!(chars_of("a\u{e9}\u{4e2d}\u{1f600}"), vec!['a', '\u{e9}', '\u{4e2d}', '\u{1f600}']);
    assert_eq!(string_of(&chars("hello"), 1, 4), "ell");
    assert_eq!(string_of(&chars("hello"), 0, 0), "");
    assert_eq!(string_of(&chars("h\u{e9}llo"), 0, 5), "h\u{e9}llo");
}

#[test]
fn trimming_is_what_the_standard_library_does() {
    for text in ["", " ", "a", "  a b  ", "\t\n x \r\n", "\u{a0}x\u{3000}", "x\u{200b}", " \u{85} "] {
        let all = chars(text);
        let (start, end) = trim_range(&all, 0, all.len());
        assert_eq!(string_of(&all, start, end), text.trim(), "{:?}", text);
    }
    let all = chars("ab  cd  ef");
    assert_eq!(trim_range(&all, 2, 8), (4, 6));
    assert_eq!(trim_range(&all, 2, 4), (4, 4));
    assert_eq!(trim_range(&all, 3, 3), (3, 3));
}

#[test]
fn splitting_is_what_the_standard_library_does() {
    for text in ["", ",", "a", "a,b", " a , b ,", ",,", "10.0.0.5, 10.0.0.1", " x "] {
        let expected: Vec<String> = text.split(',').map(|piece| piece.trim().to_string()).collect();
        assert_eq!(split_trimmed(&chars(text), ','), expected, "{:?}", text);
    }
}

#[test]
fn finding_characters_and_texts() {
    let all = chars("a=b=c");
    assert_eq!(find_char(&all, '=', 0), 1);
    assert_eq!(find_char(&all, '=', 2), 3);
    assert_eq!(find_char(&all, '=', 4), 5);
    assert_eq!(find_char(&all, '=', 5), 5);
    assert_eq!(find_char(&all, 'x', 0), 5);
    assert!(contains_pair(&chars("/a//b"), '/', '/'));
    assert!(!contains_pair(&chars("/a/b/"), '/', '/'));
    assert!(!contains_pair(&chars("/"), '/', '/'));
    assert!(!contains_pair(&chars(""), '/', '/'));
    assert!(contains_pair(&chars(".."), '.', '.'));
    assert!(contains_pair(&chars("ab"), 'a', 'b'));
    assert!(!contains_pair(&chars("ba"), 'a', 'b'));
    for (text, needle) in [("", ""), ("abc", ""), ("abc", "bc"), ("abc", "abc"), ("abc", "abcd"),
        ("aab", "ab"), ("sse, msgpack", "msgpack"), ("ws", "sse"), ("abc", "ac")] {
        assert_eq!(contains(&chars(text), &chars(needle)), text.contains(needle), "{:?}", (text, needle));
    }
    assert!(matches_at(&chars("abc"), &chars("bc"), 1));
    assert!(!matches_at(&chars("abc"), &chars("bc"), 0));
    assert!(matches_at(&chars("abc"), &chars(""), 3));
}

#[test]
fn comparing_texts() {
    assert!(str_equal("", ""));
    assert!(str_equal("caf\u{e9}", "caf\u{e9}"));
    assert!(!str_equal("a", "A"));
    assert!(!str_equal("a", "ab"));
    assert!(chars_equal(&chars("ab"), &chars("ab")));
    assert!(!chars_equal(&chars("ab"), &chars("ba")));
    for (a, b) in [("https", "HTTPS"), ("HttpS", "https"), ("http", "https"), ("", ""),
        ("\u{e9}", "\u{c9}"), ("k", "\u{212a}"), ("a-b", "A-B")] {
        assert_eq!(eq_ignore_ascii_case(&chars(a), &chars(b)), a.eq_ignore_ascii_case(b), "{:?}", (a, b));
    }
    for (text, prefix) in [("Bearer x", "Bearer "), ("Bearer", "Bearer "), ("", ""), ("a", ""),
        ("ws://x", "ws://"), ("wss://x", "ws://")] {
        assert_eq!(starts_with(&chars(text), &chars(prefix)), text.starts_with(prefix), "{:?}", (text, prefix));
    }
}

#[test]
fn numbers_in_decimal() {
    for n in [0u64, 7, 10, 99, 100, 404, 65535, 1_000_000, u64::MAX] {
        let mut text = String::from("n=");
        push_decimal(&mut text, n);
        assert_eq!(text, format!("n={}", n));
    }
}

#[test]
fn upper_case_of_ascii_changes_small_letters_only() {
    for code in 0..128u8 {
        let c = code as char;
        assert_eq!(uppercase_char(c), c.to_ascii_uppercase().to_string(), "{:?}", c);
    }
}
