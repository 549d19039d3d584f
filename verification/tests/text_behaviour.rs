use sys_tui::text::{
    chars_of, contains_text, decimal_string, eq_ignore_ascii_case, is_empty_text,
    is_whitespace, join, owned, pop_char, split_chars, str_eq, string_from_chars, trim,
    trim_is_empty,
};

fn samples() -> Vec<&'static str> {
    vec![
        "",
        " ",
        "abc",
        "  abc  ",
        "\t\nabc\r\n",
        "\u{00a0}x\u{3000}",
        "\u{2028}mid dle\u{2029}",
        "\u{85}\u{1680}a\u{200a}",
        "\u{200b}zero-width\u{200b}",
        "   \u{2003}\u{2009}   ",
        "äöü  ",
    ]
}

#[test]
fn trim_matches_std_trim() {
    for s in samples() {
        assert_eq!(trim(s), s.trim().to_string(), "trim of {:?}", s);
        assert_eq!(trim_is_empty(s), s.trim().is_empty(), "blank {:?}", s);
    }
}

#[test]
fn trim_is_idempotent_on_samples() {
    for s in samples() {
        let once = trim(s);
        assert_eq!(trim(&once), once);
    }
}

#[test]
fn whitespace_matches_std_for_all_bmp_chars() {
    for u in 0u32..0x3100 {
        if let Some(c) = char::from_u32(u) {
            assert_eq!(is_whitespace(c), c.is_whitespace(), "char {:#x}", u);
        }
    }
    assert_eq!(is_whitespace('\u{feff}'), '\u{feff}'.is_whitespace());
}

#[test]
fn pop_char_removes_last_char() {
    let mut s = owned("héllo");
    pop_char(&mut s);
    assert_eq!(s, "héll");
    let mut e = String::new();
    pop_char(&mut e);
    assert_eq!(e, "");
}

#[test]
fn concat_and_equality() {
    assert_eq!(sys_tui::text::concat("ab", "cd"), "abcd");
    assert!(str_eq("x", "x"));
    assert!(!str_eq("x", "X"));
    assert!(is_empty_text(""));
    assert!(!is_empty_text(" "));
}

#[test]
fn contains_text_matches_std() {
    let cases = [("chat request failed", "chat"), ("decode failed", "decode"), ("abc", ""), ("", "a"), ("aab", "ab")];
    for (s, p) in cases {
        assert_eq!(contains_text(s, p), s.contains(p), "{:?} in {:?}", p, s);
    }
}

#[test]
fn decimal_rendering() {
    assert_eq!(decimal_string(0), "0");
    assert_eq!(decimal_string(7), "7");
    assert_eq!(decimal_string(1234567890123), "1234567890123");
    assert_eq!(decimal_string(u128::MAX), u128::MAX.to_string());
}

#[test]
fn ascii_case_insensitive_equality() {
    assert!(eq_ignore_ascii_case("Light_Red", "light_red"));
    assert!(!eq_ignore_ascii_case("light_red", "light_re"));
    assert!(!eq_ignore_ascii_case("É", "é"));
}

#[test]
fn split_then_join_gives_back_the_text() {
    for s in ["a,b,,c", "", ",", "single"] {
        let parts = split_chars(&chars_of(s), ',');
        let strings: Vec<String> = parts.iter().map(|p| string_from_chars(p)).collect();
        let expected: Vec<String> = s.split(',').map(|p| p.to_string()).collect();
        assert_eq!(strings, expected);
        assert_eq!(join(&strings, ","), s);
    }
}
