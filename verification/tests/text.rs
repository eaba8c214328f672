use agent_browser::text::{
    blank, chars_of, copied, decimal_text, joined, same_text, text_between, trim_trailing_slashes,
    white_space,
};

#[test]
fn white_space_is_the_unicode_property() {
    let mut code: u32 = 0;
    while code <= 0x10ffff {
        if let Some(c) = char::from_u32(code) {
            assert_eq!(white_space(c), c.is_whitespace(), "{:x}", code);
        }
        code += 1;
    }
}

#[test]
fn blank_text_trims_to_nothing() {
    for s in ["", " ", "\t\n", "\u{a0}\u{3000}", "x", " x ", "\u{200b}"] {
        assert_eq!(blank(s), s.trim().is_empty());
    }
}

#[test]
fn trailing_slashes_go() {
    for s in ["", "/", "///", "http://h", "http://h/", "http://h//", "/a/b", "a/ "] {
        assert_eq!(trim_trailing_slashes(s), s.trim_end_matches('/'));
    }
}

#[test]
fn numbers_are_written_in_decimal() {
    assert_eq!(decimal_text(0), "0");
    assert_eq!(decimal_text(10), "10");
    assert_eq!(decimal_text(9377), "9377");
    assert_eq!(decimal_text(65535), "65535");
}

#[test]
fn texts_are_compared_and_joined() {
    assert!(same_text("", ""));
    assert!(same_text("\u{e9}", "\u{e9}"));
    assert!(!same_text("ab", "ac"));
    assert!(!same_text("ab", "abc"));
    assert_eq!(joined("a\u{e9}", "b"), "a\u{e9}b");
    assert_eq!(chars_of("a\u{e9}"), vec!['a', '\u{e9}']);
    assert_eq!(text_between(&chars_of("abcd"), 1, 3), "bc");
    assert_eq!(copied(&Some("k".to_string())), Some("k".to_string()));
    assert_eq!(copied(&None), None);
}
