use shutdown_scheduler::text::{
    char_digit, char_is_white_space, text_equal, text_is_blank, trim_text,
};

#[test]
fn white_space_agrees_with_the_standard_library_on_every_char() {
    for code in 0u32..=0x10FFFF {
        if let Some(c) = char::from_u32(code) {
            assert_eq!(char_is_white_space(c), c.is_whitespace(), "U+{:04X}", code);
        }
    }
}

#[test]
fn trim_agrees_with_the_standard_library() {
    let samples = [
        "",
        " ",
        "   \t\n",
        "07:30",
        "  07:30",
        "07:30  ",
        " \t07:30\r\n",
        "a b",
        "  a  b  ",
        "\u{00A0}x\u{3000}",
        "\u{2003}\u{2003}",
        "x",
        " x",
        "x ",
    ];
    for s in samples {
        assert_eq!(trim_text(s), s.trim(), "{:?}", s);
        assert_eq!(text_is_blank(s), s.trim().is_empty(), "{:?}", s);
    }
}

#[test]
fn blank_text_is_empty_or_white_space_only() {
    assert!(text_is_blank(""));
    assert!(text_is_blank("  "));
    assert!(text_is_blank("\t\n "));
    assert!(!text_is_blank("0"));
    assert!(!text_is_blank("  :  "));
}

#[test]
fn digits_are_read() {
    for d in 0u8..=9 {
        assert_eq!(char_digit((b'0' + d) as char), Some(d));
    }
    assert_eq!(char_digit('/'), None);
    assert_eq!(char_digit(':'), None);
    assert_eq!(char_digit('a'), None);
    assert_eq!(char_digit('\u{0663}'), None);
}

#[test]
fn text_equal_compares_characters() {
    assert!(text_equal("", ""));
    assert!(text_equal("Monday", "Monday"));
    assert!(!text_equal("Monday", "monday"));
    assert!(!text_equal("Monday", "Monda"));
    assert!(!text_equal("Monday", "Monday "));
    assert!(text_equal("\u{00E9}t\u{00E9}", "\u{00E9}t\u{00E9}"));
}
