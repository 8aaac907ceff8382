use mc_sync::text::{char_is_whitespace, chars_of, render_decimal, same_text, trimmed_equals};

#[test]
fn decimal_of_small_numbers() {
    assert_eq!(render_decimal(0), "0");
    assert_eq!(render_decimal(7), "7");
    assert_eq!(render_decimal(9), "9");
}

#[test]
fn decimal_of_larger_numbers() {
    assert_eq!(render_decimal(10), "10");
    assert_eq!(render_decimal(120), "120");
    assert_eq!(render_decimal(1234567890), "1234567890");
    assert_eq!(render_decimal(usize::MAX), usize::MAX.to_string());
}

#[test]
fn chars_are_copied_in_order() {
    assert_eq!(chars_of(""), Vec::<char>::new());
    assert_eq!(chars_of("a\u{e9}\u{4e16}!"), vec!['a', '\u{e9}', '\u{4e16}', '!']);
}

#[test]
fn same_text_is_exact() {
    assert!(same_text("mc-sync", "mc-sync"));
    assert!(same_text("", ""));
    assert!(!same_text("mc-sync", "mc-sync "));
    assert!(!same_text("mc-sync", "MC-SYNC"));
}

#[test]
fn white_space_is_the_unicode_property() {
    for code in 0..=0x10FFFFu32 {
        if let Some(c) = char::from_u32(code) {
            assert_eq!(char_is_whitespace(c), c.is_whitespace(), "code point {:x}", code);
        }
    }
}

#[test]
fn trimming_ignores_white_space_around() {
    assert!(trimmed_equals("!online", "!online"));
    assert!(trimmed_equals("  !online", "!online"));
    assert!(trimmed_equals("!online \t\r\n", "!online"));
    assert!(trimmed_equals("\u{3000}!online\u{a0}", "!online"));
    assert!(trimmed_equals(" \n ", ""));
    assert!(trimmed_equals("", ""));
}

#[test]
fn trimming_keeps_white_space_inside() {
    assert!(trimmed_equals(" a b ", "a b"));
    assert!(!trimmed_equals("! online", "!online"));
    assert!(!trimmed_equals("!online now", "!online"));
    assert!(!trimmed_equals("say !online", "!online"));
    assert!(!trimmed_equals("", "!online"));
    assert!(!trimmed_equals("!onlin", "!online"));
    assert!(!trimmed_equals("!online", " !online"));
}

#[test]
fn trimming_agrees_with_the_standard_library() {
    let samples = [
        "", " ", "x", " x", "x ", " x ", "\t\tx y\n", "\u{2003}x\u{2003}", "\u{200b}x", "x\u{feff}",
        "\u{85}x\u{1680}", "  ", "a  b", "\u{180e}x",
    ];
    for s in samples {
        for expected in samples {
            assert_eq!(trimmed_equals(s, expected), s.trim() == expected, "{:?} {:?}", s, expected);
        }
    }
}
