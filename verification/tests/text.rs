use dbx_bridge::text::{
    chars_of, decimal, is_blank, is_white_space, nul_byte_position, text_eq,
};

#[test]
fn is_blank_accepts_only_whitespace() {
    assert!(is_blank(""));
    assert!(is_blank(" \t\r\n"));
    assert!(is_blank("\u{a0}\u{2028}\u{3000}"));
    assert!(!is_blank(" x "));
    assert!(!is_blank("\u{200b}"));
    assert!(!is_blank("null"));
}

#[test]
fn chars_of_lists_the_characters() {
    assert_eq!(chars_of(""), Vec::<char>::new());
    assert_eq!(chars_of("a,\u{df}:\u{1f600}"), vec!['a', ',', '\u{df}', ':', '\u{1f600}']);
}

#[test]
fn text_eq_compares_texts() {
    assert!(text_eq("", ""));
    assert!(text_eq("desc", "desc"));
    assert!(!text_eq("desc", "Desc"));
    assert!(!text_eq("desc", "descending"));
}

#[test]
fn decimal_writes_numbers() {
    assert_eq!(decimal(0), "0");
    assert_eq!(decimal(7), "7");
    assert_eq!(decimal(10), "10");
    assert_eq!(decimal(109), "109");
    assert_eq!(decimal(1234567890), "1234567890");
    assert_eq!(decimal(usize::MAX), usize::MAX.to_string());
}

#[test]
fn nul_byte_position_counts_bytes() {
    assert_eq!(nul_byte_position("\u{0}"), 0);
    assert_eq!(nul_byte_position("abc\u{0}d\u{0}"), 3);
    assert_eq!(nul_byte_position("\u{fc}\u{1f600}\u{0}"), 6);
    assert_eq!(nul_byte_position("none"), 4);
    assert_eq!(nul_byte_position(""), 0);
}

#[test]
fn is_white_space_knows_the_twenty_five() {
    let expected = [
        '\u{9}', '\u{a}', '\u{b}', '\u{c}', '\u{d}', '\u{20}', '\u{85}', '\u{a0}', '\u{1680}',
        '\u{2000}', '\u{2001}', '\u{2002}', '\u{2003}', '\u{2004}', '\u{2005}', '\u{2006}',
        '\u{2007}', '\u{2008}', '\u{2009}', '\u{200a}', '\u{2028}', '\u{2029}', '\u{202f}',
        '\u{205f}', '\u{3000}',
    ];
    let found: Vec<char> = ('\u{0}'..=char::MAX).filter(|c| is_white_space(*c)).collect();
    assert_eq!(found, expected);
    for c in ['\u{8}', '\u{e}', '\u{1f}', ',', ':', 'a', '\u{180e}', '\u{200b}', '\u{feff}'] {
        assert!(!is_white_space(c));
    }
}

#[test]
fn is_white_space_agrees_with_the_standard_library() {
    for c in '\u{0}'..=char::MAX {
        assert_eq!(is_white_space(c), c.is_whitespace(), "U+{:04X}", c as u32);
    }
}
