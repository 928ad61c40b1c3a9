use seeku::text::{blank, whitespace};

#[test]
fn whitespace_is_what_std_calls_whitespace() {
    let mut code: u32 = 0;
    while code <= 0x10FFFF {
        if let Some(c) = char::from_u32(code) {
            assert_eq!(whitespace(c), c.is_whitespace(), "U+{:04X}", code);
        }
        code += 1;
    }
}

#[test]
fn whitespace_examples() {
    assert!(whitespace(' '));
    assert!(whitespace('\t'));
    assert!(whitespace('\n'));
    assert!(whitespace('\r'));
    assert!(whitespace('\u{0b}'));
    assert!(whitespace('\u{0c}'));
    assert!(whitespace('\u{85}'));
    assert!(whitespace('\u{a0}'));
    assert!(whitespace('\u{1680}'));
    assert!(whitespace('\u{2000}'));
    assert!(whitespace('\u{200a}'));
    assert!(whitespace('\u{2028}'));
    assert!(whitespace('\u{2029}'));
    assert!(whitespace('\u{202f}'));
    assert!(whitespace('\u{205f}'));
    assert!(whitespace('\u{3000}'));
    assert!(!whitespace('a'));
    assert!(!whitespace('\u{08}'));
    assert!(!whitespace('\u{0e}'));
    assert!(!whitespace('\u{200b}'));
    assert!(!whitespace('\u{feff}'));
    assert!(!whitespace('\u{8d8a}'));
}

#[test]
fn blank_is_empty_or_whitespace_only() {
    assert!(blank(""));
    assert!(blank(" "));
    assert!(blank(" \t\r\n"));
    assert!(blank("\u{3000}\u{a0}"));
    assert!(!blank("a"));
    assert!(!blank("  a  "));
    assert!(!blank("   ."));
    assert!(!blank("\u{200b}"));
}

#[test]
fn blank_agrees_with_trim() {
    for text in ["", " ", "x", " x", "x ", "\n\n", "\t-\t", "\u{2003}", "\u{2003}\u{1f600}", "  \u{feff}"] {
        assert_eq!(blank(text), text.trim().is_empty(), "{:?}", text);
    }
}
