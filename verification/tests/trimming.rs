//! Whitespace and trimming, held against the standard library's.
use babash::text::{is_whitespace, trim};

#[test]
fn whitespace_is_the_unicode_property() {
    let mut c = '\0';
    loop {
        assert_eq!(is_whitespace(c), c.is_whitespace(), "U+{:04X}", c as u32);
        if c == char::MAX {
            break;
        }
        c = char::from_u32(c as u32 + 1).unwrap_or('\u{E000}');
    }
}

#[test]
fn named_whitespace_characters() {
    for c in [' ', '\t', '\n', '\u{b}', '\u{c}', '\r', '\u{85}', '\u{a0}', '\u{1680}', '\u{2000}',
        '\u{200a}', '\u{2028}', '\u{2029}', '\u{202f}', '\u{205f}', '\u{3000}']
    {
        assert!(is_whitespace(c));
    }
    for c in ['a', '0', '_', '\0', '\u{8}', '\u{e}', '\u{1f}', '!', '\u{84}', '\u{86}', '\u{180e}',
        '\u{200b}', '\u{2060}', '\u{feff}', '\u{fffd}']
    {
        assert!(!is_whitespace(c));
    }
}

#[test]
fn trim_examples() {
    assert_eq!(trim(""), "");
    assert_eq!(trim("a"), "a");
    assert_eq!(trim(" "), "");
    assert_eq!(trim(" \n\t "), "");
    assert_eq!(trim("a b"), "a b");
    assert_eq!(trim("  a b"), "a b");
    assert_eq!(trim("a b\n"), "a b");
    assert_eq!(trim("\r\n a \t b \r\n"), "a \t b");
    assert_eq!(trim("\u{3000}\u{e9}t\u{e9} \u{1f496}\u{a0}"), "\u{e9}t\u{e9} \u{1f496}");
    assert_eq!(trim(" x "), "x");
}

#[test]
fn trim_agrees_with_std() {
    let samples = [
        "",
        " ",
        "\n",
        "x",
        " x",
        "x ",
        "  leading",
        "trailing  ",
        "\t both \t",
        "in  ner",
        "\u{2003}wide\u{2003}",
        "\u{200b}zero width is kept\u{200b}",
        " \u{1f600} ",
        "\n\nline one\nline two\n\n",
    ];
    for s in samples {
        assert_eq!(trim(s), s.trim(), "{:?}", s);
    }
}

#[test]
fn trim_twice_is_trim_once() {
    for s in ["  a  b  ", "\n", "x", " \u{a0}y\u{a0} "] {
        assert_eq!(trim(trim(s)), trim(s));
    }
}
