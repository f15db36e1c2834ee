use nerdschloss::text::{bool_text, decimal_text, is_white_space_char, parse_bool, trim};

#[test]
fn trim_removes_outer_whitespace() {
    assert_eq!(trim("  true\n"), "true");
    assert_eq!(trim("\t false \r\n"), "false");
    assert_eq!(trim("a b"), "a b");
    assert_eq!(trim(""), "");
    assert_eq!(trim(" \n\t "), "");
    assert_eq!(trim("\u{3000}x\u{A0}"), "x");
}

#[test]
fn trim_matches_std() {
    for s in ["", " ", "x", " x ", "\u{2000}y\u{205F}", "\u{200B}z", "a\u{85}"] {
        assert_eq!(trim(s), s.trim());
    }
}

#[test]
fn white_space_matches_std() {
    for c in ['\t', '\n', '\u{0B}', '\u{0C}', '\r', ' ', '\u{85}', '\u{A0}', '\u{1680}', '\u{2005}', '\u{2028}', '\u{3000}', 'a', '\u{200B}', '0'] {
        assert_eq!(is_white_space_char(c), c.is_whitespace());
    }
}

#[test]
fn parse_bool_accepts_only_exact_words() {
    assert_eq!(parse_bool("true"), Some(true));
    assert_eq!(parse_bool("false"), Some(false));
    assert_eq!(parse_bool("True"), None);
    assert_eq!(parse_bool(" true"), None);
    assert_eq!(parse_bool("1"), None);
    assert_eq!(parse_bool(""), None);
}

#[test]
fn bool_text_round_trips() {
    assert_eq!(bool_text(true), "true");
    assert_eq!(bool_text(false), "false");
    assert_eq!(parse_bool(&bool_text(true)), Some(true));
    assert_eq!(parse_bool(&bool_text(false)), Some(false));
}

#[test]
fn decimal_text_matches_to_string() {
    assert_eq!(decimal_text(0), "0");
    assert_eq!(decimal_text(7), "7");
    assert_eq!(decimal_text(10), "10");
    assert_eq!(decimal_text(1883), "1883");
    assert_eq!(decimal_text(65535), "65535");
    assert_eq!(decimal_text(u64::MAX), u64::MAX.to_string());
}
