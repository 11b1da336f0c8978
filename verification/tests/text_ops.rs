use vapour::text::{
    contains_char, contains_text, is_white_space_char, remove_first_and_last, same_text,
    starts_with_text, trimmed, without_char, without_last,
};

#[test]
fn same_text_compares_characters() {
    assert!(same_text("abc", "abc"));
    assert!(!same_text("abc", "abd"));
    assert!(!same_text("abc", "ab"));
    assert!(same_text("", ""));
}

#[test]
fn contains_text_finds_infixes() {
    assert!(contains_text("{\"message\":\"x\",\"code\":404}", "\"code\":404"));
    assert!(contains_text("abc", "bc"));
    assert!(contains_text("abc", ""));
    assert!(!contains_text("ab", "abc"));
    assert!(!contains_text("\"code\":4040", "\"code\":405"));
}

#[test]
fn contains_char_and_prefix() {
    assert!(contains_char("1.5", '.'));
    assert!(!contains_char("15", '.'));
    assert!(starts_with_text("FAIL!!!", "FAIL!"));
    assert!(!starts_with_text("FAI", "FAIL!"));
    assert!(starts_with_text("abc", ""));
}

#[test]
fn without_char_drops_every_occurrence() {
    assert_eq!(without_char("£1£2.5£", '£'), "12.5");
    assert_eq!(without_char("", '£'), "");
    let once = without_char("££3", '£');
    assert_eq!(without_char(&once, '£'), once);
}

#[test]
fn without_last_pops_one_character() {
    assert_eq!(without_last("12.5"), "12.");
    assert_eq!(without_last("£"), "");
    assert_eq!(without_last(""), "");
}

#[test]
fn remove_first_and_last_strips_ends() {
    assert_eq!(remove_first_and_last("\"Bob\""), "Bob");
    assert_eq!(remove_first_and_last("ab"), "");
    assert_eq!(remove_first_and_last("a"), "");
    assert_eq!(remove_first_and_last(""), "");
    assert_eq!(remove_first_and_last("é漢字ü"), "漢字");
}

#[test]
fn dropping_ends_of_quoted_text_gives_it_back() {
    for s in ["", "Ann", "a \"b\" c", "ñ"] {
        let quoted = format!("\"{}\"", s);
        assert_eq!(remove_first_and_last(&quoted), s);
    }
}

#[test]
fn trimmed_strips_unicode_white_space() {
    assert_eq!(trimmed("  x y \t\n"), "x y");
    assert_eq!(trimmed("\u{3000}a\u{a0}"), "a");
    assert_eq!(trimmed("   "), "");
    assert_eq!(trimmed("a"), "a");
    for s in [" 1 ", "\u{2009}2\u{85}", "x\u{200b}"] {
        assert_eq!(trimmed(s), s.trim());
    }
}

#[test]
fn white_space_matches_std() {
    for c in ['\t', '\n', ' ', '\u{85}', '\u{a0}', '\u{1680}', '\u{2000}', '\u{200a}', '\u{2028}', '\u{2029}', '\u{202f}', '\u{205f}', '\u{3000}', 'a', '0', '\u{200b}', '£'] {
        assert_eq!(is_white_space_char(c), c.is_whitespace());
    }
}
