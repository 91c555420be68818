use rdl_tray::text::{chars_of, is_white_space_char, trim, truncate};
use rdl_tray::wide::{char_utf16, wide, wide_truncated};

#[test]
fn trim_removes_unicode_whitespace_at_both_ends() {
    assert_eq!(trim("  \t hi there \n"), "hi there");
    assert_eq!(trim("\u{3000}x\u{a0}"), "x");
    assert_eq!(trim("   "), "");
    assert_eq!(trim(""), "");
    assert_eq!(trim("a b"), "a b");
}

#[test]
fn trim_agrees_with_std_and_is_idempotent() {
    for s in ["\u{2028} a \u{85}", "\u{1680}\u{200a}z\u{205f}", " x\u{200b} "] {
        assert_eq!(trim(s), s.trim());
        assert_eq!(trim(trim(s)), trim(s));
    }
}

#[test]
fn white_space_matches_char_is_whitespace() {
    for c in ['\t', '\n', '\u{b}', '\u{c}', '\r', ' ', '\u{85}', '\u{a0}', '\u{1680}', '\u{2000}', '\u{200a}', '\u{2028}', '\u{2029}', '\u{202f}', '\u{205f}', '\u{3000}', 'a', '\u{200b}', '\u{feff}', '_'] {
        assert_eq!(is_white_space_char(c), c.is_whitespace(), "{:?}", c);
    }
}

#[test]
fn truncate_adds_ellipsis_only_when_needed() {
    assert_eq!(truncate("abcdef", 3), "abc…");
    assert_eq!(truncate("abc", 3), "abc");
    assert_eq!(truncate("", 0), "");
    assert_eq!(truncate("ab", 0), "…");
    assert_eq!(truncate("ééééé", 2), "éé…");
}

#[test]
fn truncate_bounds_length() {
    let long: String = std::iter::repeat('x').take(200).collect();
    let t = truncate(&long, 80);
    assert_eq!(t.chars().count(), 81);
    assert!(t.starts_with(&long[..80]));
}

#[test]
fn chars_of_lists_characters() {
    assert_eq!(chars_of("aé😀"), vec!['a', 'é', '😀']);
}

#[test]
fn wide_encodes_utf16_with_nul() {
    assert_eq!(wide("A"), vec![65, 0]);
    assert_eq!(wide(""), vec![0]);
    assert_eq!(wide("\u{1F600}"), vec![0xD83D, 0xDE00, 0]);
    let s = "rdl-tray — clipboard URL watcher";
    let mut expected: Vec<u16> = s.encode_utf16().collect();
    expected.push(0);
    assert_eq!(wide(s), expected);
}

#[test]
fn char_utf16_matches_std() {
    for c in ['a', 'é', '\u{ffff}', '\u{10000}', '\u{10ffff}'] {
        let mut buf = [0u16; 2];
        assert_eq!(char_utf16(c), c.encode_utf16(&mut buf).to_vec());
    }
}

#[test]
fn wide_truncated_fits_capacity() {
    assert_eq!(wide_truncated("abc", 2), vec![97, 98]);
    assert_eq!(wide_truncated("abc", 10), vec![97, 98, 99, 0]);
    assert_eq!(wide_truncated("abc", 4), vec![97, 98, 99, 0]);
    assert_eq!(wide_truncated("abc", 0), Vec::<u16>::new());
}
