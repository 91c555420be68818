use rdl_tray::clipboard::{
    clipboard_text, extract_url, read_url, strip_trailing_punct, terminated_len, url_from_match,
    CLIPBOARD_SCAN_LIMIT,
};
use rdl_tray::wide::wide;

#[test]
fn extracts_simple_url() {
    let s = "look here https://example.com/file.mp4 thanks";
    assert_eq!(
        extract_url(s),
        Some("https://example.com/file.mp4".to_string())
    );
}

#[test]
fn strips_trailing_punctuation() {
    assert_eq!(
        extract_url("see https://example.com/p?x=1)."),
        Some("https://example.com/p?x=1".to_string())
    );
}

#[test]
fn ignores_non_urls() {
    assert!(extract_url("just text, no link").is_none());
}

#[test]
fn requires_http_scheme() {
    assert!(extract_url("ftp://example.com/file").is_none());
}

#[test]
fn extracts_plain_http_and_first_of_several() {
    assert_eq!(
        extract_url("a http://one.example/x and https://two.example/y"),
        Some("http://one.example/x".to_string())
    );
}

#[test]
fn url_stops_at_quotes_and_brackets() {
    assert_eq!(
        extract_url("<a href=\"https://example.com/v.mkv\">link</a>"),
        Some("https://example.com/v.mkv".to_string())
    );
    assert_eq!(
        extract_url("<https://example.com/abc>"),
        Some("https://example.com/abc".to_string())
    );
}

#[test]
fn url_needs_a_host_and_a_word_boundary() {
    assert!(extract_url("https://abc").is_none());
    assert!(extract_url("xhttps://example.com/file").is_none());
    assert_eq!(
        extract_url("(https://example.com/file)"),
        Some("https://example.com/file".to_string())
    );
}

#[test]
fn surrounding_whitespace_is_ignored() {
    assert_eq!(
        extract_url("\n\t  https://example.com/a.zip  \r\n"),
        Some("https://example.com/a.zip".to_string())
    );
}

#[test]
fn extracted_url_is_part_of_the_text_and_ends_clean() {
    let text = "Grab it: https://example.com/x/y?z=1!!, quickly";
    let url = extract_url(text).unwrap();
    assert!(text.contains(url.as_str()));
    assert!(!url.ends_with(['.', ',', ';', ':', '!', '?', ')', ']', '}']));
    assert_eq!(url, "https://example.com/x/y?z=1");
}

#[test]
fn strip_trailing_punct_removes_every_trailing_mark() {
    assert_eq!(strip_trailing_punct("abc.,;:!?)]}"), "abc");
    assert_eq!(strip_trailing_punct("a.b"), "a.b");
    assert_eq!(strip_trailing_punct("..."), "");
    assert_eq!(strip_trailing_punct(""), "");
    assert_eq!(strip_trailing_punct("x)("), "x)(");
}

#[test]
fn strip_trailing_punct_is_idempotent() {
    let once = strip_trailing_punct("https://e.com/a?b).");
    assert_eq!(strip_trailing_punct(once), once);
    assert_eq!(once, "https://e.com/a?b");
}

#[test]
fn url_from_match_strips_and_keeps_none() {
    assert_eq!(
        url_from_match(Some("https://a.example/c).".to_string())),
        Some("https://a.example/c".to_string())
    );
    assert_eq!(url_from_match(None), None);
}

#[test]
fn terminated_len_stops_at_nul_or_limit() {
    assert_eq!(terminated_len(&[104, 105, 0, 120]), 2);
    assert_eq!(terminated_len(&[0, 1]), 0);
    assert_eq!(terminated_len(&[1, 2, 3]), 3);
    let long = vec![97u16; 9000];
    assert_eq!(terminated_len(&long), CLIPBOARD_SCAN_LIMIT);
    assert_eq!(CLIPBOARD_SCAN_LIMIT, 8193);
}

#[test]
fn clipboard_text_decodes_up_to_nul() {
    assert_eq!(clipboard_text(&[104, 105, 0, 120]), "hi");
    assert_eq!(clipboard_text(&[0xD83D, 0xDE00, 0]), "\u{1F600}");
    assert_eq!(clipboard_text(&[0xD800, 0x41, 0]), "\u{FFFD}A");
    let long = vec![97u16; 9000];
    assert_eq!(clipboard_text(&long).chars().count(), 8193);
}

#[test]
fn clipboard_text_reads_back_wide_text() {
    let s = "héllo \u{1F600} world";
    let mut buf = wide(s);
    buf.extend_from_slice(&[7, 7, 7]);
    assert_eq!(clipboard_text(&buf), s);
}

#[test]
fn read_url_goes_through_clipboard_text() {
    assert_eq!(read_url(None), None);
    let buf = wide("copied: https://example.com/movie.mp4.");
    assert_eq!(
        read_url(Some(&buf)),
        Some("https://example.com/movie.mp4".to_string())
    );
    let buf = wide("nothing here");
    assert_eq!(read_url(Some(&buf)), None);
}

#[test]
fn clipboard_text_replaces_each_unpaired_surrogate() {
    let cases: [&[u16]; 5] = [
        &[0xD800, 0xD83D, 0xDE00],
        &[0xDC00, 0x41],
        &[0x41, 0xD800],
        &[0xDBFF, 0xDFFF, 0xDFFF],
        &[0xFFFF, 0xE000, 0x7F],
    ];
    for units in cases {
        assert_eq!(clipboard_text(units), String::from_utf16_lossy(units));
    }
    assert_eq!(clipboard_text(&[0xD800, 0xD83D, 0xDE00]), "\u{FFFD}\u{1F600}");
}
