//! URL detection in clipboard contents: the text taken from the clipboard's
//! UTF-16 buffer, the first http(s) URL in it, and the trailing punctuation
//! that sentence context leaves on such a URL.

use regex::Regex;
use vstd::prelude::*;
use crate::text::{is_substring, lemma_trim_shape, trim, trim_spec};
use crate::wide::{
    decode_utf16_lossy, encode_utf16_spec, has_no_nul, lemma_decode_encode, lemma_encode_has_no_nul,
    wide_spec,
};

verus! {

/// The message the window receives on every clipboard change.
pub const WM_CLIPBOARDUPDATE: u32 = 0x031D;

/// The most UTF-16 units read from the clipboard buffer, past which the
/// scan for the terminating NUL stops.
pub const CLIPBOARD_SCAN_LIMIT: usize = 8193;

/// Conservative URL pattern: an http(s) scheme at a word boundary, then at
/// least a host's worth of characters that are neither whitespace, angle
/// brackets nor quotes.
pub const URL_PATTERN: &'static str = r#"\bhttps?://[^\s<>"']{4,2048}"#;

/// The characters stripped from the end of a matched URL.
pub open spec fn is_trailing_punct(c: char) -> bool {
    c == '.' || c == ',' || c == ';' || c == ':' || c == '!' || c == '?' || c == ')' || c == ']'
        || c == '}'
}

/// `s` without its trailing punctuation.
pub open spec fn strip_trailing_punct_spec(s: Seq<char>) -> Seq<char>
    decreases s.len(),
{
    if s.len() > 0 && is_trailing_punct(s.last()) {
        strip_trailing_punct_spec(s.drop_last())
    } else {
        s
    }
}

/// The text of the first match that `regex::Regex::find` reports for
/// `pattern` in `haystack` (`None` when there is none, or when `pattern`
/// does not compile).
pub uninterp spec fn regex_first_match(pattern: Seq<char>, haystack: Seq<char>) -> Option<Seq<char>>;


/// Calls `regex::Regex::new(pattern)` and, when it compiles,
/// `Regex::find(haystack)`, returning the matched text. Trusted: the result
/// is the named `regex_first_match` of the two arguments, and a match is a
/// contiguous piece of the haystack (`Match::as_str` slices the haystack).
#[verifier::external_body]
fn first_match(pattern: &str, haystack: &str) -> (r: Option<String>)
    ensures
        r.deep_view() == regex_first_match(pattern@, haystack@),
        r matches Some(m) ==> is_substring(m@, haystack@),
{
    match Regex::new(pattern) {
        Ok(re) => match re.find(haystack) {
            Some(m) => Some(m.as_str().to_string()),
            None => None,
        },
        Err(_) => None,
    }
}

/// Calls `String::from_utf16_lossy`. Trusted: the result is the UTF-16
/// decoding of the units with each unpaired surrogate replaced by U+FFFD,
/// as the documentation of `from_utf16_lossy` and `char::decode_utf16`
/// describes it.
#[verifier::external_body]
fn string_from_utf16_lossy(units: &[u16]) -> (r: String)
    ensures
        r@ == decode_utf16_lossy(units@),
{
    String::from_utf16_lossy(units)
}

pub fn is_trailing_punct_char(c: char) -> (r: bool)
    ensures
        r == is_trailing_punct(c),
{
    c == '.' || c == ',' || c == ';' || c == ':' || c == '!' || c == '?' || c == ')' || c == ']'
        || c == '}'
}

/// Removes `.`, `,`, `;`, `:`, `!`, `?`, `)`, `]` and `}` from the end of
/// `s`, as many as there are.
pub fn strip_trailing_punct(s: &str) -> (r: &str)
    ensures
        r@ == strip_trailing_punct_spec(s@),
{
    let chars = crate::text::chars_of(s);
    let mut end: usize = chars.len();
    assert(s@.subrange(0, end as int) =~= s@);
    while end > 0 && is_trailing_punct_char(chars[end - 1])
        invariant
            end <= chars@.len(),
            chars@ == s@,
            strip_trailing_punct_spec(s@) == strip_trailing_punct_spec(s@.subrange(0, end as int)),
        decreases end,
    {
        assert(s@.subrange(0, end as int).drop_last() =~= s@.subrange(0, end - 1));
        end = end - 1;
    }
    s.substring_char(0, end)
}

/// Stripping keeps a prefix of the text; everything removed is trailing
/// punctuation, and what is kept does not end with any.
pub proof fn lemma_strip_shape(s: Seq<char>)
    ensures
        strip_trailing_punct_spec(s).len() <= s.len(),
        strip_trailing_punct_spec(s) == s.subrange(0, strip_trailing_punct_spec(s).len() as int),
        forall|i: int|
            strip_trailing_punct_spec(s).len() <= i < s.len() ==> is_trailing_punct(#[trigger] s[i]),
        strip_trailing_punct_spec(s).len() > 0 ==> !is_trailing_punct(
            strip_trailing_punct_spec(s).last(),
        ),
    decreases s.len(),
{
    if s.len() > 0 && is_trailing_punct(s.last()) {
        let d = s.drop_last();
        lemma_strip_shape(d);
        let t = strip_trailing_punct_spec(d);
        assert(d.subrange(0, t.len() as int) =~= s.subrange(0, t.len() as int));
        assert forall|i: int| t.len() <= i < s.len() implies is_trailing_punct(#[trigger] s[i]) by {
            if i < s.len() - 1 {
                assert(s[i] == d[i]);
            }
        }
    } else {
        assert(s.subrange(0, s.len() as int) =~= s);
    }
}

/// Stripping trailing punctuation twice strips no more than once.
pub proof fn lemma_strip_idempotent(s: Seq<char>)
    ensures
        strip_trailing_punct_spec(strip_trailing_punct_spec(s)) == strip_trailing_punct_spec(s),
{
    lemma_strip_shape(s);
}

/// The URL pattern is an http(s) scheme at a word boundary followed by 4 to
/// 2048 characters other than whitespace, `<`, `>`, `"` and `'` (so `&`,
/// `?`, `=` and `#` of a query stay part of the URL).
pub proof fn lemma_url_pattern()
    ensures
        URL_PATTERN@ == r#"\bhttps?://[^\s<>"']{4,2048}"#@,
{
}

/// The URL of a text is the first match of `URL_PATTERN` in the trimmed
/// text, with trailing punctuation removed; no match, no URL.
pub proof fn lemma_extract_url_is_first_pattern_match(text: Seq<char>)
    ensures
        extract_url_spec(text) == match regex_first_match(URL_PATTERN@, trim_spec(text)) {
            Some(m) => Some(strip_trailing_punct_spec(m)),
            None => None::<Seq<char>>,
        },
{
}

/// The characters stripped from the end of a URL are exactly `.` `,` `;`
/// `:` `!` `?` `)` `]` `}`.
pub proof fn lemma_trailing_punct_chars(c: char)
    ensures
        is_trailing_punct(c) <==> (c == '.' || c == ',' || c == ';' || c == ':' || c == '!' || c
            == '?' || c == ')' || c == ']' || c == '}'),
{
}

/// What `extract_url` returns for `text`: the first URL match in the
/// trimmed text, stripped of trailing punctuation.
pub open spec fn extract_url_spec(text: Seq<char>) -> Option<Seq<char>> {
    match regex_first_match(URL_PATTERN@, trim_spec(text)) {
        Some(m) => Some(strip_trailing_punct_spec(m)),
        None => None,
    }
}

/// The URL that a pattern match stands for: the match without its trailing
/// punctuation; no URL where there was no match.
pub fn url_from_match(found: Option<String>) -> (r: Option<String>)
    ensures
        r.deep_view() == match found {
            Some(m) => Some(strip_trailing_punct_spec(m@)),
            None => None::<Seq<char>>,
        },
{
    match found {
        Some(m) => Some(String::from_str(strip_trailing_punct(m.as_str()))),
        None => None,
    }
}

/// The first http(s) URL in `text`, without trailing punctuation.
pub fn extract_url(text: &str) -> (r: Option<String>)
    ensures
        r.deep_view() == extract_url_spec(text@),
        r.deep_view() == match regex_first_match(URL_PATTERN@, trim_spec(text@)) {
            Some(m) => Some(strip_trailing_punct_spec(m)),
            None => None::<Seq<char>>,
        },
        r matches Some(u) ==> is_substring(u@, text@),
        r matches Some(u) ==> u@.len() == 0 || !is_trailing_punct(u@.last()),
{
    let trimmed = trim(text);
    let found = first_match(URL_PATTERN, trimmed);
    proof {
        if let Some(m) = &found {
            lemma_trim_shape(text@);
            lemma_strip_shape(m@);
            lemma_substring_trans(strip_trailing_punct_spec(m@), m@, trimmed@, text@);
        }
    }
    url_from_match(found)
}

/// A piece of a piece of a text is a piece of the text; a prefix counts.
proof fn lemma_substring_trans(a: Seq<char>, b: Seq<char>, c: Seq<char>, d: Seq<char>)
    requires
        a.len() <= b.len(),
        a == b.subrange(0, a.len() as int),
        is_substring(b, c),
        is_substring(c, d),
    ensures
        is_substring(a, d),
{
    let i = choose|i: int| 0 <= i && i + b.len() <= c.len() && #[trigger] c.subrange(i, i + b.len()) == b;
    let j = choose|j: int| 0 <= j && j + c.len() <= d.len() && #[trigger] d.subrange(j, j + c.len()) == c;
    assert(d.subrange(i + j, i + j + a.len()) =~= a);
}

/// Number of units before the first NUL in `units`, counting at most `limit`.
pub open spec fn leading_non_nul(units: Seq<u16>, limit: nat) -> nat
    decreases limit,
{
    if limit == 0 || units.len() == 0 || units[0] == 0 {
        0
    } else {
        1 + leading_non_nul(units.drop_first(), (limit - 1) as nat)
    }
}

/// The text held in a clipboard `CF_UNICODETEXT` buffer.
pub open spec fn clipboard_text_spec(units: Seq<u16>) -> Seq<char> {
    decode_utf16_lossy(units.take(leading_non_nul(units, CLIPBOARD_SCAN_LIMIT as nat) as int))
}

/// Length of the NUL-terminated text at the start of `units`, scanning at
/// most `CLIPBOARD_SCAN_LIMIT` units.
pub fn terminated_len(units: &[u16]) -> (r: usize)
    ensures
        r == leading_non_nul(units@, CLIPBOARD_SCAN_LIMIT as nat),
        r <= units@.len(),
{
    let mut len: usize = 0;
    assert(units@.skip(0) =~= units@);
    while len < units.len() && len < CLIPBOARD_SCAN_LIMIT && units[len] != 0
        invariant
            len <= units@.len(),
            len <= CLIPBOARD_SCAN_LIMIT,
            leading_non_nul(units@, CLIPBOARD_SCAN_LIMIT as nat) == len + leading_non_nul(
                units@.skip(len as int),
                (CLIPBOARD_SCAN_LIMIT - len) as nat,
            ),
        decreases units@.len() - len,
    {
        assert(units@.skip(len as int).drop_first() =~= units@.skip(len + 1));
        len = len + 1;
    }
    len
}

/// The scan for the terminator reads at most 8193 units: it stops at the
/// first NUL, at the end of the buffer, or after 8193 units.
pub proof fn lemma_scan_limit(units: Seq<u16>)
    ensures
        CLIPBOARD_SCAN_LIMIT == 8193,
        leading_non_nul(units, 8193) <= 8193,
        leading_non_nul(units, 8193) <= units.len(),
        forall|j: int| 0 <= j < leading_non_nul(units, 8193) ==> #[trigger] units[j] != 0,
        leading_non_nul(units, 8193) < 8193 && leading_non_nul(units, 8193) < units.len() ==> units[
            leading_non_nul(units, 8193) as int] == 0,
{
    lemma_leading_non_nul_shape(units, 8193);
}

proof fn lemma_leading_non_nul_shape(units: Seq<u16>, limit: nat)
    ensures
        leading_non_nul(units, limit) <= limit,
        leading_non_nul(units, limit) <= units.len(),
        forall|j: int| 0 <= j < leading_non_nul(units, limit) ==> #[trigger] units[j] != 0,
        leading_non_nul(units, limit) < limit && leading_non_nul(units, limit) < units.len()
            ==> units[leading_non_nul(units, limit) as int] == 0,
    decreases limit,
{
    if limit > 0 && units.len() > 0 && units[0] != 0 {
        let d = units.drop_first();
        lemma_leading_non_nul_shape(d, (limit - 1) as nat);
        assert forall|j: int| 0 <= j < leading_non_nul(units, limit) implies #[trigger] units[j]
            != 0 by {
            if j > 0 {
                assert(units[j] == d[j - 1]);
            }
        }
        let k = leading_non_nul(units, limit);
        if k < limit && k < units.len() {
            assert(units[k as int] == d[k - 1]);
        }
    }
}

/// The clipboard text in a `CF_UNICODETEXT` buffer: the units up to the
/// first NUL (at most `CLIPBOARD_SCAN_LIMIT`), decoded with replacement of
/// invalid UTF-16.
pub fn clipboard_text(units: &[u16]) -> (r: String)
    ensures
        r@ == clipboard_text_spec(units@),
        forall|s: Seq<char>|
            #![trigger wide_spec(s)]
            has_no_nul(s) && encode_utf16_spec(s).len() < CLIPBOARD_SCAN_LIMIT && units@.len()
                >= wide_spec(s).len() && units@.take(wide_spec(s).len() as int) == wide_spec(s)
                ==> r@ == s,
{
    let len = terminated_len(units);
    let mut head: Vec<u16> = Vec::new();
    let mut i: usize = 0;
    while i < len
        invariant
            i <= len <= units@.len(),
            head@ == units@.take(i as int),
        decreases len - i,
    {
        head.push(units[i]);
        assert(units@.take(i + 1) =~= units@.take(i as int).push(units@[i as int]));
        i = i + 1;
    }
    let r = string_from_utf16_lossy(head.as_slice());
    proof {
        assert forall|s: Seq<char>|
            #![trigger wide_spec(s)]
            has_no_nul(s) && encode_utf16_spec(s).len() < CLIPBOARD_SCAN_LIMIT && units@.len()
                >= wide_spec(s).len() && units@.take(wide_spec(s).len() as int) == wide_spec(s)
            implies r@ == s by {
            let e = encode_utf16_spec(s);
            let w = wide_spec(s);
            lemma_encode_has_no_nul(s);
            assert(units@[e.len() as int] == w[e.len() as int]);
            assert forall|j: int| 0 <= j < e.len() implies #[trigger] units@[j] != 0 by {
                assert(units@[j] == w[j]);
                assert(w[j] == e[j]);
            }
            lemma_leading_non_nul_at(units@, e.len(), CLIPBOARD_SCAN_LIMIT as nat);
            assert(head@ =~= e);
            lemma_decode_encode(s);
        }
    }
    r
}

/// The scan stops at the first NUL: when the first NUL of `units` is at
/// `k`, the count is `k`, or `limit` if that is smaller.
pub proof fn lemma_leading_non_nul_at(units: Seq<u16>, k: nat, limit: nat)
    requires
        k < units.len(),
        units[k as int] == 0,
        forall|j: int| 0 <= j < k ==> #[trigger] units[j] != 0,
    ensures
        leading_non_nul(units, limit) == if k <= limit { k } else { limit },
    decreases limit,
{
    if limit > 0 && k > 0 {
        let d = units.drop_first();
        assert(units[0] != 0);
        assert forall|j: int| 0 <= j < k - 1 implies #[trigger] d[j] != 0 by {
            assert(d[j] == units[j + 1]);
        }
        lemma_leading_non_nul_at(d, (k - 1) as nat, (limit - 1) as nat);
    }
}

/// The first http(s) URL in the clipboard, given the clipboard's
/// `CF_UNICODETEXT` buffer, or `None` when the clipboard holds no text.
pub fn read_url(clipboard_units: Option<&[u16]>) -> (r: Option<String>)
    ensures
        r.deep_view() == match clipboard_units {
            Some(units) => extract_url_spec(clipboard_text_spec(units@)),
            None => None::<Seq<char>>,
        },
        forall|s: Seq<char>|
            #![trigger wide_spec(s)]
            clipboard_units matches Some(units) && has_no_nul(s) && encode_utf16_spec(s).len()
                < CLIPBOARD_SCAN_LIMIT && units@.len() >= wide_spec(s).len() && units@.take(
                wide_spec(s).len() as int,
            ) == wide_spec(s) ==> r.deep_view() == extract_url_spec(s),
{
    match clipboard_units {
        Some(units) => {
            let text = clipboard_text(units);
            extract_url(text.as_str())
        },
        None => None,
    }
}

} // verus!
