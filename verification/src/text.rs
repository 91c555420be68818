//! Character-level text helpers: whitespace trimming, truncation with an
//! ellipsis, and the view of a string slice as a vector of characters.

use vstd::prelude::*;

verus! {

/// Unicode `White_Space`, the property that `char::is_whitespace` and
/// `str::trim` go by.
pub open spec fn is_white_space(c: char) -> bool {
    ||| ('\u{9}' <= c && c <= '\u{d}')
    ||| c == ' '
    ||| c == '\u{85}'
    ||| c == '\u{a0}'
    ||| c == '\u{1680}'
    ||| ('\u{2000}' <= c && c <= '\u{200a}')
    ||| c == '\u{2028}'
    ||| c == '\u{2029}'
    ||| c == '\u{202f}'
    ||| c == '\u{205f}'
    ||| c == '\u{3000}'
}

/// `s` without its leading whitespace.
pub open spec fn trim_start_spec(s: Seq<char>) -> Seq<char>
    decreases s.len(),
{
    if s.len() > 0 && is_white_space(s[0]) {
        trim_start_spec(s.drop_first())
    } else {
        s
    }
}

/// `s` without its trailing whitespace.
pub open spec fn trim_end_spec(s: Seq<char>) -> Seq<char>
    decreases s.len(),
{
    if s.len() > 0 && is_white_space(s.last()) {
        trim_end_spec(s.drop_last())
    } else {
        s
    }
}

/// `s` without leading and trailing whitespace.
pub open spec fn trim_spec(s: Seq<char>) -> Seq<char> {
    trim_end_spec(trim_start_spec(s))
}

pub fn is_white_space_char(c: char) -> (r: bool)
    ensures
        r == is_white_space(c),
{
    ('\u{9}' <= c && c <= '\u{d}') || c == ' ' || c == '\u{85}' || c == '\u{a0}' || c
        == '\u{1680}' || ('\u{2000}' <= c && c <= '\u{200a}') || c == '\u{2028}' || c
        == '\u{2029}' || c == '\u{202f}' || c == '\u{205f}' || c == '\u{3000}'
}

/// The characters of `s`, in order.
pub fn chars_of(s: &str) -> (v: Vec<char>)
    ensures
        v@ == s@,
{
    let mut v: Vec<char> = Vec::new();
    for c in it: s.chars()
        invariant
            v@ == it.seq().take(it.index() as int),
            it.seq() == s@,
    {
        v.push(c);
    }
    v
}


/// `s` with leading and trailing whitespace removed, as `str::trim` does.
pub fn trim(s: &str) -> (r: &str)
    ensures
        r@ == trim_spec(s@),
{
    let chars = chars_of(s);
    let n = chars.len();
    let mut start: usize = 0;
    assert(s@.subrange(0, n as int) =~= s@);
    while start < n && is_white_space_char(chars[start])
        invariant
            start <= n,
            n == s@.len(),
            chars@ == s@,
            trim_start_spec(s@) == trim_start_spec(s@.subrange(start as int, n as int)),
        decreases n - start,
    {
        assert(s@.subrange(start as int, n as int).drop_first() =~= s@.subrange(
            start + 1,
            n as int,
        ));
        start = start + 1;
    }
    assert(trim_start_spec(s@) == s@.subrange(start as int, n as int));
    let mut end: usize = n;
    while end > start && is_white_space_char(chars[end - 1])
        invariant
            start <= end <= n,
            n == s@.len(),
            chars@ == s@,
            trim_spec(s@) == trim_end_spec(s@.subrange(start as int, end as int)),
        decreases end,
    {
        assert(s@.subrange(start as int, end as int).drop_last() =~= s@.subrange(
            start as int,
            end - 1,
        ));
        end = end - 1;
    }
    s.substring_char(start, end)
}


/// At most `n` characters of `s`; when characters had to be dropped, an
/// ellipsis follows the kept ones.
pub open spec fn truncate_spec(s: Seq<char>, n: nat) -> Seq<char> {
    if s.len() <= n {
        s
    } else {
        s.take(n as int).push('…')
    }
}

/// Shortens `s` to its first `n` characters followed by `…` when it has more
/// than `n` characters; otherwise returns it whole.
pub fn truncate(s: &str, n: usize) -> (r: String)
    ensures
        r@ == truncate_spec(s@, n as nat),
{
    let len = s.unicode_len();
    if len <= n {
        String::from_str(s)
    } else {
        let mut out = String::from_str(s.substring_char(0, n));
        proof {
            reveal_strlit("…");
        }
        out.append("…");
        assert(out@ =~= s@.take(n as int).push('…'));
        out
    }
}


/// `needle` occurs in `hay` as a contiguous run of characters.
pub open spec fn is_substring(needle: Seq<char>, hay: Seq<char>) -> bool {
    exists|i: int|
        0 <= i && i + needle.len() <= hay.len() && #[trigger] hay.subrange(i, i + needle.len())
            == needle
}

/// Trimming the start keeps a suffix whose first character, if any, is not
/// whitespace.
pub proof fn lemma_trim_start_suffix(s: Seq<char>)
    ensures
        trim_start_spec(s).len() <= s.len(),
        trim_start_spec(s) == s.subrange(s.len() - trim_start_spec(s).len(), s.len() as int),
        trim_start_spec(s).len() > 0 ==> !is_white_space(trim_start_spec(s)[0]),
    decreases s.len(),
{
    if s.len() > 0 && is_white_space(s[0]) {
        lemma_trim_start_suffix(s.drop_first());
        let t = trim_start_spec(s.drop_first());
        assert(s.drop_first().subrange(s.len() - 1 - t.len(), s.len() - 1) =~= s.subrange(
            s.len() - t.len(),
            s.len() as int,
        ));
    } else {
        assert(s.subrange(0, s.len() as int) =~= s);
    }
}

/// Trimming the end keeps a prefix whose last character, if any, is not
/// whitespace.
pub proof fn lemma_trim_end_prefix(s: Seq<char>)
    ensures
        trim_end_spec(s).len() <= s.len(),
        trim_end_spec(s) == s.subrange(0, trim_end_spec(s).len() as int),
        trim_end_spec(s).len() > 0 ==> !is_white_space(trim_end_spec(s).last()),
    decreases s.len(),
{
    if s.len() > 0 && is_white_space(s.last()) {
        lemma_trim_end_prefix(s.drop_last());
        let t = trim_end_spec(s.drop_last());
        assert(s.drop_last().subrange(0, t.len() as int) =~= s.subrange(0, t.len() as int));
    } else {
        assert(s.subrange(0, s.len() as int) =~= s);
    }
}

/// A trimmed text occurs in the untrimmed one, and neither starts nor ends
/// with whitespace.
pub proof fn lemma_trim_shape(s: Seq<char>)
    ensures
        is_substring(trim_spec(s), s),
        trim_spec(s).len() > 0 ==> !is_white_space(trim_spec(s)[0]) && !is_white_space(
            trim_spec(s).last(),
        ),
{
    lemma_trim_start_suffix(s);
    let t = trim_start_spec(s);
    lemma_trim_end_prefix(t);
    let r = trim_spec(s);
    let i = s.len() - t.len();
    assert(s.subrange(i, i + r.len()) =~= r);
    if r.len() > 0 {
        assert(r[0] == t[0]);
    }
}

/// Trimming is idempotent: `trim(trim(s)) == trim(s)`.
pub proof fn lemma_trim_idempotent(s: Seq<char>)
    ensures
        trim_spec(trim_spec(s)) == trim_spec(s),
{
    lemma_trim_shape(s);
    let r = trim_spec(s);
    assert(trim_start_spec(r) == r);
    assert(trim_end_spec(r) == r);
}

/// A truncated text has at most `n + 1` characters and starts with the
/// first `n` characters of the given text (all of it when it is short enough,
/// in which case it is unchanged).
pub proof fn lemma_truncate_shape(s: Seq<char>, n: nat)
    ensures
        truncate_spec(s, n).len() <= n + 1,
        s.len() <= n ==> truncate_spec(s, n) == s,
        s.len() > n ==> truncate_spec(s, n).take(n as int) == s.take(n as int) && truncate_spec(
            s,
            n,
        ).last() == '…',
{
    if s.len() > n {
        assert(truncate_spec(s, n).take(n as int) =~= s.take(n as int));
    }
}


/// The whitespace that trimming removes is Unicode `White_Space`:
/// U+0009 to U+000D, U+0020, U+0085, U+00A0, U+1680, U+2000 to U+200A,
/// U+2028, U+2029, U+202F, U+205F and U+3000.
pub proof fn lemma_white_space_chars(c: char)
    ensures
        is_white_space(c) <==> ((0x9 <= (c as u32) && (c as u32) <= 0xD) || (c as u32) == 0x20
            || (c as u32) == 0x85 || (c as u32) == 0xA0 || (c as u32) == 0x1680 || (0x2000 <= (
        c as u32) && (c as u32) <= 0x200A) || (c as u32) == 0x2028 || (c as u32) == 0x2029 || (c
            as u32) == 0x202F || (c as u32) == 0x205F || (c as u32) == 0x3000),
{
}


/// Trimming removes only whitespace: the trimmed text sits in the original
/// at some position, everything before and after it is whitespace, and it
/// neither starts nor ends with whitespace itself.
pub proof fn lemma_trim_removes_only_white_space(s: Seq<char>)
    ensures
        exists|i: int|
            0 <= i && i + trim_spec(s).len() <= s.len() && #[trigger] s.subrange(
                i,
                i + trim_spec(s).len(),
            ) == trim_spec(s) && (forall|j: int| 0 <= j < i ==> is_white_space(#[trigger] s[j]))
                && (forall|j: int|
                i + trim_spec(s).len() <= j < s.len() ==> is_white_space(#[trigger] s[j])),
{
    lemma_trim_start_removes(s);
    lemma_trim_start_suffix(s);
    let t = trim_start_spec(s);
    lemma_trim_end_removes(t);
    lemma_trim_end_prefix(t);
    let r = trim_spec(s);
    let i = s.len() - t.len();
    assert(s.subrange(i, i + r.len()) =~= r);
    assert forall|j: int| i + r.len() <= j < s.len() implies is_white_space(#[trigger] s[j]) by {
        assert(s[j] == t[j - i]);
    }
}

proof fn lemma_trim_start_removes(s: Seq<char>)
    ensures
        trim_start_spec(s).len() <= s.len(),
        forall|j: int| 0 <= j < s.len() - trim_start_spec(s).len() ==> is_white_space(#[trigger] s[j]),
    decreases s.len(),
{
    if s.len() > 0 && is_white_space(s[0]) {
        let d = s.drop_first();
        lemma_trim_start_removes(d);
        assert forall|j: int| 0 <= j < s.len() - trim_start_spec(s).len() implies is_white_space(
            #[trigger] s[j],
        ) by {
            if j > 0 {
                assert(s[j] == d[j - 1]);
            }
        }
    }
}

proof fn lemma_trim_end_removes(s: Seq<char>)
    ensures
        trim_end_spec(s).len() <= s.len(),
        forall|j: int| trim_end_spec(s).len() <= j < s.len() ==> is_white_space(#[trigger] s[j]),
    decreases s.len(),
{
    if s.len() > 0 && is_white_space(s.last()) {
        let d = s.drop_last();
        lemma_trim_end_removes(d);
        assert forall|j: int| trim_end_spec(s).len() <= j < s.len() implies is_white_space(
            #[trigger] s[j],
        ) by {
            if j < s.len() - 1 {
                assert(s[j] == d[j]);
            }
        }
    }
}

} // verus!
