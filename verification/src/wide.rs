//! UTF-16 encoding of strings for the Win32 wide-character APIs.

use vstd::prelude::*;

verus! {

/// The UTF-16 code units of one character: the scalar value itself below
/// U+10000, else a high and a low surrogate.
pub open spec fn utf16_units(c: char) -> Seq<u16> {
    let v = c as u32;
    if v < 0x10000 {
        seq![v as u16]
    } else {
        let w = (v - 0x10000) as u32;
        seq![(0xD800 + w / 0x400) as u16, (0xDC00 + w % 0x400) as u16]
    }
}

/// The UTF-16 encoding of a character sequence, as `str::encode_utf16`
/// yields it.
pub open spec fn encode_utf16_spec(s: Seq<char>) -> Seq<u16>
    decreases s.len(),
{
    if s.len() == 0 {
        seq![]
    } else {
        encode_utf16_spec(s.drop_last()) + utf16_units(s.last())
    }
}

/// A NUL-terminated wide string.
pub open spec fn wide_spec(s: Seq<char>) -> Seq<u16> {
    encode_utf16_spec(s).push(0u16)
}

/// The UTF-16 code units of `c`.
pub fn char_utf16(c: char) -> (r: Vec<u16>)
    ensures
        r@ == utf16_units(c),
{
    let v = c as u32;
    let mut r: Vec<u16> = Vec::new();
    if v < 0x10000 {
        r.push(v as u16);
    } else {
        assert(v <= 0x10FFFF);
        let w: u32 = v - 0x10000;
        r.push((0xD800 + w / 0x400) as u16);
        r.push((0xDC00 + w % 0x400) as u16);
    }
    assert(r@ =~= utf16_units(c));
    r
}

/// `s` encoded as UTF-16 and terminated by a NUL unit, ready for a `PCWSTR`.
pub fn wide(s: &str) -> (r: Vec<u16>)
    ensures
        r@ == wide_spec(s@),
{
    let chars = crate::text::chars_of(s);
    let mut out: Vec<u16> = Vec::new();
    let mut i: usize = 0;
    while i < chars.len()
        invariant
            i <= chars@.len(),
            chars@ == s@,
            out@ == encode_utf16_spec(s@.take(i as int)),
        decreases chars@.len() - i,
    {
        let mut units = char_utf16(chars[i]);
        assert(s@.take(i + 1).drop_last() =~= s@.take(i as int));
        out.append(&mut units);
        i = i + 1;
    }
    assert(s@.take(chars@.len() as int) =~= s@);
    out.push(0u16);
    out
}

/// The wide form of `s` cut to at most `capacity` units, as it is copied
/// into a fixed-size buffer of the shell's notification data. When the
/// string does not fit, the terminating NUL is among the units cut off.
pub fn wide_truncated(s: &str, capacity: usize) -> (r: Vec<u16>)
    ensures
        r@ == wide_spec(s@).take(
            if wide_spec(s@).len() <= capacity {
                wide_spec(s@).len() as int
            } else {
                capacity as int
            },
        ),
{
    let w = wide(s);
    let n = if w.len() <= capacity {
        w.len()
    } else {
        capacity
    };
    let mut out: Vec<u16> = Vec::new();
    let mut i: usize = 0;
    while i < n
        invariant
            i <= n <= w@.len(),
            w@ == wide_spec(s@),
            out@ == w@.take(i as int),
        decreases n - i,
    {
        out.push(w[i]);
        assert(w@.take(i + 1) =~= w@.take(i as int).push(w@[i as int]));
        i = i + 1;
    }
    out
}


/// `s` holds no NUL character.
pub open spec fn has_no_nul(s: Seq<char>) -> bool {
    forall|i: int| 0 <= i < s.len() ==> #[trigger] (s[i] as u32) != 0
}

/// Only the NUL character has a NUL unit in its UTF-16 encoding.
proof fn lemma_units_nonzero(c: char)
    requires
        (c as u32) != 0,
    ensures
        forall|k: int| 0 <= k < utf16_units(c).len() ==> #[trigger] utf16_units(c)[k] != 0,
{
    let v = c as u32;
    if v < 0x10000 {
        assert(v != 0 && v < 0x10000 ==> (v as u16) != 0) by (bit_vector);
    } else {
        assert(v <= 0x10FFFF);
        let w = (v - 0x10000) as u32;
        assert(w <= 0xFFFFF);
        let hi = 0xD800 + w / 0x400;
        let lo = 0xDC00 + w % 0x400;
        assert(0xD800 <= hi < 0x10000);
        assert(0xDC00 <= lo < 0x10000);
        assert(0xD800 <= hi < 0x10000 ==> (hi as u16) != 0);
        assert(0xDC00 <= lo < 0x10000 ==> (lo as u16) != 0);
    }
}

/// Text without NUL characters encodes to UTF-16 without NUL units, so the
/// terminator of its wide form is the first NUL there.
pub proof fn lemma_encode_has_no_nul(s: Seq<char>)
    requires
        has_no_nul(s),
    ensures
        forall|j: int| 0 <= j < encode_utf16_spec(s).len() ==> #[trigger] encode_utf16_spec(s)[j] != 0,
    decreases s.len(),
{
    if s.len() > 0 {
        let d = s.drop_last();
        assert(has_no_nul(d)) by {
            assert forall|i: int| 0 <= i < d.len() implies #[trigger] (d[i] as u32) != 0 by {
                assert(d[i] == s[i]);
            }
        }
        lemma_encode_has_no_nul(d);
        let c = s.last();
        assert(c == s[s.len() - 1]);
        assert((c as u32) != 0);
        lemma_units_nonzero(c);
        let e = encode_utf16_spec(s);
        let ed = encode_utf16_spec(d);
        assert forall|j: int| 0 <= j < e.len() implies #[trigger] e[j] != 0 by {
            if j < ed.len() {
                assert(e[j] == ed[j]);
            } else {
                assert(e[j] == utf16_units(c)[j - ed.len()]);
            }
        }
    }
}


/// A wide string ends with its NUL terminator and has at least one unit per
/// character before it.
pub proof fn lemma_wide_shape(s: Seq<char>)
    ensures
        wide_spec(s).last() == 0,
        wide_spec(s).len() >= s.len() + 1,

{
    lemma_encode_len(s);
}

proof fn lemma_encode_len(s: Seq<char>)
    ensures
        encode_utf16_spec(s).len() >= s.len(),
    decreases s.len(),
{
    if s.len() > 0 {
        lemma_encode_len(s.drop_last());
    }
}


pub open spec fn is_high_surrogate(u: u16) -> bool {
    0xD800 <= u && u <= 0xDBFF
}

pub open spec fn is_low_surrogate(u: u16) -> bool {
    0xDC00 <= u && u <= 0xDFFF
}

/// UTF-16 decoding in which every unpaired surrogate becomes U+FFFD, as
/// `char::decode_utf16` reports unpaired surrogates and
/// `String::from_utf16_lossy` replaces each of them: a high surrogate
/// followed by a low one is one character, any other surrogate is a
/// replacement character, and any other unit is the character of that value.
pub open spec fn decode_utf16_lossy(u: Seq<u16>) -> Seq<char>
    decreases u.len(),
{
    if u.len() == 0 {
        seq![]
    } else if u.len() >= 2 && is_high_surrogate(u[0]) && is_low_surrogate(u[1]) {
        seq![(0x10000 + (u[0] - 0xD800) * 0x400 + (u[1] - 0xDC00)) as char] + decode_utf16_lossy(
            u.skip(2),
        )
    } else if is_high_surrogate(u[0]) || is_low_surrogate(u[0]) {
        seq!['\u{FFFD}'] + decode_utf16_lossy(u.drop_first())
    } else {
        seq![u[0] as char] + decode_utf16_lossy(u.drop_first())
    }
}

/// The encoding of a text is the encoding of its first character followed
/// by that of the rest.
proof fn lemma_encode_first(s: Seq<char>)
    requires
        s.len() > 0,
    ensures
        encode_utf16_spec(s) == utf16_units(s[0]) + encode_utf16_spec(s.drop_first()),
    decreases s.len(),
{
    if s.len() > 1 {
        lemma_encode_first(s.drop_last());
        assert(s.drop_last().drop_first() =~= s.drop_first().drop_last());
        assert(s.drop_last()[0] == s[0]);
        assert(s.drop_first().last() == s.last());
    } else {
        assert(s.drop_first() =~= Seq::<char>::empty());
        assert(s.drop_last() =~= Seq::<char>::empty());
    }
}

/// Decoding one encoded character in front of more units gives the
/// character in front of the decoding of those units.
proof fn lemma_decode_units(c: char, rest: Seq<u16>)
    ensures
        decode_utf16_lossy(utf16_units(c) + rest) == seq![c] + decode_utf16_lossy(rest),
{
    let v = c as u32;
    let u = utf16_units(c) + rest;
    assert(v <= 0x10FFFF);
    assert(!(0xD800 <= v && v <= 0xDFFF));
    if v < 0x10000 {
        assert(v < 0x10000 ==> (v as u16) == v) by (bit_vector);
        assert(u[0] == v);
        assert(u.drop_first() =~= rest);
        assert((u[0] as char) == c);
    } else {
        let w = (v - 0x10000) as u32;
        let hi = (0xD800 + w / 0x400) as u16;
        let lo = (0xDC00 + w % 0x400) as u16;
        assert(hi == 0xD800 + w / 0x400);
        assert(lo == 0xDC00 + w % 0x400);
        assert(u[0] == hi && u[1] == lo);
        assert(u.skip(2) =~= rest);
        assert(0x10000 + (hi - 0xD800) * 0x400 + (lo - 0xDC00) == v);
    }
}

/// Decoding an encoded text gives the text back.
pub proof fn lemma_decode_encode(s: Seq<char>)
    ensures
        decode_utf16_lossy(encode_utf16_spec(s)) == s,
    decreases s.len(),
{
    if s.len() == 0 {
    } else {
        lemma_encode_first(s);
        lemma_decode_encode(s.drop_first());
        lemma_decode_units(s[0], encode_utf16_spec(s.drop_first()));
        assert(seq![s[0]] + s.drop_first() =~= s);
    }
}

} // verus!
