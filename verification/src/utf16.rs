//! UTF-16 text and its little-endian bytes, as the Windows clipboard carries it.

use vstd::prelude::*;
use crate::text::chars_of;

verus! {

/// `char::from_u32`: the character with the code point `u`, if `u` is one.
pub assume_specification[ char::from_u32 ](u: u32) -> (r: Option<char>)
    ensures
        (u <= 0xd7ff || 0xe000 <= u <= 0x10ffff) ==> r == Some(u as char),
        !(u <= 0xd7ff || 0xe000 <= u <= 0x10ffff) ==> r is None,
;

/// The character that stands for text that could not be decoded.
pub const REPLACEMENT: char = '\u{fffd}';

/// The code units of one character.
pub open spec fn encode_char(c: char) -> Seq<u16> {
    let u = c as u32 as int;
    if u < 0x10000 {
        seq![u as u16]
    } else {
        seq![(0xd800 + (u - 0x10000) / 0x400) as u16, (0xdc00 + (u - 0x10000) % 0x400) as u16]
    }
}

/// The code units of a text.
pub open spec fn utf16(s: Seq<char>) -> Seq<u16>
    decreases s.len(),
{
    if s.len() == 0 {
        Seq::empty()
    } else {
        utf16(s.drop_last()) + encode_char(s.last())
    }
}

/// A unit that opens a surrogate pair.
pub open spec fn is_high(u: u16) -> bool {
    0xd800 <= u <= 0xdbff
}

/// A unit that closes a surrogate pair.
pub open spec fn is_low(u: u16) -> bool {
    0xdc00 <= u <= 0xdfff
}

/// The character of a surrogate pair.
pub open spec fn pair_char(high: u16, low: u16) -> char {
    (0x10000 + (high - 0xd800) * 0x400 + (low - 0xdc00)) as char
}

/// How many units the first character of `u` takes.
pub open spec fn first_width(u: Seq<u16>) -> int {
    if u.len() >= 2 && is_high(u[0]) && is_low(u[1]) {
        2
    } else {
        1
    }
}

/// The first character of `u`; an unpaired surrogate reads as the replacement.
pub open spec fn first_char(u: Seq<u16>) -> char {
    if u.len() >= 2 && is_high(u[0]) && is_low(u[1]) {
        pair_char(u[0], u[1])
    } else if is_high(u[0]) || is_low(u[0]) {
        REPLACEMENT
    } else {
        u[0] as char
    }
}

/// The text of `u`, each unpaired surrogate replaced.
pub open spec fn decode_lossy(u: Seq<u16>) -> Seq<char>
    decreases u.len(),
{
    if u.len() == 0 {
        Seq::empty()
    } else {
        seq![first_char(u)] + decode_lossy(u.skip(first_width(u)))
    }
}

/// `u` holds no unpaired surrogate.
pub open spec fn well_formed(u: Seq<u16>) -> bool
    decreases u.len(),
{
    u.len() == 0 || {
        &&& (is_high(u[0]) || is_low(u[0])) ==> first_width(u) == 2
        &&& well_formed(u.skip(first_width(u)))
    }
}

/// The low byte of each unit before its high byte.
pub open spec fn le_bytes(u: Seq<u16>) -> Seq<u8> {
    Seq::new(
        2 * u.len(),
        |i: int|
            if i % 2 == 0 {
                (u[i / 2] as int % 256) as u8
            } else {
                (u[i / 2] as int / 256) as u8
            },
    )
}

/// The unit that two bytes hold, low byte first.
pub open spec fn le_unit(low: u8, high: u8) -> u16 {
    (low + 256 * high) as u16
}

/// The units of the whole pairs of bytes; an odd last byte is dropped.
pub open spec fn units_of(b: Seq<u8>) -> Seq<u16> {
    Seq::new(b.len() / 2, |i: int| le_unit(b[2 * i], b[2 * i + 1]))
}

/// The units before the first zero.
pub open spec fn until_zero(u: Seq<u16>) -> Seq<u16>
    decreases u.len(),
{
    if u.len() == 0 || u[0] == 0 {
        Seq::empty()
    } else {
        seq![u[0]] + until_zero(u.drop_first())
    }
}

/// The code units of `s`.
pub fn encode_utf16(s: &str) -> (r: Vec<u16>)
    ensures
        r@ == utf16(s@),
{
    let a = chars_of(s);
    let mut r: Vec<u16> = Vec::new();
    let mut i: usize = 0;
    while i < a.len()
        invariant
            i <= a.len(),
            a@ == s@,
            r@ == utf16(a@.take(i as int)),
        decreases a.len() - i,
    {
        let ghost before = r@;
        let u: u32 = a[i] as u32;
        if u < 0x10000 {
            r.push(u as u16);
        } else {
            let v: u32 = u - 0x10000;
            r.push((0xd800 + v / 0x400) as u16);
            r.push((0xdc00 + v % 0x400) as u16);
        }
        i += 1;
        proof {
            let t = a@.take(i as int);
            assert(t.drop_last() =~= a@.take(i - 1));
            assert(r@ =~= before + encode_char(a@[i - 1]));
        }
    }
    assert(a@.take(i as int) =~= a@);
    r
}

/// The text of `u`, each unpaired surrogate replaced by U+FFFD.
pub fn decode_utf16_lossy(u: &[u16]) -> (r: String)
    ensures
        r@ == decode_lossy(u@),
{
    let mut r = String::new();
    let mut i: usize = 0;
    assert(u@.skip(0) =~= u@);
    assert(r@ + decode_lossy(u@) =~= decode_lossy(u@));
    while i < u.len()
        invariant
            i <= u.len(),
            r@ + decode_lossy(u@.skip(i as int)) == decode_lossy(u@),
        decreases u.len() - i,
    {
        let ghost rest = u@.skip(i as int);
        let ghost before = r@;
        let a: u16 = u[i];
        let high: bool = 0xd800 <= a && a <= 0xdbff;
        let low: bool = 0xdc00 <= a && a <= 0xdfff;
        let mut width: usize = 1;
        let mut c: char = REPLACEMENT;
        if high && i + 1 < u.len() && 0xdc00 <= u[i + 1] && u[i + 1] <= 0xdfff {
            let b: u16 = u[i + 1];
            let code: u32 = 0x10000 + (a as u32 - 0xd800) * 0x400 + (b as u32 - 0xdc00);
            width = 2;
            if let Some(d) = char::from_u32(code) {
                c = d;
            }
            assert(c == pair_char(a, b));
        } else if !high && !low {
            if let Some(d) = char::from_u32(a as u32) {
                c = d;
            }
            assert(c == a as char);
        }
        assert(c == first_char(rest));
        assert(width == first_width(rest));
        r.push(c);
        i += width;
        proof {
            assert(rest.skip(width as int) =~= u@.skip(i as int));
            assert(r@ =~= before + seq![c]);
            assert(r@ + decode_lossy(u@.skip(i as int)) =~= before + decode_lossy(rest));
        }
    }
    assert(u@.skip(i as int) =~= Seq::empty());
    assert(r@ + Seq::<char>::empty() =~= r@);
    r
}

/// The bytes of `u`, low byte of each unit first.
pub fn to_le_bytes(u: &[u16]) -> (r: Vec<u8>)
    ensures
        r@ == le_bytes(u@),
{
    let mut r: Vec<u8> = Vec::new();
    let mut i: usize = 0;
    while i < u.len()
        invariant
            i <= u.len(),
            r@ == le_bytes(u@.take(i as int)),
        decreases u.len() - i,
    {
        r.push((u[i] % 256) as u8);
        r.push((u[i] / 256) as u8);
        i += 1;
        assert(r@ =~= le_bytes(u@.take(i as int)));
    }
    assert(u@.take(i as int) =~= u@);
    r
}

/// The units of the whole pairs of bytes in `b`.
pub fn from_le_bytes(b: &[u8]) -> (r: Vec<u16>)
    ensures
        r@ == units_of(b@),
{
    let mut r: Vec<u16> = Vec::new();
    let mut i: usize = 0;
    let n: usize = b.len() / 2;
    assert(2 * n <= b.len());
    while i < n
        invariant
            i <= n,
            n == b@.len() / 2,
            2 * n <= usize::MAX,
            r@ == units_of(b@).take(i as int),
        decreases n - i,
    {
        let low: u16 = b[2 * i] as u16;
        let high: u16 = b[2 * i + 1] as u16;
        r.push(low + 256 * high);
        i += 1;
        assert(r@ =~= units_of(b@).take(i as int));
    }
    assert(r@ =~= units_of(b@));
    r
}

/// The units of `u` before the first zero.
pub fn before_zero(u: &[u16]) -> (r: Vec<u16>)
    ensures
        r@ == until_zero(u@),
{
    let mut r: Vec<u16> = Vec::new();
    let mut i: usize = 0;
    assert(u@.skip(0) =~= u@);
    assert(r@ + until_zero(u@) =~= until_zero(u@));
    while i < u.len()
        invariant
            i <= u.len(),
            r@ + until_zero(u@.skip(i as int)) == until_zero(u@),
        decreases u.len() - i,
    {
        let ghost rest = u@.skip(i as int);
        let ghost before = r@;
        assert(rest.drop_first() =~= u@.skip(i + 1));
        if u[i] == 0 {
            assert(r@ + Seq::<u16>::empty() =~= r@);
            return r;
        }
        r.push(u[i]);
        i += 1;
        proof {
            assert(r@ =~= before + seq![rest[0]]);
            assert(r@ + until_zero(u@.skip(i as int)) =~= before + until_zero(rest));
        }
    }
    assert(u@.skip(i as int) =~= Seq::empty());
    assert(r@ + Seq::<u16>::empty() =~= r@);
    r
}

proof fn lemma_utf16_first(s: Seq<char>)
    requires
        s.len() > 0,
    ensures
        utf16(s) == encode_char(s[0]) + utf16(s.drop_first()),
    decreases s.len(),
{
    if s.len() == 1 {
        assert(s.drop_last() =~= Seq::empty());
        assert(s.drop_first() =~= Seq::empty());
        assert(utf16(s.drop_last()) + encode_char(s.last()) =~= encode_char(s[0]));
        assert(encode_char(s[0]) + utf16(s.drop_first()) =~= encode_char(s[0]));
    } else {
        lemma_utf16_first(s.drop_last());
        assert(s.drop_last().drop_first() =~= s.drop_first().drop_last());
        assert(utf16(s) =~= encode_char(s[0]) + utf16(s.drop_first()));
    }
}

/// The first character of an encoded text reads back.
proof fn lemma_first_char(c: char, rest: Seq<u16>)
    ensures
        first_char(encode_char(c) + rest) == c,
        first_width(encode_char(c) + rest) == encode_char(c).len(),
        (encode_char(c) + rest).skip(encode_char(c).len() as int) == rest,
        encode_char(c).len() == 2 || (!is_high(encode_char(c)[0]) && !is_low(encode_char(c)[0])),
{
    let u = c as u32 as int;
    let e = encode_char(c);
    let all = e + rest;
    assert(all.skip(e.len() as int) =~= rest);
    assert(all[0] == e[0]);
    if u >= 0x10000 {
        assert(all[1] == e[1]);
        let v = u - 0x10000;
        assert(0 <= v < 0x100000);
        assert(0 <= v / 0x400 < 0x400);
        assert(e[0] == 0xd800 + v / 0x400);
        assert(e[1] == 0xdc00 + v % 0x400);
        assert((v / 0x400) * 0x400 + v % 0x400 == v);
    }
}

/// A text that was encoded as UTF-16 decodes to itself: nothing is replaced.
pub proof fn encoded_text_reads_back(s: Seq<char>)
    ensures
        decode_lossy(utf16(s)) == s,
        well_formed(utf16(s)),
    decreases s.len(),
{
    if s.len() > 0 {
        let t = s.drop_first();
        lemma_utf16_first(s);
        lemma_first_char(s[0], utf16(t));
        encoded_text_reads_back(t);
        assert(seq![s[0]] + t =~= s);
    }
}

/// The units read from the bytes of `u` are `u`.
pub proof fn le_bytes_read_back(u: Seq<u16>)
    ensures
        units_of(le_bytes(u)) == u,
{
    let b = le_bytes(u);
    assert forall|i: int| 0 <= i < u.len() implies units_of(b)[i] == u[i] by {
        assert(b[2 * i] == (u[i] as int % 256) as u8);
        assert(b[2 * i + 1] == (u[i] as int / 256) as u8);
    }
    assert(units_of(b) =~= u);
}

/// Reading up to the first zero keeps a text that holds no zero, and drops a
/// terminator behind it.
pub proof fn terminator_is_dropped(u: Seq<u16>, tail: Seq<u16>)
    requires
        forall|i: int| 0 <= i < u.len() ==> u[i] != 0,
    ensures
        until_zero(u + seq![0u16] + tail) == u,
        until_zero(u) == u,
    decreases u.len(),
{
    let all = u + seq![0u16] + tail;
    if u.len() > 0 {
        let v = u.drop_first();
        assert(all.drop_first() =~= v + seq![0u16] + tail);
        terminator_is_dropped(v, tail);
        assert(seq![u[0]] + v =~= u);
    } else {
        assert(all[0] == 0);
        assert(u =~= Seq::empty());
    }
}

/// Each unit is written with its low byte first, and read so.
pub proof fn low_byte_comes_first(u: Seq<u16>, b: Seq<u8>, i: int)
    ensures
        le_bytes(u).len() == 2 * u.len(),
        0 <= i < u.len() ==> le_bytes(u)[2 * i] == u[i] % 256 && le_bytes(u)[2 * i + 1] == u[i]
            / 256,
        units_of(b).len() == b.len() / 2,
        0 <= i < b.len() / 2 ==> units_of(b)[i] == b[2 * i] + 256 * b[2 * i + 1],
{
}

/// A character below U+10000 is one unit with its number; any other is a pair of
/// surrogates that stand for its number.
pub proof fn units_carry_the_number(c: char)
    ensures
        (c as u32) < 0x10000 ==> encode_char(c) == seq![c as u16],
        (c as u32) >= 0x10000 ==> encode_char(c).len() == 2 && 0xd800 <= encode_char(c)[0] < 0xdc00
            && 0xdc00 <= encode_char(c)[1] < 0xe000 && c as u32 == 0x10000 + (encode_char(c)[0]
            - 0xd800) * 0x400 + (encode_char(c)[1] - 0xdc00),
{
    let v = c as u32 - 0x10000;
    if v >= 0 {
        assert((v / 0x400) * 0x400 + v % 0x400 == v);
        assert(0 <= v / 0x400 < 0x400);
    }
}

/// Text of characters below U+0080 has one unit for each, with its number.
pub proof fn ascii_units(s: Seq<char>)
    requires
        forall|i: int| 0 <= i < s.len() ==> (#[trigger] s[i]) as u32 <= 0x7f,
    ensures
        utf16(s).len() == s.len(),
        forall|i: int| 0 <= i < s.len() ==> #[trigger] utf16(s)[i] == s[i] as u32,
    decreases s.len(),
{
    if s.len() > 0 {
        let t = s.drop_last();
        assert forall|i: int| 0 <= i < t.len() implies (#[trigger] t[i]) as u32 <= 0x7f by {
            assert(t[i] == s[i]);
        }
        ascii_units(t);
        assert(s[s.len() - 1] as u32 <= 0x7f);
        assert forall|i: int| 0 <= i < s.len() implies #[trigger] utf16(s)[i] == s[i] as u32 by {
            if i < t.len() {
                assert(utf16(t)[i] == t[i] as u32);
            }
        }
    }
}

} // verus!
