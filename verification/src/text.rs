//! Text in the encodings that the host and the guest use.

use vstd::prelude::*;
use vstd::utf8::{char_is_scalar, char_u32_cast, decode_utf8, encode_utf8};
use vstd::utf8::{encode_utf8_decode_utf8, valid_utf8};

verus! {

/// `String::push` puts the character behind what the string holds.
pub assume_specification[ String::push ](s: &mut String, c: char)
    ensures
        final(s)@ == old(s)@.push(c),
;

/// `char::from_u32` gives the character with that number; surrogates and numbers above
/// the last character have none.
pub assume_specification[ char::from_u32 ](i: u32) -> (r: Option<char>)
    ensures
        r is Some <==> (i <= 0xD7FF || 0xE000 <= i <= 0x10FFFF),
        r matches Some(c) ==> c as u32 == i,
;

/// What `String::from_utf8_lossy` makes of bytes that need not be valid UTF-8.
pub uninterp spec fn lossy_utf8(bytes: Seq<u8>) -> Seq<char>;

/// `String::from_utf8_lossy`: valid UTF-8 is decoded as it stands. How many
/// replacement characters stand for an invalid stretch is left unsaid.
#[verifier::external_body]
pub(crate) fn from_utf8_lossy(bytes: &[u8]) -> (r: String)
    ensures
        r@ == lossy_utf8(bytes@),
        valid_utf8(bytes@) ==> r@ == decode_utf8(bytes@),
{
    String::from_utf8_lossy(bytes).into_owned()
}

/// The UTF-16 units of a character.
pub open spec fn units_of(c: char) -> Seq<u16> {
    let u = c as u32;
    if u < 0x10000 {
        seq![u as u16]
    } else {
        seq![
            (0xD800 + (u - 0x10000) / 0x400) as u16,
            (0xDC00 + (u - 0x10000) % 0x400) as u16,
        ]
    }
}

/// The UTF-16 units of a text.
pub open spec fn utf16(s: Seq<char>) -> Seq<u16>
    decreases s.len(),
{
    if s.len() == 0 {
        Seq::empty()
    } else {
        utf16(s.drop_last()) + units_of(s.last())
    }
}

/// Writes a text in UTF-16 behind what `out` holds.
pub fn push_utf16(out: &mut Vec<u16>, s: &str)
    ensures
        final(out)@ == old(out)@ + utf16(s@),
{
    let ghost base = out@;
    assert(base + utf16(s@.take(0)) =~= base);
    for c in it: s.chars()
        invariant
            it.seq() == s@,
            out@ == base + utf16(s@.take(it.index())),
    {
        let ghost k = it.index();
        assert(s@.take(k + 1).drop_last() =~= s@.take(k));
        let u: u32 = c as u32;
        if u < 0x10000 {
            out.push(u as u16);
        } else {
            let v: u32 = u - 0x10000;
            out.push((0xD800 + v / 0x400) as u16);
            out.push((0xDC00 + v % 0x400) as u16);
        }
        assert(out@ =~= base + utf16(s@.take(k + 1)));
    }
    assert(s@.take(s@.len() as int) =~= s@);
}

pub open spec fn is_high_surrogate(u: u16) -> bool {
    0xD800 <= u <= 0xDBFF
}

pub open spec fn is_low_surrogate(u: u16) -> bool {
    0xDC00 <= u <= 0xDFFF
}

/// The character of a surrogate pair.
pub open spec fn pair_char(high: u16, low: u16) -> char {
    ((0x10000 + (high - 0xD800) * 0x400 + (low - 0xDC00)) as u32) as char
}

/// The text that UTF-16 units stand for; a surrogate without its partner becomes the
/// replacement character.
pub open spec fn utf16_lossy(u: Seq<u16>) -> Seq<char>
    decreases u.len(),
{
    if u.len() == 0 {
        Seq::empty()
    } else if is_high_surrogate(u[0]) && u.len() >= 2 && is_low_surrogate(u[1]) {
        seq![pair_char(u[0], u[1])] + utf16_lossy(u.skip(2))
    } else if is_high_surrogate(u[0]) || is_low_surrogate(u[0]) {
        seq!['\u{FFFD}'] + utf16_lossy(u.skip(1))
    } else {
        seq![(u[0] as u32) as char] + utf16_lossy(u.skip(1))
    }
}

/// Decodes UTF-16, with the replacement character for a surrogate without its partner.
pub fn from_utf16_lossy(units: &[u16]) -> (r: String)
    ensures
        r@ == utf16_lossy(units@),
{
    let mut out = String::new();
    let mut i: usize = 0;
    assert(units@.skip(0) =~= units@);
    while i < units.len()
        invariant
            i <= units@.len(),
            out@ + utf16_lossy(units@.skip(i as int)) == utf16_lossy(units@),
        decreases units@.len() - i,
    {
        let ghost rest = units@.skip(i as int);
        let ghost before = out@;
        let a: u16 = units[i];
        let high: bool = a >= 0xD800 && a <= 0xDBFF;
        let low: bool = a >= 0xDC00 && a <= 0xDFFF;
        if high && units.len() - i >= 2 && units[i + 1] >= 0xDC00 && units[i + 1] <= 0xDFFF {
            let b: u16 = units[i + 1];
            let n: u32 = 0x10000 + (a as u32 - 0xD800) * 0x400 + (b as u32 - 0xDC00);
            let c: char = char::from_u32(n).unwrap();
            proof {
                char_u32_cast(c, n);
            }
            out.push(c);
            assert(rest.skip(2) =~= units@.skip(i + 2));
            assert(out@ + utf16_lossy(rest.skip(2)) =~= before + utf16_lossy(rest));
            i = i + 2;
        } else {
            let c: char = if high || low {
                '\u{FFFD}'
            } else {
                let c: char = char::from_u32(a as u32).unwrap();
                proof {
                    char_u32_cast(c, a as u32);
                }
                c
            };
            out.push(c);
            assert(rest.skip(1) =~= units@.skip(i + 1));
            assert(out@ + utf16_lossy(rest.skip(1)) =~= before + utf16_lossy(rest));
            i = i + 1;
        }
    }
    assert(units@.skip(i as int) =~= Seq::empty());
    assert(out@ + Seq::<char>::empty() =~= out@);
    out
}

proof fn lemma_utf16_front(c: char, s: Seq<char>)
    ensures
        utf16(seq![c] + s) == units_of(c) + utf16(s),
    decreases s.len(),
{
    let t = seq![c] + s;
    if s.len() == 0 {
        assert(t.drop_last() =~= Seq::empty());
        assert(utf16(t.drop_last()) =~= Seq::empty());
        assert(utf16(t) =~= units_of(c) + utf16(s));
    } else {
        assert(t.drop_last() =~= seq![c] + s.drop_last());
        lemma_utf16_front(c, s.drop_last());
        assert(utf16(t) =~= units_of(c) + utf16(s));
    }
}

/// A text that is encoded in UTF-16 is decoded as it was.
pub proof fn law_utf16_reads_back(s: Seq<char>)
    ensures
        utf16_lossy(utf16(s)) == s,
    decreases s.len(),
{
    if s.len() == 0 {
        assert(utf16_lossy(utf16(s)) =~= s);
    } else {
        let c = s[0];
        let t = s.skip(1);
        assert(s =~= seq![c] + t);
        lemma_utf16_front(c, t);
        law_utf16_reads_back(t);
        let u = utf16(s);
        let n = c as u32;
        char_is_scalar(c);
        char_u32_cast(c, n);
        if n < 0x10000 {
            assert(u.skip(1) =~= utf16(t));
            assert(u[0] as u32 == n);
        } else {
            assert(u.skip(2) =~= utf16(t));
            assert(pair_char(u[0], u[1]) == c);
        }
        assert(utf16_lossy(u) =~= s);
    }
}

/// Whether two byte strings are the same.
pub fn bytes_eq(a: &[u8], b: &[u8]) -> (r: bool)
    ensures
        r == (a@ == b@),
{
    if a.len() != b.len() {
        return false;
    }
    let mut i: usize = 0;
    while i < a.len()
        invariant
            a@.len() == b@.len(),
            i <= a@.len(),
            forall|j: int| 0 <= j < i ==> a@[j] == b@[j],
        decreases a@.len() - i,
    {
        if a[i] != b[i] {
            return false;
        }
        i = i + 1;
    }
    assert(a@ =~= b@);
    true
}

/// Whether two texts are the same.
pub fn str_eq(a: &str, b: &str) -> (r: bool)
    ensures
        r == (a@ == b@),
{
    proof {
        encode_utf8_decode_utf8(a@);
        encode_utf8_decode_utf8(b@);
    }
    bytes_eq(a.as_bytes(), b.as_bytes())
}

/// Whether a byte occurs in a byte string.
pub fn has_byte(s: &[u8], b: u8) -> (r: bool)
    ensures
        r == s@.contains(b),
{
    let mut i: usize = 0;
    while i < s.len()
        invariant
            i <= s@.len(),
            forall|j: int| 0 <= j < i ==> s@[j] != b,
        decreases s@.len() - i,
    {
        if s[i] == b {
            return true;
        }
        i = i + 1;
    }
    false
}

/// The UTF-8 bytes of a text.
pub fn to_bytes(s: &str) -> (r: Vec<u8>)
    ensures
        r@ == encode_utf8(s@),
{
    copy_bytes(s.as_bytes())
}

/// A copy of a byte string.
pub fn copy_bytes(s: &[u8]) -> (r: Vec<u8>)
    ensures
        r@ == s@,
{
    let mut out: Vec<u8> = Vec::new();
    out.extend_from_slice(s);
    assert(out@ =~= s@);
    out
}

/// A copy of UTF-16 units.
pub fn copy_units(s: &[u16]) -> (r: Vec<u16>)
    ensures
        r@ == s@,
{
    let mut out: Vec<u16> = Vec::new();
    out.extend_from_slice(s);
    assert(out@ =~= s@);
    out
}

/// Two texts put together.
pub fn concat(a: &str, b: &str) -> (r: String)
    ensures
        r@ == a@ + b@,
{
    let mut s = a.to_owned();
    s.append(b);
    s
}

} // verus!
