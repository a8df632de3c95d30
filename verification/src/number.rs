//! Numbers written out in ASCII digits.

use vstd::arithmetic::div_mod::lemma_fundamental_div_mod;
use vstd::prelude::*;

verus! {

/// What a digit stands for, whatever the radix: `0` to `9`, then letters of either case.
pub open spec fn digit_value(c: u8) -> Option<nat> {
    if 0x30 <= c <= 0x39 {
        Some((c - 0x30) as nat)
    } else if 0x61 <= c <= 0x7a {
        Some((c - 0x61 + 10) as nat)
    } else if 0x41 <= c <= 0x5a {
        Some((c - 0x41 + 10) as nat)
    } else {
        None
    }
}

pub open spec fn is_digit(c: u8, radix: nat) -> bool {
    digit_value(c) matches Some(d) && d < radix
}

pub open spec fn all_digits(s: Seq<u8>, radix: nat) -> bool {
    forall|i: int| 0 <= i < s.len() ==> is_digit(#[trigger] s[i], radix)
}

/// The number that a sequence of digits stands for.
pub open spec fn digits_value(s: Seq<u8>, radix: nat) -> nat
    decreases s.len(),
{
    if s.len() == 0 {
        0
    } else {
        digits_value(s.drop_last(), radix) * radix + digit_value(s.last()).unwrap()
    }
}

/// The digits of `item` without its optional plus sign.
pub open spec fn unsigned_part(item: Seq<u8>) -> Seq<u8> {
    if item.len() > 0 && item[0] == 0x2b {
        item.skip(1)
    } else {
        item
    }
}

/// The number that an item holds: an optional plus sign, then one or more digits of
/// the radix whose value fits in 32 bits. Anything else holds no number.
pub open spec fn item_value(item: Seq<u8>, radix: nat) -> Option<u32> {
    let digits = unsigned_part(item);
    if digits.len() > 0 && all_digits(digits, radix) && digits_value(digits, radix) <= u32::MAX {
        Some(digits_value(digits, radix) as u32)
    } else {
        None
    }
}

/// A number below ten as an ASCII digit.
pub open spec fn ascii_digit(d: nat) -> u8
    recommends
        d < 10,
{
    (d + 0x30) as u8
}

/// The digits of a number, most significant first, without leading zeros.
pub open spec fn digits_of(n: nat, radix: nat) -> Seq<u8>
    recommends
        2 <= radix <= 10,
    decreases n,
{
    if radix < 2 || n < radix {
        seq![ascii_digit(n)]
    } else {
        proof {
            assert(n / radix < n) by (nonlinear_arith)
                requires
                    n >= radix,
                    radix >= 2,
            ;
        }
        digits_of(n / radix, radix).push(ascii_digit(n % radix))
    }
}

fn digit_of(c: u8, radix: u32) -> (d: Option<u32>)
    ensures
        d is Some <==> is_digit(c, radix as nat),
        d matches Some(v) ==> digit_value(c) == Some(v as nat),
{
    let v: u32 = if c >= 0x30 && c <= 0x39 {
        (c - 0x30) as u32
    } else if c >= 0x61 && c <= 0x7a {
        (c - 0x61) as u32 + 10
    } else if c >= 0x41 && c <= 0x5a {
        (c - 0x41) as u32 + 10
    } else {
        return None;
    };
    if v < radix {
        Some(v)
    } else {
        None
    }
}

/// A longer sequence of digits stands for a number that is at least as large.
proof fn lemma_value_grows(s: Seq<u8>, k: int, radix: nat)
    requires
        0 <= k <= s.len(),
        radix >= 1,
    ensures
        digits_value(s.take(k), radix) <= digits_value(s, radix),
    decreases s.len(),
{
    if k == s.len() {
        assert(s.take(k) =~= s);
    } else {
        lemma_value_grows(s.drop_last(), k, radix);
        assert(s.drop_last().take(k) =~= s.take(k));
        let v = digits_value(s.drop_last(), radix);
        assert(v * radix >= v) by (nonlinear_arith)
            requires
                radix >= 1,
                v >= 0,
        ;
    }
}

/// Reads a number from the text of an item: an optional plus sign and digits of the
/// radix. An item that is no such number, or whose number is too large, gives nothing.
pub fn item_to_value(item: &[u8], radix: u32) -> (r: Option<u32>)
    requires
        2 <= radix <= 36,
    ensures
        r == item_value(item@, radix as nat),
{
    let start: usize = if item.len() > 0 && item[0] == 0x2b {
        1
    } else {
        0
    };
    let ghost digits = unsigned_part(item@);
    assert(digits =~= item@.skip(start as int));
    if item.len() == start {
        return None;
    }
    let mut value: u32 = 0;
    let mut i: usize = start;
    assert(digits.take(0) =~= Seq::empty());
    while i < item.len()
        invariant
            2 <= radix <= 36,
            start <= i <= item.len(),
            digits == unsigned_part(item@),
            digits == item@.skip(start as int),
            all_digits(digits.take(i - start), radix as nat),
            value == digits_value(digits.take(i - start), radix as nat),
        decreases item.len() - i,
    {
        let ghost k = i - start;
        assert(digits.take(k + 1).drop_last() =~= digits.take(k));
        assert(digits.take(k + 1).last() == digits[k]);
        match digit_of(item[i], radix) {
            None => {
                assert(!is_digit(digits[k], radix as nat));
                return None;
            },
            Some(d) => {
                assert(value * radix <= 0xffff_ffff * 36) by (nonlinear_arith)
                    requires
                        value <= 0xffff_ffff,
                        radix <= 36,
                ;
                let next: u64 = value as u64 * radix as u64 + d as u64;
                if next > u32::MAX as u64 {
                    proof {
                        lemma_value_grows(digits, k + 1, radix as nat);
                    }
                    return None;
                }
                value = next as u32;
                assert(all_digits(digits.take(k + 1), radix as nat)) by {
                    assert forall|j: int| 0 <= j < k + 1 implies is_digit(
                        #[trigger] digits.take(k + 1)[j],
                        radix as nat,
                    ) by {
                        if j < k {
                            assert(is_digit(digits.take(k)[j], radix as nat));
                        }
                    }
                }
            },
        }
        i = i + 1;
    }
    assert(digits.take(digits.len() as int) =~= digits);
    Some(value)
}

/// Writes a number behind what `out` holds.
pub fn push_number(out: &mut Vec<u8>, n: u32, radix: u32)
    requires
        2 <= radix <= 10,
    ensures
        final(out)@ == old(out)@ + digits_of(n as nat, radix as nat),
    decreases n,
{
    if n >= radix {
        assert(n / radix < n) by (nonlinear_arith)
            requires
                n >= radix,
                radix >= 2,
        ;
        push_number(out, n / radix, radix);
    }
    out.push((n % radix) as u8 + 0x30);
    proof {
        let d = (n % radix) as nat;
        assert(d < radix) by (nonlinear_arith)
            requires
                d == n % radix,
                radix >= 2,
        ;
        if n < radix {
            assert(n % radix == n) by (nonlinear_arith)
                requires
                    n < radix,
            ;
        }
        assert(out@.last() == ascii_digit(d));
        assert(out@ =~= old(out)@ + digits_of(n as nat, radix as nat));
    }
}

/// The digits of a number are digits of its radix and stand for it.
pub proof fn lemma_digits_read_back(n: nat, radix: nat)
    requires
        2 <= radix <= 10,
    ensures
        digits_of(n, radix).len() > 0,
        all_digits(digits_of(n, radix), radix),
        digits_value(digits_of(n, radix), radix) == n,
    decreases n,
{
    let s = digits_of(n, radix);
    if n < radix {
        assert(s.drop_last() =~= Seq::empty());
        assert(digits_value(s.drop_last(), radix) == 0);
        assert(0 * radix == 0) by (nonlinear_arith);
        assert(digit_value(s.last()) == Some(n));
    } else {
        assert(n / radix < n) by (nonlinear_arith)
            requires
                n >= radix,
                radix >= 2,
        ;
        lemma_digits_read_back(n / radix, radix);
        lemma_fundamental_div_mod(n as int, radix as int);
        assert(s.drop_last() =~= digits_of(n / radix, radix));
        assert((n / radix) * radix == radix * (n / radix)) by (nonlinear_arith);
        assert(n % radix < radix) by (nonlinear_arith)
            requires
                radix >= 2,
        ;
        assert(digit_value(s.last()) == Some((n % radix) as nat));
        assert forall|i: int| 0 <= i < s.len() implies is_digit(#[trigger] s[i], radix) by {
            if i < s.len() - 1 {
                assert(s.drop_last()[i] == s[i]);
            }
        }
    }
}

/// A number that is written out, with or without leading zeros, is read back as it was.
pub proof fn law_number_reads_back(n: u32, radix: nat)
    requires
        2 <= radix <= 10,
    ensures
        item_value(digits_of(n as nat, radix), radix) == Some(n),
        item_value(seq![0x30u8] + digits_of(n as nat, radix), radix) == Some(n),
{
    let s = digits_of(n as nat, radix);
    lemma_digits_read_back(n as nat, radix);
    assert(is_digit(s[0], radix));
    assert(unsigned_part(s) == s);
    let z = seq![0x30u8] + s;
    assert(unsigned_part(z) == z);
    assert(all_digits(z, radix)) by {
        assert forall|i: int| 0 <= i < z.len() implies is_digit(#[trigger] z[i], radix) by {
            if i > 0 {
                assert(z[i] == s[i - 1]);
            }
        }
    }
    lemma_leading_zero(s, radix);
}

proof fn lemma_leading_zero(s: Seq<u8>, radix: nat)
    ensures
        digits_value(seq![0x30u8] + s, radix) == digits_value(s, radix),
    decreases s.len(),
{
    let z = seq![0x30u8] + s;
    if s.len() == 0 {
        assert(z.drop_last() =~= Seq::empty());
        assert(digits_value(z.drop_last(), radix) == 0);
        assert(0 * radix == 0) by (nonlinear_arith);
    } else {
        assert(z.drop_last() =~= seq![0x30u8] + s.drop_last());
        lemma_leading_zero(s.drop_last(), radix);
    }
}

} // verus!
