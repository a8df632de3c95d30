//! Times of the host and of the guest.
//!
//! The host counts ticks of a tenth of a microsecond since the year 1601, the guest
//! seconds and nanoseconds since 1970.

use vstd::prelude::*;

verus! {

/// Ticks from the host's epoch to the guest's.
pub const FILETIME_UNIX_EPOCH_DIFF: i64 = 116_444_736_000_000_000;

pub const FILETIME_TICKS_PER_SEC: i64 = 10_000_000;

pub const FILETIME_NSEC_PER_TICK: i64 = 100;

/// A 64-bit word read as a signed number.
pub open spec fn as_signed(x: u64) -> int {
    if x < 0x8000_0000_0000_0000 {
        x as int
    } else {
        x - 0x1_0000_0000_0000_0000
    }
}

/// A signed number as a 64-bit word.
pub open spec fn as_word(x: int) -> int {
    if x >= 0 {
        x
    } else {
        x + 0x1_0000_0000_0000_0000
    }
}

/// Division that rounds towards zero.
pub open spec fn div_to_zero(a: int, b: int) -> int {
    if a >= 0 {
        a / b
    } else {
        -((-a) / b)
    }
}

/// Reads a word as a signed number.
pub fn word_to_signed(x: u64) -> (r: i64)
    ensures
        r == as_signed(x),
{
    let r: i64 = x as i64;
    assert(x < 0x8000_0000_0000_0000 ==> x as i64 == x) by (bit_vector);
    assert(x >= 0x8000_0000_0000_0000 ==> x as i64 == x - 0x1_0000_0000_0000_0000) by (bit_vector);
    r
}

/// Writes a signed number as a word.
pub fn signed_to_word(x: i64) -> (r: u64)
    ensures
        r == as_word(x as int),
{
    let r: u64 = x as u64;
    assert(x >= 0 ==> x as u64 == x) by (bit_vector);
    assert(x < 0 ==> x as u64 == x + 0x1_0000_0000_0000_0000) by (bit_vector);
    r
}

/// Ticks since the guest's epoch.
pub open spec fn unix_ticks(ft: u64) -> int {
    as_signed(ft) - FILETIME_UNIX_EPOCH_DIFF
}

/// Whether the ticks since the guest's epoch can be counted in 64 bits.
pub open spec fn is_filetime(ft: u64) -> bool {
    unix_ticks(ft) >= i64::MIN
}

/// Whole seconds since the guest's epoch, rounded towards it.
pub open spec fn unix_secs(ft: u64) -> int {
    div_to_zero(unix_ticks(ft), FILETIME_TICKS_PER_SEC as int)
}

/// Nanoseconds since the last full second.
pub open spec fn unix_nsec(ft: u64) -> int {
    unix_ticks(ft) % (FILETIME_TICKS_PER_SEC as int) * FILETIME_NSEC_PER_TICK
}

/// Whether a time of the host can be told to the guest.
pub fn fits_unix_time(ft: u64) -> (r: bool)
    ensures
        r == is_filetime(ft),
{
    word_to_signed(ft) as i128 - FILETIME_UNIX_EPOCH_DIFF as i128 >= i64::MIN as i128
}

pub fn filetime_to_unix_secs(ft: u64) -> (r: i64)
    requires
        is_filetime(ft),
    ensures
        r == unix_secs(ft),
{
    let ft: i64 = word_to_signed(ft);
    (ft - FILETIME_UNIX_EPOCH_DIFF) / FILETIME_TICKS_PER_SEC
}

pub fn filetime_to_unix_nsec(ft: u64) -> (r: u32)
    requires
        is_filetime(ft),
    ensures
        r == unix_nsec(ft),
        r < 1_000_000_000,
{
    let ft: i64 = word_to_signed(ft);
    let rem: i64 = (ft - FILETIME_UNIX_EPOCH_DIFF) % FILETIME_TICKS_PER_SEC;
    let ticks: i64 = if rem < 0 {
        rem + FILETIME_TICKS_PER_SEC
    } else {
        rem
    };
    (ticks * FILETIME_NSEC_PER_TICK) as u32
}

/// Whether a time of the guest can be counted in ticks of the host.
pub open spec fn is_unix_time(secs: i64, nsec: u32) -> bool {
    let ticks = secs * FILETIME_TICKS_PER_SEC;
    let all = ticks + nsec as int / FILETIME_NSEC_PER_TICK as int;
    &&& i64::MIN <= ticks <= i64::MAX
    &&& i64::MIN <= all <= i64::MAX
    &&& all + FILETIME_UNIX_EPOCH_DIFF <= i64::MAX
}

/// Whether a time of the guest can be counted in ticks of the host.
pub fn fits_filetime(secs: i64, nsec: u32) -> (r: bool)
    ensures
        r == is_unix_time(secs, nsec),
{
    let ticks: i128 = secs as i128 * 10_000_000;
    let all: i128 = ticks + (nsec / 100) as i128;
    i64::MIN as i128 <= ticks && ticks <= i64::MAX as i128 && i64::MIN as i128 <= all && all
        <= i64::MAX as i128 && all + FILETIME_UNIX_EPOCH_DIFF as i128 <= i64::MAX as i128
}

/// A time of the guest in ticks of the host.
pub open spec fn filetime_of(secs: i64, nsec: u32) -> int {
    as_word(
        secs * FILETIME_TICKS_PER_SEC + nsec as int / FILETIME_NSEC_PER_TICK as int
            + FILETIME_UNIX_EPOCH_DIFF,
    )
}

pub fn unix_to_filetime(secs: i64, nsec: u32) -> (r: u64)
    requires
        is_unix_time(secs, nsec),
    ensures
        r == filetime_of(secs, nsec),
{
    let ticks: i64 = secs * FILETIME_TICKS_PER_SEC + (nsec as i64) / FILETIME_NSEC_PER_TICK;
    signed_to_word(ticks + FILETIME_UNIX_EPOCH_DIFF)
}

/// A time of the host goes to the guest and comes back unchanged, unless it lies before
/// 1970 and between two seconds.
pub proof fn law_filetime_round_trip(ft: u64)
    requires
        is_filetime(ft),
        unix_ticks(ft) >= 0 || unix_ticks(ft) % (FILETIME_TICKS_PER_SEC as int) == 0,
    ensures
        is_unix_time(unix_secs(ft) as i64, unix_nsec(ft) as u32),
        filetime_of(unix_secs(ft) as i64, unix_nsec(ft) as u32) == ft,
{
    let t = unix_ticks(ft);
    assert(t == 10_000_000 * (t / 10_000_000) + t % 10_000_000);
    if t < 0 {
        assert(-t == 10_000_000 * ((-t) / 10_000_000) + (-t) % 10_000_000);
        assert((-t) % 10_000_000 == 0);
    }
}

/// A time of the guest goes to the host and comes back to the tick, unless it lies
/// before 1970 and between two seconds.
pub proof fn law_unix_time_round_trip(secs: i64, nsec: u32)
    requires
        is_unix_time(secs, nsec),
        nsec < 1_000_000_000,
        secs >= 0 || nsec < FILETIME_NSEC_PER_TICK,
    ensures
        is_filetime(filetime_of(secs, nsec) as u64),
        unix_secs(filetime_of(secs, nsec) as u64) == secs,
        unix_nsec(filetime_of(secs, nsec) as u64) == nsec - nsec % 100,
{
    let n = nsec as int / 100;
    let t = secs * 10_000_000 + n;
    let ft = filetime_of(secs, nsec) as u64;
    assert(unix_ticks(ft) == t);
    assert(0 <= n < 10_000_000);
    assert(t % 10_000_000 == n);
    if t < 0 {
        assert(n == 0);
        assert((-t) / 10_000_000 == -secs);
    } else {
        assert(t / 10_000_000 == secs);
    }
}

} // verus!
