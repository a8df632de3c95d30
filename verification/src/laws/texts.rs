//! Texts, numbers, times and names, and how they are written and read.

use crate::dir::{dir_buffer_fits, read_dir_buffer, views, CachedDirEntry};
use crate::dir::entries_from;
use crate::laws::records::little_endian;
use crate::nt::OpenFlags;
use crate::number::{all_digits, digits_of, digits_value, item_to_value, push_number};
use crate::ops::dirs::dir_open_flags;
use crate::path::{child_path, dotdot, ends_in, exchange_path, is_plain_name, is_verbatim};
use crate::path::{law_child_is_one_name_deeper, path_to_nt_wide, pieces, splits};
use crate::path::{law_exchange_path_is_marked, surely_names_file};
use crate::stat::Metadata;
use crate::text::{bytes_eq, concat, copy_bytes, copy_units, from_utf16_lossy, has_byte};
use crate::text::{lossy_utf8, push_utf16, str_eq, to_bytes, units_of, utf16, utf16_lossy};
use crate::time::{filetime_to_unix_nsec, filetime_to_unix_secs, signed_to_word, word_to_signed};
use crate::win::{FILE_ATTRIBUTE_REPARSE_POINT, FILE_DIRECTORY_FILE, FILE_OPEN};
use crate::win::{FILE_SYNCHRONOUS_IO_NONALERT, GENERIC_READ};
use vstd::prelude::*;
use vstd::utf8::encode_utf8;

verus! {

/// The number of the character that units stand for: of one unit, or of a pair.
pub open spec fn scalar_of(units: Seq<u16>) -> int {
    if units.len() == 1 {
        units[0] as int
    } else {
        0x1_0000 + (units[0] - 0xd800) * 0x400 + (units[1] - 0xdc00)
    }
}

/// A text is written in UTF-16 character by character, behind what is there: one unit for a
/// character that has room in it, and else a high and a low surrogate.
pub proof fn law_text_is_written_in_units(out: &mut Vec<u16>, s: &str, front: Seq<char>, c: char)
    requires
        call_ensures(push_utf16, (out, s), ()),
        s@ == front.push(c),
    ensures
        ({
            let units = final(out)@.skip((old(out)@.len() + utf16(front).len()) as int);
            &&& final(out)@.take((old(out)@.len() + utf16(front).len()) as int) == old(out)@
                + utf16(front)
            &&& units.len() == 1 || units.len() == 2
            &&& scalar_of(units) == c as u32
            &&& units.len() == 2 ==> 0xd800 <= units[0] < 0xdc00 && 0xdc00 <= units[1] < 0xe000
        }),
        utf16(Seq::empty()).len() == 0,
{
    let base = old(out)@ + utf16(front);
    assert(s@.drop_last() =~= front);
    assert(final(out)@ =~= base + units_of(c));
    assert(final(out)@.skip(base.len() as int) =~= units_of(c));
    assert(final(out)@.take(base.len() as int) =~= base);
}

/// Units are read from the front: a pair of surrogates is one character, a surrogate without its
/// partner is replaced, and any other unit is the character with its number.
pub proof fn law_units_are_read(units: &[u16], r: String)
    requires
        call_ensures(from_utf16_lossy, (units,), r),
    ensures
        ({
            let u = units@;
            let pair = u.len() >= 2 && 0xd800 <= u[0] < 0xdc00 && 0xdc00 <= u[1] < 0xe000;
            let lone = u.len() >= 1 && !pair && 0xd800 <= u[0] < 0xe000;
            &&& u.len() == 0 ==> r@.len() == 0
            &&& u.len() > 0 ==> r@.len() > 0
            &&& pair ==> r@[0] == scalar_of(u.take(2)) as char && r@.skip(1) == utf16_lossy(
                u.skip(2),
            )
            &&& lone ==> r@[0] == '\u{FFFD}' && r@.skip(1) == utf16_lossy(u.skip(1))
            &&& u.len() > 0 && !pair && !lone ==> r@[0] == u[0] as char && r@.skip(1)
                == utf16_lossy(u.skip(1))
        }),
{
    let u = units@;
    if u.len() >= 2 {
        assert(u.take(2)[0] == u[0] && u.take(2)[1] == u[1]);
        assert(r@.skip(1) =~= utf16_lossy(u.skip(2)) || r@.skip(1) =~= utf16_lossy(u.skip(1)));
    } else if u.len() == 1 {
        assert(r@.skip(1) =~= utf16_lossy(u.skip(1)));
    }
}

/// Texts and byte strings are the same if they hold the same, are copied as they are, and are put
/// together one behind the other.
pub proof fn law_texts_are_kept(
    a: &[u8],
    b: &[u8],
    same: bool,
    s: &str,
    t: &str,
    same_text: bool,
    byte: u8,
    has: bool,
    bytes: Vec<u8>,
    copied: Vec<u8>,
    u: &[u16],
    units: Vec<u16>,
    both: String,
)
    requires
        call_ensures(bytes_eq, (a, b), same),
        call_ensures(str_eq, (s, t), same_text),
        call_ensures(has_byte, (a, byte), has),
        call_ensures(to_bytes, (s,), bytes),
        call_ensures(copy_bytes, (a,), copied),
        call_ensures(copy_units, (u,), units),
        call_ensures(concat, (s, t), both),
    ensures
        same <==> a@.len() == b@.len() && forall|i: int| 0 <= i < a@.len() ==> a@[i] == b@[i],
        same_text <==> s@ == t@,
        has <==> exists|i: int| 0 <= i < a@.len() && a@[i] == byte,
        bytes@ == encode_utf8(s@),
        copied@ == a@,
        units@ == u@,
        both@.take(s@.len() as int) == s@,
        both@.skip(s@.len() as int) == t@,
{
    if a@.len() == b@.len() && (forall|i: int| 0 <= i < a@.len() ==> a@[i] == b@[i]) {
        assert(a@ =~= b@);
    }
    if exists|i: int| 0 <= i < a@.len() && a@[i] == byte {
        let i = choose|i: int| 0 <= i < a@.len() && a@[i] == byte;
        assert(a@.contains(a@[i]));
    }
    assert(both@.take(s@.len() as int) =~= s@);
    assert(both@.skip(s@.len() as int) =~= t@);
}

/// The number that an ASCII digit or letter counts for.
pub open spec fn counts_for(c: u8) -> int {
    if c <= 0x39 {
        c - 0x30
    } else if c < 0x61 {
        c - 0x41 + 10
    } else {
        c - 0x61 + 10
    }
}

/// A number is read digit by digit, the highest first: one digit more counts the rest by the radix
/// and the digit once. A plus sign in front counts for nothing, and nothing else is a number.
pub proof fn law_number_is_read_digit_by_digit(
    item: &[u8],
    rest: &[u8],
    signed: &[u8],
    radix: u32,
    c: u8,
    r: Option<u32>,
    front: Option<u32>,
    plus: Option<u32>,
)
    requires
        2 <= radix <= 36,
        call_ensures(item_to_value, (item, radix), r),
        call_ensures(item_to_value, (rest, radix), front),
        call_ensures(item_to_value, (signed, radix), plus),
        item@ == rest@.push(c),
        signed@ == seq![0x2bu8] + item@,
        item@[0] != 0x2b,
    ensures
        ({
            let digit = (0x30 <= c <= 0x39 || 0x41 <= c <= 0x5a || 0x61 <= c <= 0x7a) && counts_for(
                c,
            ) < radix;
            &&& r is Some ==> digit
            &&& rest@.len() == 0 && digit ==> r == Some(counts_for(c) as u32)
            &&& rest@.len() > 0 && r is Some ==> front is Some
            &&& front matches Some(v) ==> {
                let value = v * radix + counts_for(c);
                &&& digit && value <= u32::MAX ==> r == Some(value as u32)
                &&& value > u32::MAX ==> r is None
            }
            &&& plus == r
        }),
{
    let n = radix as nat;
    let d = item@;
    assert(d.drop_last() =~= rest@);
    assert(d.last() == c);
    assert(signed@.skip(1) =~= d);
    if rest@.len() > 0 {
        assert(rest@[0] == d[0]);
    } else {
        assert(digits_value(rest@, n) == 0);
        assert(0 * n == 0) by (nonlinear_arith);
    }
    if all_digits(d, n) {
        assert(crate::number::is_digit(d[d.len() - 1], n));
        assert forall|i: int| 0 <= i < rest@.len() implies crate::number::is_digit(
            #[trigger] rest@[i],
            n,
        ) by {
            assert(d[i] == rest@[i]);
        }
        let v = digits_value(rest@, n);
        assert(v <= v * n) by (nonlinear_arith)
            requires
                n >= 2,
                v >= 0,
        ;
    }
    if rest@.len() > 0 && all_digits(rest@, n) && crate::number::is_digit(c, n) {
        assert forall|i: int| 0 <= i < d.len() implies crate::number::is_digit(
            #[trigger] d[i],
            n,
        ) by {
            if i < rest@.len() {
                assert(d[i] == rest@[i]);
            }
        }
    }
    if rest@.len() == 0 && crate::number::is_digit(c, n) {
        assert forall|i: int| 0 <= i < d.len() implies crate::number::is_digit(
            #[trigger] d[i],
            n,
        ) by {}
    }
}

/// A number is written in digits of its radix, the highest first and without zeros in front,
/// behind what is there: the last digit is what is left over, and those before it are the rest.
pub proof fn law_number_is_written_in_digits(out: &mut Vec<u8>, n: u32, radix: u32)
    requires
        2 <= radix <= 10,
        call_ensures(push_number, (out, n, radix), ()),
    ensures
        final(out)@.len() > old(out)@.len(),
        final(out)@.take(old(out)@.len() as int) == old(out)@,
        final(out)@.last() == 0x30 + n % radix,
        n < radix ==> final(out)@.len() == old(out)@.len() + 1,
        n >= radix ==> final(out)@.drop_last() == old(out)@ + digits_of(
            (n / radix) as nat,
            radix as nat,
        ),
{
    let d = digits_of(n as nat, radix as nat);
    assert(final(out)@ == old(out)@ + d);
    assert(final(out)@.take(old(out)@.len() as int) =~= old(out)@);
    let m = n % radix;
    assert(m < radix) by (nonlinear_arith)
        requires
            m == n % radix,
            radix >= 2,
    ;
    if n < radix {
        assert(n % radix == n) by (nonlinear_arith)
            requires
                n < radix,
        ;
    } else {
        assert(final(out)@.drop_last() =~= old(out)@ + d.drop_last());
        assert(d.drop_last() =~= digits_of((n / radix) as nat, radix as nat));
    }
}

/// A time of the host, counted from the year 1601 in tenths of a microsecond, is told in whole
/// seconds from the year 1970 and the nanoseconds that are left over.
pub proof fn law_time_is_told_to_the_guest(ft: u64, secs: i64, nsec: u32)
    requires
        call_ensures(filetime_to_unix_secs, (ft,), secs),
        call_ensures(filetime_to_unix_nsec, (ft,), nsec),
    ensures
        nsec < 1_000_000_000,
        nsec % 100 == 0,
        116_444_736_000_000_000 <= ft < 0x8000_0000_0000_0000 ==> secs * 10_000_000 + nsec / 100
            == ft - 116_444_736_000_000_000,
        ft < 116_444_736_000_000_000 ==> secs <= 0 && 0 <= secs * 10_000_000 - (ft
            - 116_444_736_000_000_000) < 10_000_000 && (secs * 10_000_000 - (ft
            - 116_444_736_000_000_000) + nsec / 100) % 10_000_000 == 0,
{
    let t = ft - 116_444_736_000_000_000;
    assert(t == 10_000_000 * (t / 10_000_000) + t % 10_000_000);
    assert(-t == 10_000_000 * ((-t) / 10_000_000) + (-t) % 10_000_000);
}

/// A word and a signed number with the same bits differ by nothing or by all that a word can tell.
pub proof fn law_words_and_signed_numbers(w: u64, s: i64, n: i64, v: u64)
    requires
        call_ensures(word_to_signed, (w,), s),
        call_ensures(signed_to_word, (n,), v),
    ensures
        s == w || s == w - 0x1_0000_0000_0000_0000,
        v == n || v == n + 0x1_0000_0000_0000_0000,
{
}

/// What the host says of a file can be told to the guest if its times can be counted from the year
/// 1970 and its size can be told in blocks. A tag decides only of what the host takes for a link.
pub proof fn law_metadata_that_can_be_told(meta: &Metadata, fits: bool, tag: bool)
    requires
        call_ensures(Metadata::fits, (meta,), fits),
        call_ensures(Metadata::needs_tag, (meta,), tag),
    ensures
        ({
            let early = |ft: u64|
                0x8000_0000_0000_0000 <= ft < 0x8000_0000_0000_0000 + 116_444_736_000_000_000;
            fits <==> !early(meta.creation_time) && !early(meta.last_access_time) && !early(
                meta.last_write_time,
            ) && !(0x7fff_ffff_ffff_ffff - 511 < meta.len < 0x8000_0000_0000_0000)
        }),
        tag <==> meta.is_symlink && meta.file_attributes & FILE_ATTRIBUTE_REPARSE_POINT != 0,
{
}

/// A directory is opened to be read, as a directory, and only if it is there.
pub proof fn law_directory_is_opened_to_be_read(r: OpenFlags)
    requires
        call_ensures(dir_open_flags, (), r),
    ensures
        r.desired_access == GENERIC_READ,
        r.create_disposition == FILE_OPEN,
        r.create_options == FILE_SYNCHRONOUS_IO_NONALERT | FILE_DIRECTORY_FILE,
{
}

/// The path of an entry leads through the names of its directory and then through the name of the
/// entry, and ends in it.
pub proof fn law_entry_is_in_its_directory(parent: &str, name: &[u8], r: String)
    requires
        call_ensures(child_path, (parent, name), r),
        is_plain_name(lossy_utf8(name@)),
        is_verbatim(utf16(parent@)) ==> !pieces(parent@).contains(dotdot()),
        parent@.len() > 0 ==> parent@.last() != ':',
    ensures
        pieces(r@) == pieces(parent@).push(lossy_utf8(name@)),
        !is_verbatim(utf16(parent@)) ==> parent@.is_prefix_of(r@),
        ends_in(r@, lossy_utf8(name@)),
{
    let n = lossy_utf8(name@);
    law_child_is_one_name_deeper(r@, parent@, n);
    assert(n.contains(n[0]));
    assert(ends_in(r@, seq!['\\'] + n) ==> r@.skip(r@.len() - n.len()) =~= r@.skip(
        r@.len() - n.len() - 1,
    ).skip(1));
    assert(ends_in(r@, seq!['/'] + n) ==> r@.skip(r@.len() - n.len()) =~= r@.skip(
        r@.len() - n.len() - 1,
    ).skip(1));
    assert((seq!['\\'] + n).skip(1) =~= n);
    assert((seq!['/'] + n).skip(1) =~= n);
    if !is_verbatim(utf16(parent@)) {
        assert(r@.skip(r@.len() - n.len()) =~= n);
        assert(parent@ =~= r@.take(parent@.len() as int));
    }
}

/// A file that is being exchanged stays in its directory, and its name ends in a mark.
pub proof fn law_exchanged_file_is_marked(path: &str, r: String)
    requires
        call_ensures(exchange_path, (path,), r),
        surely_names_file(path@),
    ensures
        ends_in(r@, "..__exchange_tmp__"@),
        exists|dir: Seq<char>, name: Seq<char>|
            (#[trigger] splits(path@, dir, name, true) || splits(path@, dir, name, false))
                && dir.is_prefix_of(r@),
{
    reveal_strlit(".__exchange_tmp__");
    reveal_strlit("..__exchange_tmp__");
    let mark = ".__exchange_tmp__"@;
    law_exchange_path_is_marked(r@, path@, mark);
    assert(seq!['.'] + mark =~= "..__exchange_tmp__"@);
    let (dir, name) = choose|dir: Seq<char>, name: Seq<char>| #[trigger]
        crate::path::has_extension(r@, path@, dir, name, mark);
    assert(dir.is_prefix_of(r@));
    assert(splits(path@, dir, name, true) || splits(path@, dir, name, false));
}

/// A path is named to the object manager with `\??\` in front, in place of a `\\?\` of its own, and
/// with a zero at its end.
pub proof fn law_path_is_named_to_the_object_manager(path: &str, r: Vec<u16>)
    requires
        call_ensures(path_to_nt_wide, (path,), r),
    ensures
        ({
            let w = utf16(path@);
            let own = w.len() >= 4 && w[0] == 0x5c && w[1] == 0x5c && w[2] == 0x3f && w[3] == 0x5c;
            let n: int = if own {
                4
            } else {
                0
            };
            &&& r@.len() == 4 + (w.len() - n) + 1
            &&& r@[0] == 0x5c && r@[1] == 0x3f && r@[2] == 0x3f && r@[3] == 0x5c
            &&& forall|i: int| n <= i < w.len() ==> r@[4 + i - n] == #[trigger] w[i]
            &&& r@.last() == 0
        }),
{
    let w = utf16(path@);
    if w.len() >= 4 {
        assert(w.take(4)[0] == w[0] && w.take(4)[1] == w[1]);
        assert(w.take(4)[2] == w[2] && w.take(4)[3] == w[3]);
        if w[0] == 0x5c && w[1] == 0x5c && w[2] == 0x3f && w[3] == 0x5c {
            assert(w.take(4) =~= crate::path::verbatim_prefix());
        }
    }
}

/// What is read from a buffer stands behind what was listed before.
pub proof fn law_buffer_is_read_behind_the_rest(b: &[u8], entries: &mut Vec<CachedDirEntry>)
    requires
        call_ensures(read_dir_buffer, (b, entries), ()),
    ensures
        views(final(entries)@).take(old(entries)@.len() as int) == views(old(entries)@),
        views(final(entries)@).skip(old(entries)@.len() as int) == entries_from(b@, 0),
{
    assert(views(final(entries)@).take(old(entries)@.len() as int) =~= views(old(entries)@));
    assert(views(final(entries)@).skip(old(entries)@.len() as int) =~= entries_from(b@, 0));
}

/// A buffer is refused if its first record does not lie within it. One that is accepted and has one
/// record is that record.
pub proof fn law_buffer_holds_its_records(b: &[u8], r: bool)
    requires
        call_ensures(dir_buffer_fits, (b,), r),
    ensures
        r ==> b@.len() >= 104 && 104 + 2 * (little_endian(b@, 60, 4) / 2) <= b@.len(),
        r ==> little_endian(b@, 0, 4) <= b@.len(),
        b@.len() >= 104 && 104 + 2 * (little_endian(b@, 60, 4) / 2) <= b@.len() && little_endian(
            b@,
            0,
            4,
        ) == 0 ==> r,
{
    reveal_with_fuel(little_endian, 5);
}

} // verus!
