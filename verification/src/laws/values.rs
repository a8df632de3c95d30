//! What becomes of values on their way between the guest and the host.

use crate::errno::{EACCES, ENODATA, ERROR_FILE_NOT_FOUND, ERROR_PATH_NOT_FOUND, FsError};
use crate::laws::run::{host_error, linux_error};
use crate::linux::{LINUX_O_APPEND, LINUX_O_CREAT, LINUX_O_DIRECTORY, LINUX_O_EXCL};
use crate::linux::{LINUX_O_NOFOLLOW, LINUX_O_TRUNC, S_IFDIR, S_IFLNK, S_IFMT, S_IFREG};
use crate::nt::{open_by_id, open_handle, open_relative, open_stream, parse_linux_open_flags};
use crate::nt::{effective_flags, mode_access, open_flags, NtCreate, OpenFlags};
use crate::override_stat::OverrideStat;
use crate::path::is_verbatim;
use crate::stat::{check_access, disk_to_statvfs, metadata_to_stat64, Context, DiskSpace};
use crate::stat::{HandleInfo, FileInfo, Metadata, Stat64, StatVfs64};
use crate::text::{law_utf16_reads_back, lossy_utf8, utf16, utf16_lossy};
use crate::win::{FILE_APPEND_DATA, FILE_ATTRIBUTE_DIRECTORY, FILE_ATTRIBUTE_NORMAL, FILE_CREATE};
use crate::win::{FILE_ATTRIBUTE_REPARSE_POINT, FILE_DIRECTORY_FILE, FILE_OPEN};
use crate::win::{FILE_OPEN_BY_FILE_ID, FILE_OPEN_IF, FILE_OPEN_REPARSE_POINT, FILE_OVERWRITE};
use crate::win::{FILE_OVERWRITE_IF, FILE_SHARE_DELETE, FILE_SHARE_READ, FILE_SHARE_WRITE};
use crate::win::{FILE_SYNCHRONOUS_IO_NONALERT, GENERIC_READ, GENERIC_WRITE, SYNCHRONIZE};
use crate::win::IO_REPARSE_TAG_MOUNT_POINT;
use vstd::prelude::*;

verus! {

/// An error with a Linux code is that code, and goes through no table. An error of the host goes
/// through the table once more than before. A stream that is not there is a missing attribute.
pub proof fn law_errors_keep_their_code(
    code: i32,
    made: FsError,
    e: FsError,
    r: FsError,
    s: FsError,
)
    requires
        call_ensures(FsError::errno, (code,), made),
        call_ensures(FsError::translated, (e,), r),
        call_ensures(FsError::stream_error, (e,), s),
    ensures
        made == linux_error(code),
        r == host_error(e),
        match e {
            FsError::Os { code: c, .. } if c == ERROR_FILE_NOT_FOUND || c
                == ERROR_PATH_NOT_FOUND => s == linux_error(ENODATA),
            _ => s == host_error(e),
        },
{
}

/// How a file is opened for flags of the guest. What can be read and written follows from the two
/// lowest flags. With writeback caching a file that is written can be read, and none is appended
/// to. Emptying a file that has to be there needs write access. Whether a file is made, emptied
/// or neither follows from the flags for that.
pub open spec fn is_translation_of(f: OpenFlags, flags: i32, writeback: bool) -> bool {
    let mode = flags & 3;
    let creat = flags & LINUX_O_CREAT != 0;
    let excl = flags & LINUX_O_EXCL != 0;
    let trunc = flags & LINUX_O_TRUNC != 0;
    &&& f.desired_access & GENERIC_READ != 0 <==> mode == 0 || mode == 2 || (writeback && mode == 1)
    &&& f.desired_access & GENERIC_WRITE != 0 <==> mode == 1 || mode == 2 || (trunc && !creat)
    &&& f.desired_access & FILE_APPEND_DATA != 0 <==> flags & LINUX_O_APPEND != 0 && !writeback
    &&& f.desired_access & !(GENERIC_READ | GENERIC_WRITE | FILE_APPEND_DATA) == 0
    &&& creat && excl ==> f.create_disposition == FILE_CREATE
    &&& creat && !excl && trunc ==> f.create_disposition == FILE_OVERWRITE_IF
    &&& creat && !excl && !trunc ==> f.create_disposition == FILE_OPEN_IF
    &&& !creat && trunc ==> f.create_disposition == FILE_OVERWRITE
    &&& !creat && !trunc ==> f.create_disposition == FILE_OPEN
    &&& f.create_options & FILE_SYNCHRONOUS_IO_NONALERT != 0
    &&& f.create_options & FILE_OPEN_REPARSE_POINT != 0 <==> flags & LINUX_O_NOFOLLOW != 0
    &&& f.create_options & FILE_DIRECTORY_FILE != 0 <==> flags & LINUX_O_DIRECTORY != 0
    &&& f.create_options & !(FILE_SYNCHRONOUS_IO_NONALERT | FILE_OPEN_REPARSE_POINT
        | FILE_DIRECTORY_FILE) == 0
}

proof fn lemma_effective_flags(flags: i32, e: i32)
    requires
        e == flags || e == flags & !0o2000i32 || e == ((flags & !3i32) | 2i32) & !0o2000i32,
    ensures
        e & 0o100i32 == flags & 0o100i32,
        e & 0o200i32 == flags & 0o200i32,
        e & 0o1000i32 == flags & 0o1000i32,
        e & 0o200000i32 == flags & 0o200000i32,
        e & 0o400000i32 == flags & 0o400000i32,
        e != flags ==> e & 0o2000i32 == 0,
        (flags & !0o2000i32) & 3 == flags & 3,
        (((flags & !3i32) | 2i32) & !0o2000i32) & 3 == 2,
        (flags & !0o2000i32) & 0o2000i32 == 0,
        (((flags & !3i32) | 2i32) & !0o2000i32) & 0o2000i32 == 0,
{
    assert(e & 0o100i32 == flags & 0o100i32 && e & 0o200i32 == flags & 0o200i32 && e & 0o1000i32
        == flags & 0o1000i32 && e & 0o200000i32 == flags & 0o200000i32 && e & 0o400000i32 == flags
        & 0o400000i32 && (e != flags ==> e & 0o2000i32 == 0) && (flags & !0o2000i32) & 3i32 == flags
        & 3i32 && (((flags & !3i32) | 2i32) & !0o2000i32) & 3i32 == 2i32 && (flags & !0o2000i32)
        & 0o2000i32 == 0i32 && (((flags & !3i32) | 2i32) & !0o2000i32) & 0o2000i32 == 0i32)
        by (bit_vector)
        requires
            e == flags || e == flags & !0o2000i32 || e == ((flags & !3i32) | 2i32) & !0o2000i32,
    ;
}

proof fn lemma_access_bits(x: u32)
    ensures
        (x | 0x4000_0000u32) & 0x8000_0000u32 == x & 0x8000_0000u32,
        (x | 0x4000_0000u32) & 0x4000_0000u32 != 0,
        (x | 0x4000_0000u32) & 4u32 == x & 4u32,
        (x | 0x4000_0000u32) & !(0x8000_0000u32 | 0x4000_0000u32 | 4u32) == x & !(0x8000_0000u32
            | 0x4000_0000u32 | 4u32),
        (x | 4u32) & 0x8000_0000u32 == x & 0x8000_0000u32,
        (x | 4u32) & 0x4000_0000u32 == x & 0x4000_0000u32,
        (x | 4u32) & 4u32 != 0,
        (x | 4u32) & !(0x8000_0000u32 | 0x4000_0000u32 | 4u32) == x & !(0x8000_0000u32
            | 0x4000_0000u32 | 4u32),
        x == 0 || x == 0x8000_0000u32 || x == 0x4000_0000u32 || x == 0x8000_0000u32
            | 0x4000_0000u32 ==> {
            &&& x & 4u32 == 0
            &&& x & !(0x8000_0000u32 | 0x4000_0000u32 | 4u32) == 0
            &&& x & 0x8000_0000u32 != 0 <==> x == 0x8000_0000u32 || x == 0x8000_0000u32
                | 0x4000_0000u32
            &&& x & 0x4000_0000u32 != 0 <==> x == 0x4000_0000u32 || x == 0x8000_0000u32
                | 0x4000_0000u32
        },
        0x8000_0000u32 | 0x4000_0000u32 != 0x4000_0000u32,
        0x8000_0000u32 | 0x4000_0000u32 != 0x8000_0000u32,
        0x8000_0000u32 | 0x4000_0000u32 != 0,
{
    assert((x | 0x4000_0000u32) & 0x8000_0000u32 == x & 0x8000_0000u32 && (x | 0x4000_0000u32)
        & 0x4000_0000u32 != 0 && (x | 0x4000_0000u32) & 4u32 == x & 4u32 && (x | 0x4000_0000u32)
        & !(0x8000_0000u32 | 0x4000_0000u32 | 4u32) == x & !(0x8000_0000u32 | 0x4000_0000u32
        | 4u32) && (x | 4u32) & 0x8000_0000u32 == x & 0x8000_0000u32 && (x | 4u32) & 0x4000_0000u32
        == x & 0x4000_0000u32 && (x | 4u32) & 4u32 != 0 && (x | 4u32) & !(0x8000_0000u32
        | 0x4000_0000u32 | 4u32) == x & !(0x8000_0000u32 | 0x4000_0000u32 | 4u32) && (x == 0 || x
        == 0x8000_0000u32 || x == 0x4000_0000u32 || x == 0x8000_0000u32 | 0x4000_0000u32 ==> x
        & 4u32 == 0 && x & !(0x8000_0000u32 | 0x4000_0000u32 | 4u32) == 0 && (x & 0x8000_0000u32
        != 0 <==> x == 0x8000_0000u32 || x == 0x8000_0000u32 | 0x4000_0000u32) && (x
        & 0x4000_0000u32 != 0 <==> x == 0x4000_0000u32 || x == 0x8000_0000u32 | 0x4000_0000u32))
        && 0x8000_0000u32 | 0x4000_0000u32 != 0x4000_0000u32 && 0x8000_0000u32 | 0x4000_0000u32
        != 0x8000_0000u32 && 0x8000_0000u32 | 0x4000_0000u32 != 0) by (bit_vector);
}

proof fn lemma_option_bits()
    ensures
        0x20u32 & 0x20u32 != 0 && 0x20u32 & 0x20_0000u32 == 0 && 0x20u32 & 1u32 == 0,
        (0x20u32 | 0x20_0000u32) & 0x20u32 != 0 && (0x20u32 | 0x20_0000u32) & 0x20_0000u32 != 0 && (
        0x20u32 | 0x20_0000u32) & 1u32 == 0,
        (0x20u32 | 1u32) & 0x20u32 != 0 && (0x20u32 | 1u32) & 0x20_0000u32 == 0 && (0x20u32 | 1u32)
            & 1u32 != 0,
        (0x20u32 | 0x20_0000u32 | 1u32) & 0x20u32 != 0 && (0x20u32 | 0x20_0000u32 | 1u32)
            & 0x20_0000u32 != 0 && (0x20u32 | 0x20_0000u32 | 1u32) & 1u32 != 0,
        0x20u32 & !(0x20u32 | 0x20_0000u32 | 1u32) == 0,
        (0x20u32 | 0x20_0000u32) & !(0x20u32 | 0x20_0000u32 | 1u32) == 0,
        (0x20u32 | 1u32) & !(0x20u32 | 0x20_0000u32 | 1u32) == 0,
        (0x20u32 | 0x20_0000u32 | 1u32) & !(0x20u32 | 0x20_0000u32 | 1u32) == 0,
{
    assert(0x20u32 & 0x20u32 != 0 && 0x20u32 & 0x20_0000u32 == 0 && 0x20u32 & 1u32 == 0 && (0x20u32
        | 0x20_0000u32) & 0x20u32 != 0 && (0x20u32 | 0x20_0000u32) & 0x20_0000u32 != 0 && (0x20u32
        | 0x20_0000u32) & 1u32 == 0 && (0x20u32 | 1u32) & 0x20u32 != 0 && (0x20u32 | 1u32)
        & 0x20_0000u32 == 0 && (0x20u32 | 1u32) & 1u32 != 0 && (0x20u32 | 0x20_0000u32 | 1u32)
        & 0x20u32 != 0 && (0x20u32 | 0x20_0000u32 | 1u32) & 0x20_0000u32 != 0 && (0x20u32
        | 0x20_0000u32 | 1u32) & 1u32 != 0 && 0x20u32 & !(0x20u32 | 0x20_0000u32 | 1u32) == 0 && (
    0x20u32 | 0x20_0000u32) & !(0x20u32 | 0x20_0000u32 | 1u32) == 0 && (0x20u32 | 1u32) & !(0x20u32
        | 0x20_0000u32 | 1u32) == 0 && (0x20u32 | 0x20_0000u32 | 1u32) & !(0x20u32 | 0x20_0000u32
        | 1u32) == 0) by (bit_vector);
}

/// The way to open a file that the flags of the guest ask for.
pub proof fn law_open_flags_ask_for(flags: i32, writeback: bool)
    ensures
        is_translation_of(open_flags(flags, writeback), flags, writeback),
{
    let e = effective_flags(flags, writeback);
    lemma_effective_flags(flags, e);
    let a = mode_access(e);
    lemma_access_bits(a);
    lemma_access_bits(a | GENERIC_WRITE);
    lemma_option_bits();
}

/// The flags of the guest are turned into the way to open a file that they ask for.
pub proof fn law_flags_are_translated(flags: i32, writeback: bool, f: OpenFlags)
    requires
        call_ensures(parse_linux_open_flags, (flags, writeback), f),
    ensures
        is_translation_of(f, flags, writeback),
{
    law_open_flags_ask_for(flags, writeback);
}

proof fn lemma_no_more_options(options: u32)
    ensures
        options | 0u32 == options,
{
    assert(options | 0u32 == options) by (bit_vector);
}

/// What every request to open a file has in common.
pub open spec fn opens(r: NtCreate, root: u64, flags: OpenFlags, more_options: u32) -> bool {
    &&& r.root_directory == root
    &&& r.attributes == 0
    &&& r.desired_access == flags.desired_access | SYNCHRONIZE
    &&& r.file_attributes == FILE_ATTRIBUTE_NORMAL
    &&& r.share_access == FILE_SHARE_READ | FILE_SHARE_WRITE | FILE_SHARE_DELETE
    &&& r.create_disposition == flags.create_disposition
    &&& r.create_options == flags.create_options | more_options
}

/// A name that a zero ends stands for a text, and its lengths are in bytes, as far as sixteen bits
/// can tell.
pub open spec fn is_named(r: NtCreate, start: Seq<u16>, text: Seq<char>) -> bool {
    let units = r.name@.drop_last();
    &&& r.name@.len() > 0
    &&& r.name@.last() == 0
    &&& start.is_prefix_of(units)
    &&& utf16_lossy(units.skip(start.len() as int)) == text
    &&& (units.len() * 2 - r.length) % 0x1_0000 == 0
    &&& (units.len() * 2 + 2 - r.maximum_length) % 0x1_0000 == 0
}

proof fn lemma_verbatim_rest(path: Seq<char>)
    requires
        is_verbatim(utf16(path)),
    ensures
        path.len() >= 4,
        path.take(4) == seq!['\\', '\\', '?', '\\'],
        utf16_lossy(utf16(path).skip(4)) == path.skip(4),
{
    let u = utf16(path);
    law_utf16_reads_back(path);
    reveal_with_fuel(utf16_lossy, 5);
    assert(u[0] == u.take(4)[0] && u[1] == u.take(4)[1] && u[2] == u.take(4)[2] && u[3] == u.take(
        4,
    )[3]);
    let u1 = u.skip(1);
    let u2 = u1.skip(1);
    let u3 = u2.skip(1);
    let u4 = u3.skip(1);
    assert(u4 =~= u.skip(4));
    assert(u1[0] == u[1] && u2[0] == u[2] && u3[0] == u[3]);
    let rest = utf16_lossy(u4);
    assert(path =~= seq!['\\', '\\', '?', '\\'] + rest);
    assert(path.skip(4) =~= rest);
    assert(path.take(4) =~= seq!['\\', '\\', '?', '\\']);
}

/// A path is opened under its name for the object manager: `\??\` and the path, without `\\?\` in
/// front if it has that.
pub proof fn law_path_is_opened_by_its_name(path: &str, flags: &OpenFlags, r: NtCreate)
    requires
        call_ensures(open_handle, (path, flags), r),
    ensures
        opens(r, 0, *flags, 0),
        ({
            let start = seq![0x5cu16, 0x3fu16, 0x3fu16, 0x5cu16];
            if is_verbatim(utf16(path@)) {
                path@.take(4) == seq!['\\', '\\', '?', '\\'] && is_named(r, start, path@.skip(4))
            } else {
                is_named(r, start, path@)
            }
        }),
{
    let start = seq![0x5cu16, 0x3fu16, 0x3fu16, 0x5cu16];
    law_utf16_reads_back(path@);
    let units = r.name@.drop_last();
    lemma_no_more_options(flags.create_options);
    if is_verbatim(utf16(path@)) {
        lemma_verbatim_rest(path@);
        assert(units =~= start + utf16(path@).skip(4));
        assert(units.skip(4) =~= utf16(path@).skip(4));
    } else {
        assert(units =~= start + utf16(path@));
        assert(units.skip(4) =~= utf16(path@));
    }
    assert(start.is_prefix_of(units));
}

/// A file is opened by its index, next to a handle on its volume: the four units of the name are
/// the index, the lowest first.
pub proof fn law_file_is_opened_by_its_index(
    root: u64,
    file_index: u64,
    flags: &OpenFlags,
    r: NtCreate,
)
    requires
        call_ensures(open_by_id, (root, file_index, flags), r),
    ensures
        opens(r, root, *flags, FILE_OPEN_BY_FILE_ID),
        r.length == 8,
        r.maximum_length == 8,
        r.name@.len() == 4,
        file_index == r.name@[0] + 0x1_0000 * r.name@[1] + 0x1_0000_0000 * r.name@[2]
            + 0x1_0000_0000_0000 * r.name@[3],
{
    let a = file_index;
    let q1 = a / 0x1_0000;
    let q2 = a / 0x1_0000_0000;
    let q3 = a / 0x1_0000_0000_0000;
    assert(a == 0x1_0000 * q1 + a % 0x1_0000);
    assert(q2 == q1 / 0x1_0000);
    assert(q1 == 0x1_0000 * q2 + q1 % 0x1_0000);
    assert(q3 == q2 / 0x1_0000);
    assert(q2 == 0x1_0000 * q3 + q2 % 0x1_0000);
    assert(q3 < 0x1_0000);
}

/// An entry of a directory is opened next to the handle of the directory, under its name.
pub proof fn law_entry_is_opened_by_its_name(
    parent: u64,
    name: &[u8],
    flags: &OpenFlags,
    r: NtCreate,
)
    requires
        call_ensures(open_relative, (parent, name, flags), r),
    ensures
        opens(r, parent, *flags, 0),
        is_named(r, seq![], lossy_utf8(name@)),
{
    law_utf16_reads_back(lossy_utf8(name@));
    let units = r.name@.drop_last();
    lemma_no_more_options(flags.create_options);
    assert(units =~= utf16(lossy_utf8(name@)));
    assert(units.skip(0) =~= units);
    assert(Seq::<u16>::empty().is_prefix_of(units));
}

/// A stream is opened next to the handle of its file, under its suffix, to be written anew.
pub proof fn law_stream_is_opened_by_its_suffix(file: u64, suffix: &str, r: NtCreate)
    requires
        call_ensures(open_stream, (file, suffix), r),
    ensures
        opens(
            r,
            file,
            OpenFlags {
                desired_access: GENERIC_WRITE,
                create_disposition: FILE_OVERWRITE_IF,
                create_options: FILE_SYNCHRONOUS_IO_NONALERT,
            },
            0,
        ),
        is_named(r, seq![], suffix@),
{
    law_utf16_reads_back(suffix@);
    let units = r.name@.drop_last();
    lemma_no_more_options(FILE_SYNCHRONOUS_IO_NONALERT);
    assert(units =~= utf16(suffix@));
    assert(units.skip(0) =~= units);
    assert(Seq::<u16>::empty().is_prefix_of(units));
}

/// A time of the host, in tenths of microseconds since 1601, as the guest counts it: the seconds
/// since 1970, rounded towards that year, and the nanoseconds since the last full second.
pub open spec fn is_guest_time(ft: u64, secs: i64, nsec: u32) -> bool {
    let signed = if ft < 0x8000_0000_0000_0000 {
        ft as int
    } else {
        ft - 0x1_0000_0000_0000_0000
    };
    let ticks = signed - 116_444_736_000_000_000;
    &&& nsec < 1_000_000_000
    &&& nsec % 100 == 0
    &&& ticks >= 0 ==> secs * 10_000_000 + nsec as int / 100 == ticks
    &&& ticks < 0 ==> {
        &&& secs <= 0
        &&& -secs * 10_000_000 <= -ticks < (-secs + 1) * 10_000_000
        &&& (ticks - nsec as int / 100) % 10_000_000 == 0
    }
}

/// What the guest sees of a file is what the host says of it: its type, its size and its times,
/// each where it belongs; and what is recorded of it: its owner, and its mode, with the type of
/// the host if the recorded one names none.
pub proof fn law_attributes_tell_of_the_file(
    meta: &Metadata,
    tag: u32,
    ino: u64,
    n_link: u32,
    o: &OverrideStat,
    st: Stat64,
)
    requires
        meta.in_range(),
        call_ensures(metadata_to_stat64, (meta, tag, ino, n_link, o), st),
    ensures
        ({
            let reparse = meta.file_attributes & FILE_ATTRIBUTE_REPARSE_POINT != 0;
            let link = meta.is_symlink && !(reparse && tag == IO_REPARSE_TAG_MOUNT_POINT);
            let directory = meta.file_attributes & FILE_ATTRIBUTE_DIRECTORY != 0;
            let seen = if link {
                S_IFLNK | 0o777
            } else if directory {
                S_IFDIR | 0o755
            } else {
                S_IFREG | 0o644
            };
            &&& match o.mode {
                None => st.st_mode == seen,
                Some(m) => if m & S_IFMT == 0 {
                    st.st_mode == (seen & S_IFMT) | m
                } else {
                    st.st_mode == m
                },
            }
            &&& link ==> st.st_nlink == 1
            &&& !link && directory ==> st.st_nlink == 2
            &&& !link && !directory ==> st.st_nlink == n_link
        }),
        st.st_ino == ino,
        o.uid matches Some(u) ==> st.st_uid == u,
        o.uid is None ==> st.st_uid == 0,
        o.gid matches Some(g) ==> st.st_gid == g,
        o.gid is None ==> st.st_gid == 0,
        st.st_dev == 0 && st.st_rdev == 0 && st.st_blksize == 4096,
        meta.len < 0x8000_0000_0000_0000 ==> {
            &&& st.st_size == meta.len
            &&& st.st_blocks * 512 >= meta.len
            &&& st.st_blocks * 512 < meta.len + 512
        },
        meta.len >= 0x8000_0000_0000_0000 ==> st.st_size == meta.len - 0x1_0000_0000_0000_0000,
        is_guest_time(meta.last_access_time, st.st_atime, st.st_atime_nsec),
        is_guest_time(meta.last_write_time, st.st_mtime, st.st_mtime_nsec),
        is_guest_time(meta.creation_time, st.st_ctime, st.st_ctime_nsec),
{
    lemma_guest_time(meta.last_access_time);
    lemma_guest_time(meta.last_write_time);
    lemma_guest_time(meta.creation_time);
}

proof fn lemma_guest_time(ft: u64)
    requires
        crate::time::is_filetime(ft),
    ensures
        is_guest_time(ft, crate::time::unix_secs(ft) as i64, crate::time::unix_nsec(ft) as u32),
{
    let t = crate::time::unix_ticks(ft);
    assert(t == 10_000_000 * (t / 10_000_000) + t % 10_000_000);
    assert(-t == 10_000_000 * ((-t) / 10_000_000) + (-t) % 10_000_000);
    assert((t - t % 10_000_000) % 10_000_000 == 0);
}

/// The permissions that a caller has on a file: those of its owner, of its group and of everyone,
/// as far as the caller is in these classes.
pub open spec fn permissions(ctx: Context, st: Stat64) -> u32 {
    let owner = if st.st_uid == ctx.uid {
        (st.st_mode >> 6) & 7
    } else {
        0
    };
    let group = if st.st_gid == ctx.gid {
        (st.st_mode >> 3) & 7
    } else {
        0
    };
    owner | group | (st.st_mode & 7)
}

proof fn lemma_permission_bits(m: u32, a: bool, b: bool)
    ensures
        ({
            let p = (if a {
                (m >> 6) & 7
            } else {
                0u32
            }) | (if b {
                (m >> 3) & 7
            } else {
                0u32
            }) | (m & 7);
            &&& p & 4 != 0 <==> (a && m & 0o400 != 0) || (b && m & 0o040 != 0) || m & 0o004 != 0
            &&& p & 2 != 0 <==> (a && m & 0o200 != 0) || (b && m & 0o020 != 0) || m & 0o002 != 0
            &&& p & 1 != 0 <==> (a && m & 0o100 != 0) || (b && m & 0o010 != 0) || m & 0o001 != 0
        }),
{
    let x: u32 = if a {
        (m >> 6) & 7
    } else {
        0u32
    };
    let y: u32 = if b {
        (m >> 3) & 7
    } else {
        0u32
    };
    assert(((x | y | (m & 7u32)) & 4u32 != 0 <==> (a && m & 0o400u32 != 0) || (b && m & 0o040u32
        != 0) || m & 0o004u32 != 0) && ((x | y | (m & 7u32)) & 2u32 != 0 <==> (a && m & 0o200u32
        != 0) || (b && m & 0o020u32 != 0) || m & 0o002u32 != 0) && ((x | y | (m & 7u32)) & 1u32 != 0
        <==> (a && m & 0o100u32 != 0) || (b && m & 0o010u32 != 0) || m & 0o001u32 != 0))
        by (bit_vector)
        requires
            a ==> x == (m >> 6u32) & 7u32,
            !a ==> x == 0u32,
            b ==> y == (m >> 3u32) & 7u32,
            !b ==> y == 0u32,
    ;
}

/// An access is granted if the caller has every permission that it asks for. The superuser may
/// read and write everything, and execute what anyone may.
pub proof fn law_access_needs_every_permission(
    ctx: Context,
    st: &Stat64,
    mask: u32,
    r: Result<(), FsError>,
)
    requires
        call_ensures(check_access, (ctx, st, mask), r),
    ensures
        r == Ok::<(), FsError>(()) || r == Err::<(), FsError>(linux_error(EACCES)),
        r is Ok <==> {
            let p = permissions(ctx, *st);
            &&& mask & 4 != 0 ==> ctx.uid == 0 || p & 4 != 0
            &&& mask & 2 != 0 ==> ctx.uid == 0 || p & 2 != 0
            &&& mask & 1 != 0 ==> (ctx.uid == 0 && st.st_mode & 0o111 != 0) || p & 1 != 0
        },
{
    lemma_permission_bits(st.st_mode, st.st_uid == ctx.uid, st.st_gid == ctx.gid);
}

/// What the guest is told of a volume: whole blocks of four kilobytes, of the volume, of what is
/// free on it, and of what is free for the caller.
pub proof fn law_volume_is_told_in_blocks(disk: &DiskSpace, fsid: u64, st: StatVfs64)
    requires
        call_ensures(disk_to_statvfs, (disk, fsid), st),
    ensures
        st.f_bsize == 4096 && st.f_frsize == 4096,
        st.f_blocks * 4096 <= disk.total < st.f_blocks * 4096 + 4096,
        st.f_bfree * 4096 <= disk.total_free < st.f_bfree * 4096 + 4096,
        st.f_bavail * 4096 <= disk.free_available < st.f_bavail * 4096 + 4096,
        st.f_files == i64::MAX && st.f_ffree == i64::MAX && st.f_favail == i64::MAX,
        st.f_fsid == fsid && st.f_flag == 0 && st.f_namemax == 255,
{
}

/// The identity of an open file is its index, put together of two halves, and its volume.
pub proof fn law_identity_is_put_together(info: &HandleInfo, r: FileInfo)
    requires
        call_ensures(HandleInfo::file_info, (info,), r),
    ensures
        r.file_index as int / 0x1_0000_0000 == info.file_index_high,
        r.file_index as int % 0x1_0000_0000 == info.file_index_low,
        r.volume_serial == info.volume_serial,
        r.n_number_of_links == info.number_of_links,
{
}

} // verus!
