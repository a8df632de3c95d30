//! Requests to open files of the host.

use crate::linux::{LINUX_O_APPEND, LINUX_O_CREAT, LINUX_O_DIRECTORY, LINUX_O_EXCL};
use crate::linux::{LINUX_O_NOFOLLOW, LINUX_O_TRUNC};
use crate::path::{cstr_to_path, nt_name, path_to_nt_wide, path_to_wide, wide};
use crate::text::{lossy_utf8, utf16};
use crate::win::{FILE_APPEND_DATA, FILE_ATTRIBUTE_NORMAL, FILE_CREATE, FILE_DIRECTORY_FILE};
use crate::win::{FILE_OPEN, FILE_OPEN_BY_FILE_ID, FILE_OPEN_IF, FILE_OPEN_REPARSE_POINT};
use crate::win::{FILE_OVERWRITE, FILE_OVERWRITE_IF, FILE_SHARE_DELETE, FILE_SHARE_READ};
use crate::win::{FILE_SHARE_WRITE, FILE_SYNCHRONOUS_IO_NONALERT, GENERIC_READ, GENERIC_WRITE};
use crate::win::SYNCHRONIZE;
use vstd::arithmetic::div_mod::lemma_mod_multiples_vanish;
use vstd::prelude::*;

verus! {

/// How a file is opened.
#[derive(Clone, Copy, Debug, PartialEq, Eq, Structural)]
pub struct OpenFlags {
    pub desired_access: u32,
    pub create_disposition: u32,
    pub create_options: u32,
}

/// The flags that are acted on. With writeback caching the guest may read from a file
/// that it opened for writing only, and gives an offset with every write, so the file
/// is opened for both and not for appending.
pub open spec fn effective_flags(flags: i32, writeback: bool) -> i32 {
    let both = if writeback && flags & 3 == 1 {
        (flags & !3) | 2
    } else {
        flags
    };
    if writeback {
        both & !LINUX_O_APPEND
    } else {
        both
    }
}

/// The access that the two lowest flags ask for.
pub open spec fn mode_access(flags: i32) -> u32 {
    if flags & 3 == 0 {
        GENERIC_READ
    } else if flags & 3 == 1 {
        GENERIC_WRITE
    } else if flags & 3 == 2 {
        GENERIC_READ | GENERIC_WRITE
    } else {
        0
    }
}

/// What happens to a file that is there, and to one that is not.
pub open spec fn disposition(creat: bool, excl: bool, trunc: bool) -> u32 {
    if creat && excl {
        FILE_CREATE
    } else if creat && trunc {
        FILE_OVERWRITE_IF
    } else if creat {
        FILE_OPEN_IF
    } else if trunc {
        FILE_OVERWRITE
    } else {
        FILE_OPEN
    }
}

/// How `open(2)` flags of the guest open a file of the host.
pub open spec fn open_flags(linux_flags: i32, writeback: bool) -> OpenFlags {
    let f = effective_flags(linux_flags, writeback);
    let creat = f & LINUX_O_CREAT != 0;
    let trunc = f & LINUX_O_TRUNC != 0;
    let a = mode_access(f);
    let b = if trunc && !creat {
        a | GENERIC_WRITE
    } else {
        a
    };
    let c = FILE_SYNCHRONOUS_IO_NONALERT;
    let d = if f & LINUX_O_NOFOLLOW != 0 {
        c | FILE_OPEN_REPARSE_POINT
    } else {
        c
    };
    OpenFlags {
        desired_access: if f & LINUX_O_APPEND != 0 {
            b | FILE_APPEND_DATA
        } else {
            b
        },
        create_disposition: disposition(creat, f & LINUX_O_EXCL != 0, trunc),
        create_options: if f & LINUX_O_DIRECTORY != 0 {
            d | FILE_DIRECTORY_FILE
        } else {
            d
        },
    }
}

/// Turns `open(2)` flags of the guest into the way to open a file of the host.
pub fn parse_linux_open_flags(linux_flags: i32, writeback: bool) -> (r: OpenFlags)
    ensures
        r == open_flags(linux_flags, writeback),
{
    let mut access: u32 = 0;
    let mut disposition: u32 = FILE_OPEN;
    let mut options: u32 = FILE_SYNCHRONOUS_IO_NONALERT;
    let mut flags: i32 = linux_flags;

    if writeback && (flags & 3) == 1 {
        flags = (flags & !3) | 2;
    }
    if writeback && (flags & LINUX_O_APPEND) != 0 {
        flags = flags & !LINUX_O_APPEND;
    } else {
        assert(flags & 0o2000i32 == 0 ==> flags & !0o2000i32 == flags) by (bit_vector);
    }
    assert(flags == effective_flags(linux_flags, writeback));

    let mode: i32 = flags & 3;
    if mode == 0 {
        access = GENERIC_READ;
    } else if mode == 1 {
        access = GENERIC_WRITE;
    } else if mode == 2 {
        access = GENERIC_READ | GENERIC_WRITE;
    }

    if flags & LINUX_O_CREAT != 0 {
        if flags & LINUX_O_EXCL != 0 {
            disposition = FILE_CREATE;
        } else if flags & LINUX_O_TRUNC != 0 {
            disposition = FILE_OVERWRITE_IF;
        } else {
            disposition = FILE_OPEN_IF;
        }
    } else if flags & LINUX_O_TRUNC != 0 {
        disposition = FILE_OVERWRITE;
        access = access | GENERIC_WRITE;
    }

    if flags & LINUX_O_APPEND != 0 {
        access = access | FILE_APPEND_DATA;
    }
    if flags & LINUX_O_NOFOLLOW != 0 {
        options = options | FILE_OPEN_REPARSE_POINT;
    }
    if flags & LINUX_O_DIRECTORY != 0 {
        options = options | FILE_DIRECTORY_FILE;
    }

    OpenFlags { desired_access: access, create_disposition: disposition, create_options: options }
}

/// With writeback caching a file that is opened for writing can be read, and no file is
/// opened for appending.
pub proof fn law_writeback_reads_and_never_appends(flags: i32)
    ensures
        flags & 3 == 1 ==> open_flags(flags, true).desired_access & GENERIC_READ != 0,
        open_flags(flags, true).desired_access & FILE_APPEND_DATA == 0,
{
    let f = effective_flags(flags, true);
    let both = if flags & 3 == 1 {
        (flags & !3) | 2
    } else {
        flags
    };
    assert((both & !0o2000i32) & 0o2000i32 == 0) by (bit_vector);
    assert(flags & 3 == 1 ==> (((flags & !3) | 2) & !0o2000i32) & 3 == 2) by (bit_vector);
    let a = mode_access(f);
    assert(a & 4u32 == 0 && (a | 0x4000_0000u32) & 4u32 == 0) by (bit_vector)
        requires
            a == 0 || a == 0x8000_0000u32 || a == 0x4000_0000u32 || a == 0x8000_0000u32
                | 0x4000_0000u32,
    ;
    assert((0x8000_0000u32 | 0x4000_0000u32) & 0x8000_0000u32 != 0) by (bit_vector);
    assert(((0x8000_0000u32 | 0x4000_0000u32) | 0x4000_0000u32) & 0x8000_0000u32 != 0)
        by (bit_vector);
}

/// A file is opened as a directory exactly if the guest asks for one.
pub proof fn law_directory_flag(flags: i32, writeback: bool)
    ensures
        open_flags(flags, writeback).create_options & FILE_DIRECTORY_FILE != 0 <==> flags
            & LINUX_O_DIRECTORY != 0,
{
    let f = effective_flags(flags, writeback);
    assert(((flags & !3) | 2) & 0o200000i32 == flags & 0o200000i32) by (bit_vector);
    assert((((flags & !3) | 2) & !0o2000i32) & 0o200000i32 == flags & 0o200000i32)
        by (bit_vector);
    assert((flags & !0o2000i32) & 0o200000i32 == flags & 0o200000i32) by (bit_vector);
    assert(f & LINUX_O_DIRECTORY == flags & LINUX_O_DIRECTORY);
    assert(0x20u32 & 1u32 == 0 && (0x20u32 | 1u32) & 1u32 != 0) by (bit_vector);
    assert((0x20u32 | 0x20_0000u32) & 1u32 == 0 && ((0x20u32 | 0x20_0000u32) | 1u32) & 1u32 != 0)
        by (bit_vector);
}

/// Adding `O_DIRECTORY` to any flags asks for a directory.
pub proof fn law_opendir_opens_a_directory(flags: u32, writeback: bool)
    ensures
        open_flags((flags | LINUX_O_DIRECTORY as u32) as i32, writeback).create_options
            & FILE_DIRECTORY_FILE != 0,
{
    assert(((flags | 0o200000u32) as i32) & 0o200000i32 != 0) by (bit_vector);
    law_directory_flag((flags | LINUX_O_DIRECTORY as u32) as i32, writeback);
}

/// The arguments of one `NtCreateFile` call.
#[derive(Debug, PartialEq, Eq)]
pub struct NtCreate {
    /// The handle that `name` is relative to; zero for none.
    pub root_directory: u64,
    /// The name, with a terminator behind it unless it is a file index.
    pub name: Vec<u16>,
    /// The length of the name in bytes, without the terminator.
    pub length: u16,
    /// The room for the name in bytes.
    pub maximum_length: u16,
    /// How the name is matched; zero for with its case.
    pub attributes: u32,
    pub desired_access: u32,
    pub file_attributes: u32,
    pub share_access: u32,
    pub create_disposition: u32,
    pub create_options: u32,
}

/// What every request has in common: names that are matched with their case, normal
/// attributes, sharing of every kind, and completion before the call returns.
pub open spec fn is_request(
    r: NtCreate,
    root: u64,
    access: u32,
    create_disposition: u32,
    create_options: u32,
) -> bool {
    &&& r.root_directory == root
    &&& r.attributes == 0
    &&& r.desired_access == access | SYNCHRONIZE
    &&& r.file_attributes == FILE_ATTRIBUTE_NORMAL
    &&& r.share_access == FILE_SHARE_READ | FILE_SHARE_WRITE | FILE_SHARE_DELETE
    &&& r.create_disposition == create_disposition
    &&& r.create_options == create_options
}

/// The lengths of a name of `units` units with a terminator behind it, as far as the
/// fields can hold them.
pub open spec fn has_lengths(r: NtCreate, units: nat) -> bool {
    &&& r.length == (units * 2) % 0x1_0000
    &&& r.maximum_length == (units * 2 + 2) % 0x1_0000
}

/// The request opens a path.
pub open spec fn opens_path(r: NtCreate, path: Seq<char>, flags: OpenFlags) -> bool {
    &&& r.name@ == nt_name(path).push(0)
    &&& has_lengths(r, nt_name(path).len())
    &&& is_request(r, 0, flags.desired_access, flags.create_disposition, flags.create_options)
}

/// A file index in little-endian order, two bytes to a unit.
pub open spec fn index_units(file_index: u64) -> Seq<u16> {
    seq![
        (file_index % 0x1_0000) as u16,
        (file_index / 0x1_0000 % 0x1_0000) as u16,
        (file_index / 0x1_0000_0000 % 0x1_0000) as u16,
        (file_index / 0x1_0000_0000_0000) as u16,
    ]
}

/// The request opens a file by its index on the volume of `root`.
pub open spec fn opens_id(r: NtCreate, root: u64, file_index: u64, flags: OpenFlags) -> bool {
    &&& r.name@ == index_units(file_index)
    &&& r.length == 8
    &&& r.maximum_length == 8
    &&& is_request(
        r,
        root,
        flags.desired_access,
        flags.create_disposition,
        flags.create_options | FILE_OPEN_BY_FILE_ID,
    )
}

/// The request opens an entry of a directory.
pub open spec fn opens_child(r: NtCreate, parent: u64, name: Seq<u8>, flags: OpenFlags) -> bool {
    &&& r.name@ == wide(lossy_utf8(name))
    &&& has_lengths(r, utf16(lossy_utf8(name)).len())
    &&& is_request(r, parent, flags.desired_access, flags.create_disposition, flags.create_options)
}

/// The request opens a stream of an open file for writing, and empties it.
pub open spec fn opens_stream(r: NtCreate, file: u64, suffix: Seq<char>) -> bool {
    &&& r.name@ == wide(suffix)
    &&& has_lengths(r, utf16(suffix).len())
    &&& is_request(r, file, GENERIC_WRITE, FILE_OVERWRITE_IF, FILE_SYNCHRONOUS_IO_NONALERT)
}

fn request(name: Vec<u16>, root: u64, flags: &OpenFlags) -> (r: NtCreate)
    requires
        name@.len() > 0,
    ensures
        r.name@ == name@,
        has_lengths(r, (name@.len() - 1) as nat),
        is_request(r, root, flags.desired_access, flags.create_disposition, flags.create_options),
{
    // Only the last sixteen bits of the lengths are kept.
    let units: usize = name.len() - 1;
    let low: u32 = (units % 0x1_0000) as u32;
    let length: u16 = (low * 2 % 0x1_0000) as u16;
    let maximum_length: u16 = ((low * 2 + 2) % 0x1_0000) as u16;
    proof {
        let k = units as int / 0x1_0000;
        assert(units * 2 == 0x1_0000 * (2 * k) + low * 2);
        lemma_mod_multiples_vanish(2 * k, low * 2, 0x1_0000);
        lemma_mod_multiples_vanish(2 * k, low * 2 + 2, 0x1_0000);
    }
    NtCreate {
        root_directory: root,
        name,
        length,
        maximum_length,
        attributes: 0,
        desired_access: flags.desired_access | SYNCHRONIZE,
        file_attributes: FILE_ATTRIBUTE_NORMAL,
        share_access: FILE_SHARE_READ | FILE_SHARE_WRITE | FILE_SHARE_DELETE,
        create_disposition: flags.create_disposition,
        create_options: flags.create_options,
    }
}

/// Opens a path. The name is matched with its case.
pub fn open_handle(path: &str, flags: &OpenFlags) -> (r: NtCreate)
    ensures
        opens_path(r, path@, *flags),
{
    let name = path_to_nt_wide(path);
    request(name, 0, flags)
}

/// Opens an existing file by its index, with a handle on the same volume as the root
/// directory.
pub fn open_by_id(root: u64, file_index: u64, flags: &OpenFlags) -> (r: NtCreate)
    ensures
        opens_id(r, root, file_index, *flags),
{
    let mut name: Vec<u16> = Vec::new();
    name.push((file_index % 0x1_0000) as u16);
    name.push((file_index / 0x1_0000 % 0x1_0000) as u16);
    name.push((file_index / 0x1_0000_0000 % 0x1_0000) as u16);
    name.push((file_index / 0x1_0000_0000_0000) as u16);
    assert(name@ =~= index_units(file_index));
    NtCreate {
        root_directory: root,
        name,
        length: 8,
        maximum_length: 8,
        attributes: 0,
        desired_access: flags.desired_access | SYNCHRONIZE,
        file_attributes: FILE_ATTRIBUTE_NORMAL,
        share_access: FILE_SHARE_READ | FILE_SHARE_WRITE | FILE_SHARE_DELETE,
        create_disposition: flags.create_disposition,
        create_options: flags.create_options | FILE_OPEN_BY_FILE_ID,
    }
}

/// Opens an entry of a directory by its name.
pub fn open_relative(parent: u64, name: &[u8], flags: &OpenFlags) -> (r: NtCreate)
    ensures
        opens_child(r, parent, name@, *flags),
{
    let text = cstr_to_path(name);
    let units = path_to_wide(text.as_str());
    request(units, parent, flags)
}

/// Opens a stream of an open file or directory. The suffix starts with a colon.
pub fn open_stream(file: u64, stream_suffix: &str) -> (r: NtCreate)
    ensures
        opens_stream(r, file, stream_suffix@),
{
    let units = path_to_wide(stream_suffix);
    let flags = OpenFlags {
        desired_access: GENERIC_WRITE,
        create_disposition: FILE_OVERWRITE_IF,
        create_options: FILE_SYNCHRONOUS_IO_NONALERT,
    };
    request(units, file, &flags)
}

proof fn lemma_index_from_units(a: u64)
    ensures
        a == index_units(a)[0] + 0x1_0000 * index_units(a)[1] + 0x1_0000_0000 * index_units(a)[2]
            + 0x1_0000_0000_0000 * index_units(a)[3],
{
    let q1 = a / 0x1_0000;
    let q2 = a / 0x1_0000_0000;
    let q3 = a / 0x1_0000_0000_0000;
    assert(a == 0x1_0000 * q1 + a % 0x1_0000);
    assert(q2 == q1 / 0x1_0000);
    assert(q1 == 0x1_0000 * q2 + q1 % 0x1_0000);
    assert(q3 == q2 / 0x1_0000);
    assert(q2 == 0x1_0000 * q3 + q2 % 0x1_0000);
    assert(q3 < 0x1_0000);
}

/// Two files with different indexes are asked for by different names.
pub proof fn law_index_names_are_distinct(a: u64, b: u64)
    requires
        index_units(a) == index_units(b),
    ensures
        a == b,
{
    lemma_index_from_units(a);
    lemma_index_from_units(b);
}

} // verus!
