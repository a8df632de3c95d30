//! Directory listings.
//!
//! The host fills a buffer with records, each of which says how far away the next one
//! stands. All numbers are little-endian. Of a record these parts are read:
//!
//! | offset | size | meaning                                  |
//! |--------|------|------------------------------------------|
//! | 0      | 4    | distance to the next record, 0 for none  |
//! | 56     | 4    | file attributes                          |
//! | 60     | 4    | length of the name in bytes              |
//! | 64     | 4    | reparse tag, if the file has one         |
//! | 96     | 8    | file index                               |
//! | 104    |      | name in UTF-16                           |

use crate::linux::{DT_DIR, DT_LNK, DT_REG};
use crate::text::{from_utf16_lossy, to_bytes, utf16_lossy};
use crate::win::{FILE_ATTRIBUTE_DIRECTORY, FILE_ATTRIBUTE_REPARSE_POINT, IO_REPARSE_TAG_SYMLINK};
use vstd::prelude::*;
use vstd::utf8::encode_utf8;

verus! {

/// An entry of a directory.
#[derive(Debug, PartialEq, Eq)]
pub struct CachedDirEntry {
    pub ino: u64,
    pub name: Vec<u8>,
    pub type_: u32,
}

/// An entry of a directory, with its name as a value.
#[verifier::ext_equal]
pub struct EntryView {
    pub ino: u64,
    pub name: Seq<u8>,
    pub type_: u32,
}

impl View for CachedDirEntry {
    type V = EntryView;

    open spec fn view(&self) -> EntryView {
        EntryView { ino: self.ino, name: self.name@, type_: self.type_ }
    }
}

/// The entries of a listing as values.
pub open spec fn views(entries: Seq<CachedDirEntry>) -> Seq<EntryView> {
    Seq::new(entries.len(), |i: int| entries[i]@)
}

pub open spec fn u16_at(b: Seq<u8>, i: int) -> u16 {
    (b[i] + 0x100 * b[i + 1]) as u16
}

pub open spec fn u32_at(b: Seq<u8>, i: int) -> u32 {
    (b[i] + 0x100 * b[i + 1] + 0x1_0000 * b[i + 2] + 0x100_0000 * b[i + 3]) as u32
}

pub open spec fn u64_at(b: Seq<u8>, i: int) -> u64 {
    (u32_at(b, i) + 0x1_0000_0000 * u32_at(b, i + 4)) as u64
}

/// `n` UTF-16 units from offset `i` on.
pub open spec fn units_at(b: Seq<u8>, i: int, n: int) -> Seq<u16> {
    Seq::new(n as nat, |k: int| u16_at(b, i + 2 * k))
}

/// Where the name starts in a record.
pub const NAME_OFFSET: usize = 104;

/// How many UTF-16 units the name of the record at `o` has.
pub open spec fn name_units(b: Seq<u8>, o: int) -> int {
    u32_at(b, o + 60) as int / 2
}

/// Whether the record at `o` lies within the buffer.
pub open spec fn record_fits(b: Seq<u8>, o: int) -> bool {
    &&& o >= 0
    &&& o + NAME_OFFSET <= b.len()
    &&& o + NAME_OFFSET + 2 * name_units(b, o) <= b.len()
}

/// The distance from the record at `o` to the next one.
pub open spec fn next_offset(b: Seq<u8>, o: int) -> int {
    u32_at(b, o) as int
}

/// Whether another record follows the one at `o` in the buffer.
pub open spec fn has_next(b: Seq<u8>, o: int) -> bool {
    record_fits(b, o) && next_offset(b, o) != 0 && o + next_offset(b, o) <= b.len()
}

/// Whether the record at `o` and those that follow it lie within the buffer.
pub open spec fn well_formed_from(b: Seq<u8>, o: int) -> bool
    decreases b.len() - o,
{
    &&& record_fits(b, o)
    &&& next_offset(b, o) == 0 || (o + next_offset(b, o) <= b.len() && well_formed_from(
        b,
        o + next_offset(b, o),
    ))
}

/// The file type of a record. Of the reparse points only symbolic links count as such.
pub open spec fn type_of(attributes: u32, reparse_tag: u32) -> u32 {
    if attributes & FILE_ATTRIBUTE_REPARSE_POINT != 0 && reparse_tag == IO_REPARSE_TAG_SYMLINK {
        DT_LNK
    } else if attributes & FILE_ATTRIBUTE_DIRECTORY != 0 {
        DT_DIR
    } else {
        DT_REG
    }
}

/// The entry that the record at `o` describes.
pub open spec fn entry_at(b: Seq<u8>, o: int) -> EntryView {
    EntryView {
        ino: u64_at(b, o + 96),
        name: encode_utf8(utf16_lossy(units_at(b, o + NAME_OFFSET, name_units(b, o)))),
        type_: type_of(u32_at(b, o + 56), u32_at(b, o + 64)),
    }
}

/// The names that every directory has for itself and for its parent.
pub open spec fn is_dots(name: Seq<u8>) -> bool {
    name == seq![0x2eu8] || name == seq![0x2eu8, 0x2eu8]
}

/// The entries of the record at `o` and of those that follow it, less the two that
/// every directory has.
pub open spec fn entries_from(b: Seq<u8>, o: int) -> Seq<EntryView>
    decreases b.len() - o,
{
    let own = if is_dots(entry_at(b, o).name) {
        Seq::empty()
    } else {
        seq![entry_at(b, o)]
    };
    if has_next(b, o) {
        own + entries_from(b, o + next_offset(b, o))
    } else {
        own
    }
}

fn read_u32(b: &[u8], i: usize) -> (r: u32)
    requires
        i + 4 <= b.len(),
    ensures
        r == u32_at(b@, i as int),
{
    b[i] as u32 + 0x100 * (b[i + 1] as u32) + 0x1_0000 * (b[i + 2] as u32) + 0x100_0000 * (
    b[i + 3] as u32)
}

fn read_u64(b: &[u8], i: usize) -> (r: u64)
    requires
        i + 8 <= b.len(),
    ensures
        r == u64_at(b@, i as int),
{
    read_u32(b, i) as u64 + 0x1_0000_0000 * (read_u32(b, i + 4) as u64)
}

fn read_units(b: &[u8], i: usize, n: usize) -> (r: Vec<u16>)
    requires
        i + 2 * n <= b.len(),
    ensures
        r@ == units_at(b@, i as int, n as int),
{
    let mut out: Vec<u16> = Vec::new();
    let mut k: usize = 0;
    while k < n
        invariant
            k <= n,
            i + 2 * n <= b.len(),
            out@ == units_at(b@, i as int, k as int),
        decreases n - k,
    {
        out.push(b[i + 2 * k] as u16 + 0x100 * (b[i + 2 * k + 1] as u16));
        assert(out@ =~= units_at(b@, i as int, k + 1));
        k = k + 1;
    }
    out
}

/// Whether the record at `o` lies within the buffer.
fn fits(b: &[u8], o: usize) -> (r: bool)
    requires
        o <= b@.len(),
    ensures
        r == record_fits(b@, o as int),
{
    if b.len() - o < NAME_OFFSET {
        return false;
    }
    let units: usize = (read_u32(b, o + 60) / 2) as usize;
    units <= (b.len() - o - NAME_OFFSET) / 2
}

/// Whether all records lie within the buffer.
pub fn dir_buffer_fits(b: &[u8]) -> (r: bool)
    ensures
        r == well_formed_from(b@, 0),
{
    let mut o: usize = 0;
    loop
        invariant
            o <= b.len(),
            well_formed_from(b@, 0) == well_formed_from(b@, o as int),
        decreases b@.len() - o,
    {
        if !fits(b, o) {
            return false;
        }
        let next: usize = read_u32(b, o) as usize;
        if next == 0 {
            return true;
        }
        if next > b.len() - o {
            return false;
        }
        o = o + next;
    }
}

fn type_from(attributes: u32, reparse_tag: u32) -> (r: u32)
    ensures
        r == type_of(attributes, reparse_tag),
{
    if attributes & FILE_ATTRIBUTE_REPARSE_POINT != 0 && reparse_tag == IO_REPARSE_TAG_SYMLINK {
        DT_LNK
    } else if attributes & FILE_ATTRIBUTE_DIRECTORY != 0 {
        DT_DIR
    } else {
        DT_REG
    }
}

fn dots(name: &[u8]) -> (r: bool)
    ensures
        r == is_dots(name@),
{
    let r: bool = (name.len() == 1 && name[0] == 0x2e) || (name.len() == 2 && name[0] == 0x2e
        && name[1] == 0x2e);
    proof {
        if name@.len() == 1 && name@[0] == 0x2e {
            assert(name@ =~= seq![0x2eu8]);
        }
        if name@.len() == 2 && name@[0] == 0x2e && name@[1] == 0x2e {
            assert(name@ =~= seq![0x2eu8, 0x2eu8]);
        }
    }
    r
}

/// Appends the entries of a buffer to a listing.
pub fn read_dir_buffer(b: &[u8], entries: &mut Vec<CachedDirEntry>)
    requires
        well_formed_from(b@, 0),
    ensures
        views(final(entries)@) == views(old(entries)@) + entries_from(b@, 0),
{
    let mut o: usize = 0;
    loop
        invariant
            o <= b.len(),
            well_formed_from(b@, o as int),
            views(entries@) + entries_from(b@, o as int) == views(old(entries)@) + entries_from(
                b@,
                0,
            ),
        decreases b@.len() - o,
    {
        let ghost before = views(entries@);
        let units: usize = (read_u32(b, o + 60) / 2) as usize;
        let wide_name = read_units(b, o + NAME_OFFSET, units);
        let text = from_utf16_lossy(wide_name.as_slice());
        let name = to_bytes(text.as_str());
        let ghost own = if is_dots(entry_at(b@, o as int).name) {
            Seq::empty()
        } else {
            seq![entry_at(b@, o as int)]
        };
        if !dots(name.as_slice()) {
            let entry = CachedDirEntry {
                ino: read_u64(b, o + 96),
                name,
                type_: type_from(read_u32(b, o + 56), read_u32(b, o + 64)),
            };
            assert(entry@ == entry_at(b@, o as int));
            entries.push(entry);
        }
        assert(views(entries@) =~= before + own);
        let next: usize = read_u32(b, o) as usize;
        if next == 0 {
            assert(views(entries@) =~= before + entries_from(b@, o as int));
            return;
        }
        assert(views(entries@) + entries_from(b@, o + next) =~= before + entries_from(
            b@,
            o as int,
        ));
        o = o + next;
    }
}

/// What a directory lists before the host's records: itself and its parent.
pub open spec fn dot_entries(inode: u64, parent_inode: u64) -> Seq<EntryView> {
    seq![
        EntryView { ino: inode, name: seq![0x2eu8], type_: DT_DIR },
        EntryView { ino: parent_inode, name: seq![0x2eu8, 0x2eu8], type_: DT_DIR },
    ]
}

/// The start of a listing.
pub fn start_listing(inode: u64, parent_inode: u64) -> (r: Vec<CachedDirEntry>)
    ensures
        views(r@) == dot_entries(inode, parent_inode),
{
    let mut dot: Vec<u8> = Vec::new();
    dot.push(0x2e);
    let mut dot_dot: Vec<u8> = Vec::new();
    dot_dot.push(0x2e);
    dot_dot.push(0x2e);
    assert(dot@ =~= seq![0x2eu8]);
    assert(dot_dot@ =~= seq![0x2eu8, 0x2eu8]);
    let mut out: Vec<CachedDirEntry> = Vec::new();
    out.push(CachedDirEntry { ino: inode, name: dot, type_: DT_DIR });
    out.push(CachedDirEntry { ino: parent_inode, name: dot_dot, type_: DT_DIR });
    assert(views(out@) =~= dot_entries(inode, parent_inode));
    out
}

/// The records of the host never add a second entry for the directory or its parent.
pub proof fn law_no_dots_from_records(b: Seq<u8>, o: int)
    ensures
        forall|i: int|
            0 <= i < entries_from(b, o).len() ==> !is_dots(#[trigger] entries_from(b, o)[i].name),
    decreases b.len() - o,
{
    if has_next(b, o) {
        law_no_dots_from_records(b, o + next_offset(b, o));
        let rest = entries_from(b, o + next_offset(b, o));
        let all = entries_from(b, o);
        assert forall|i: int| 0 <= i < all.len() implies !is_dots(#[trigger] all[i].name) by {
            let k = all.len() - rest.len();
            if i >= k {
                assert(all[i] == rest[i - k]);
            }
        }
    }
}

} // verus!
