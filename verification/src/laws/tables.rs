//! The known files, and the state of the file system.

use crate::config::Config;
use crate::errno::{EBADF, FsError};
use crate::fs::PassthroughFs;
use crate::inode::{all_forgotten, forget_one, forgotten, has_key};
use crate::inode::{InodeAllocator, InodeAltKey, InodeData, InodeTable};
use crate::laws::run::linux_error;
use crate::path::{is_same, may_be_same, wide};
use vstd::prelude::*;

verus! {

/// Two files of the host are the same if they have the same index on the same volume.
pub open spec fn same_file(d: InodeData, key: InodeAltKey) -> bool {
    d.file_index == key.file_index && d.volume_serial == key.volume_serial
}

/// What is made of a file that was not known before is what is known of it.
pub proof fn law_new_file_is_as_told(
    inode: u64,
    parent_inode: u64,
    key: InodeAltKey,
    path: &str,
    refcount: u64,
    r: InodeData,
)
    requires
        call_ensures(InodeData::new, (inode, parent_inode, key, path, refcount), r),
    ensures
        r.inode == inode,
        r.parent_inode == parent_inode,
        r.file_index == key.file_index,
        r.volume_serial == key.volume_serial,
        r.path@ == path@,
        r.wide_path@ == wide(path@),
        r.refcount == refcount,
{
}

/// The path of a file is told as it is.
pub proof fn law_path_is_told(d: &InodeData, path: &String, wide_path: &Vec<u16>)
    requires
        call_ensures(InodeData::get_path, (d,), path),
        call_ensures(InodeData::get_wide_path, (d,), wide_path),
    ensures
        path@ == d.path@,
        wide_path@ == d.wide_path@,
{
}

/// A path that changed is set, and one that did not is kept. Nothing else of the file changes.
pub proof fn law_path_is_updated(d: &mut InodeData, changed: bool, new_path: &str)
    requires
        call_ensures(InodeData::update_path, (d, changed, new_path), ()),
    ensures
        changed ==> final(d).path@ == new_path@ && final(d).wide_path@ == wide(new_path@),
        !changed ==> final(d).path == old(d).path && final(d).wide_path == old(d).wide_path,
        final(d).inode == old(d).inode,
        final(d).parent_inode == old(d).parent_inode,
        final(d).file_index == old(d).file_index,
        final(d).volume_serial == old(d).volume_serial,
        final(d).refcount == old(d).refcount,
{
}

/// A path that no host takes for the one that is set is set, and one that every host takes for it
/// changes nothing. Nothing else of the file changes.
pub proof fn law_path_is_updated_if_it_differs(d: &mut InodeData, new_path: &str)
    requires
        call_ensures(InodeData::update_path_if_changed, (d, new_path), ()),
    ensures
        new_path@ == old(d).path@ ==> final(d).path == old(d).path && final(d).wide_path
            == old(d).wide_path,
        is_same(old(d).path@, new_path@) ==> final(d).path == old(d).path,
        !may_be_same(old(d).path@, new_path@) ==> final(d).path@ == new_path@
            && final(d).wide_path@ == wide(new_path@),
        final(d).path == old(d).path || final(d).path@ == new_path@,
        final(d).inode == old(d).inode,
        final(d).parent_inode == old(d).parent_inode,
        final(d).file_index == old(d).file_index,
        final(d).volume_serial == old(d).volume_serial,
        final(d).refcount == old(d).refcount,
{
}

/// Numbers are handed out one after the other.
pub proof fn law_numbers_are_handed_out_in_order(
    a: InodeAllocator,
    first: u64,
    b: &mut InodeAllocator,
    n: u64,
)
    requires
        call_ensures(InodeAllocator::new, (first,), a),
        call_ensures(InodeAllocator::next, (b,), n),
    ensures
        a.next_inode == first,
        n == old(b).next_inode,
        n < u64::MAX ==> final(b).next_inode == n + 1,
        n == u64::MAX ==> final(b).next_inode == 0,
{
}

/// A new table knows no file, and neither does one that was cleared.
pub proof fn law_new_table_is_empty(t: InodeTable, u: &mut InodeTable)
    requires
        call_ensures(InodeTable::new, (), t),
        call_ensures(InodeTable::clear, (u,), ()),
    ensures
        forall|i: u64| !t@.contains_key(i),
        forall|i: u64| !final(u)@.contains_key(i),
{
    assert(t@ == Map::<u64, InodeData>::empty());
    assert(final(u)@ == Map::<u64, InodeData>::empty());
}

/// A file is found under its number and by its identity, and only if it is known.
pub proof fn law_known_files_are_found(
    t: &InodeTable,
    inode: u64,
    found: Option<&InodeData>,
    key: InodeAltKey,
    number: Option<u64>,
)
    requires
        call_ensures(InodeTable::get, (t, inode), found),
        call_ensures(InodeTable::get_alt, (t, key), number),
    ensures
        match found {
            Some(d) => t@.contains_key(inode) && *d == t@[inode],
            None => !t@.contains_key(inode),
        },
        match number {
            Some(i) => t@.contains_key(i) && same_file(t@[i], key),
            None => forall|i: u64| #[trigger] t@.contains_key(i) ==> !same_file(t@[i], key),
        },
{
    if number is None {
        assert forall|i: u64| #[trigger] t@.contains_key(i) implies !same_file(t@[i], key) by {
            if same_file(t@[i], key) {
                assert(t@[i].key() == key);
                assert(has_key(t@, key));
            }
        }
    }
}

/// A file that is put in is found, whatever had its number or its identity is not found any more,
/// and every other file stays.
pub proof fn law_file_that_is_put_in_is_found(t: &mut InodeTable, data: InodeData)
    requires
        call_ensures(InodeTable::insert, (t, data), ()),
    ensures
        final(t)@.contains_key(data.inode),
        final(t)@[data.inode] == data,
        forall|i: u64| #[trigger]
            final(t)@.contains_key(i) && i != data.inode ==> old(t)@.contains_key(i)
                && final(t)@[i] == old(t)@[i] && !same_file(old(t)@[i], data.key()),
        forall|i: u64| #[trigger]
            old(t)@.contains_key(i) && i != data.inode && !same_file(old(t)@[i], data.key())
                ==> final(t)@.contains_key(i),
{
    assert forall|i: u64| #[trigger] final(t)@.contains_key(i) && i != data.inode implies old(
        t,
    )@.contains_key(i) && final(t)@[i] == old(t)@[i] && !same_file(old(t)@[i], data.key()) by {}
    assert forall|i: u64| #[trigger]
        old(t)@.contains_key(i) && i != data.inode && !same_file(old(t)@[i], data.key()) implies (
    final(t)@.contains_key(i)) by {
        assert(old(t)@[i].key() != data.key());
    }
}

/// A file that is taken out is not found any more, and every other file stays.
pub proof fn law_file_that_is_taken_out_is_gone(t: &mut InodeTable, inode: u64)
    requires
        call_ensures(InodeTable::remove, (t, inode), ()),
    ensures
        !final(t)@.contains_key(inode),
        forall|i: u64|
            i != inode ==> (#[trigger] final(t)@.contains_key(i) <==> old(t)@.contains_key(i)) && (
            old(t)@.contains_key(i) ==> final(t)@[i] == old(t)@[i]),
{
}

/// A file that is found once more gets one reference more and keeps its number and its directory;
/// one that is found for the first time gets the next number and one reference, and stands under
/// the path where it was found. The number that is told is that of the file, and no other file
/// that is known changes.
pub proof fn law_reference_is_counted(
    t: &mut InodeTable,
    key: InodeAltKey,
    parent: u64,
    path: &str,
    alloc: &mut InodeAllocator,
    inode: u64,
)
    requires
        old(t).wf(),
        call_ensures(InodeTable::add_reference, (t, key, parent, path, alloc), inode),
    ensures
        final(t)@.contains_key(inode),
        same_file(final(t)@[inode], key),
        forall|i: u64| #[trigger]
            final(t)@.contains_key(i) && i != inode ==> old(t)@.contains_key(i) && final(t)@[i]
                == old(t)@[i],
        forall|i: u64| #[trigger]
            old(t)@.contains_key(i) && same_file(old(t)@[i], key) ==> {
                &&& i == inode
                &&& final(t)@[i].parent_inode == old(t)@[i].parent_inode
                &&& old(t)@[i].refcount < u64::MAX ==> final(t)@[i].refcount == old(t)@[i].refcount
                    + 1
                &&& is_same(old(t)@[i].path@, path@) ==> final(t)@[i].path == old(t)@[i].path
                &&& !may_be_same(old(t)@[i].path@, path@) ==> final(t)@[i].path@ == path@
                &&& final(alloc).next_inode == old(alloc).next_inode
                &&& forall|j: u64|
                    #![trigger final(t)@.contains_key(j)]
                    #![trigger old(t)@.contains_key(j)]
                    final(t)@.contains_key(j) <==> old(t)@.contains_key(j)
            },
        (forall|i: u64| #[trigger] old(t)@.contains_key(i) ==> !same_file(old(t)@[i], key)) ==> {
            &&& inode == old(alloc).next_inode
            &&& final(t)@[inode].inode == inode
            &&& final(t)@[inode].parent_inode == parent
            &&& final(t)@[inode].path@ == path@
            &&& final(t)@[inode].refcount == 1
            &&& inode < u64::MAX ==> final(alloc).next_inode == inode + 1
            &&& forall|i: u64| #[trigger]
                old(t)@.contains_key(i) && i != inode ==> final(t)@.contains_key(i)
        },
{
    let m = old(t)@;
    let n = final(t)@;
    old(t).law_files_are_told_apart();
    assert(has_key(m, key) ==> m.contains_key(inode) && m[inode].key() == key);
    assert forall|i: u64| #[trigger] m.contains_key(i) && same_file(m[i], key) implies has_key(
        m,
        key,
    ) && i == inode by {
        assert(m[i].key() == key);
    }
    if !has_key(m, key) {
        assert forall|i: u64| #[trigger] m.contains_key(i) && i != inode implies n.contains_key(
            i,
        ) by {
            assert(m[i].key() != key);
        }
    }
}

/// References that are forgotten are taken off the count of the file. A file without references
/// is gone; no other file changes.
pub open spec fn are_forgotten(
    before: Map<u64, InodeData>,
    after: Map<u64, InodeData>,
    inode: u64,
    count: u64,
) -> bool {
    &&& forall|i: u64|
        i != inode ==> (#[trigger] after.contains_key(i) <==> before.contains_key(i)) && (
        before.contains_key(i) ==> after[i] == before[i])
    &&& before.contains_key(inode) && before[inode].refcount > count ==> after.contains_key(inode)
        && after[inode].refcount == before[inode].refcount - count && after[inode] == (InodeData {
        refcount: after[inode].refcount,
        ..before[inode]
    })
    &&& before.contains_key(inode) && before[inode].refcount <= count ==> !after.contains_key(inode)
    &&& !before.contains_key(inode) ==> !after.contains_key(inode)
}

/// What the guest forgets is taken off the count of the file that it names.
pub proof fn law_references_are_forgotten(
    t: &mut InodeTable,
    fs: &mut PassthroughFs,
    inode: u64,
    count: u64,
)
    requires
        call_ensures(forget_one, (t, inode, count), ()),
        call_ensures(PassthroughFs::forget, (fs, inode, count), ()),
    ensures
        are_forgotten(old(t)@, final(t)@, inode, count),
        are_forgotten(old(fs).inodes@, final(fs).inodes@, inode, count),
        *final(fs) == (PassthroughFs { inodes: final(fs).inodes, ..*old(fs) }),
{
}

/// Forgetting in one go is forgetting one request after the other: there are states of the table
/// between the requests, each of which comes of the one before.
pub proof fn law_requests_are_forgotten_in_order(
    fs: &mut PassthroughFs,
    requests: &[(u64, u64)],
) -> (states: Seq<Map<u64, InodeData>>)
    requires
        call_ensures(PassthroughFs::batch_forget, (fs, requests), ()),
    ensures
        states.len() == requests@.len() + 1,
        states[0] == old(fs).inodes@,
        states.last() == final(fs).inodes@,
        forall|k: int, n: int|
            0 <= k < requests@.len() && n == k + 1 ==> are_forgotten(
                #[trigger] states[k],
                #[trigger] states[n],
                requests@[k].0,
                requests@[k].1,
            ),
        *final(fs) == (PassthroughFs { inodes: final(fs).inodes, ..*old(fs) }),
{
    let m = old(fs).inodes@;
    let r = requests@;
    let states = Seq::new(r.len() + 1, |k: int| all_forgotten(m, r.take(k)));
    assert(r.take(r.len() as int) =~= r);
    assert forall|k: int, n: int| 0 <= k < r.len() && n == k + 1 implies are_forgotten(
        #[trigger] states[k],
        #[trigger] states[n],
        r[k].0,
        r[k].1,
    ) by {
        assert(r.take(n).drop_last() =~= r.take(k));
        assert(r.take(n).last() == r[k]);
        assert(states[n] == forgotten(states[k], r[k].0, r[k].1));
    }
    states
}

/// A new file system serves the directory that was opened for it, knows no file and has no open
/// directory; without such a directory there is none.
pub proof fn law_new_file_system_knows_nothing(
    cfg: Config,
    inode_alloc: InodeAllocator,
    opened: Result<u64, FsError>,
    r: Result<PassthroughFs, FsError>,
)
    requires
        call_ensures(PassthroughFs::new, (cfg, inode_alloc, opened), r),
    ensures
        match (opened, r) {
            (Ok(root), Ok(fs)) => {
                &&& fs.root_handle == root
                &&& fs.cfg == cfg
                &&& fs.inode_alloc == inode_alloc
                &&& fs.next_handle == 1
                &&& !fs.writeback
                &&& !fs.announce_submounts
                &&& forall|i: u64| !fs.inodes@.contains_key(i)
                &&& forall|h: u64| !fs.dir_caches@.contains_key(h)
            },
            (Err(e), Err(f)) => f == e,
            _ => false,
        },
{
    if let Ok(fs) = r {
        assert(opened is Ok);
        assert(fs.inodes@ == Map::<u64, InodeData>::empty());
        assert forall|h: u64| !fs.dir_caches@.contains_key(h) by {
            assert(!fs.dir_caches@.dom().contains(h));
        }
    }
}

/// What is known of a file is told if it is known; a file that is not known is a bad one.
pub proof fn law_unknown_file_is_bad(
    fs: &PassthroughFs,
    inode: u64,
    data: Result<&InodeData, FsError>,
    path: Result<String, FsError>,
)
    requires
        call_ensures(PassthroughFs::inode_data, (fs, inode), data),
        call_ensures(PassthroughFs::inode_path, (fs, inode), path),
    ensures
        if fs.inodes@.contains_key(inode) {
            &&& data matches Ok(d)
            &&& *d == fs.inodes@[inode]
            &&& path matches Ok(p)
            &&& p@ == fs.inodes@[inode].path@
        } else {
            data == Err::<&InodeData, FsError>(linux_error(EBADF)) && path == Err::<
                String,
                FsError,
            >(linux_error(EBADF))
        },
{
}

} // verus!
