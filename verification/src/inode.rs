//! The files that the guest knows, by inode number and by their identity on the host.

use crate::path::{is_same, may_be_same, path_to_wide, same_path, wide};
use std::collections::BTreeMap;
use vstd::prelude::*;

verus! {

/// What tells a file of the host from every other: its index, and the volume on which
/// the index counts.
#[derive(Clone, Copy, Debug, PartialEq, Eq, Structural)]
pub struct InodeAltKey {
    pub file_index: u64,
    pub volume_serial: u32,
}

impl InodeAltKey {
    /// The key as one number.
    pub open spec fn spec_code(self) -> u128 {
        (self.file_index * 0x1_0000_0000 + self.volume_serial) as u128
    }

    fn code(self) -> (r: u128)
        ensures
            r == self.spec_code(),
    {
        self.file_index as u128 * 0x1_0000_0000 + self.volume_serial as u128
    }
}

/// Different keys have different numbers.
proof fn lemma_codes_differ(a: InodeAltKey, b: InodeAltKey)
    requires
        a.spec_code() == b.spec_code(),
    ensures
        a == b,
{
}

/// A file that the guest knows.
pub struct InodeData {
    pub inode: u64,
    pub parent_inode: u64,
    pub file_index: u64,
    pub volume_serial: u32,
    pub path: String,
    pub wide_path: Vec<u16>,
    pub refcount: u64,
}

/// `after` is `before` with its path brought up to date: it has the new path, or its
/// own where the host takes the two for the same. It has its own if every host does, and
/// the new one if none does.
pub open spec fn path_noted(before: InodeData, after: InodeData, new_path: Seq<char>) -> bool {
    ||| after == before && may_be_same(before.path@, new_path)
    ||| {
        &&& !is_same(before.path@, new_path)
        &&& after.path@ == new_path
        &&& after.wide_path@ == wide(new_path)
        &&& after == (InodeData { path: after.path, wide_path: after.wide_path, ..before })
    }
}

impl InodeData {
    pub open spec fn key(self) -> InodeAltKey {
        InodeAltKey { file_index: self.file_index, volume_serial: self.volume_serial }
    }

    /// The wide path is the path.
    pub open spec fn wf(self) -> bool {
        self.wide_path@ == wide(self.path@)
    }

    fn alt_key(&self) -> (r: InodeAltKey)
        ensures
            r == self.key(),
    {
        InodeAltKey { file_index: self.file_index, volume_serial: self.volume_serial }
    }

    /// A file that was not known before.
    pub fn new(inode: u64, parent_inode: u64, key: InodeAltKey, path: &str, refcount: u64) -> (r:
        InodeData)
        ensures
            r.wf(),
            r.inode == inode,
            r.parent_inode == parent_inode,
            r.key() == key,
            r.path@ == path@,
            r.refcount == refcount,
    {
        InodeData {
            inode,
            parent_inode,
            file_index: key.file_index,
            volume_serial: key.volume_serial,
            path: path.to_owned(),
            wide_path: path_to_wide(path),
            refcount,
        }
    }

    pub fn get_path(&self) -> (r: &String)
        ensures
            *r == self.path,
    {
        &self.path
    }

    pub fn get_wide_path(&self) -> (r: &Vec<u16>)
        ensures
            *r == self.wide_path,
    {
        &self.wide_path
    }

    /// Sets the path if it is told that it changed.
    pub fn update_path(&mut self, changed: bool, new_path: &str)
        requires
            old(self).wf(),
        ensures
            final(self).wf(),
            !changed ==> *final(self) == *old(self),
            changed ==> {
                &&& final(self).path@ == new_path@
                &&& final(self).wide_path@ == wide(new_path@)
                &&& *final(self) == (InodeData {
                    path: final(self).path,
                    wide_path: final(self).wide_path,
                    ..*old(self)
                })
            },
    {
        if changed {
            self.path = new_path.to_owned();
            self.wide_path = path_to_wide(new_path);
        }
    }

    /// Sets the path if the host takes it for another than the one that is set.
    pub fn update_path_if_changed(&mut self, new_path: &str)
        requires
            old(self).wf(),
        ensures
            final(self).wf(),
            path_noted(*old(self), *final(self), new_path@),
    {
        let changed: bool = !same_path(self.path.as_str(), new_path);
        self.update_path(changed, new_path);
    }
}

/// Bringing a path up to date changes nothing but the path: nothing at all if every host takes
/// the two paths for the same, and the path is the new one if none does.
pub proof fn law_path_is_brought_up_to_date(
    before: InodeData,
    after: InodeData,
    new_path: Seq<char>,
)
    requires
        before.wf(),
        path_noted(before, after, new_path),
    ensures
        after.wf(),
        after == (InodeData { path: after.path, wide_path: after.wide_path, ..before }),
        is_same(before.path@, new_path) ==> after == before,
        !may_be_same(before.path@, new_path) ==> after.path@ == new_path,
{
}

/// Where a new path was taken, bringing it up to date once more changes nothing.
pub proof fn law_new_path_is_taken_once(
    before: InodeData,
    after: InodeData,
    again: InodeData,
    new_path: Seq<char>,
)
    requires
        path_noted(before, after, new_path),
        path_noted(after, again, new_path),
        after != before,
    ensures
        again == after,
{
}

/// The inode numbers that are handed out.
pub struct InodeAllocator {
    pub next_inode: u64,
}

/// The number behind `n`; the last number is followed by zero.
pub open spec fn following(n: u64) -> u64 {
    if n == u64::MAX {
        0
    } else {
        (n + 1) as u64
    }
}

/// Counts one up; behind the last number comes zero.
pub(crate) fn count_up(n: u64) -> (r: u64)
    ensures
        r == following(n),
{
    if n == u64::MAX {
        0
    } else {
        n + 1
    }
}

impl InodeAllocator {
    /// Hands out numbers from `first` on.
    pub fn new(first: u64) -> (r: InodeAllocator)
        ensures
            r.next_inode == first,
    {
        InodeAllocator { next_inode: first }
    }

    pub fn next(&mut self) -> (r: u64)
        ensures
            r == old(self).next_inode,
            final(self).next_inode == following(old(self).next_inode),
    {
        let n: u64 = self.next_inode;
        self.next_inode = count_up(n);
        n
    }
}

/// The known files.
pub struct InodeTable {
    main: BTreeMap<u64, InodeData>,
    alt: BTreeMap<u128, u64>,
}

impl View for InodeTable {
    type V = Map<u64, InodeData>;

    closed spec fn view(&self) -> Map<u64, InodeData> {
        self.main@
    }
}

/// Every file stands under its own inode number, and no two have the same identity.
pub open spec fn is_table(m: Map<u64, InodeData>) -> bool {
    &&& forall|i: u64| #[trigger] m.contains_key(i) ==> m[i].inode == i && m[i].wf()
    &&& forall|i: u64, j: u64|
        #[trigger] m.contains_key(i) && #[trigger] m.contains_key(j) && m[i].key() == m[j].key()
            ==> i == j
}

/// `after` is `before` with `data` in it, and without what had its number or identity.
pub open spec fn entered(
    before: Map<u64, InodeData>,
    after: Map<u64, InodeData>,
    data: InodeData,
) -> bool {
    &&& forall|i: u64| #[trigger]
        after.contains_key(i) <==> i == data.inode || (before.contains_key(i) && before[i].key()
            != data.key())
    &&& forall|i: u64| #[trigger]
        after.contains_key(i) ==> after[i] == if i == data.inode {
            data
        } else {
            before[i]
        }
}

/// The files after the guest forgot some of its references to one of them. A reference
/// count does not go below zero, and a file without references is not known any more.
pub open spec fn forgotten(m: Map<u64, InodeData>, inode: u64, count: u64) -> Map<u64, InodeData> {
    if !m.contains_key(inode) {
        m
    } else if m[inode].refcount <= count {
        m.remove(inode)
    } else {
        m.insert(inode, InodeData { refcount: (m[inode].refcount - count) as u64, ..m[inode] })
    }
}

/// The files after a sequence of such requests.
pub open spec fn all_forgotten(m: Map<u64, InodeData>, requests: Seq<(u64, u64)>) -> Map<
    u64,
    InodeData,
>
    decreases requests.len(),
{
    if requests.len() == 0 {
        m
    } else {
        let last = requests.last();
        forgotten(all_forgotten(m, requests.drop_last()), last.0, last.1)
    }
}

/// Whether the file with the given identity is known.
pub open spec fn has_key(m: Map<u64, InodeData>, key: InodeAltKey) -> bool {
    exists|i: u64| #[trigger] m.contains_key(i) && m[i].key() == key
}

/// `after` is `before` with one more reference to the file with the given identity. A
/// file that is known keeps its number and gets its path brought up to date; one that
/// is not known enters under the number `fresh`.
pub open spec fn referenced(
    before: Map<u64, InodeData>,
    after: Map<u64, InodeData>,
    key: InodeAltKey,
    parent: u64,
    path: Seq<char>,
    fresh: u64,
    inode: u64,
) -> bool {
    if has_key(before, key) {
        &&& before.contains_key(inode)
        &&& before[inode].key() == key
        &&& after == before.insert(inode, after[inode])
        &&& path_noted(
            InodeData { refcount: following(before[inode].refcount), ..before[inode] },
            after[inode],
            path,
        )
    } else {
        &&& inode == fresh
        &&& after.contains_key(fresh)
        &&& entered(before, after, after[fresh])
        &&& after[fresh].inode == fresh
        &&& after[fresh].parent_inode == parent
        &&& after[fresh].key() == key
        &&& after[fresh].path@ == path
        &&& after[fresh].refcount == 1
    }
}

impl InodeTable {
    /// The two maps say the same.
    pub closed spec fn wf(self) -> bool {
        &&& forall|i: u64| #[trigger]
            self.main@.contains_key(i) ==> self.main@[i].inode == i && self.main@[i].wf()
        &&& forall|i: u64| #[trigger]
            self.main@.contains_key(i) ==> self.alt@.contains_key(self.main@[i].key().spec_code())
                && self.alt@[self.main@[i].key().spec_code()] == i
        &&& forall|c: u128| #[trigger]
            self.alt@.contains_key(c) ==> self.main@.contains_key(self.alt@[c])
                && self.main@[self.alt@[c]].key().spec_code() == c
    }

    /// Every known file stands under its own number, and no two of them are the same file of
    /// the host.
    pub proof fn law_files_are_told_apart(self)
        requires
            self.wf(),
        ensures
            is_table(self@),
    {
        let m = self.main@;
        assert forall|i: u64, j: u64| #[trigger]
            m.contains_key(i) && #[trigger] m.contains_key(j) && m[i].key() == m[j].key() implies i
            == j by {
            assert(self.alt@[m[i].key().spec_code()] == i);
            assert(self.alt@[m[j].key().spec_code()] == j);
        }
    }

    pub fn new() -> (r: InodeTable)
        ensures
            r.wf(),
            r@ == Map::<u64, InodeData>::empty(),
    {
        InodeTable { main: BTreeMap::new(), alt: BTreeMap::new() }
    }

    pub fn get(&self, inode: u64) -> (r: Option<&InodeData>)
        requires
            self.wf(),
        ensures
            r is Some <==> self@.contains_key(inode),
            r matches Some(d) ==> *d == self@[inode] && d.wf() && d.inode == inode,
    {
        self.main.get(&inode)
    }

    /// The inode number of the file with the given identity.
    pub fn get_alt(&self, key: InodeAltKey) -> (r: Option<u64>)
        requires
            self.wf(),
        ensures
            r matches Some(i) ==> self@.contains_key(i) && self@[i].key() == key,
            r is None ==> !has_key(self@, key),
    {
        match self.alt.get(&key.code()) {
            Some(i) => {
                proof {
                    lemma_codes_differ(self.main@[*i].key(), key);
                }
                Some(*i)
            },
            None => None,
        }
    }

    /// Puts a file in, and takes out what had its number or its identity.
    pub fn insert(&mut self, data: InodeData)
        requires
            old(self).wf(),
            data.wf(),
        ensures
            final(self).wf(),
            entered(old(self)@, final(self)@, data),
    {
        let key: InodeAltKey = data.alt_key();
        let code: u128 = key.code();
        let inode: u64 = data.inode;
        if let Some(other) = self.alt.remove(&code) {
            proof {
                lemma_codes_differ(self.main@[other].key(), key);
            }
            self.main.remove(&other);
        }
        let ghost m1 = self.main@;
        let ghost a1 = self.alt@;
        assert(forall|i: u64| #[trigger]
            m1.contains_key(i) <==> old(self).main@.contains_key(i) && old(self).main@[i].key()
                != key) by {
            assert forall|i: u64| #[trigger] old(self).main@.contains_key(i) implies (
            m1.contains_key(i) <==> old(self).main@[i].key() != key) by {
                let c = old(self).main@[i].key().spec_code();
                assert(old(self).alt@.contains_key(c));
                if c == code {
                    lemma_codes_differ(old(self).main@[i].key(), key);
                }
            }
        }
        if let Some(before) = self.main.remove(&inode) {
            self.alt.remove(&before.alt_key().code());
        }
        let ghost m2 = self.main@;
        let ghost a2 = self.alt@;
        assert(forall|i: u64| #[trigger] m2.contains_key(i) ==> i != inode && a2.contains_key(
            m2[i].key().spec_code(),
        ) && a2[m2[i].key().spec_code()] == i) by {
            assert forall|i: u64| #[trigger] m2.contains_key(i) implies i != inode
                && a2.contains_key(m2[i].key().spec_code()) && a2[m2[i].key().spec_code()] == i by {
                assert(m1.contains_key(i));
                assert(old(self).main@.contains_key(i));
            }
        }
        assert(forall|c: u128| #[trigger] a2.contains_key(c) ==> m2.contains_key(a2[c])
            && m2[a2[c]].key().spec_code() == c && c != code) by {
            assert forall|c: u128| #[trigger] a2.contains_key(c) implies m2.contains_key(a2[c])
                && m2[a2[c]].key().spec_code() == c && c != code by {
                assert(a1.contains_key(c));
                assert(old(self).alt@.contains_key(c));
            }
        }
        self.main.insert(inode, data);
        self.alt.insert(code, inode);
        assert(self.wf());
    }

    pub fn remove(&mut self, inode: u64)
        requires
            old(self).wf(),
        ensures
            final(self).wf(),
            final(self)@ == old(self)@.remove(inode),
    {
        match self.main.remove(&inode) {
            Some(data) => {
                self.alt.remove(&data.alt_key().code());
                proof {
                    let m0 = old(self).main@;
                    let a0 = old(self).alt@;
                    assert forall|i: u64| #[trigger] self.main@.contains_key(i) implies (
                    self.alt@.contains_key(self.main@[i].key().spec_code())
                        && self.alt@[self.main@[i].key().spec_code()] == i) by {
                        assert(m0.contains_key(i));
                        assert(a0[m0[i].key().spec_code()] == i);
                        assert(m0.contains_key(inode));
                    }
                    assert forall|c: u128| #[trigger] self.alt@.contains_key(c) implies (
                    self.main@.contains_key(self.alt@[c])
                        && self.main@[self.alt@[c]].key().spec_code() == c) by {
                        assert(a0.contains_key(c));
                    }
                }
            },
            None => {
                assert(self.main@ =~= old(self).main@);
            },
        }
    }

    pub fn clear(&mut self)
        ensures
            final(self).wf(),
            final(self)@ == Map::<u64, InodeData>::empty(),
    {
        self.main.clear();
        self.alt.clear();
    }

    /// Adds a reference to the file with the given identity, which is found at `path` in
    /// the directory `parent`, and tells its inode number.
    pub fn add_reference(
        &mut self,
        key: InodeAltKey,
        parent: u64,
        path: &str,
        inode_alloc: &mut InodeAllocator,
    ) -> (inode: u64)
        requires
            old(self).wf(),
        ensures
            final(self).wf(),
            referenced(
                old(self)@,
                final(self)@,
                key,
                parent,
                path@,
                old(inode_alloc).next_inode,
                inode,
            ),
            final(inode_alloc).next_inode == if has_key(old(self)@, key) {
                old(inode_alloc).next_inode
            } else {
                following(old(inode_alloc).next_inode)
            },
    {
        match self.get_alt(key) {
            Some(inode) => {
                let ghost m0 = self@;
                let mut data = self.main.remove(&inode).unwrap();
                let ghost d0 = data;
                data.refcount = count_up(data.refcount);
                let ghost d1 = data;
                data.update_path_if_changed(path);
                let ghost d2 = data;
                assert(d2.key() == key);
                self.main.insert(inode, data);
                assert(self@ =~= m0.insert(inode, d2));
                proof {
                    assert forall|c: u128| #[trigger] self.alt@.contains_key(c) implies (
                    self.main@.contains_key(self.alt@[c])
                        && self.main@[self.alt@[c]].key().spec_code() == c) by {
                        assert(m0.contains_key(self.alt@[c]));
                    }
                    assert(m0.contains_key(inode) && m0[inode].key() == key);
                    assert(d1 == (InodeData { refcount: following(d0.refcount), ..d0 }));
                }
                inode
            },
            None => {
                let inode: u64 = inode_alloc.next();
                let data = InodeData::new(inode, parent, key, path, 1);
                self.insert(data);
                assert(self@.contains_key(inode));
                inode
            },
        }
    }
}

/// Forgets references of the guest to a file.
pub fn forget_one(inodes: &mut InodeTable, inode: u64, count: u64)
    requires
        old(inodes).wf(),
    ensures
        final(inodes).wf(),
        final(inodes)@ == forgotten(old(inodes)@, inode, count),
{
    let refcount: u64 = match inodes.get(inode) {
        Some(data) => data.refcount,
        None => {
            return;
        },
    };
    if refcount <= count {
        inodes.remove(inode);
    } else {
        let ghost m0 = inodes@;
        let mut data = inodes.main.remove(&inode).unwrap();
        data.refcount = refcount - count;
        let ghost d = data;
        inodes.main.insert(inode, data);
        assert(inodes@ =~= m0.insert(inode, d));
        proof {
            assert forall|c: u128| #[trigger] inodes.alt@.contains_key(c) implies (
            inodes.main@.contains_key(inodes.alt@[c])
                && inodes.main@[inodes.alt@[c]].key().spec_code() == c) by {
                assert(m0.contains_key(inodes.alt@[c]));
            }
        }
    }
}

/// Forgetting touches no other file.
pub proof fn law_forget_touches_one(m: Map<u64, InodeData>, inode: u64, count: u64, other: u64)
    requires
        other != inode,
    ensures
        forgotten(m, inode, count).contains_key(other) == m.contains_key(other),
        m.contains_key(other) ==> forgotten(m, inode, count)[other] == m[other],
{
}

/// Forgetting in two parts is forgetting at once.
pub proof fn law_forget_adds_up(m: Map<u64, InodeData>, inode: u64, a: u64, b: u64)
    requires
        a + b <= u64::MAX,
    ensures
        forgotten(forgotten(m, inode, a), inode, b) == forgotten(m, inode, (a + b) as u64),
{
    assert(forgotten(forgotten(m, inode, a), inode, b) =~= forgotten(m, inode, (a + b) as u64));
}

/// A known file stays known under its number, with one reference more, and every other
/// file stays as it is.
pub proof fn law_reference_to_known_file(
    before: Map<u64, InodeData>,
    after: Map<u64, InodeData>,
    known: u64,
    parent: u64,
    path: Seq<char>,
    fresh: u64,
    inode: u64,
)
    requires
        is_table(before),
        before.contains_key(known),
        referenced(before, after, before[known].key(), parent, path, fresh, inode),
    ensures
        inode == known,
        after.contains_key(known),
        after[known].refcount == following(before[known].refcount),
        after[known].parent_inode == before[known].parent_inode,
        forall|i: u64| #[trigger]
            before.contains_key(i) && i != known ==> after.contains_key(i) && after[i] == before[i],
{
    assert(before.contains_key(known) && before[known].key() == before[known].key());
}

/// A file that enters the table and is forgotten once is gone, and the table is as it
/// was, if the number it got was free.
pub proof fn law_reference_then_forget(
    before: Map<u64, InodeData>,
    after: Map<u64, InodeData>,
    key: InodeAltKey,
    parent: u64,
    path: Seq<char>,
    fresh: u64,
    inode: u64,
)
    requires
        is_table(before),
        !has_key(before, key),
        !before.contains_key(fresh),
        referenced(before, after, key, parent, path, fresh, inode),
    ensures
        forgotten(after, inode, 1) == before,
{
    assert(after.contains_key(inode));
    assert(forgotten(after, inode, 1) =~= before);
}

/// A reference that is added to a known file and forgotten again leaves every count as
/// it was.
pub proof fn law_reference_then_forget_keeps_counts(
    before: Map<u64, InodeData>,
    after: Map<u64, InodeData>,
    known: u64,
    parent: u64,
    path: Seq<char>,
    fresh: u64,
    inode: u64,
)
    requires
        is_table(before),
        before.contains_key(known),
        0 < before[known].refcount < u64::MAX,
        referenced(before, after, before[known].key(), parent, path, fresh, inode),
    ensures
        forall|i: u64| #[trigger]
            forgotten(after, inode, 1).contains_key(i) <==> before.contains_key(i),
        forall|i: u64| #[trigger]
            before.contains_key(i) ==> forgotten(after, inode, 1)[i].refcount == before[i].refcount,
{
    law_reference_to_known_file(before, after, known, parent, path, fresh, inode);
}

} // verus!
