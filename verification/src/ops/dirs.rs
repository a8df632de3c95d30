//! Reading directories.

use crate::dir::{dot_entries, entries_from, is_dots, law_no_dots_from_records};
use crate::dir::{read_dir_buffer, start_listing, views};
use crate::dir::{CachedDirEntry, EntryView};
use crate::errno::{EBADF, FsError};
use crate::fs::{dir_options, Entry, PassthroughFs};
use crate::host::{done_reply, one, Action, Flow, Reply, Resource};
use crate::nt::{open_by_id, open_handle, OpenFlags};
use crate::operation::{are_undisturbed, lemma_fewer_steps, Operation, Step};
use crate::ops::session::{next_dir_handle, Opendir, OpendirPhase};
use crate::text::{copy_bytes, has_byte};
use crate::win::{FILE_DIRECTORY_FILE, FILE_OPEN, FILE_SYNCHRONOUS_IO_NONALERT, GENERIC_READ};
use vstd::pervasive::unreached;
use vstd::prelude::*;

verus! {

/// How a directory is opened to look into it.
pub open spec fn dir_flags() -> OpenFlags {
    OpenFlags {
        desired_access: GENERIC_READ,
        create_disposition: FILE_OPEN,
        create_options: FILE_SYNCHRONOUS_IO_NONALERT | FILE_DIRECTORY_FILE,
    }
}

pub fn dir_open_flags() -> (r: OpenFlags)
    ensures
        r == dir_flags(),
{
    OpenFlags {
        desired_access: GENERIC_READ,
        create_disposition: FILE_OPEN,
        create_options: FILE_SYNCHRONOUS_IO_NONALERT | FILE_DIRECTORY_FILE,
    }
}

/// How far reading a directory has come.
#[derive(Clone, Copy)]
pub enum FillPhase {
    Start,
    ById,
    ByPath,
    Reading { dir: u64 },
    Closing { out: Result<(), FsError> },
    Over,
}

/// Reads a directory and keeps the listing for the handle, unless there is one.
pub struct FillDirCache {
    pub inode: u64,
    pub handle: u64,
    pub parent_inode: u64,
    pub path: String,
    pub entries: Vec<CachedDirEntry>,
    pub phase: FillPhase,
}

pub fn fill_dir_cache(inode: u64, handle: u64) -> (r: FillDirCache)
    ensures
        r.inode == inode,
        r.handle == handle,
        r.phase == FillPhase::Start,
{
    FillDirCache {
        inode,
        handle,
        parent_inode: 0,
        path: String::new(),
        entries: Vec::new(),
        phase: FillPhase::Start,
    }
}

impl FillDirCache {
    /// The directory is open; its listing starts with itself and its parent.
    pub open spec fn lists(
        self,
        dir: u64,
        next: FillDirCache,
        flow: Flow<Result<(), FsError>>,
    ) -> bool {
        &&& next == (FillDirCache { entries: next.entries, phase: next.phase, ..self })
        &&& next.phase == FillPhase::Reading { dir }
        &&& views(next.entries@) == dot_entries(self.inode, self.parent_inode)
        &&& flow.does(Action::QueryDirectory { handle: dir, restart: true })
    }

    fn list(&mut self, dir: u64) -> (flow: Flow<Result<(), FsError>>)
        ensures
            old(self).lists(dir, *final(self), flow),
    {
        self.entries = start_listing(self.inode, self.parent_inode);
        self.phase = FillPhase::Reading { dir };
        Flow::Do(Action::QueryDirectory { handle: dir, restart: true })
    }
}

impl Operation for FillDirCache {
    type Output = Result<(), FsError>;

    open spec fn expects(&self, reply: Reply) -> bool {
        match self.phase {
            FillPhase::Start => reply is Begin,
            FillPhase::ById => reply.opened(),
            FillPhase::ByPath => reply.opened(),
            FillPhase::Reading { .. } => reply.listing(),
            FillPhase::Closing { .. } => reply is Unit,
            FillPhase::Over => false,
        }
    }

    open spec fn leads_to(
        &self,
        fs: PassthroughFs,
        reply: Reply,
        next: Self,
        next_fs: PassthroughFs,
        flow: Flow<Self::Output>,
    ) -> bool {
        match self.phase {
            FillPhase::Start => {
                &&& next_fs == fs
                &&& if fs.dir_caches@.contains_key(self.handle) {
                    next.phase is Over && flow.ends(Ok(()))
                } else if !fs.knows(self.inode) {
                    next.phase is Over && flow.ends(Err(FsError::linux(EBADF)))
                } else {
                    &&& next.inode == self.inode
                    &&& next.handle == self.handle
                    &&& next.parent_inode == fs.inodes@[self.inode].parent_inode
                    &&& next.path@ == fs.path_of(self.inode)
                    &&& next.phase == FillPhase::ById
                    &&& flow.opens_id(fs.root_handle, fs.index_of(self.inode), dir_flags())
                }
            },
            FillPhase::ById => {
                &&& next_fs == fs
                &&& match reply {
                    Reply::Handle(dir) => self.lists(dir, next, flow),
                    Reply::Failed(_) => {
                        &&& next == (FillDirCache { phase: FillPhase::ByPath, ..*self })
                        &&& flow.opens_path(self.path@, dir_flags())
                    },
                    _ => false,
                }
            },
            FillPhase::ByPath => {
                &&& next_fs == fs
                &&& match reply {
                    Reply::Handle(dir) => self.lists(dir, next, flow),
                    Reply::Failed(e) => next.phase is Over && flow.ends(Err(e.once_more())),
                    _ => false,
                }
            },
            FillPhase::Reading { dir } => match reply {
                Reply::Bytes(b) => {
                    &&& next_fs == fs
                    &&& next == (FillDirCache { entries: next.entries, ..*self })
                    &&& views(next.entries@) == views(self.entries@) + entries_from(b@, 0)
                    &&& flow.does(Action::QueryDirectory { handle: dir, restart: false })
                },
                Reply::NoMore => {
                    &&& next_fs.dir_caches@ == fs.dir_caches@.insert(self.handle, self.entries)
                    &&& next_fs == (PassthroughFs { dir_caches: next_fs.dir_caches, ..fs })
                    &&& next.phase == (FillPhase::Closing { out: Ok(()) })
                    &&& flow.closes(dir)
                },
                Reply::Failed(e) => {
                    &&& next_fs == fs
                    &&& next.phase == (FillPhase::Closing { out: Err(e) })
                    &&& flow.closes(dir)
                },
                _ => false,
            },
            FillPhase::Closing { out } => {
                next_fs == fs && next.phase is Over && flow.ends(out)
            },
            FillPhase::Over => false,
        }
    }

    open spec fn holds(&self, r: Resource) -> int {
        match self.phase {
            FillPhase::Reading { dir } => one(Resource::Handle(dir), r),
            _ => 0,
        }
    }

    open spec fn hands_over(out: Self::Output, r: Resource) -> int {
        0
    }

    fn step(&mut self, fs: &mut PassthroughFs, reply: Reply) -> (flow: Flow<Self::Output>) {
        match self.phase {
            FillPhase::Start => {
                if fs.dir_caches.contains_key(&self.handle) {
                    self.phase = FillPhase::Over;
                    return Flow::Done(Ok(()));
                }
                match fs.inode_data(self.inode) {
                    Ok(data) => {
                        self.parent_inode = data.parent_inode;
                        self.path = data.get_path().clone();
                        self.phase = FillPhase::ById;
                        Flow::Do(
                            Action::Open(
                                open_by_id(fs.root_handle, data.file_index, &dir_open_flags()),
                            ),
                        )
                    },
                    Err(e) => {
                        self.phase = FillPhase::Over;
                        Flow::Done(Err(e))
                    },
                }
            },
            FillPhase::ById => match reply {
                Reply::Handle(dir) => self.list(dir),
                Reply::Failed(_) => {
                    self.phase = FillPhase::ByPath;
                    Flow::Do(Action::Open(open_handle(self.path.as_str(), &dir_open_flags())))
                },
                _ => unreached(),
            },
            FillPhase::ByPath => match reply {
                Reply::Handle(dir) => self.list(dir),
                Reply::Failed(e) => {
                    self.phase = FillPhase::Over;
                    Flow::Done(Err(e.translated()))
                },
                _ => unreached(),
            },
            FillPhase::Reading { dir } => match reply {
                Reply::Bytes(b) => {
                    read_dir_buffer(b.as_slice(), &mut self.entries);
                    Flow::Do(Action::QueryDirectory { handle: dir, restart: false })
                },
                Reply::NoMore => {
                    let mut entries: Vec<CachedDirEntry> = Vec::new();
                    std::mem::swap(&mut entries, &mut self.entries);
                    fs.dir_caches.insert(self.handle, entries);
                    self.phase = FillPhase::Closing { out: Ok(()) };
                    Flow::Do(Action::Close { handle: dir })
                },
                Reply::Failed(e) => {
                    self.phase = FillPhase::Closing { out: Err(e) };
                    Flow::Do(Action::Close { handle: dir })
                },
                _ => unreached(),
            },
            FillPhase::Closing { out } => {
                self.phase = FillPhase::Over;
                Flow::Done(out)
            },
            FillPhase::Over => unreached(),
        }
    }

    proof fn step_balances(
        &self,
        fs: PassthroughFs,
        reply: Reply,
        next: Self,
        next_fs: PassthroughFs,
        flow: Flow<Self::Output>,
        r: Resource,
    ) {
    }
}

/// Whether a listing starts with the directory itself and its parent, and holds neither
/// name a second time.
pub open spec fn lists_dots_once(
    entries: Seq<EntryView>,
    inode: u64,
    parent_inode: u64,
) -> bool {
    &&& entries.len() >= 2
    &&& entries.take(2) == dot_entries(inode, parent_inode)
    &&& forall|i: int| 2 <= i < entries.len() ==> !is_dots((#[trigger] entries[i]).name)
}

/// While a directory is read, its listing starts with the directory itself and its parent,
/// and the host's own records of the two are left out: an open directory starts so, and
/// every piece that is read keeps it so.
pub proof fn law_listing_has_dots_once(
    op: FillDirCache,
    fs: PassthroughFs,
    reply: Reply,
    next: FillDirCache,
    next_fs: PassthroughFs,
    flow: Flow<Result<(), FsError>>,
)
    requires
        op.expects(reply),
        op.leads_to(fs, reply, next, next_fs, flow),
        next.phase is Reading,
        op.phase is Reading ==> lists_dots_once(views(op.entries@), op.inode, op.parent_inode),
    ensures
        lists_dots_once(views(next.entries@), op.inode, op.parent_inode),
{
    let before = views(op.entries@);
    let after = views(next.entries@);
    match op.phase {
        FillPhase::Reading { .. } => {
            if let Reply::Bytes(b) = reply {
                law_no_dots_from_records(b@, 0);
                let new = entries_from(b@, 0);
                assert(after.take(2) =~= before.take(2));
                assert forall|i: int| 2 <= i < after.len() implies !is_dots(
                    (#[trigger] after[i]).name,
                ) by {
                    if i < before.len() {
                        assert(after[i] == before[i]);
                    } else {
                        assert(after[i] == new[i - before.len()]);
                    }
                }
            }
        },
        _ => {
            assert(after.take(2) =~= dot_entries(op.inode, op.parent_inode));
        },
    }
}

/// The entries that the host told in the steps of reading a directory, in their order.
pub open spec fn told_entries(steps: Seq<Step<FillDirCache>>) -> Seq<EntryView>
    decreases steps.len(),
{
    if steps.len() == 0 {
        seq![]
    } else {
        let before = told_entries(steps.drop_last());
        match steps.last().reply {
            Reply::Bytes(b) => before + entries_from(b@, 0),
            _ => before,
        }
    }
}

/// Where the steps of reading a directory that was not read before have come to.
spec fn has_read(steps: Seq<Step<FillDirCache>>) -> bool {
    let first = steps[0];
    let op = steps.last().after;
    let inode = first.before.inode;
    let parent_inode = first.fs_before.inodes@[inode].parent_inode;
    let told = dot_entries(inode, parent_inode) + told_entries(steps);
    match op.phase {
        FillPhase::Start => false,
        FillPhase::ById | FillPhase::ByPath => {
            &&& op.inode == inode
            &&& op.handle == first.before.handle
            &&& op.parent_inode == parent_inode
            &&& told_entries(steps) == Seq::<EntryView>::empty()
        },
        FillPhase::Reading { .. } => {
            &&& op.inode == inode
            &&& op.handle == first.before.handle
            &&& op.parent_inode == parent_inode
            &&& views(op.entries@) == told
        },
        FillPhase::Closing { out: Ok(_) } => {
            &&& steps.last().fs_after.dir_caches@.contains_key(first.before.handle)
            &&& listing_of(steps.last().fs_after, first.before.handle) == told
        },
        FillPhase::Closing { out: Err(_) } => true,
        FillPhase::Over => steps.last().flow == Flow::<Result<(), FsError>>::Done(Ok(())) ==> {
            &&& steps.last().fs_after.dir_caches@.contains_key(first.before.handle)
            &&& listing_of(steps.last().fs_after, first.before.handle) == told
        },
    }
}

proof fn lemma_has_read(steps: Seq<Step<FillDirCache>>)
    requires
        steps.len() > 0,
        are_undisturbed(steps),
        steps[0].before.phase == FillPhase::Start,
        !steps[0].fs_before.dir_caches@.contains_key(steps[0].before.handle),
    ensures
        has_read(steps),
    decreases steps.len(),
{
    lemma_fewer_steps(steps);
    let init = steps.drop_last();
    let s = steps.last();
    if init.len() == 0 {
        assert(told_entries(init) == Seq::<EntryView>::empty());
    } else {
        lemma_has_read(init);
        let op = s.before;
        let inode = steps[0].before.inode;
        let dots = dot_entries(inode, steps[0].fs_before.inodes@[inode].parent_inode);
        match op.phase {
            FillPhase::Reading { .. } => {
                if let Reply::Bytes(b) = s.reply {
                    assert((dots + told_entries(init)) + entries_from(b@, 0) =~= dots + (
                    told_entries(init) + entries_from(b@, 0)));
                }
            },
            _ => {
                assert(dots + told_entries(init) =~= dots + told_entries(steps));
                assert(dots + Seq::<EntryView>::empty() =~= dots);
            },
        }
    }
}

/// A directory that was read is listed in full: the listing that is kept for the handle
/// holds the directory itself and its parent, and behind them every entry that the host told,
/// in its order. It is kept when the operation ends.
pub proof fn law_listing_is_complete(steps: Seq<Step<FillDirCache>>)
    requires
        steps.len() > 0,
        are_undisturbed(steps),
        steps[0].before.phase == FillPhase::Start,
        !steps[0].fs_before.dir_caches@.contains_key(steps[0].before.handle),
        steps.last().flow == Flow::<Result<(), FsError>>::Done(Ok(())),
    ensures
        ({
            let first = steps[0];
            let inode = first.before.inode;
            let parent_inode = first.fs_before.inodes@[inode].parent_inode;
            let fs = steps.last().fs_after;
            &&& fs.dir_caches@.contains_key(first.before.handle)
            &&& listing_of(fs, first.before.handle) == dot_entries(inode, parent_inode)
                + told_entries(steps)
            &&& lists_dots_once(listing_of(fs, first.before.handle), inode, parent_inode)
        }),
{
    lemma_has_read(steps);
    lemma_fewer_steps(steps);
    lemma_told_no_dots(steps);
    let first = steps[0];
    let inode = first.before.inode;
    let dots = dot_entries(inode, first.fs_before.inodes@[inode].parent_inode);
    let told = told_entries(steps);
    let all = dots + told;
    assert(all.take(2) =~= dots);
    assert forall|i: int| 2 <= i < all.len() implies !is_dots((#[trigger] all[i]).name) by {
        assert(all[i] == told[i - 2]);
    }
}

proof fn lemma_told_no_dots(steps: Seq<Step<FillDirCache>>)
    ensures
        forall|i: int|
            0 <= i < told_entries(steps).len() ==> !is_dots(
                (#[trigger] told_entries(steps)[i]).name,
            ),
    decreases steps.len(),
{
    if steps.len() > 0 {
        let init = steps.drop_last();
        lemma_told_no_dots(init);
        let before = told_entries(init);
        let all = told_entries(steps);
        if let Reply::Bytes(b) = steps.last().reply {
            law_no_dots_from_records(b@, 0);
            let new = entries_from(b@, 0);
            assert forall|i: int| 0 <= i < all.len() implies !is_dots(
                (#[trigger] all[i]).name,
            ) by {
                if i < before.len() {
                    assert(all[i] == before[i]);
                } else {
                    assert(all[i] == new[i - before.len()]);
                }
            }
        }
    }
}

/// The listing that is kept for a handle.
pub open spec fn listing_of(fs: PassthroughFs, handle: u64) -> Seq<EntryView> {
    views(fs.dir_caches@[handle]@)
}

/// How far handing entries to the guest has come.
#[derive(Clone, Copy)]
pub enum ReaddirPhase {
    Start,
    Filling,
    Adding { index: u64 },
    Over,
}

/// Hands the entries of a directory to the guest, from an offset on, until the guest has
/// no more room. The offset of an entry is that of the one behind it.
pub struct Readdir {
    pub inode: u64,
    pub handle: u64,
    pub offset: u64,
    pub phase: ReaddirPhase,
}

pub fn readdir(inode: u64, handle: u64, offset: u64) -> (r: Readdir)
    ensures
        r == (Readdir { inode, handle, offset, phase: ReaddirPhase::Start }),
{
    Readdir { inode, handle, offset, phase: ReaddirPhase::Start }
}

impl Readdir {
    /// The entry at `index` is handed over, if there is one.
    pub open spec fn hands(
        self,
        fs: PassthroughFs,
        index: int,
        phase: ReaddirPhase,
        flow: Flow<Result<(), FsError>>,
    ) -> bool {
        if !fs.dir_caches@.contains_key(self.handle) {
            phase is Over && flow.ends(Err(FsError::linux(EBADF)))
        } else if index >= listing_of(fs, self.handle).len() {
            phase is Over && flow.ends(Ok(()))
        } else {
            let entry = listing_of(fs, self.handle)[index];
            &&& phase matches ReaddirPhase::Adding { index: i }
            &&& i == index
            &&& flow matches Flow::Do(Action::AddEntry { ino, offset, type_, name })
            &&& ino == entry.ino
            &&& offset == index + 1
            &&& type_ == entry.type_
            &&& name@ == entry.name
        }
    }

    fn hand(&mut self, fs: &PassthroughFs, index: u64) -> (flow: Flow<Result<(), FsError>>)
        ensures
            old(self).hands(*fs, index as int, final(self).phase, flow),
            *final(self) == (Readdir { phase: final(self).phase, ..*old(self) }),
            flow matches Flow::Do(a) ==> a is AddEntry && final(self).phase is Adding,
    {
        let entries = match fs.dir_caches.get(&self.handle) {
            Some(entries) => entries,
            None => {
                self.phase = ReaddirPhase::Over;
                return Flow::Done(Err(FsError::errno(EBADF)));
            },
        };
        if index >= entries.len() as u64 {
            self.phase = ReaddirPhase::Over;
            return Flow::Done(Ok(()));
        }
        let entry = &entries[index as usize];
        assert(entry@ == listing_of(*fs, self.handle)[index as int]);
        self.phase = ReaddirPhase::Adding { index };
        Flow::Do(
            Action::AddEntry {
                ino: entry.ino,
                offset: index + 1,
                type_: entry.type_,
                name: copy_bytes(entry.name.as_slice()),
            },
        )
    }
}

impl Operation for Readdir {
    type Output = Result<(), FsError>;

    open spec fn expects(&self, reply: Reply) -> bool {
        match self.phase {
            ReaddirPhase::Start => reply is Begin,
            ReaddirPhase::Filling => reply.done(),
            ReaddirPhase::Adding { index } => index < u64::MAX && reply.number(),
            ReaddirPhase::Over => false,
        }
    }

    open spec fn leads_to(
        &self,
        fs: PassthroughFs,
        reply: Reply,
        next: Self,
        next_fs: PassthroughFs,
        flow: Flow<Self::Output>,
    ) -> bool {
        &&& next_fs == fs
        &&& next == (Readdir { phase: next.phase, ..*self })
        &&& match self.phase {
            ReaddirPhase::Start => {
                &&& next.phase == ReaddirPhase::Filling
                &&& flow.does(Action::FillDirCache { inode: self.inode, handle: self.handle })
            },
            ReaddirPhase::Filling => match reply {
                Reply::Unit => self.hands(fs, self.offset as int, next.phase, flow),
                Reply::Failed(e) => next.phase is Over && flow.ends(Err(e)),
                _ => false,
            },
            ReaddirPhase::Adding { index } => match reply {
                Reply::Number(size) => if size == 0 {
                    next.phase is Over && flow.ends(Ok(()))
                } else {
                    self.hands(fs, index + 1, next.phase, flow)
                },
                Reply::Failed(_) => next.phase is Over && flow.ends(Ok(())),
                _ => false,
            },
            ReaddirPhase::Over => false,
        }
    }

    open spec fn holds(&self, r: Resource) -> int {
        0
    }

    open spec fn hands_over(out: Self::Output, r: Resource) -> int {
        0
    }

    fn step(&mut self, fs: &mut PassthroughFs, reply: Reply) -> (flow: Flow<Self::Output>) {
        match self.phase {
            ReaddirPhase::Start => {
                self.phase = ReaddirPhase::Filling;
                Flow::Do(Action::FillDirCache { inode: self.inode, handle: self.handle })
            },
            ReaddirPhase::Filling => match reply {
                Reply::Unit => {
                    let offset: u64 = self.offset;
                    self.hand(fs, offset)
                },
                Reply::Failed(e) => {
                    self.phase = ReaddirPhase::Over;
                    Flow::Done(Err(e))
                },
                _ => unreached(),
            },
            ReaddirPhase::Adding { index } => match reply {
                Reply::Number(size) => {
                    if size == 0 {
                        self.phase = ReaddirPhase::Over;
                        return Flow::Done(Ok(()));
                    }
                    self.hand(fs, index + 1)
                },
                Reply::Failed(_) => {
                    self.phase = ReaddirPhase::Over;
                    Flow::Done(Ok(()))
                },
                _ => unreached(),
            },
            ReaddirPhase::Over => unreached(),
        }
    }

    proof fn step_balances(
        &self,
        fs: PassthroughFs,
        reply: Reply,
        next: Self,
        next_fs: PassthroughFs,
        flow: Flow<Self::Output>,
        r: Resource,
    ) {
    }
}

/// Reading on from the offset of an entry starts with the entry behind it.
pub proof fn law_readdir_resumes(
    op: Readdir,
    fs: PassthroughFs,
    index: int,
    phase: ReaddirPhase,
    flow: Flow<Result<(), FsError>>,
    resumed: Readdir,
    next: Readdir,
    next_flow: Flow<Result<(), FsError>>,
)
    requires
        0 <= index,
        op.hands(fs, index, phase, flow),
        flow matches Flow::Do(Action::AddEntry { offset, .. }) && resumed.offset == offset,
        resumed.handle == op.handle,
        resumed.phase == ReaddirPhase::Filling,
        resumed.leads_to(fs, Reply::Unit, next, fs, next_flow),
    ensures
        op.hands(fs, index + 1, next.phase, next_flow),
{
}

/// The first entry from `i` on whose name can be looked up, that is holds no zero; the
/// number of entries if there is none.
pub open spec fn next_named(entries: Seq<EntryView>, i: int) -> int
    decreases entries.len() - i,
{
    if i >= entries.len() {
        entries.len() as int
    } else if !entries[i].name.contains(0) {
        i
    } else {
        next_named(entries, i + 1)
    }
}

/// How far handing entries and what they name to the guest has come.
#[derive(Clone, Copy)]
pub enum ReaddirPlusPhase {
    Start,
    Filling,
    Looking { index: u64 },
    Adding { index: u64 },
    Over,
}

/// Hands the entries of a directory to the guest, each with what it names, from an offset
/// on, until the guest has no more room. An entry that cannot be looked up is left out.
pub struct ReaddirPlus {
    pub inode: u64,
    pub handle: u64,
    pub offset: u64,
    pub phase: ReaddirPlusPhase,
}

pub fn readdirplus(inode: u64, handle: u64, offset: u64) -> (r: ReaddirPlus)
    ensures
        r == (ReaddirPlus { inode, handle, offset, phase: ReaddirPlusPhase::Start }),
{
    ReaddirPlus { inode, handle, offset, phase: ReaddirPlusPhase::Start }
}

impl ReaddirPlus {
    /// The next entry from `index` on that can be looked up is looked up.
    pub open spec fn looks(
        self,
        fs: PassthroughFs,
        index: int,
        phase: ReaddirPlusPhase,
        flow: Flow<Result<(), FsError>>,
    ) -> bool {
        if !fs.dir_caches@.contains_key(self.handle) {
            phase is Over && flow.ends(Err(FsError::linux(EBADF)))
        } else {
            let entries = listing_of(fs, self.handle);
            let at = next_named(entries, index);
            if at >= entries.len() {
                phase is Over && flow.ends(Ok(()))
            } else {
                &&& phase matches ReaddirPlusPhase::Looking { index: i }
                &&& i == at
                &&& flow matches Flow::Do(Action::Lookup { parent, name })
                &&& parent == self.inode
                &&& name@ == entries[at].name
            }
        }
    }

    /// The entry at `index` is handed over.
    pub open spec fn hands(
        self,
        fs: PassthroughFs,
        index: u64,
        entry: Entry,
        phase: ReaddirPlusPhase,
        flow: Flow<Result<(), FsError>>,
    ) -> bool {
        if fs.dir_caches@.contains_key(self.handle) && index < listing_of(fs, self.handle).len() {
            let e = listing_of(fs, self.handle)[index as int];
            &&& phase == ReaddirPlusPhase::Adding { index }
            &&& flow matches Flow::Do(
                Action::AddEntryPlus { ino, offset, type_, name, entry: handed },
            )
            &&& ino == entry.inode
            &&& offset == index + 1
            &&& type_ == e.type_
            &&& name@ == e.name
            &&& handed == entry
        } else {
            phase is Over && flow.ends(Err(FsError::linux(EBADF)))
        }
    }

    fn look(&mut self, fs: &PassthroughFs, index: u64) -> (flow: Flow<Result<(), FsError>>)
        ensures
            old(self).looks(*fs, index as int, final(self).phase, flow),
            *final(self) == (ReaddirPlus { phase: final(self).phase, ..*old(self) }),
            flow matches Flow::Do(a) ==> a is Lookup,
            final(self).phase matches ReaddirPlusPhase::Looking { index: i } ==> i < u64::MAX,
    {
        let entries = match fs.dir_caches.get(&self.handle) {
            Some(entries) => entries,
            None => {
                self.phase = ReaddirPlusPhase::Over;
                return Flow::Done(Err(FsError::errno(EBADF)));
            },
        };
        let ghost listing = listing_of(*fs, self.handle);
        let n: u64 = entries.len() as u64;
        let mut i: u64 = index;
        while i < n
            invariant
                entries@ == fs.dir_caches@[self.handle]@,
                fs.dir_caches@.contains_key(self.handle),
                listing == listing_of(*fs, self.handle),
                n == entries.len(),
                self.handle == old(self).handle,
                self.inode == old(self).inode,
                *self == *old(self),
                next_named(listing, index as int) == next_named(listing, i as int),
            decreases n - i,
        {
            let entry = &entries[i as usize];
            assert(entry@ == listing[i as int]);
            if !has_byte(entry.name.as_slice(), 0) {
                self.phase = ReaddirPlusPhase::Looking { index: i };
                return Flow::Do(
                    Action::Lookup {
                        parent: self.inode,
                        name: copy_bytes(entry.name.as_slice()),
                    },
                );
            }
            i = i + 1;
        }
        self.phase = ReaddirPlusPhase::Over;
        Flow::Done(Ok(()))
    }

    fn hand(&mut self, fs: &PassthroughFs, index: u64, entry: Entry) -> (flow: Flow<
        Result<(), FsError>,
    >)
        requires
            index < u64::MAX,
        ensures
            old(self).hands(*fs, index, entry, final(self).phase, flow),
            *final(self) == (ReaddirPlus { phase: final(self).phase, ..*old(self) }),
            flow matches Flow::Do(a) ==> a is AddEntryPlus,
    {
        if let Some(entries) = fs.dir_caches.get(&self.handle) {
            if index < entries.len() as u64 {
                let e = &entries[index as usize];
                assert(e@ == listing_of(*fs, self.handle)[index as int]);
                self.phase = ReaddirPlusPhase::Adding { index };
                return Flow::Do(
                    Action::AddEntryPlus {
                        ino: entry.inode,
                        offset: index + 1,
                        type_: e.type_,
                        name: copy_bytes(e.name.as_slice()),
                        entry,
                    },
                );
            }
        }
        self.phase = ReaddirPlusPhase::Over;
        Flow::Done(Err(FsError::errno(EBADF)))
    }
}

impl Operation for ReaddirPlus {
    type Output = Result<(), FsError>;

    open spec fn expects(&self, reply: Reply) -> bool {
        match self.phase {
            ReaddirPlusPhase::Start => reply is Begin,
            ReaddirPlusPhase::Filling => reply.done(),
            ReaddirPlusPhase::Looking { index } => {
                index < u64::MAX && (reply is Entry || reply is Failed)
            },
            ReaddirPlusPhase::Adding { index } => index < u64::MAX && reply.number(),
            ReaddirPlusPhase::Over => false,
        }
    }

    open spec fn leads_to(
        &self,
        fs: PassthroughFs,
        reply: Reply,
        next: Self,
        next_fs: PassthroughFs,
        flow: Flow<Self::Output>,
    ) -> bool {
        &&& next_fs == fs
        &&& next == (ReaddirPlus { phase: next.phase, ..*self })
        &&& match self.phase {
            ReaddirPlusPhase::Start => {
                &&& next.phase == ReaddirPlusPhase::Filling
                &&& flow.does(Action::FillDirCache { inode: self.inode, handle: self.handle })
            },
            ReaddirPlusPhase::Filling => match reply {
                Reply::Unit => self.looks(fs, self.offset as int, next.phase, flow),
                Reply::Failed(e) => next.phase is Over && flow.ends(Err(e)),
                _ => false,
            },
            ReaddirPlusPhase::Looking { index } => match reply {
                Reply::Entry(entry) => self.hands(fs, index, entry, next.phase, flow),
                Reply::Failed(_) => self.looks(fs, index + 1, next.phase, flow),
                _ => false,
            },
            ReaddirPlusPhase::Adding { index } => match reply {
                Reply::Number(written) => if written == 0 {
                    next.phase is Over && flow.ends(Ok(()))
                } else {
                    self.looks(fs, index + 1, next.phase, flow)
                },
                Reply::Failed(e) => next.phase is Over && flow.ends(Err(e)),
                _ => false,
            },
            ReaddirPlusPhase::Over => false,
        }
    }

    open spec fn holds(&self, r: Resource) -> int {
        0
    }

    open spec fn hands_over(out: Self::Output, r: Resource) -> int {
        0
    }

    fn step(&mut self, fs: &mut PassthroughFs, reply: Reply) -> (flow: Flow<Self::Output>) {
        match self.phase {
            ReaddirPlusPhase::Start => {
                self.phase = ReaddirPlusPhase::Filling;
                Flow::Do(Action::FillDirCache { inode: self.inode, handle: self.handle })
            },
            ReaddirPlusPhase::Filling => match reply {
                Reply::Unit => {
                    let offset: u64 = self.offset;
                    self.look(fs, offset)
                },
                Reply::Failed(e) => {
                    self.phase = ReaddirPlusPhase::Over;
                    Flow::Done(Err(e))
                },
                _ => unreached(),
            },
            ReaddirPlusPhase::Looking { index } => match reply {
                Reply::Entry(entry) => self.hand(fs, index, entry),
                Reply::Failed(_) => self.look(fs, index + 1),
                _ => unreached(),
            },
            ReaddirPlusPhase::Adding { index } => match reply {
                Reply::Number(written) => {
                    if written == 0 {
                        self.phase = ReaddirPlusPhase::Over;
                        return Flow::Done(Ok(()));
                    }
                    self.look(fs, index + 1)
                },
                Reply::Failed(e) => {
                    self.phase = ReaddirPlusPhase::Over;
                    Flow::Done(Err(e))
                },
                _ => unreached(),
            },
            ReaddirPlusPhase::Over => unreached(),
        }
    }

    proof fn step_balances(
        &self,
        fs: PassthroughFs,
        reply: Reply,
        next: Self,
        next_fs: PassthroughFs,
        flow: Flow<Self::Output>,
        r: Resource,
    ) {
    }
}

/// A directory that was opened has its whole listing under its handle: opening works only
/// once the directory was read, and then the listing is there.
pub proof fn law_opendir_has_the_listing(
    op: Opendir,
    fs: PassthroughFs,
    reply: Reply,
    next: Opendir,
    next_fs: PassthroughFs,
    flow: Flow<Result<(Option<u64>, u32), FsError>>,
    reading: Seq<Step<FillDirCache>>,
    out: Result<(), FsError>,
    last: Opendir,
    last_flow: Flow<Result<(Option<u64>, u32), FsError>>,
)
    requires
        op.phase == OpendirPhase::Start,
        op.leads_to(fs, reply, next, next_fs, flow),
        // The directory is read as asked for.
        reading.len() > 0,
        are_undisturbed(reading),
        reading[0].fs_before == next_fs,
        reading[0].before.phase == FillPhase::Start,
        flow == Flow::<Result<(Option<u64>, u32), FsError>>::Do(
            Action::FillDirCache {
                inode: reading[0].before.inode,
                handle: reading[0].before.handle,
            },
        ),
        !fs.dir_caches@.contains_key(next_dir_handle(fs)),
        reading.last().flow == Flow::Done(out),
        next.leads_to(
            reading.last().fs_after,
            done_reply(out),
            last,
            reading.last().fs_after,
            last_flow,
        ),
    ensures
        ({
            let handle = next_dir_handle(fs);
            let after = reading.last().fs_after;
            match out {
                Ok(_) => {
                    &&& last_flow.ends(Ok((Some(handle), dir_options(fs.cfg.cache_policy))))
                    &&& after.dir_caches@.contains_key(handle)
                    &&& listing_of(after, handle) == dot_entries(
                        op.inode,
                        fs.inodes@[op.inode].parent_inode,
                    ) + told_entries(reading)
                },
                Err(e) => last_flow.ends(Err(e)),
            }
        }),
{
    if let Ok(u) = out {
        assert(u == ());
        law_listing_is_complete(reading);
    }
}

} // verus!
