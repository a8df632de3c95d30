//! Runs that read directories.

use crate::dir::{entries_from, views, CachedDirEntry, EntryView};
use crate::errno::{EBADF, FsError};
use crate::fs::PassthroughFs;
use crate::host::{Action, Reply};
use crate::laws::nodes::looking;
use crate::linux::DT_DIR;
use crate::laws::run::{answer, asked, host_error, is_run, lemma_step, lemma_steps, linux_error};
use crate::nt::{opens_id, opens_path};
use crate::operation::Step;
use crate::ops::dirs::{fill_dir_cache, next_named, readdir, readdirplus};
use crate::ops::dirs::{FillDirCache, FillPhase, Readdir, ReaddirPhase, ReaddirPlus};
use crate::ops::dirs::{listing_of, ReaddirPlusPhase};
use vstd::prelude::*;

verus! {

/// Whether a directory that is not listed yet is opened with the first action, or with the
/// second, because the host cannot open it by its index.
pub open spec fn opened_at(steps: Seq<Step<FillDirCache>>) -> int {
    if answer(steps, 0) is Handle {
        0
    } else {
        1
    }
}

/// The entries that the host told in the first answers of a run, in their order.
pub open spec fn told_first(steps: Seq<Step<FillDirCache>>, n: int) -> Seq<EntryView>
    decreases n,
{
    if n <= 0 {
        Seq::empty()
    } else {
        match steps[n - 1].reply {
            Reply::Bytes(b) => told_first(steps, n - 1) + entries_from(b@, 0),
            _ => told_first(steps, n - 1),
        }
    }
}

spec fn reading(steps: Seq<Step<FillDirCache>>, i: int, inode: u64, handle: u64) -> bool {
    let op = steps[i].before;
    let s = opened_at(steps);
    let dir = answer(steps, s)->Handle_0;
    &&& op.handle == handle
    &&& op.inode == inode
    &&& i == 1 ==> op.phase is ById && op.path@ == steps[0].fs_before.inodes@[inode].path@
    &&& i == s + 1 ==> op.phase is ById || op.phase is ByPath
    &&& i > s + 1 ==> {
        &&& op.phase matches FillPhase::Reading { dir: d } && d == dir
        &&& asked(steps, i - 1) == Some(
            Action::QueryDirectory { handle: dir, restart: i == s + 2 },
        )
    }
}

proof fn lemma_reading(
    steps: Seq<Step<FillDirCache>>,
    inode: u64,
    handle: u64,
    out: Result<(), FsError>,
    i: int,
)
    requires
        call_ensures(fill_dir_cache, (inode, handle), steps[0].before),
        is_run(steps, out),
        !steps[0].fs_before.dir_caches@.contains_key(handle),
        steps[0].fs_before.inodes@.contains_key(inode),
        steps.len() > 1,
        steps.len() > opened_at(steps) + 1,
        answer(steps, opened_at(steps)) is Handle,
        0 < i < steps.len() - 1,
    ensures
        reading(steps, i, inode, handle),
        i > opened_at(steps) + 1 && i < steps.len() - 2 ==> answer(steps, i - 1) is Bytes,
    decreases i,
{
    lemma_steps(steps);
    lemma_step(steps, i);
    if i > 1 {
        lemma_reading(steps, inode, handle, out, i - 1);
        lemma_step(steps, i - 1);
    }
    lemma_step(steps, i + 1);
    if i + 2 < steps.len() {
        lemma_step(steps, i + 2);
    }
}

/// A directory that is not listed yet is read: the directory that the guest names is opened, by its
/// index or else by its path, it is read from its start, piece by piece, until there is no more,
/// and it is closed. The listing is kept under the handle that the guest has, and nothing else
/// changes. A directory that is listed is not read again.
pub proof fn law_directory_is_read(
    steps: Seq<Step<FillDirCache>>,
    inode: u64,
    handle: u64,
    out: Result<(), FsError>,
)
    requires
        call_ensures(fill_dir_cache, (inode, handle), steps[0].before),
        is_run(steps, out),
    ensures
        ({
            let fs = steps[0].fs_before;
            let last = steps.len() - 1;
            if fs.dir_caches@.contains_key(handle) {
                steps.len() == 1 && out == Ok::<(), FsError>(()) && steps[0].fs_after == fs
            } else if !fs.inodes@.contains_key(inode) {
                &&& steps.len() == 1
                &&& out == Err::<(), FsError>(linux_error(EBADF))
                &&& steps[0].fs_after == fs
            } else {
                &&& asked(steps, 0) matches Some(Action::Open(r))
                &&& opens_id(r, fs.root_handle, fs.inodes@[inode].file_index, looking())
                &&& opened_at(steps) == 1 ==> (asked(steps, 1) matches Some(Action::Open(s))
                    && opens_path(s, fs.inodes@[inode].path@, looking()))
                &&& match answer(steps, opened_at(steps)) {
                    Reply::Failed(e) => {
                        steps.len() == 3 && out == Err::<(), FsError>(host_error(e))
                    },
                    Reply::Handle(dir) => {
                        let s = opened_at(steps);
                        &&& last >= s + 3
                        &&& forall|i: int|
                            s < i < last - 1 ==> #[trigger] asked(steps, i) == Some(
                                Action::QueryDirectory { handle: dir, restart: i == s + 1 },
                            )
                        &&& forall|i: int|
                            s < i < last - 2 ==> #[trigger] answer(steps, i) is Bytes
                        &&& asked(steps, last - 1) == Some(Action::Close { handle: dir })
                        &&& match answer(steps, last - 2) {
                            Reply::NoMore => out == Ok::<(), FsError>(()),
                            Reply::Failed(e) => out == Err::<(), FsError>(e),
                            _ => false,
                        }
                        &&& forall|i: int|
                            0 <= i <= last ==> {
                                let s = #[trigger] steps[i];
                                &&& s.fs_after == (PassthroughFs {
                                    dir_caches: s.fs_after.dir_caches,
                                    ..s.fs_before
                                })
                                &&& i == last - 1 && s.reply == Reply::NoMore
                                    ==> s.fs_after.dir_caches@.remove(handle)
                                    == s.fs_before.dir_caches@.remove(handle)
                                    && s.fs_after.dir_caches@.contains_key(handle)
                                &&& i != last - 1 || s.reply is Failed ==> s.fs_after
                                    == s.fs_before
                            }
                    },
                    _ => false,
                }
            }
        }),
{
    lemma_steps(steps);
    let fs = steps[0].fs_before;
    let last = steps.len() - 1;
    let s = opened_at(steps);
    if !fs.dir_caches@.contains_key(handle) && fs.inodes@.contains_key(inode) {
        if let Reply::Handle(dir) = answer(steps, s) {
            assert forall|i: int| s < i < last - 1 implies #[trigger] asked(steps, i) == Some(
                Action::QueryDirectory { handle: dir, restart: i == s + 1 },
            ) by {
                lemma_reading(steps, inode, handle, out, i);
                lemma_reading(steps, inode, handle, out, i + 1);
                lemma_step(steps, i);
            }
            assert forall|i: int| s < i < last - 2 implies #[trigger] answer(
                steps,
                i,
            ) is Bytes by {
                lemma_reading(steps, inode, handle, out, i + 1);
            }
            lemma_reading(steps, inode, handle, out, last - 1);
            lemma_step(steps, last - 1);
            lemma_step(steps, last);
            assert forall|i: int| 0 <= i <= last implies {
                let s = #[trigger] steps[i];
                &&& s.fs_after == (PassthroughFs {
                    dir_caches: s.fs_after.dir_caches,
                    ..s.fs_before
                })
                &&& i == last - 1 && s.reply == Reply::NoMore
                    ==> s.fs_after.dir_caches@.remove(handle) == s.fs_before.dir_caches@.remove(
                    handle,
                ) && s.fs_after.dir_caches@.contains_key(handle)
                &&& i != last - 1 || s.reply is Failed ==> s.fs_after == s.fs_before
            } by {
                lemma_step(steps, i);
                if 0 < i < last {
                    lemma_reading(steps, inode, handle, out, i);
                    lemma_step(steps, i + 1);
                    if i + 1 < last {
                        lemma_reading(steps, inode, handle, out, i + 1);
                    }
                }
                let st = steps[i];
                if i == last - 1 && st.reply == Reply::NoMore {
                    assert(st.fs_after.dir_caches@.remove(handle)
                        =~= st.fs_before.dir_caches@.remove(handle));
                }
            }
        }
    }
}

/// What a listing starts with: the directory itself and its parent.
pub open spec fn itself_and_parent(inode: u64, parent_inode: u64) -> Seq<EntryView> {
    seq![
        EntryView { ino: inode, name: seq![0x2eu8], type_: DT_DIR },
        EntryView { ino: parent_inode, name: seq![0x2eu8, 0x2eu8], type_: DT_DIR },
    ]
}

proof fn lemma_told(
    steps: Seq<Step<FillDirCache>>,
    inode: u64,
    handle: u64,
    out: Result<(), FsError>,
    i: int,
)
    requires
        call_ensures(fill_dir_cache, (inode, handle), steps[0].before),
        is_run(steps, out),
        !steps[0].fs_before.dir_caches@.contains_key(handle),
        steps[0].fs_before.inodes@.contains_key(inode),
        steps.len() > 1,
        steps.len() > opened_at(steps) + 1,
        answer(steps, opened_at(steps)) is Handle,
        0 < i < steps.len() - 1,
    ensures
        steps[i].before.parent_inode == steps[0].fs_before.inodes@[inode].parent_inode,
        i <= opened_at(steps) + 1 ==> told_first(steps, i).len() == 0,
        i > opened_at(steps) + 1 ==> views(steps[i].before.entries@) == itself_and_parent(
            inode,
            steps[0].fs_before.inodes@[inode].parent_inode,
        ) + told_first(steps, i),
    decreases i,
{
    lemma_steps(steps);
    lemma_step(steps, i);
    lemma_reading(steps, inode, handle, out, i);
    if i == 1 {
        assert(told_first(steps, 0).len() == 0);
    } else {
        lemma_told(steps, inode, handle, out, i - 1);
        lemma_reading(steps, inode, handle, out, i - 1);
        lemma_step(steps, i - 1);
        let dots = itself_and_parent(inode, steps[0].fs_before.inodes@[inode].parent_inode);
        if let Reply::Bytes(b) = steps[i - 1].reply {
            assert((dots + told_first(steps, i - 1)) + entries_from(b@, 0) =~= dots + (told_first(
                steps,
                i - 1,
            ) + entries_from(b@, 0)));
        } else if told_first(steps, i).len() == 0 {
            assert(dots + told_first(steps, i) =~= dots);
        }
    }
}

/// The listing that is kept of a directory holds the directory itself and its parent, and then
/// every entry that the host told, in its order, and nothing else.
pub proof fn law_listing_holds_what_was_told(
    steps: Seq<Step<FillDirCache>>,
    inode: u64,
    handle: u64,
)
    requires
        call_ensures(fill_dir_cache, (inode, handle), steps[0].before),
        is_run(steps, Ok::<(), FsError>(())),
        !steps[0].fs_before.dir_caches@.contains_key(handle),
    ensures
        ({
            let n = steps.len() - 2;
            let parent_inode = steps[0].fs_before.inodes@[inode].parent_inode;
            &&& n > 0
            &&& steps[n].reply == Reply::NoMore
            &&& steps[n].fs_after.dir_caches@.contains_key(handle)
            &&& views(steps[n].fs_after.dir_caches@[handle]@) == itself_and_parent(
                inode,
                parent_inode,
            ) + told_first(steps, n)
        }),
{
    lemma_steps(steps);
    law_directory_is_read(steps, inode, handle, Ok(()));
    let n = steps.len() - 2;
    lemma_told(steps, inode, handle, Ok(()), n);
    lemma_reading(steps, inode, handle, Ok(()), n);
    lemma_step(steps, n);
    lemma_step(steps, n + 1);
}

/// What is listed under a handle before the `i`-th step.
pub open spec fn listed(fs: PassthroughFs, handle: u64) -> Seq<CachedDirEntry> {
    fs.dir_caches@[handle]@
}

proof fn lemma_handing(
    steps: Seq<Step<Readdir>>,
    inode: u64,
    handle: u64,
    from: u64,
    out: Result<(), FsError>,
    i: int,
)
    requires
        call_ensures(readdir, (inode, handle, from), steps[0].before),
        is_run(steps, out),
        0 <= i < steps.len(),
    ensures
        steps[i].before.inode == inode,
        steps[i].before.handle == handle,
        steps[i].before.offset == from,
        i == 0 ==> steps[i].before.phase == ReaddirPhase::Start,
        i == 1 ==> steps[i].before.phase == ReaddirPhase::Filling,
        i > 1 ==> (steps[i].before.phase matches ReaddirPhase::Adding { index } && index == from + i
            - 2),
    decreases i,
{
    lemma_step(steps, i);
    if i > 0 {
        lemma_handing(steps, inode, handle, from, out, i - 1);
        lemma_step(steps, i - 1);
    }
}

/// The guest is handed the entries that are listed under its handle, one by one in their order,
/// from its offset on, each with the offset behind it, as long as it has room and there are more.
pub proof fn law_entries_are_handed_over_in_order(
    steps: Seq<Step<Readdir>>,
    inode: u64,
    handle: u64,
    from: u64,
    out: Result<(), FsError>,
)
    requires
        call_ensures(readdir, (inode, handle, from), steps[0].before),
        is_run(steps, out),
    ensures
        steps.len() >= 2,
        asked(steps, 0) == Some(Action::FillDirCache { inode, handle }),
        forall|i: int|
            0 < i < steps.len() - 1 ==> {
                let fs = steps[i].fs_before;
                let k = from + i - 1;
                &&& fs.dir_caches@.contains_key(handle)
                &&& k < listed(fs, handle).len()
                &&& (#[trigger] asked(steps, i)) matches Some(
                    Action::AddEntry { ino, offset, type_, name },
                )
                &&& ino == listed(fs, handle)[k].ino
                &&& offset == k + 1
                &&& type_ == listed(fs, handle)[k].type_
                &&& name@ == listed(fs, handle)[k].name@
                &&& i + 2 < steps.len() ==> (answer(steps, i) matches Reply::Number(n) && n > 0)
            },
        ({
            let last = steps.len() - 1;
            let fs = steps[last].fs_before;
            let r = answer(steps, last - 1);
            if last == 1 && r is Failed {
                r == Reply::Failed(out->Err_0) && out is Err
            } else if last > 1 && (r is Failed || r == Reply::Number(0)) {
                out == Ok::<(), FsError>(())
            } else if !fs.dir_caches@.contains_key(handle) {
                out == Err::<(), FsError>(linux_error(EBADF))
            } else {
                &&& out == Ok::<(), FsError>(())
                &&& from + last - 1 >= listed(fs, handle).len()
            }
        }),
        forall|i: int|
            0 <= i < steps.len() ==> (#[trigger] steps[i]).fs_after == steps[i].fs_before,
{
    lemma_steps(steps);
    assert forall|i: int| 0 < i < steps.len() - 1 implies {
        let fs = steps[i].fs_before;
        let k = from + i - 1;
        &&& fs.dir_caches@.contains_key(handle)
        &&& k < listed(fs, handle).len()
        &&& (#[trigger] asked(steps, i)) matches Some(
            Action::AddEntry { ino, offset, type_, name },
        )
        &&& ino == listed(fs, handle)[k].ino
        &&& offset == k + 1
        &&& type_ == listed(fs, handle)[k].type_
        &&& name@ == listed(fs, handle)[k].name@
        &&& i + 2 < steps.len() ==> (answer(steps, i) matches Reply::Number(n) && n > 0)
    } by {
        lemma_handing(steps, inode, handle, from, out, i);
        lemma_handing(steps, inode, handle, from, out, i + 1);
        lemma_step(steps, i);
        lemma_step(steps, i + 1);
        let fs = steps[i].fs_before;
        let k = from + i - 1;
        assert(listing_of(fs, handle)[k] == listed(fs, handle)[k]@);
        if i + 2 < steps.len() {
            lemma_handing(steps, inode, handle, from, out, i + 2);
            lemma_step(steps, i + 2);
        }
    }
    let last = steps.len() - 1;
    lemma_handing(steps, inode, handle, from, out, last);
    lemma_step(steps, last);
    assert forall|i: int| 0 <= i < steps.len() implies (#[trigger] steps[i]).fs_after
        == steps[i].fs_before by {
        lemma_step(steps, i);
    }
}

/// Where the entry stands in the listing that the guest is about to be handed after a step.
pub open spec fn place(steps: Seq<Step<ReaddirPlus>>, i: int) -> int {
    match steps[i].after.phase {
        ReaddirPlusPhase::Looking { index } => index as int,
        ReaddirPlusPhase::Adding { index } => index as int,
        _ => 0,
    }
}

/// Where the search for the next entry starts at a step: at the offset of the guest, or behind
/// the entry before.
pub open spec fn searched_from(steps: Seq<Step<ReaddirPlus>>, i: int, from: u64) -> int {
    if i == 1 {
        from as int
    } else {
        place(steps, i - 1) + 1
    }
}

/// Whether a name can be looked up, that is holds no zero.
pub open spec fn can_be_looked_up(entry: CachedDirEntry) -> bool {
    !entry.name@.contains(0)
}

proof fn lemma_next_named(fs: PassthroughFs, handle: u64, i: int)
    requires
        0 <= i,
    ensures
        ({
            let entries = listing_of(fs, handle);
            let at = next_named(entries, i);
            &&& at < entries.len() ==> i <= at && can_be_looked_up(listed(fs, handle)[at])
            &&& at <= entries.len()
            &&& forall|k: int|
                i <= k < at ==> !can_be_looked_up(#[trigger] listed(fs, handle)[k])
        }),
    decreases listing_of(fs, handle).len() - i,
{
    let entries = listing_of(fs, handle);
    if i < entries.len() {
        assert(entries[i] == listed(fs, handle)[i]@);
        if entries[i].name.contains(0) {
            lemma_next_named(fs, handle, i + 1);
        }
    }
}

proof fn lemma_looking(
    steps: Seq<Step<ReaddirPlus>>,
    inode: u64,
    handle: u64,
    from: u64,
    out: Result<(), FsError>,
    i: int,
)
    requires
        call_ensures(readdirplus, (inode, handle, from), steps[0].before),
        is_run(steps, out),
        0 <= i < steps.len(),
    ensures
        steps[i].before.inode == inode,
        steps[i].before.handle == handle,
        steps[i].before.offset == from,
        i == 0 ==> steps[i].before.phase == ReaddirPlusPhase::Start,
        i == 1 ==> steps[i].before.phase == ReaddirPlusPhase::Filling,
        i > 1 ==> steps[i].before.phase is Looking || steps[i].before.phase is Adding,
        i > 1 && steps[i].before.phase is Looking ==> asked(steps, i - 1) is Some && asked(
            steps,
            i - 1,
        )->Some_0 is Lookup,
        i > 1 && steps[i].before.phase is Adding ==> asked(steps, i - 1) is Some && asked(
            steps,
            i - 1,
        )->Some_0 is AddEntryPlus,
    decreases i,
{
    lemma_step(steps, i);
    if i > 0 {
        lemma_looking(steps, inode, handle, from, out, i - 1);
        lemma_step(steps, i - 1);
    }
}

/// The guest is handed the entries that are listed under its handle with what they name, in their
/// order from its offset on. Each is looked up in the directory that the guest names, and handed
/// over with what was found and with the offset behind it. None is left out but one whose name
/// cannot be looked up, and one that is not found.
pub proof fn law_entries_are_handed_over_with_what_they_name(
    steps: Seq<Step<ReaddirPlus>>,
    inode: u64,
    handle: u64,
    from: u64,
    out: Result<(), FsError>,
    i: int,
)
    requires
        call_ensures(readdirplus, (inode, handle, from), steps[0].before),
        is_run(steps, out),
        0 <= i < steps.len(),
    ensures
        steps[i].fs_after == steps[i].fs_before,
        asked(steps, 0) == Some(Action::FillDirCache { inode, handle }),
        i > 0 ==> {
            let fs = steps[i].fs_before;
            let list = listed(fs, handle);
            let k = place(steps, i);
            match asked(steps, i) {
                Some(Action::Lookup { parent, name }) => {
                    &&& fs.dir_caches@.contains_key(handle)
                    &&& searched_from(steps, i, from) <= k < list.len()
                    &&& forall|j: int|
                        searched_from(steps, i, from) <= j < k ==> !can_be_looked_up(
                            #[trigger] list[j],
                        )
                    &&& parent == inode
                    &&& name@ == list[k].name@
                    &&& i > 1 && asked(steps, i - 1)->Some_0 is Lookup ==> answer(
                        steps,
                        i - 1,
                    ) is Failed
                },
                Some(Action::AddEntryPlus { ino, offset, type_, name, entry }) => {
                    &&& fs.dir_caches@.contains_key(handle)
                    &&& k == place(steps, i - 1)
                    &&& k < list.len()
                    &&& asked(steps, i - 1)->Some_0 is Lookup
                    &&& answer(steps, i - 1) == Reply::Entry(entry)
                    &&& ino == entry.inode
                    &&& offset == k + 1
                    &&& type_ == list[k].type_
                    &&& name@ == list[k].name@
                },
                Some(_) => false,
                None => {
                    let r = steps[i].reply;
                    if i == 1 && r is Failed {
                        out is Err && r == Reply::Failed(out->Err_0)
                    } else if i > 1 && asked(steps, i - 1)->Some_0 is AddEntryPlus && r is Failed {
                        out is Err && r == Reply::Failed(out->Err_0)
                    } else if i > 1 && asked(steps, i - 1)->Some_0 is AddEntryPlus && r
                        == Reply::Number(0) {
                        out == Ok::<(), FsError>(())
                    } else if !fs.dir_caches@.contains_key(handle) {
                        out == Err::<(), FsError>(linux_error(EBADF))
                    } else if r is Entry {
                        &&& out == Err::<(), FsError>(linux_error(EBADF))
                        &&& place(steps, i - 1) >= list.len()
                    } else {
                        &&& out == Ok::<(), FsError>(())
                        &&& forall|j: int|
                            searched_from(steps, i, from) <= j < list.len() ==> !can_be_looked_up(
                                #[trigger] list[j],
                            )
                    }
                },
            }
        },
{
    lemma_steps(steps);
    lemma_looking(steps, inode, handle, from, out, i);
    lemma_step(steps, i);
    let fs = steps[i].fs_before;
    lemma_next_named(fs, handle, searched_from(steps, i, from));
    let k = place(steps, i);
    if i > 0 {
        lemma_looking(steps, inode, handle, from, out, i - 1);
        if asked(steps, i) is Some {
            assert(listing_of(fs, handle)[k] == listed(fs, handle)[k]@);
        } else if i + 1 < steps.len() {
            lemma_step(steps, i + 1);
        }
    }
}

} // verus!
