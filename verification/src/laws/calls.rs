//! Operations that other operations ask for: each is the one that was asked for, of what it was
//! asked for, and its outcome is the answer.

use crate::config::Timeout;
use crate::errno::FsError;
use crate::fs::Entry;
use crate::host::{Action, Flow, Reply};
use crate::operation::{is_step, Operation, Step};
use crate::ops::calls::{call_for, is_for, Call};
use crate::override_stat::OverrideStat;
use crate::stat::{FileInfo, Stat64};
use vstd::prelude::*;

verus! {

/// A step of a call is a step of an operation: the call asks for what the operation asks for, and
/// ends when it ends, with a reply that tells its outcome.
pub open spec fn goes_by<O: Operation>(
    s: Step<Call>,
    before: O,
    after: O,
    tells: spec_fn(O::Output, Reply) -> bool,
) -> bool {
    exists|f: Flow<O::Output>| #[trigger]
        before.leads_to(s.fs_before, s.reply, after, s.fs_after, f) && match (f, s.flow) {
            (Flow::Do(a), Flow::Do(b)) => a == b,
            (Flow::Done(out), Flow::Done(r)) => tells(out, r),
            _ => false,
        }
}

/// A reply that tells whether something was done.
pub open spec fn tells_done(out: Result<(), FsError>, r: Reply) -> bool {
    match out {
        Ok(_) => r == Reply::Unit,
        Err(e) => r == Reply::Failed(e),
    }
}

/// A step of a call is a step of the operation that it stands for, and the outcome of the operation
/// is the answer.
pub proof fn law_call_goes_by_its_operation(s: Step<Call>)
    requires
        is_step(s),
    ensures
        match (s.before, s.after) {
            (Call::GetFileInfo(a), Call::GetFileInfo(b)) => goes_by(
                s,
                a,
                b,
                |out: Result<FileInfo, FsError>, r: Reply| match out {
                    Ok(i) => r == Reply::FileInfo(i),
                    Err(e) => r == Reply::Failed(e),
                },
            ),
            (Call::GetReparseTag(a), Call::GetReparseTag(b)) => goes_by(
                s,
                a,
                b,
                |out: u32, r: Reply| r == Reply::Word(out),
            ),
            (Call::Stat(a), Call::Stat(b)) => goes_by(
                s,
                a,
                b,
                |out: Stat64, r: Reply| r == Reply::Stat(out),
            ),
            (Call::ReadOverride(a), Call::ReadOverride(b)) => goes_by(
                s,
                a,
                b,
                |out: OverrideStat, r: Reply| r == Reply::Override(out),
            ),
            (Call::WriteOverride(a), Call::WriteOverride(b)) => goes_by(
                s,
                a,
                b,
                |out: Result<(), FsError>, r: Reply| tells_done(out, r),
            ),
            (Call::RemoveCapability(a), Call::RemoveCapability(b)) => goes_by(
                s,
                a,
                b,
                |out: (), r: Reply| r == Reply::Unit,
            ),
            (Call::KillPriv(a), Call::KillPriv(b)) => goes_by(
                s,
                a,
                b,
                |out: (), r: Reply| r == Reply::Unit,
            ),
            (Call::WriteAds(a), Call::WriteAds(b)) => goes_by(
                s,
                a,
                b,
                |out: Result<(), FsError>, r: Reply| tells_done(out, r),
            ),
            (Call::WriteSecctx(a), Call::WriteSecctx(b)) => goes_by(
                s,
                a,
                b,
                |out: Result<(), FsError>, r: Reply| tells_done(out, r),
            ),
            (Call::ListStreams(a), Call::ListStreams(b)) => goes_by(
                s,
                a,
                b,
                |out: Result<Vec<String>, FsError>, r: Reply| match out {
                    Ok(n) => r == Reply::Names(n),
                    Err(e) => r == Reply::Failed(e),
                },
            ),
            (Call::SetFileTimes(a), Call::SetFileTimes(b)) => goes_by(
                s,
                a,
                b,
                |out: Result<(), FsError>, r: Reply| tells_done(out, r),
            ),
            (Call::IsReadOnly(a), Call::IsReadOnly(b)) => goes_by(
                s,
                a,
                b,
                |out: bool, r: Reply| r == Reply::Flag(out),
            ),
            (Call::Reopen(a), Call::Reopen(b)) => goes_by(
                s,
                a,
                b,
                |out: Result<u64, FsError>, r: Reply| match out {
                    Ok(h) => r == Reply::Handle(h),
                    Err(e) => r == Reply::Failed(e),
                },
            ),
            (Call::FillDirCache(a), Call::FillDirCache(b)) => goes_by(
                s,
                a,
                b,
                |out: Result<(), FsError>, r: Reply| tells_done(out, r),
            ),
            (Call::Lookup(a), Call::Lookup(b)) => goes_by(
                s,
                a,
                b,
                |out: Result<Entry, FsError>, r: Reply| match out {
                    Ok(e) => r == Reply::Entry(e),
                    Err(e) => r == Reply::Failed(e),
                },
            ),
            (Call::Getattr(a), Call::Getattr(b)) => goes_by(
                s,
                a,
                b,
                |out: Result<(Stat64, Timeout), FsError>, r: Reply| match out {
                    Ok((st, t)) => r == Reply::Attr(st, t),
                    Err(e) => r == Reply::Failed(e),
                },
            ),
            _ => false,
        },
{
}

/// What an operation asks for is done by the operation that does it, from its start, of the file
/// and with the values that were asked for. Only what the host or the guest has to do comes back.
pub proof fn law_call_is_the_one_asked_for(action: Action, r: Result<Call, Action>)
    requires
        call_ensures(call_for, (action,), r),
    ensures
        match action {
            Action::GetFileInfo { path } => {
                r matches Ok(Call::GetFileInfo(op)) && op.phase is Start && op.path@ == path@
            },
            Action::GetReparseTag { path } => {
                r matches Ok(Call::GetReparseTag(op)) && op.phase is Start && op.path@ == path@
            },
            Action::Stat { meta, inode, path, n_link } => {
                &&& r matches Ok(Call::Stat(op))
                &&& op.phase is Start
                &&& op.meta == meta
                &&& op.inode == inode
                &&& op.path@ == path@
                &&& op.n_link == n_link
            },
            Action::ReadOverride { path } => {
                r matches Ok(Call::ReadOverride(op)) && op.phase is Start && op.path@ == path@
            },
            Action::WriteOverride { path, owner, mode } => {
                &&& r matches Ok(Call::WriteOverride(op))
                &&& op.phase is Start
                &&& op.path@ == path@
                &&& op.owner == owner
                &&& op.mode == mode
            },
            Action::RemoveCapability { path } => {
                r matches Ok(Call::RemoveCapability(op)) && op.phase is Start && op.path@ == path@
            },
            Action::KillPriv { path } => {
                r matches Ok(Call::KillPriv(op)) && op.phase is Start && op.path@ == path@
            },
            Action::WriteAds { handle, suffix, data } => {
                &&& r matches Ok(Call::WriteAds(op))
                &&& op.phase is Start
                &&& op.handle == handle
                &&& op.suffix@ == suffix@
                &&& op.data@ == data@
            },
            Action::WriteSecctx { path, name, data, symlink } => {
                &&& r matches Ok(Call::WriteSecctx(op))
                &&& op.phase is Start
                &&& op.path@ == path@
                &&& op.name@ == name@
                &&& op.data@ == data@
                &&& op.symlink == symlink
            },
            Action::ListStreams { path } => {
                &&& r matches Ok(Call::ListStreams(op))
                &&& op.phase is Start
                &&& op.path@ == path@
                &&& op.found@.len() == 0
            },
            Action::SetFileTimes { path, atime, mtime } => {
                &&& r matches Ok(Call::SetFileTimes(op))
                &&& op.phase is Start
                &&& op.path@ == path@
                &&& op.atime == atime
                &&& op.mtime == mtime
            },
            Action::IsReadOnly { handle } => {
                r matches Ok(Call::IsReadOnly(op)) && op.phase is Start && op.handle == handle
            },
            Action::Reopen { inode, handle, desired_access } => {
                &&& r matches Ok(Call::Reopen(op))
                &&& op.phase is Start
                &&& op.inode == inode
                &&& op.handle == handle
                &&& op.desired_access == desired_access
            },
            Action::FillDirCache { inode, handle } => {
                &&& r matches Ok(Call::FillDirCache(op))
                &&& op.phase is Start
                &&& op.inode == inode
                &&& op.handle == handle
            },
            Action::Lookup { parent, name } => {
                &&& r matches Ok(Call::Lookup(op))
                &&& op.phase is Start
                &&& op.parent == parent
                &&& op.name@ == name@
            },
            Action::Getattr { inode, handle } => {
                &&& r matches Ok(Call::Getattr(op))
                &&& op.phase is Start
                &&& op.inode == inode
                &&& op.handle == handle
            },
            _ => r == Err::<Call, Action>(action),
        },
{
    match action {
        Action::GetFileInfo { .. } => assert(is_for(action, Call::GetFileInfo(arbitrary()))),
        Action::GetReparseTag { .. } => assert(is_for(action, Call::GetReparseTag(arbitrary()))),
        Action::Stat { .. } => assert(is_for(action, Call::Stat(arbitrary()))),
        Action::ReadOverride { .. } => assert(is_for(action, Call::ReadOverride(arbitrary()))),
        Action::WriteOverride { .. } => assert(is_for(action, Call::WriteOverride(arbitrary()))),
        Action::RemoveCapability { .. } => {
            assert(is_for(action, Call::RemoveCapability(arbitrary())));
        },
        Action::KillPriv { .. } => assert(is_for(action, Call::KillPriv(arbitrary()))),
        Action::WriteAds { .. } => assert(is_for(action, Call::WriteAds(arbitrary()))),
        Action::WriteSecctx { .. } => assert(is_for(action, Call::WriteSecctx(arbitrary()))),
        Action::ListStreams { .. } => assert(is_for(action, Call::ListStreams(arbitrary()))),
        Action::SetFileTimes { .. } => assert(is_for(action, Call::SetFileTimes(arbitrary()))),
        Action::IsReadOnly { .. } => assert(is_for(action, Call::IsReadOnly(arbitrary()))),
        Action::Reopen { .. } => assert(is_for(action, Call::Reopen(arbitrary()))),
        Action::FillDirCache { .. } => assert(is_for(action, Call::FillDirCache(arbitrary()))),
        Action::Lookup { .. } => assert(is_for(action, Call::Lookup(arbitrary()))),
        Action::Getattr { .. } => assert(is_for(action, Call::Getattr(arbitrary()))),
        _ => {},
    }
}

} // verus!
