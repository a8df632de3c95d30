//! Operations that other operations ask for.

use crate::config::Timeout;
use crate::errno::{EACCES, FsError};
use crate::fs::{Entry, PassthroughFs};
use crate::host::{answers, can_be_asked, done_reply, gained, Action, Flow, Reply, Resource};
use crate::operation::{are_steps, is_step, lemma_fewer_steps, Operation, Step};
use crate::ops::attrs::{Access, AccessPhase, Setattr};
use crate::ops::dirs::{fill_dir_cache, FillDirCache};
use crate::ops::lookup::{do_getattr, do_lookup, reopen_inode, stat_path, DoGetattr, DoLookup};
use crate::ops::lookup::{LookupPhase, ReopenInode, StatPath};
use crate::ops::nodes::{MakeNode, MakePhase};
use crate::ops::probe::{get_file_info, get_reparse_tag, is_handle_read_only, set_file_times};
use crate::ops::probe::{GetFileInfo, GetReparseTag, IsHandleReadOnly, SetFileTimes};
use crate::ops::streams::{ads_list_streams, kill_priv, read_override_stat};
use crate::ops::streams::{remove_security_capability, write_ads_by_handle, write_override_stat};
use crate::ops::streams::{write_secctx, KillPriv, ListStreams, ReadOverrideStat};
use crate::ops::streams::{RemoveSecurityCapability, WriteAds, WriteOverrideStat, WriteSecctx};
use crate::override_stat::OverrideStat;
use crate::stat::{access_granted, FileInfo, Stat64};
use vstd::prelude::*;

verus! {

/// The end of an operation that tells a word, as a reply.
pub open spec fn word_reply(out: u32) -> Reply {
    Reply::Word(out)
}

/// The end of an operation that tells yes or no, as a reply.
pub open spec fn flag_reply(out: bool) -> Reply {
    Reply::Flag(out)
}

/// The end of an operation that tells nothing, as a reply.
pub open spec fn unit_reply(out: ()) -> Reply {
    Reply::Unit
}

/// The end of an operation that tells attributes, as a reply.
pub open spec fn stat_reply(out: Stat64) -> Reply {
    Reply::Stat(out)
}

/// The end of an operation that tells a record, as a reply.
pub open spec fn override_reply(out: OverrideStat) -> Reply {
    Reply::Override(out)
}

/// The end of an operation that tells an identity, as a reply.
pub open spec fn file_info_reply(out: Result<FileInfo, FsError>) -> Reply {
    match out {
        Ok(i) => Reply::FileInfo(i),
        Err(e) => Reply::Failed(e),
    }
}

/// The end of an operation that tells names, as a reply.
pub open spec fn names_reply(out: Result<Vec<String>, FsError>) -> Reply {
    match out {
        Ok(n) => Reply::Names(n),
        Err(e) => Reply::Failed(e),
    }
}

/// The end of an operation that hands a handle over, as a reply.
pub open spec fn handle_reply(out: Result<u64, FsError>) -> Reply {
    match out {
        Ok(h) => Reply::Handle(h),
        Err(e) => Reply::Failed(e),
    }
}

/// The end of an operation that tells an entry, as a reply.
pub open spec fn entry_reply(out: Result<Entry, FsError>) -> Reply {
    match out {
        Ok(e) => Reply::Entry(e),
        Err(e) => Reply::Failed(e),
    }
}

/// The end of an operation that tells attributes and how long they hold, as a reply.
pub open spec fn attr_reply(out: Result<(Stat64, Timeout), FsError>) -> Reply {
    match out {
        Ok((st, timeout)) => Reply::Attr(st, timeout),
        Err(e) => Reply::Failed(e),
    }
}

/// What an operation does next, with its end as a reply.
pub open spec fn replied<T>(flow: Flow<T>, reply: spec_fn(T) -> Reply) -> Flow<Reply> {
    match flow {
        Flow::Do(a) => Flow::Do(a),
        Flow::Done(out) => Flow::Done(reply(out)),
    }
}

/// An operation that another one asks for. It ends with the reply to the action.
pub enum Call {
    GetFileInfo(GetFileInfo),
    GetReparseTag(GetReparseTag),
    Stat(StatPath),
    ReadOverride(ReadOverrideStat),
    WriteOverride(WriteOverrideStat),
    RemoveCapability(RemoveSecurityCapability),
    KillPriv(KillPriv),
    WriteAds(WriteAds),
    WriteSecctx(WriteSecctx),
    ListStreams(ListStreams),
    SetFileTimes(SetFileTimes),
    IsReadOnly(IsHandleReadOnly),
    Reopen(ReopenInode),
    FillDirCache(FillDirCache),
    Lookup(DoLookup),
    Getattr(DoGetattr),
}

/// The call does what the action asks for, whether it has begun or not.
pub open spec fn is_for(action: Action, call: Call) -> bool {
    match (action, call) {
        (Action::GetFileInfo { .. }, Call::GetFileInfo(_)) => true,
        (Action::GetReparseTag { .. }, Call::GetReparseTag(_)) => true,
        (Action::Stat { .. }, Call::Stat(_)) => true,
        (Action::ReadOverride { .. }, Call::ReadOverride(_)) => true,
        (Action::WriteOverride { .. }, Call::WriteOverride(_)) => true,
        (Action::RemoveCapability { .. }, Call::RemoveCapability(_)) => true,
        (Action::KillPriv { .. }, Call::KillPriv(_)) => true,
        (Action::WriteAds { .. }, Call::WriteAds(_)) => true,
        (Action::WriteSecctx { .. }, Call::WriteSecctx(_)) => true,
        (Action::ListStreams { .. }, Call::ListStreams(_)) => true,
        (Action::SetFileTimes { .. }, Call::SetFileTimes(_)) => true,
        (Action::IsReadOnly { .. }, Call::IsReadOnly(_)) => true,
        (Action::Reopen { .. }, Call::Reopen(_)) => true,
        (Action::FillDirCache { .. }, Call::FillDirCache(_)) => true,
        (Action::Lookup { .. }, Call::Lookup(_)) => true,
        (Action::Getattr { .. }, Call::Getattr(_)) => true,
        _ => false,
    }
}

/// The call is the one that the action asks for, and has not begun.
pub open spec fn starts(action: Action, call: Call) -> bool {
    match (action, call) {
        (Action::GetFileInfo { path }, Call::GetFileInfo(op)) => {
            &&& op.path@ == path@
            &&& op.phase is Start
        },
        (Action::GetReparseTag { path }, Call::GetReparseTag(op)) => {
            &&& op.path@ == path@
            &&& op.phase is Start
        },
        (Action::Stat { meta, inode, path, n_link }, Call::Stat(op)) => {
            &&& op.meta == meta
            &&& op.meta.in_range()
            &&& op.inode == inode
            &&& op.path@ == path@
            &&& op.n_link == n_link
            &&& op.phase is Start
        },
        (Action::ReadOverride { path }, Call::ReadOverride(op)) => {
            &&& op.path@ == path@
            &&& op.phase is Start
        },
        (Action::WriteOverride { path, owner, mode }, Call::WriteOverride(op)) => {
            &&& op.path@ == path@
            &&& op.owner == owner
            &&& op.mode == mode
            &&& op.phase is Start
        },
        (Action::RemoveCapability { path }, Call::RemoveCapability(op)) => {
            &&& op.path@ == path@
            &&& op.phase is Start
        },
        (Action::KillPriv { path }, Call::KillPriv(op)) => {
            &&& op.path@ == path@
            &&& op.phase is Start
        },
        (Action::WriteAds { handle, suffix, data }, Call::WriteAds(op)) => {
            &&& op.handle == handle
            &&& op.suffix@ == suffix@
            &&& op.data@ == data@
            &&& op.phase is Start
        },
        (Action::WriteSecctx { path, name, data, symlink }, Call::WriteSecctx(op)) => {
            &&& op.path@ == path@
            &&& op.name@ == name@
            &&& op.data@ == data@
            &&& op.symlink == symlink
            &&& op.phase is Start
        },
        (Action::ListStreams { path }, Call::ListStreams(op)) => {
            &&& op.path@ == path@
            &&& op.found@ == Seq::<String>::empty()
            &&& op.phase is Start
        },
        (Action::SetFileTimes { path, atime, mtime }, Call::SetFileTimes(op)) => {
            &&& op.path@ == path@
            &&& op.atime == atime
            &&& op.mtime == mtime
            &&& op.phase is Start
        },
        (Action::IsReadOnly { handle }, Call::IsReadOnly(op)) => {
            &&& op.handle == handle
            &&& op.phase is Start
        },
        (Action::Reopen { inode, handle, desired_access }, Call::Reopen(op)) => {
            &&& op.inode == inode
            &&& op.handle == handle
            &&& op.desired_access == desired_access
            &&& op.phase is Start
        },
        (Action::FillDirCache { inode, handle }, Call::FillDirCache(op)) => {
            &&& op.inode == inode
            &&& op.handle == handle
            &&& op.phase is Start
        },
        (Action::Lookup { parent, name }, Call::Lookup(op)) => {
            &&& op.parent == parent
            &&& op.name@ == name@
            &&& op.phase is Start
        },
        (Action::Getattr { inode, handle }, Call::Getattr(op)) => {
            &&& op.inode == inode
            &&& op.handle == handle
            &&& op.phase is Start
        },
        _ => false,
    }
}

/// Finds the call that an action asks for. An action of the host or of the guest comes back.
pub fn call_for(action: Action) -> (r: Result<Call, Action>)
    requires
        can_be_asked(action),
    ensures
        match r {
            Ok(call) => starts(action, call) && call.expects(Reply::Begin),
            Err(a) => a == action && forall|c: Call| !is_for(action, c),
        },
{
    match action {
        Action::GetFileInfo { path } => Ok(Call::GetFileInfo(get_file_info(path))),
        Action::GetReparseTag { path } => Ok(Call::GetReparseTag(get_reparse_tag(path))),
        Action::Stat { meta, inode, path, n_link } => {
            Ok(Call::Stat(stat_path(meta, inode, path, n_link)))
        },
        Action::ReadOverride { path } => Ok(Call::ReadOverride(read_override_stat(path))),
        Action::WriteOverride { path, owner, mode } => {
            Ok(Call::WriteOverride(write_override_stat(path, owner, mode)))
        },
        Action::RemoveCapability { path } => {
            Ok(Call::RemoveCapability(remove_security_capability(path)))
        },
        Action::KillPriv { path } => Ok(Call::KillPriv(kill_priv(path))),
        Action::WriteAds { handle, suffix, data } => {
            Ok(Call::WriteAds(write_ads_by_handle(handle, suffix, data)))
        },
        Action::WriteSecctx { path, name, data, symlink } => {
            Ok(Call::WriteSecctx(write_secctx(path, name, data, symlink)))
        },
        Action::ListStreams { path } => Ok(Call::ListStreams(ads_list_streams(path))),
        Action::SetFileTimes { path, atime, mtime } => {
            Ok(Call::SetFileTimes(set_file_times(path, atime, mtime)))
        },
        Action::IsReadOnly { handle } => Ok(Call::IsReadOnly(is_handle_read_only(handle))),
        Action::Reopen { inode, handle, desired_access } => {
            Ok(Call::Reopen(reopen_inode(inode, handle, desired_access)))
        },
        Action::FillDirCache { inode, handle } => {
            Ok(Call::FillDirCache(fill_dir_cache(inode, handle)))
        },
        Action::Lookup { parent, name } => Ok(Call::Lookup(do_lookup(parent, name))),
        Action::Getattr { inode, handle } => Ok(Call::Getattr(do_getattr(inode, handle))),
        other => Err(other),
    }
}

impl Operation for Call {
    type Output = Reply;

    open spec fn expects(&self, reply: Reply) -> bool {
        match *self {
            Call::GetFileInfo(op) => op.expects(reply),
            Call::GetReparseTag(op) => op.expects(reply),
            Call::Stat(op) => op.expects(reply),
            Call::ReadOverride(op) => op.expects(reply),
            Call::WriteOverride(op) => op.expects(reply),
            Call::RemoveCapability(op) => op.expects(reply),
            Call::KillPriv(op) => op.expects(reply),
            Call::WriteAds(op) => op.expects(reply),
            Call::WriteSecctx(op) => op.expects(reply),
            Call::ListStreams(op) => op.expects(reply),
            Call::SetFileTimes(op) => op.expects(reply),
            Call::IsReadOnly(op) => op.expects(reply),
            Call::Reopen(op) => op.expects(reply),
            Call::FillDirCache(op) => op.expects(reply),
            Call::Lookup(op) => op.expects(reply),
            Call::Getattr(op) => op.expects(reply),
        }
    }

    open spec fn leads_to(
        &self,
        fs: PassthroughFs,
        reply: Reply,
        next: Self,
        next_fs: PassthroughFs,
        flow: Flow<Self::Output>,
    ) -> bool {
        match (*self, next) {
            (Call::GetFileInfo(a), Call::GetFileInfo(b)) => {
                exists|f: Flow<Result<FileInfo, FsError>>| #[trigger]
                    a.leads_to(fs, reply, b, next_fs, f) && flow == replied(
                        f,
                        |out: Result<FileInfo, FsError>| file_info_reply(out),
                    )
            },
            (Call::GetReparseTag(a), Call::GetReparseTag(b)) => {
                exists|f: Flow<u32>| #[trigger]
                    a.leads_to(fs, reply, b, next_fs, f) && flow == replied(
                        f,
                        |out: u32| word_reply(out),
                    )
            },
            (Call::Stat(a), Call::Stat(b)) => {
                exists|f: Flow<Stat64>| #[trigger]
                    a.leads_to(fs, reply, b, next_fs, f) && flow == replied(
                        f,
                        |out: Stat64| stat_reply(out),
                    )
            },
            (Call::ReadOverride(a), Call::ReadOverride(b)) => {
                exists|f: Flow<OverrideStat>| #[trigger]
                    a.leads_to(fs, reply, b, next_fs, f) && flow == replied(
                        f,
                        |out: OverrideStat| override_reply(out),
                    )
            },
            (Call::WriteOverride(a), Call::WriteOverride(b)) => {
                exists|f: Flow<Result<(), FsError>>| #[trigger]
                    a.leads_to(fs, reply, b, next_fs, f) && flow == replied(
                        f,
                        |out: Result<(), FsError>| done_reply(out),
                    )
            },
            (Call::RemoveCapability(a), Call::RemoveCapability(b)) => {
                exists|f: Flow<()>| #[trigger]
                    a.leads_to(fs, reply, b, next_fs, f) && flow == replied(
                        f,
                        |out: ()| unit_reply(out),
                    )
            },
            (Call::KillPriv(a), Call::KillPriv(b)) => {
                exists|f: Flow<()>| #[trigger]
                    a.leads_to(fs, reply, b, next_fs, f) && flow == replied(
                        f,
                        |out: ()| unit_reply(out),
                    )
            },
            (Call::WriteAds(a), Call::WriteAds(b)) => {
                exists|f: Flow<Result<(), FsError>>| #[trigger]
                    a.leads_to(fs, reply, b, next_fs, f) && flow == replied(
                        f,
                        |out: Result<(), FsError>| done_reply(out),
                    )
            },
            (Call::WriteSecctx(a), Call::WriteSecctx(b)) => {
                exists|f: Flow<Result<(), FsError>>| #[trigger]
                    a.leads_to(fs, reply, b, next_fs, f) && flow == replied(
                        f,
                        |out: Result<(), FsError>| done_reply(out),
                    )
            },
            (Call::ListStreams(a), Call::ListStreams(b)) => {
                exists|f: Flow<Result<Vec<String>, FsError>>| #[trigger]
                    a.leads_to(fs, reply, b, next_fs, f) && flow == replied(
                        f,
                        |out: Result<Vec<String>, FsError>| names_reply(out),
                    )
            },
            (Call::SetFileTimes(a), Call::SetFileTimes(b)) => {
                exists|f: Flow<Result<(), FsError>>| #[trigger]
                    a.leads_to(fs, reply, b, next_fs, f) && flow == replied(
                        f,
                        |out: Result<(), FsError>| done_reply(out),
                    )
            },
            (Call::IsReadOnly(a), Call::IsReadOnly(b)) => {
                exists|f: Flow<bool>| #[trigger]
                    a.leads_to(fs, reply, b, next_fs, f) && flow == replied(
                        f,
                        |out: bool| flag_reply(out),
                    )
            },
            (Call::Reopen(a), Call::Reopen(b)) => {
                exists|f: Flow<Result<u64, FsError>>| #[trigger]
                    a.leads_to(fs, reply, b, next_fs, f) && flow == replied(
                        f,
                        |out: Result<u64, FsError>| handle_reply(out),
                    )
            },
            (Call::FillDirCache(a), Call::FillDirCache(b)) => {
                exists|f: Flow<Result<(), FsError>>| #[trigger]
                    a.leads_to(fs, reply, b, next_fs, f) && flow == replied(
                        f,
                        |out: Result<(), FsError>| done_reply(out),
                    )
            },
            (Call::Lookup(a), Call::Lookup(b)) => {
                exists|f: Flow<Result<Entry, FsError>>| #[trigger]
                    a.leads_to(fs, reply, b, next_fs, f) && flow == replied(
                        f,
                        |out: Result<Entry, FsError>| entry_reply(out),
                    )
            },
            (Call::Getattr(a), Call::Getattr(b)) => {
                exists|f: Flow<Result<(Stat64, Timeout), FsError>>| #[trigger]
                    a.leads_to(fs, reply, b, next_fs, f) && flow == replied(
                        f,
                        |out: Result<(Stat64, Timeout), FsError>| attr_reply(out),
                    )
            },
            _ => false,
        }
    }

    open spec fn holds(&self, r: Resource) -> int {
        match *self {
            Call::GetFileInfo(op) => op.holds(r),
            Call::GetReparseTag(op) => op.holds(r),
            Call::Stat(op) => op.holds(r),
            Call::ReadOverride(op) => op.holds(r),
            Call::WriteOverride(op) => op.holds(r),
            Call::RemoveCapability(op) => op.holds(r),
            Call::KillPriv(op) => op.holds(r),
            Call::WriteAds(op) => op.holds(r),
            Call::WriteSecctx(op) => op.holds(r),
            Call::ListStreams(op) => op.holds(r),
            Call::SetFileTimes(op) => op.holds(r),
            Call::IsReadOnly(op) => op.holds(r),
            Call::Reopen(op) => op.holds(r),
            Call::FillDirCache(op) => op.holds(r),
            Call::Lookup(op) => op.holds(r),
            Call::Getattr(op) => op.holds(r),
        }
    }

    open spec fn hands_over(out: Self::Output, r: Resource) -> int {
        gained(out, r)
    }

    fn step(&mut self, fs: &mut PassthroughFs, reply: Reply) -> (flow: Flow<Self::Output>) {
        let ghost before = *self;
        match self {
            Call::GetFileInfo(op) => {
                let flow = op.step(fs, reply);
                let ghost f = flow;
                let ghost a = before->GetFileInfo_0;
                assert(a.leads_to(*old(fs), reply, *op, *fs, f));
                match flow {
                    Flow::Do(a) => Flow::Do(a),
                    Flow::Done(Ok(i)) => Flow::Done(Reply::FileInfo(i)),
                    Flow::Done(Err(e)) => Flow::Done(Reply::Failed(e)),
                }
            },
            Call::GetReparseTag(op) => {
                let flow = op.step(fs, reply);
                let ghost f = flow;
                let ghost a = before->GetReparseTag_0;
                assert(a.leads_to(*old(fs), reply, *op, *fs, f));
                match flow {
                    Flow::Do(a) => Flow::Do(a),
                    Flow::Done(out) => Flow::Done(Reply::Word(out)),
                }
            },
            Call::Stat(op) => {
                let flow = op.step(fs, reply);
                let ghost f = flow;
                let ghost a = before->Stat_0;
                assert(a.leads_to(*old(fs), reply, *op, *fs, f));
                match flow {
                    Flow::Do(a) => Flow::Do(a),
                    Flow::Done(out) => Flow::Done(Reply::Stat(out)),
                }
            },
            Call::ReadOverride(op) => {
                let flow = op.step(fs, reply);
                let ghost f = flow;
                let ghost a = before->ReadOverride_0;
                assert(a.leads_to(*old(fs), reply, *op, *fs, f));
                match flow {
                    Flow::Do(a) => Flow::Do(a),
                    Flow::Done(out) => Flow::Done(Reply::Override(out)),
                }
            },
            Call::WriteOverride(op) => {
                let flow = op.step(fs, reply);
                let ghost f = flow;
                let ghost a = before->WriteOverride_0;
                assert(a.leads_to(*old(fs), reply, *op, *fs, f));
                match flow {
                    Flow::Do(a) => Flow::Do(a),
                    Flow::Done(Ok(_)) => Flow::Done(Reply::Unit),
                    Flow::Done(Err(e)) => Flow::Done(Reply::Failed(e)),
                }
            },
            Call::RemoveCapability(op) => {
                let flow = op.step(fs, reply);
                let ghost f = flow;
                let ghost a = before->RemoveCapability_0;
                assert(a.leads_to(*old(fs), reply, *op, *fs, f));
                match flow {
                    Flow::Do(a) => Flow::Do(a),
                    Flow::Done(_) => Flow::Done(Reply::Unit),
                }
            },
            Call::KillPriv(op) => {
                let flow = op.step(fs, reply);
                let ghost f = flow;
                let ghost a = before->KillPriv_0;
                assert(a.leads_to(*old(fs), reply, *op, *fs, f));
                match flow {
                    Flow::Do(a) => Flow::Do(a),
                    Flow::Done(_) => Flow::Done(Reply::Unit),
                }
            },
            Call::WriteAds(op) => {
                let flow = op.step(fs, reply);
                let ghost f = flow;
                let ghost a = before->WriteAds_0;
                assert(a.leads_to(*old(fs), reply, *op, *fs, f));
                match flow {
                    Flow::Do(a) => Flow::Do(a),
                    Flow::Done(Ok(_)) => Flow::Done(Reply::Unit),
                    Flow::Done(Err(e)) => Flow::Done(Reply::Failed(e)),
                }
            },
            Call::WriteSecctx(op) => {
                let flow = op.step(fs, reply);
                let ghost f = flow;
                let ghost a = before->WriteSecctx_0;
                assert(a.leads_to(*old(fs), reply, *op, *fs, f));
                match flow {
                    Flow::Do(a) => Flow::Do(a),
                    Flow::Done(Ok(_)) => Flow::Done(Reply::Unit),
                    Flow::Done(Err(e)) => Flow::Done(Reply::Failed(e)),
                }
            },
            Call::ListStreams(op) => {
                let flow = op.step(fs, reply);
                let ghost f = flow;
                let ghost a = before->ListStreams_0;
                assert(a.leads_to(*old(fs), reply, *op, *fs, f));
                match flow {
                    Flow::Do(a) => Flow::Do(a),
                    Flow::Done(Ok(n)) => Flow::Done(Reply::Names(n)),
                    Flow::Done(Err(e)) => Flow::Done(Reply::Failed(e)),
                }
            },
            Call::SetFileTimes(op) => {
                let flow = op.step(fs, reply);
                let ghost f = flow;
                let ghost a = before->SetFileTimes_0;
                assert(a.leads_to(*old(fs), reply, *op, *fs, f));
                match flow {
                    Flow::Do(a) => Flow::Do(a),
                    Flow::Done(Ok(_)) => Flow::Done(Reply::Unit),
                    Flow::Done(Err(e)) => Flow::Done(Reply::Failed(e)),
                }
            },
            Call::IsReadOnly(op) => {
                let flow = op.step(fs, reply);
                let ghost f = flow;
                let ghost a = before->IsReadOnly_0;
                assert(a.leads_to(*old(fs), reply, *op, *fs, f));
                match flow {
                    Flow::Do(a) => Flow::Do(a),
                    Flow::Done(out) => Flow::Done(Reply::Flag(out)),
                }
            },
            Call::Reopen(op) => {
                let flow = op.step(fs, reply);
                let ghost f = flow;
                let ghost a = before->Reopen_0;
                assert(a.leads_to(*old(fs), reply, *op, *fs, f));
                match flow {
                    Flow::Do(a) => Flow::Do(a),
                    Flow::Done(Ok(h)) => Flow::Done(Reply::Handle(h)),
                    Flow::Done(Err(e)) => Flow::Done(Reply::Failed(e)),
                }
            },
            Call::FillDirCache(op) => {
                let flow = op.step(fs, reply);
                let ghost f = flow;
                let ghost a = before->FillDirCache_0;
                assert(a.leads_to(*old(fs), reply, *op, *fs, f));
                match flow {
                    Flow::Do(a) => Flow::Do(a),
                    Flow::Done(Ok(_)) => Flow::Done(Reply::Unit),
                    Flow::Done(Err(e)) => Flow::Done(Reply::Failed(e)),
                }
            },
            Call::Lookup(op) => {
                let flow = op.step(fs, reply);
                let ghost f = flow;
                let ghost a = before->Lookup_0;
                assert(a.leads_to(*old(fs), reply, *op, *fs, f));
                match flow {
                    Flow::Do(a) => Flow::Do(a),
                    Flow::Done(Ok(e)) => Flow::Done(Reply::Entry(e)),
                    Flow::Done(Err(e)) => Flow::Done(Reply::Failed(e)),
                }
            },
            Call::Getattr(op) => {
                let flow = op.step(fs, reply);
                let ghost f = flow;
                let ghost a = before->Getattr_0;
                assert(a.leads_to(*old(fs), reply, *op, *fs, f));
                match flow {
                    Flow::Do(a) => Flow::Do(a),
                    Flow::Done(Ok((st, timeout))) => Flow::Done(Reply::Attr(st, timeout)),
                    Flow::Done(Err(e)) => Flow::Done(Reply::Failed(e)),
                }
            },
        }
    }

    proof fn step_balances(
        &self,
        fs: PassthroughFs,
        reply: Reply,
        next: Self,
        next_fs: PassthroughFs,
        flow: Flow<Self::Output>,
        r: Resource,
    ) {
        match (*self, next) {
            (Call::GetFileInfo(a), Call::GetFileInfo(b)) => {
                let f = choose|f: Flow<Result<FileInfo, FsError>>| #[trigger]
                    a.leads_to(fs, reply, b, next_fs, f) && flow == replied(
                        f,
                        |out: Result<FileInfo, FsError>| file_info_reply(out),
                    );
                a.step_balances(fs, reply, b, next_fs, f, r);
            },
            (Call::GetReparseTag(a), Call::GetReparseTag(b)) => {
                let f = choose|f: Flow<u32>| #[trigger]
                    a.leads_to(fs, reply, b, next_fs, f) && flow == replied(
                        f,
                        |out: u32| word_reply(out),
                    );
                a.step_balances(fs, reply, b, next_fs, f, r);
            },
            (Call::Stat(a), Call::Stat(b)) => {
                let f = choose|f: Flow<Stat64>| #[trigger]
                    a.leads_to(fs, reply, b, next_fs, f) && flow == replied(
                        f,
                        |out: Stat64| stat_reply(out),
                    );
                a.step_balances(fs, reply, b, next_fs, f, r);
            },
            (Call::ReadOverride(a), Call::ReadOverride(b)) => {
                let f = choose|f: Flow<OverrideStat>| #[trigger]
                    a.leads_to(fs, reply, b, next_fs, f) && flow == replied(
                        f,
                        |out: OverrideStat| override_reply(out),
                    );
                a.step_balances(fs, reply, b, next_fs, f, r);
            },
            (Call::WriteOverride(a), Call::WriteOverride(b)) => {
                let f = choose|f: Flow<Result<(), FsError>>| #[trigger]
                    a.leads_to(fs, reply, b, next_fs, f) && flow == replied(
                        f,
                        |out: Result<(), FsError>| done_reply(out),
                    );
                a.step_balances(fs, reply, b, next_fs, f, r);
            },
            (Call::RemoveCapability(a), Call::RemoveCapability(b)) => {
                let f = choose|f: Flow<()>| #[trigger]
                    a.leads_to(fs, reply, b, next_fs, f) && flow == replied(
                        f,
                        |out: ()| unit_reply(out),
                    );
                a.step_balances(fs, reply, b, next_fs, f, r);
            },
            (Call::KillPriv(a), Call::KillPriv(b)) => {
                let f = choose|f: Flow<()>| #[trigger]
                    a.leads_to(fs, reply, b, next_fs, f) && flow == replied(
                        f,
                        |out: ()| unit_reply(out),
                    );
                a.step_balances(fs, reply, b, next_fs, f, r);
            },
            (Call::WriteAds(a), Call::WriteAds(b)) => {
                let f = choose|f: Flow<Result<(), FsError>>| #[trigger]
                    a.leads_to(fs, reply, b, next_fs, f) && flow == replied(
                        f,
                        |out: Result<(), FsError>| done_reply(out),
                    );
                a.step_balances(fs, reply, b, next_fs, f, r);
            },
            (Call::WriteSecctx(a), Call::WriteSecctx(b)) => {
                let f = choose|f: Flow<Result<(), FsError>>| #[trigger]
                    a.leads_to(fs, reply, b, next_fs, f) && flow == replied(
                        f,
                        |out: Result<(), FsError>| done_reply(out),
                    );
                a.step_balances(fs, reply, b, next_fs, f, r);
            },
            (Call::ListStreams(a), Call::ListStreams(b)) => {
                let f = choose|f: Flow<Result<Vec<String>, FsError>>| #[trigger]
                    a.leads_to(fs, reply, b, next_fs, f) && flow == replied(
                        f,
                        |out: Result<Vec<String>, FsError>| names_reply(out),
                    );
                a.step_balances(fs, reply, b, next_fs, f, r);
            },
            (Call::SetFileTimes(a), Call::SetFileTimes(b)) => {
                let f = choose|f: Flow<Result<(), FsError>>| #[trigger]
                    a.leads_to(fs, reply, b, next_fs, f) && flow == replied(
                        f,
                        |out: Result<(), FsError>| done_reply(out),
                    );
                a.step_balances(fs, reply, b, next_fs, f, r);
            },
            (Call::IsReadOnly(a), Call::IsReadOnly(b)) => {
                let f = choose|f: Flow<bool>| #[trigger]
                    a.leads_to(fs, reply, b, next_fs, f) && flow == replied(
                        f,
                        |out: bool| flag_reply(out),
                    );
                a.step_balances(fs, reply, b, next_fs, f, r);
            },
            (Call::Reopen(a), Call::Reopen(b)) => {
                let f = choose|f: Flow<Result<u64, FsError>>| #[trigger]
                    a.leads_to(fs, reply, b, next_fs, f) && flow == replied(
                        f,
                        |out: Result<u64, FsError>| handle_reply(out),
                    );
                a.step_balances(fs, reply, b, next_fs, f, r);
            },
            (Call::FillDirCache(a), Call::FillDirCache(b)) => {
                let f = choose|f: Flow<Result<(), FsError>>| #[trigger]
                    a.leads_to(fs, reply, b, next_fs, f) && flow == replied(
                        f,
                        |out: Result<(), FsError>| done_reply(out),
                    );
                a.step_balances(fs, reply, b, next_fs, f, r);
            },
            (Call::Lookup(a), Call::Lookup(b)) => {
                let f = choose|f: Flow<Result<Entry, FsError>>| #[trigger]
                    a.leads_to(fs, reply, b, next_fs, f) && flow == replied(
                        f,
                        |out: Result<Entry, FsError>| entry_reply(out),
                    );
                a.step_balances(fs, reply, b, next_fs, f, r);
            },
            (Call::Getattr(a), Call::Getattr(b)) => {
                let f = choose|f: Flow<Result<(Stat64, Timeout), FsError>>| #[trigger]
                    a.leads_to(fs, reply, b, next_fs, f) && flow == replied(
                        f,
                        |out: Result<(Stat64, Timeout), FsError>| attr_reply(out),
                    );
                a.step_balances(fs, reply, b, next_fs, f, r);
            },
            _ => {},
        }
    }
}

/// A call stays the one that was asked for, and what it ends with answers the action.
pub proof fn law_call_answers(
    action: Action,
    call: Call,
    fs: PassthroughFs,
    reply: Reply,
    next: Call,
    next_fs: PassthroughFs,
    flow: Flow<Reply>,
)
    requires
        is_for(action, call),
        call.expects(reply),
        call.leads_to(fs, reply, next, next_fs, flow),
    ensures
        is_for(action, next),
        flow matches Flow::Done(r) ==> answers(r, action),
{
}

/// Whatever the host answers, a call that has ended has ended with a reply that can answer
/// the action that asked for it.
pub proof fn law_calls_are_answered(action: Action, steps: Seq<Step<Call>>, end: Reply)
    requires
        steps.len() > 0,
        are_steps(steps),
        starts(action, steps[0].before),
        steps.last().flow == Flow::Done(end),
    ensures
        answers(end, action),
{
    lemma_stays(action, steps);
    let s = steps.last();
    law_call_answers(action, s.before, s.fs_before, s.reply, s.after, s.fs_after, s.flow);
}

proof fn lemma_stays(action: Action, steps: Seq<Step<Call>>)
    requires
        steps.len() > 0,
        are_steps(steps),
        starts(action, steps[0].before),
    ensures
        is_for(action, steps.last().before),
        is_step(steps.last()),
    decreases steps.len(),
{
    lemma_fewer_steps(steps);
    let init = steps.drop_last();
    if init.len() > 0 {
        lemma_stays(action, init);
        let s = init.last();
        law_call_answers(action, s.before, s.fs_before, s.reply, s.after, s.fs_after, s.flow);
    }
}

/// Setting attributes ends with what getting them ends with: of the same file, through the
/// same handle.
pub proof fn law_setattr_ends_with_getattr(
    op: Setattr,
    next: Setattr,
    flow: Flow<Result<(Stat64, Timeout), FsError>>,
    action: Action,
    get: DoGetattr,
    out: Result<(Stat64, Timeout), FsError>,
    fs: PassthroughFs,
    last: Setattr,
    last_flow: Flow<Result<(Stat64, Timeout), FsError>>,
)
    requires
        op.gets(next, flow),
        flow == Flow::<Result<(Stat64, Timeout), FsError>>::Do(action),
        starts(action, Call::Getattr(get)),
        next.leads_to(fs, attr_reply(out), last, fs, last_flow),
    ensures
        get.inode == op.inode,
        get.handle == op.handle,
        last_flow.ends(out),
{
}

/// An access is checked against what getting the attributes ends with, and fails as that
/// fails.
pub proof fn law_access_goes_by_getattr(
    op: Access,
    next: Access,
    flow: Flow<Result<(), FsError>>,
    action: Action,
    get: DoGetattr,
    out: Result<(Stat64, Timeout), FsError>,
    fs: PassthroughFs,
    last: Access,
    last_flow: Flow<Result<(), FsError>>,
)
    requires
        op.phase == AccessPhase::Start,
        op.leads_to(fs, Reply::Begin, next, fs, flow),
        flow == Flow::<Result<(), FsError>>::Do(action),
        starts(action, Call::Getattr(get)),
        next.leads_to(fs, attr_reply(out), last, fs, last_flow),
    ensures
        get.inode == op.inode,
        get.handle is None,
        match out {
            Ok((st, _)) => last_flow.ends(
                if access_granted(op.ctx, st, op.mask) {
                    Ok(())
                } else {
                    Err(FsError::linux(EACCES))
                },
            ),
            Err(e) => last_flow.ends(Err(e)),
        },
{
}

/// Making a file ends with what looking it up ends with: in the same directory, under the
/// same name.
pub proof fn law_made_file_is_looked_up(
    op: MakeNode,
    dir: u64,
    child: u64,
    fs: PassthroughFs,
    next: MakeNode,
    flow: Flow<Result<Entry, FsError>>,
    action: Action,
    look: DoLookup,
    out: Result<Entry, FsError>,
    last: MakeNode,
    last_flow: Flow<Result<Entry, FsError>>,
)
    requires
        op.phase == (MakePhase::Recording { dir, child }),
        op.leads_to(fs, Reply::Unit, next, fs, flow),
        flow == Flow::<Result<Entry, FsError>>::Do(action),
        starts(action, Call::Lookup(look)),
        next.leads_to(fs, entry_reply(out), last, fs, last_flow),
    ensures
        look.parent == op.parent,
        look.name@ == op.name@,
        last.phase == (MakePhase::ClosingChild { dir, out }),
{
}

/// Looking a name up asks for the attributes of the file that it found, under the number
/// that it gave the file.
pub proof fn law_lookup_stats_the_file(
    op: DoLookup,
    info: FileInfo,
    inode: u64,
    fs: PassthroughFs,
    reply: Reply,
    next: DoLookup,
    flow: Flow<Result<Entry, FsError>>,
    action: Action,
    st: StatPath,
)
    requires
        op.phase == (LookupPhase::Attributes { info, inode }),
        op.leads_to(fs, reply, next, fs, flow),
        flow == Flow::<Result<Entry, FsError>>::Do(action),
        starts(action, Call::Stat(st)),
    ensures
        st.inode == inode,
        st.path@ == op.child_path@,
        st.n_link == info.n_number_of_links,
        reply == Reply::Meta(st.meta),
{
}

} // verus!
