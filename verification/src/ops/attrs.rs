//! Changing and checking attributes.

use crate::config::Timeout;
use crate::errno::{EACCES, EBADF, EINVAL, FsError};
use crate::fs::PassthroughFs;
use crate::host::{one, Action, Flow, Reply, Resource};
use crate::linux::{SETATTR_ATIME, SETATTR_ATIME_NOW, SETATTR_GID, SETATTR_MODE, SETATTR_MTIME};
use crate::linux::{SETATTR_MTIME_NOW, SETATTR_SIZE, SETATTR_UID};
use crate::operation::{are_steps, is_step, Operation, Step};
use crate::ops::data::reopens_to_write;
use crate::override_stat::{clear_suid_sgid, without_suid_sgid, OverrideStat};
use crate::stat::{access_granted, check_access, Context, Stat64};
use crate::time::{as_word, filetime_of, fits_filetime, is_unix_time, signed_to_word};
use crate::time::unix_to_filetime;
use crate::win::{GENERIC_READ, GENERIC_WRITE};
use vstd::pervasive::unreached;
use vstd::prelude::*;

verus! {

/// How far checking an access has come.
#[derive(Clone, Copy)]
pub enum AccessPhase {
    Start,
    Getting,
    Over,
}

/// Checks whether the guest may access a file, by the recorded owner and mode.
pub struct Access {
    pub ctx: Context,
    pub inode: u64,
    pub mask: u32,
    pub phase: AccessPhase,
}

pub fn access(ctx: Context, inode: u64, mask: u32) -> (r: Access)
    ensures
        r == (Access { ctx, inode, mask, phase: AccessPhase::Start }),
{
    Access { ctx, inode, mask, phase: AccessPhase::Start }
}

impl Operation for Access {
    type Output = Result<(), FsError>;

    open spec fn expects(&self, reply: Reply) -> bool {
        match self.phase {
            AccessPhase::Start => reply is Begin,
            AccessPhase::Getting => reply is Attr || reply is Failed,
            AccessPhase::Over => false,
        }
    }

    open spec fn leads_to(
        &self,
        fs: PassthroughFs,
        reply: Reply,
        next: Self,
        next_fs: PassthroughFs,
        flow: Flow<Self::Output>,
    ) -> bool {
        &&& next_fs == fs
        &&& next == (Access { phase: next.phase, ..*self })
        &&& match self.phase {
            AccessPhase::Start => {
                &&& next.phase == AccessPhase::Getting
                &&& flow.does(Action::Getattr { inode: self.inode, handle: None })
            },
            AccessPhase::Getting => match reply {
                Reply::Attr(st, _) => {
                    &&& next.phase is Over
                    &&& flow.ends(
                        if access_granted(self.ctx, st, self.mask) {
                            Ok(())
                        } else {
                            Err(FsError::linux(EACCES))
                        },
                    )
                },
                Reply::Failed(e) => next.phase is Over && flow.ends(Err(e)),
                _ => false,
            },
            AccessPhase::Over => false,
        }
    }

    open spec fn holds(&self, r: Resource) -> int {
        0
    }

    open spec fn hands_over(out: Self::Output, r: Resource) -> int {
        0
    }

    fn step(&mut self, fs: &mut PassthroughFs, reply: Reply) -> (flow: Flow<Self::Output>) {
        match self.phase {
            AccessPhase::Start => {
                self.phase = AccessPhase::Getting;
                Flow::Do(Action::Getattr { inode: self.inode, handle: None })
            },
            AccessPhase::Getting => {
                self.phase = AccessPhase::Over;
                match reply {
                    Reply::Attr(st, _) => Flow::Done(check_access(self.ctx, &st, self.mask)),
                    Reply::Failed(e) => Flow::Done(Err(e)),
                    _ => unreached(),
                }
            },
            AccessPhase::Over => unreached(),
        }
    }

    proof fn step_balances(
        &self,
        fs: PassthroughFs,
        reply: Reply,
        next: Self,
        next_fs: PassthroughFs,
        flow: Flow<Self::Output>,
        r: Resource,
    ) {
    }
}

/// Whether an attribute is to be set.
pub open spec fn sets(valid: u32, attribute: u32) -> bool {
    valid & attribute == attribute
}

/// Whether the owner is to be set.
pub open spec fn sets_owner(valid: u32) -> bool {
    valid & (SETATTR_UID | SETATTR_GID) != 0
}

/// Whether a time is to be set.
pub open spec fn sets_times(valid: u32) -> bool {
    valid & (SETATTR_ATIME | SETATTR_MTIME | SETATTR_ATIME_NOW | SETATTR_MTIME_NOW) != 0
}

/// The record after owner and mode were set. Setting the owner removes the set-id bits,
/// unless the mode is set too.
pub open spec fn with_owner_and_mode(o: OverrideStat, attr: Stat64, valid: u32) -> OverrideStat {
    OverrideStat {
        uid: if sets(valid, SETATTR_UID) {
            Some(attr.st_uid)
        } else {
            o.uid
        },
        gid: if sets(valid, SETATTR_GID) {
            Some(attr.st_gid)
        } else {
            o.gid
        },
        mode: if sets(valid, SETATTR_MODE) {
            Some(attr.st_mode)
        } else if sets_owner(valid) {
            cleared(o.mode)
        } else {
            o.mode
        },
    }
}

/// A recorded mode without its set-id bits.
pub open spec fn cleared(mode: Option<u32>) -> Option<u32> {
    match mode {
        Some(m) => Some(without_suid_sgid(m)),
        None => None,
    }
}

fn clear(mode: Option<u32>) -> (r: Option<u32>)
    ensures
        r == cleared(mode),
{
    match mode {
        Some(m) => Some(clear_suid_sgid(m)),
        None => None,
    }
}

fn set_owner_and_mode(o: OverrideStat, attr: &Stat64, valid: u32) -> (r: OverrideStat)
    ensures
        r == with_owner_and_mode(o, *attr, valid),
{
    let mut r = o;
    if (valid & SETATTR_MODE) == SETATTR_MODE {
        r.mode = Some(attr.st_mode);
    }
    if (valid & SETATTR_UID) == SETATTR_UID {
        r.uid = Some(attr.st_uid);
    }
    if (valid & SETATTR_GID) == SETATTR_GID {
        r.gid = Some(attr.st_gid);
    }
    if (valid & (SETATTR_UID | SETATTR_GID)) != 0 && (valid & SETATTR_MODE) != SETATTR_MODE {
        r.mode = clear(r.mode);
    }
    r
}

/// A file whose owner is set loses its set-id bits, unless the mode is set with it.
pub proof fn law_chown_removes_set_id_bits(o: OverrideStat, attr: Stat64, valid: u32)
    requires
        sets_owner(valid),
    ensures
        with_owner_and_mode(o, attr, valid).mode == if sets(valid, SETATTR_MODE) {
            Some(attr.st_mode)
        } else {
            cleared(o.mode)
        },
{
}

/// A record stays as it is if neither owner nor mode is set.
pub proof fn law_record_stays(o: OverrideStat, attr: Stat64, valid: u32)
    requires
        !sets_owner(valid),
        !sets(valid, SETATTR_MODE),
    ensures
        with_owner_and_mode(o, attr, valid) == o,
{
    assert(valid & (2u32 | 4u32) == 0 ==> valid & 2u32 != 2u32 && valid & 4u32 != 4u32)
        by (bit_vector);
}

/// The owner that is written: only if both parts of it are known.
pub open spec fn owner_of(o: OverrideStat) -> Option<(u32, u32)> {
    match (o.uid, o.gid) {
        (Some(u), Some(g)) => Some((u, g)),
        _ => None,
    }
}

/// A time that is to be set: the time of the host, a given one, or none.
pub open spec fn chosen_time(
    now: bool,
    given: bool,
    now_ft: int,
    secs: i64,
    nsec: u32,
) -> Option<u64> {
    if now {
        Some(now_ft as u64)
    } else if given {
        Some(filetime_of(secs, nsec) as u64)
    } else {
        None
    }
}

fn choose_time(now: bool, given: bool, now_ft: u64, secs: i64, nsec: u32) -> (r: Option<u64>)
    requires
        !now && given ==> is_unix_time(secs, nsec),
    ensures
        r == chosen_time(now, given, now_ft as int, secs, nsec),
{
    if now {
        Some(now_ft)
    } else if given {
        Some(unix_to_filetime(secs, nsec))
    } else {
        None
    }
}

/// How far setting attributes has come.
#[derive(Clone, Copy)]
pub enum SetattrPhase {
    Start,
    Reading,
    Stripping,
    Checking { handle: u64 },
    Opening,
    Resizing { file: u64 },
    Closing { failed: Option<FsError> },
    SizeStripping,
    Recording,
    Timing,
    SettingTimes,
    Getting,
    Over,
}

/// Sets attributes of a file, and gets the new ones. A new size or a new owner removes
/// what gives the file privileges.
pub struct Setattr {
    pub inode: u64,
    pub attr: Stat64,
    pub handle: Option<u64>,
    pub valid: u32,
    pub path: String,
    /// The record as it will be.
    pub record: OverrideStat,
    /// Whether the record differs from what is written.
    pub changed: bool,
    pub phase: SetattrPhase,
}

/// Whether the given times can be counted by the host.
pub open spec fn times_fit(attr: Stat64, valid: u32) -> bool {
    &&& sets(valid, SETATTR_ATIME) && !sets(valid, SETATTR_ATIME_NOW) ==> is_unix_time(
        attr.st_atime,
        attr.st_atime_nsec,
    )
    &&& sets(valid, SETATTR_MTIME) && !sets(valid, SETATTR_MTIME_NOW) ==> is_unix_time(
        attr.st_mtime,
        attr.st_mtime_nsec,
    )
}

fn can_set_times(attr: &Stat64, valid: u32) -> (r: bool)
    ensures
        r == times_fit(*attr, valid),
{
    let atime: bool = (valid & SETATTR_ATIME) == SETATTR_ATIME && (valid & SETATTR_ATIME_NOW)
        != SETATTR_ATIME_NOW;
    let mtime: bool = (valid & SETATTR_MTIME) == SETATTR_MTIME && (valid & SETATTR_MTIME_NOW)
        != SETATTR_MTIME_NOW;
    (!atime || fits_filetime(attr.st_atime, attr.st_atime_nsec)) && (!mtime || fits_filetime(
        attr.st_mtime,
        attr.st_mtime_nsec,
    ))
}

pub fn setattr(inode: u64, attr: Stat64, handle: Option<u64>, valid: u32) -> (r: Setattr)
    ensures
        r.inode == inode,
        r.attr == attr,
        r.handle == handle,
        r.valid == valid,
        r.phase == SetattrPhase::Start,
{
    Setattr {
        inode,
        attr,
        handle,
        valid,
        path: String::new(),
        record: OverrideStat::none(),
        changed: false,
        phase: SetattrPhase::Start,
    }
}

impl Setattr {
    /// Everything but the phase stays.
    pub open spec fn at(self, phase: SetattrPhase) -> Setattr {
        Setattr { phase, ..self }
    }

    /// The size is set if it is to be set.
    pub open spec fn sizes(
        self,
        next: Setattr,
        flow: Flow<Result<(Stat64, Timeout), FsError>>,
    ) -> bool {
        if sets(self.valid, SETATTR_SIZE) {
            match self.handle {
                Some(handle) => {
                    &&& next == self.at(SetattrPhase::Checking { handle })
                    &&& flow.does(Action::IsReadOnly { handle })
                },
                None => {
                    &&& next == self.at(SetattrPhase::Opening)
                    &&& flow matches Flow::Do(Action::OpenWrite { path })
                    &&& path@ == self.path@
                },
            }
        } else {
            self.records(next, flow)
        }
    }

    /// The record is written if it changed.
    pub open spec fn records(
        self,
        next: Setattr,
        flow: Flow<Result<(Stat64, Timeout), FsError>>,
    ) -> bool {
        if self.changed {
            &&& next == self.at(SetattrPhase::Recording)
            &&& flow matches Flow::Do(Action::WriteOverride { path, owner, mode })
            &&& path@ == self.path@
            &&& owner == owner_of(self.record)
            &&& mode == self.record.mode
        } else {
            self.times(next, flow)
        }
    }

    /// The times are set if some are to be set.
    pub open spec fn times(
        self,
        next: Setattr,
        flow: Flow<Result<(Stat64, Timeout), FsError>>,
    ) -> bool {
        if sets_times(self.valid) {
            next == self.at(SetattrPhase::Timing) && flow.does(Action::Now)
        } else {
            self.gets(next, flow)
        }
    }

    /// The new attributes are asked for.
    pub open spec fn gets(
        self,
        next: Setattr,
        flow: Flow<Result<(Stat64, Timeout), FsError>>,
    ) -> bool {
        &&& next == self.at(SetattrPhase::Getting)
        &&& flow.does(Action::Getattr { inode: self.inode, handle: self.handle })
    }

    /// The access time that is set.
    pub open spec fn atime(self, now_ft: int) -> Option<u64> {
        chosen_time(
            sets(self.valid, SETATTR_ATIME_NOW),
            sets(self.valid, SETATTR_ATIME),
            now_ft,
            self.attr.st_atime,
            self.attr.st_atime_nsec,
        )
    }

    /// The modification time that is set.
    pub open spec fn mtime(self, now_ft: int) -> Option<u64> {
        chosen_time(
            sets(self.valid, SETATTR_MTIME_NOW),
            sets(self.valid, SETATTR_MTIME),
            now_ft,
            self.attr.st_mtime,
            self.attr.st_mtime_nsec,
        )
    }

    fn get(&mut self) -> (flow: Flow<Result<(Stat64, Timeout), FsError>>)
        ensures
            old(self).gets(*final(self), flow),
    {
        self.phase = SetattrPhase::Getting;
        Flow::Do(Action::Getattr { inode: self.inode, handle: self.handle })
    }

    fn time(&mut self) -> (flow: Flow<Result<(Stat64, Timeout), FsError>>)
        ensures
            old(self).times(*final(self), flow),
    {
        if (self.valid & (SETATTR_ATIME | SETATTR_MTIME | SETATTR_ATIME_NOW | SETATTR_MTIME_NOW))
            != 0 {
            self.phase = SetattrPhase::Timing;
            return Flow::Do(Action::Now);
        }
        self.get()
    }

    fn record(&mut self) -> (flow: Flow<Result<(Stat64, Timeout), FsError>>)
        ensures
            old(self).records(*final(self), flow),
    {
        if self.changed {
            self.phase = SetattrPhase::Recording;
            let owner = match (self.record.uid, self.record.gid) {
                (Some(u), Some(g)) => Some((u, g)),
                _ => None,
            };
            return Flow::Do(
                Action::WriteOverride { path: self.path.clone(), owner, mode: self.record.mode },
            );
        }
        self.time()
    }

    fn size(&mut self) -> (flow: Flow<Result<(Stat64, Timeout), FsError>>)
        ensures
            old(self).sizes(*final(self), flow),
    {
        if (self.valid & SETATTR_SIZE) != SETATTR_SIZE {
            return self.record();
        }
        match self.handle {
            Some(handle) => {
                self.phase = SetattrPhase::Checking { handle };
                Flow::Do(Action::IsReadOnly { handle })
            },
            None => {
                self.phase = SetattrPhase::Opening;
                Flow::Do(Action::OpenWrite { path: self.path.clone() })
            },
        }
    }
}

impl Operation for Setattr {
    type Output = Result<(Stat64, Timeout), FsError>;

    open spec fn expects(&self, reply: Reply) -> bool {
        match self.phase {
            SetattrPhase::Start => reply is Begin,
            SetattrPhase::Reading => reply is Override,
            SetattrPhase::Stripping => reply is Unit,
            SetattrPhase::Checking { .. } => reply is Flag,
            SetattrPhase::Opening => reply.opened(),
            SetattrPhase::Resizing { .. } => reply.done(),
            SetattrPhase::Closing { .. } => reply is Unit,
            SetattrPhase::SizeStripping => reply is Unit,
            SetattrPhase::Recording => reply.done(),
            SetattrPhase::Timing => {
                reply matches Reply::Time { secs, nsec } && is_unix_time(secs, nsec)
            },
            SetattrPhase::SettingTimes => reply.done(),
            SetattrPhase::Getting => reply is Attr || reply is Failed,
            SetattrPhase::Over => false,
        }
    }

    open spec fn leads_to(
        &self,
        fs: PassthroughFs,
        reply: Reply,
        next: Self,
        next_fs: PassthroughFs,
        flow: Flow<Self::Output>,
    ) -> bool {
        &&& next_fs == fs
        &&& match self.phase {
            SetattrPhase::Start => if fs.knows(self.inode) {
                &&& next == (Setattr { path: next.path, phase: SetattrPhase::Reading, ..*self })
                &&& next.path@ == fs.path_of(self.inode)
                &&& flow matches Flow::Do(Action::ReadOverride { path })
                &&& path@ == next.path@
            } else {
                next.phase is Over && flow.ends(Err(FsError::linux(EBADF)))
            },
            SetattrPhase::Reading => match reply {
                Reply::Override(o) => {
                    let ready = Setattr {
                        record: with_owner_and_mode(o, self.attr, self.valid),
                        changed: sets(self.valid, SETATTR_MODE) || sets_owner(self.valid),
                        ..*self
                    };
                    if sets_owner(self.valid) {
                        &&& next == ready.at(SetattrPhase::Stripping)
                        &&& flow matches Flow::Do(Action::RemoveCapability { path })
                        &&& path@ == self.path@
                    } else {
                        ready.sizes(next, flow)
                    }
                },
                _ => false,
            },
            SetattrPhase::Stripping => self.sizes(next, flow),
            SetattrPhase::Checking { handle } => match reply {
                Reply::Flag(read_only) => if read_only {
                    next.phase is Over && flow.ends(Err(FsError::linux(EBADF)))
                } else {
                    &&& next == self.at(SetattrPhase::Opening)
                    &&& reopens_to_write(flow, self.inode, handle)
                },
                _ => false,
            },
            SetattrPhase::Opening => match reply {
                Reply::Handle(file) => {
                    &&& next == self.at(SetattrPhase::Resizing { file })
                    &&& flow matches Flow::Do(Action::SetLength { handle, length })
                    &&& handle == file
                    &&& length == as_word(self.attr.st_size as int)
                },
                Reply::Failed(e) => next.phase is Over && flow.ends(Err(e.once_more())),
                _ => false,
            },
            SetattrPhase::Resizing { file } => {
                &&& flow.closes(file)
                &&& match reply {
                    Reply::Unit => next == self.at(SetattrPhase::Closing { failed: None }),
                    Reply::Failed(e) => next == self.at(
                        SetattrPhase::Closing { failed: Some(e.once_more()) },
                    ),
                    _ => false,
                }
            },
            SetattrPhase::Closing { failed } => match failed {
                Some(e) => next.phase is Over && flow.ends(Err(e)),
                None => {
                    &&& next == self.at(SetattrPhase::SizeStripping)
                    &&& flow matches Flow::Do(Action::RemoveCapability { path })
                    &&& path@ == self.path@
                },
            },
            SetattrPhase::SizeStripping => {
                let mode = cleared(self.record.mode);
                (Setattr {
                    record: OverrideStat { mode, ..self.record },
                    changed: self.changed || mode != self.record.mode,
                    ..*self
                }).records(next, flow)
            },
            SetattrPhase::Recording => match reply {
                Reply::Unit => self.times(next, flow),
                Reply::Failed(e) => next.phase is Over && flow.ends(Err(e)),
                _ => false,
            },
            SetattrPhase::Timing => match reply {
                Reply::Time { secs, nsec } => if !times_fit(self.attr, self.valid) {
                    next.phase is Over && flow.ends(Err(FsError::linux(EINVAL)))
                } else {
                    &&& next == self.at(SetattrPhase::SettingTimes)
                    &&& flow matches Flow::Do(Action::SetFileTimes { path, atime, mtime })
                    &&& path@ == self.path@
                    &&& atime == self.atime(filetime_of(secs, nsec))
                    &&& mtime == self.mtime(filetime_of(secs, nsec))
                },
                _ => false,
            },
            SetattrPhase::SettingTimes => match reply {
                Reply::Unit => self.gets(next, flow),
                Reply::Failed(e) => next.phase is Over && flow.ends(Err(e.once_more())),
                _ => false,
            },
            SetattrPhase::Getting => match reply {
                Reply::Attr(st, timeout) => next.phase is Over && flow.ends(Ok((st, timeout))),
                Reply::Failed(e) => next.phase is Over && flow.ends(Err(e)),
                _ => false,
            },
            SetattrPhase::Over => false,
        }
    }

    open spec fn holds(&self, r: Resource) -> int {
        match self.phase {
            SetattrPhase::Resizing { file } => one(Resource::Handle(file), r),
            _ => 0,
        }
    }

    open spec fn hands_over(out: Self::Output, r: Resource) -> int {
        0
    }

    fn step(&mut self, fs: &mut PassthroughFs, reply: Reply) -> (flow: Flow<Self::Output>) {
        match self.phase {
            SetattrPhase::Start => match fs.inode_path(self.inode) {
                Ok(path) => {
                    self.path = path.clone();
                    self.phase = SetattrPhase::Reading;
                    Flow::Do(Action::ReadOverride { path })
                },
                Err(e) => {
                    self.phase = SetattrPhase::Over;
                    Flow::Done(Err(e))
                },
            },
            SetattrPhase::Reading => match reply {
                Reply::Override(o) => {
                    let owner: bool = (self.valid & (SETATTR_UID | SETATTR_GID)) != 0;
                    let attr = self.attr;
                    self.record = set_owner_and_mode(o, &attr, self.valid);
                    self.changed = (self.valid & SETATTR_MODE) == SETATTR_MODE || owner;
                    if owner {
                        self.phase = SetattrPhase::Stripping;
                        return Flow::Do(Action::RemoveCapability { path: self.path.clone() });
                    }
                    self.size()
                },
                _ => unreached(),
            },
            SetattrPhase::Stripping => self.size(),
            SetattrPhase::Checking { handle } => match reply {
                Reply::Flag(read_only) => {
                    if read_only {
                        self.phase = SetattrPhase::Over;
                        return Flow::Done(Err(FsError::errno(EBADF)));
                    }
                    self.phase = SetattrPhase::Opening;
                    Flow::Do(
                        Action::Reopen {
                            inode: self.inode,
                            handle,
                            desired_access: GENERIC_READ | GENERIC_WRITE,
                        },
                    )
                },
                _ => unreached(),
            },
            SetattrPhase::Opening => match reply {
                Reply::Handle(file) => {
                    self.phase = SetattrPhase::Resizing { file };
                    let length: u64 = signed_to_word(self.attr.st_size);
                    Flow::Do(Action::SetLength { handle: file, length })
                },
                Reply::Failed(e) => {
                    self.phase = SetattrPhase::Over;
                    Flow::Done(Err(e.translated()))
                },
                _ => unreached(),
            },
            SetattrPhase::Resizing { file } => {
                let failed = match reply {
                    Reply::Unit => None,
                    Reply::Failed(e) => Some(e.translated()),
                    _ => unreached(),
                };
                self.phase = SetattrPhase::Closing { failed };
                Flow::Do(Action::Close { handle: file })
            },
            SetattrPhase::Closing { failed } => {
                if let Some(e) = failed {
                    self.phase = SetattrPhase::Over;
                    return Flow::Done(Err(e));
                }
                self.phase = SetattrPhase::SizeStripping;
                Flow::Do(Action::RemoveCapability { path: self.path.clone() })
            },
            SetattrPhase::SizeStripping => {
                if let Some(m) = self.record.mode {
                    let new_mode: u32 = clear_suid_sgid(m);
                    if new_mode != m {
                        self.record.mode = Some(new_mode);
                        self.changed = true;
                    }
                }
                self.record()
            },
            SetattrPhase::Recording => match reply {
                Reply::Unit => self.time(),
                Reply::Failed(e) => {
                    self.phase = SetattrPhase::Over;
                    Flow::Done(Err(e))
                },
                _ => unreached(),
            },
            SetattrPhase::Timing => match reply {
                Reply::Time { secs, nsec } => {
                    if !can_set_times(&self.attr, self.valid) {
                        self.phase = SetattrPhase::Over;
                        return Flow::Done(Err(FsError::errno(EINVAL)));
                    }
                    self.phase = SetattrPhase::SettingTimes;
                    let now_ft: u64 = unix_to_filetime(secs, nsec);
                    let atime = choose_time(
                        (self.valid & SETATTR_ATIME_NOW) == SETATTR_ATIME_NOW,
                        (self.valid & SETATTR_ATIME) == SETATTR_ATIME,
                        now_ft,
                        self.attr.st_atime,
                        self.attr.st_atime_nsec,
                    );
                    let mtime = choose_time(
                        (self.valid & SETATTR_MTIME_NOW) == SETATTR_MTIME_NOW,
                        (self.valid & SETATTR_MTIME) == SETATTR_MTIME,
                        now_ft,
                        self.attr.st_mtime,
                        self.attr.st_mtime_nsec,
                    );
                    Flow::Do(Action::SetFileTimes { path: self.path.clone(), atime, mtime })
                },
                _ => unreached(),
            },
            SetattrPhase::SettingTimes => match reply {
                Reply::Unit => self.get(),
                Reply::Failed(e) => {
                    self.phase = SetattrPhase::Over;
                    Flow::Done(Err(e.translated()))
                },
                _ => unreached(),
            },
            SetattrPhase::Getting => {
                self.phase = SetattrPhase::Over;
                match reply {
                    Reply::Attr(st, timeout) => Flow::Done(Ok((st, timeout))),
                    Reply::Failed(e) => Flow::Done(Err(e)),
                    _ => unreached(),
                }
            },
            SetattrPhase::Over => unreached(),
        }
    }

    proof fn step_balances(
        &self,
        fs: PassthroughFs,
        reply: Reply,
        next: Self,
        next_fs: PassthroughFs,
        flow: Flow<Self::Output>,
        r: Resource,
    ) {
    }
}

/// A file that gets a new size loses its capabilities and its set-id bits: what is recorded
/// afterwards has none, and it is recorded if that changes it.
pub proof fn law_resizing_removes_set_id_bits(
    op: Setattr,
    mode: u32,
    fs: PassthroughFs,
    reply: Reply,
    next: Setattr,
    flow: Flow<Result<(Stat64, Timeout), FsError>>,
)
    requires
        op.phase == SetattrPhase::SizeStripping,
        op.record.mode == Some(mode),
        op.leads_to(fs, reply, next, fs, flow),
    ensures
        next.record.mode == Some(without_suid_sgid(mode)),
        without_suid_sgid(mode) != mode ==> (flow matches Flow::Do(
            Action::WriteOverride { mode: recorded, .. },
        ) && recorded == Some(without_suid_sgid(mode))),
{
}

/// Whether a step of setting attributes leaves the file and its record as they are: it looks
/// at them, or removes capabilities.
pub open spec fn leaves_file(flow: Flow<Result<(Stat64, Timeout), FsError>>) -> bool {
    flow matches Flow::Do(a) ==> a is ReadOverride || a is RemoveCapability || a is IsReadOnly
}

proof fn lemma_before_resizing(steps: Seq<Step<Setattr>>, i: int)
    requires
        are_steps(steps),
        0 <= i < steps.len(),
        steps[0].before.phase == SetattrPhase::Start,
        steps[0].before.handle is Some,
        sets(steps[0].before.valid, SETATTR_SIZE),
        forall|j: int|
            0 <= j < steps.len() && (#[trigger] steps[j]).reply is Flag ==> steps[j].reply
                == Reply::Flag(true),
    ensures
        leaves_file(steps[i].flow),
        steps[i].after.phase is Over ==> steps[i].flow == Flow::<
            Result<(Stat64, Timeout), FsError>,
        >::Done(Err(FsError::linux(EBADF))),
        steps[i].after.phase !is Over ==> {
            &&& steps[i].after.handle == steps[0].before.handle
            &&& steps[i].after.valid == steps[0].before.valid
            &&& steps[i].after.phase is Reading || steps[i].after.phase is Stripping
                || steps[i].after.phase is Checking
        },
    decreases i,
{
    assert(is_step(steps[i]));
    if i > 0 {
        lemma_before_resizing(steps, i - 1);
        assert(steps[i].before == steps[i - 1].after);
    }
}

/// A new size through a handle without write access is refused, whatever else is to be set,
/// and neither the file nor its record was changed before.
pub proof fn law_read_only_handle_is_not_resized(steps: Seq<Step<Setattr>>)
    requires
        steps.len() > 0,
        are_steps(steps),
        steps[0].before.phase == SetattrPhase::Start,
        steps[0].before.handle is Some,
        sets(steps[0].before.valid, SETATTR_SIZE),
        forall|j: int|
            0 <= j < steps.len() && (#[trigger] steps[j]).reply is Flag ==> steps[j].reply
                == Reply::Flag(true),
        steps.last().flow is Done,
    ensures
        steps.last().flow == Flow::<Result<(Stat64, Timeout), FsError>>::Done(
            Err(FsError::linux(EBADF)),
        ),
        forall|i: int| 0 <= i < steps.len() ==> leaves_file((#[trigger] steps[i]).flow),
{
    assert forall|i: int| 0 <= i < steps.len() implies leaves_file(
        (#[trigger] steps[i]).flow,
    ) by {
        lemma_before_resizing(steps, i);
    }
    lemma_before_resizing(steps, steps.len() - 1);
    assert(is_step(steps[steps.len() - 1]));
}

} // verus!
