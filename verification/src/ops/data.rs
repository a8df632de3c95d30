//! The contents of files.

use crate::errno::{EBADF, EFBIG, EINVAL, FsError};
use crate::fs::PassthroughFs;
use crate::host::{one, Action, Flow, Reply, Resource};
use crate::linux::{SEEK_CUR, SEEK_DATA, SEEK_END, SEEK_HOLE, SEEK_SET, SETUPMAPPING_WRITE};
use crate::operation::Operation;
use crate::time::as_signed;
use crate::win::{FILE_MAP_READ, FILE_MAP_WRITE, FILE_READ_ATTRIBUTES, GENERIC_READ};
use crate::win::{GENERIC_WRITE, PAGE_READONLY, PAGE_READWRITE};
use vstd::pervasive::unreached;
use vstd::prelude::*;

verus! {

/// How far reading has come.
#[derive(Clone, Copy)]
pub enum ReadPhase {
    Start,
    Reopening,
    Copying { file: u64 },
    Closing { out: Result<u64, FsError> },
    Over,
}

/// Copies from a file to the guest, and tells how much.
pub struct ReadData {
    pub inode: u64,
    pub handle: u64,
    pub size: u32,
    pub offset: u64,
    pub phase: ReadPhase,
}

pub fn read(inode: u64, handle: u64, size: u32, offset: u64) -> (r: ReadData)
    ensures
        r == (ReadData { inode, handle, size, offset, phase: ReadPhase::Start }),
{
    ReadData { inode, handle, size, offset, phase: ReadPhase::Start }
}

impl Operation for ReadData {
    type Output = Result<u64, FsError>;

    open spec fn expects(&self, reply: Reply) -> bool {
        match self.phase {
            ReadPhase::Start => reply is Begin,
            ReadPhase::Reopening => reply.opened(),
            ReadPhase::Copying { .. } => reply.number(),
            ReadPhase::Closing { .. } => reply is Unit,
            ReadPhase::Over => false,
        }
    }

    open spec fn leads_to(
        &self,
        fs: PassthroughFs,
        reply: Reply,
        next: Self,
        next_fs: PassthroughFs,
        flow: Flow<Self::Output>,
    ) -> bool {
        &&& next_fs == fs
        &&& next == (ReadData { phase: next.phase, ..*self })
        &&& match self.phase {
            ReadPhase::Start => {
                &&& next.phase == ReadPhase::Reopening
                &&& flow.does(
                    Action::Reopen {
                        inode: self.inode,
                        handle: self.handle,
                        desired_access: GENERIC_READ,
                    },
                )
            },
            ReadPhase::Reopening => match reply {
                Reply::Handle(file) => {
                    &&& next.phase == ReadPhase::Copying { file }
                    &&& flow.does(
                        Action::ReadFrom { handle: file, size: self.size, offset: self.offset },
                    )
                },
                Reply::Failed(e) => next.phase is Over && flow.ends(Err(e.once_more())),
                _ => false,
            },
            ReadPhase::Copying { file } => {
                &&& flow.closes(file)
                &&& match reply {
                    Reply::Number(n) => next.phase == (ReadPhase::Closing { out: Ok(n) }),
                    Reply::Failed(e) => next.phase == (ReadPhase::Closing { out: Err(e) }),
                    _ => false,
                }
            },
            ReadPhase::Closing { out } => next.phase is Over && flow.ends(out),
            ReadPhase::Over => false,
        }
    }

    open spec fn holds(&self, r: Resource) -> int {
        match self.phase {
            ReadPhase::Copying { file } => one(Resource::Handle(file), r),
            _ => 0,
        }
    }

    open spec fn hands_over(out: Self::Output, r: Resource) -> int {
        0
    }

    fn step(&mut self, fs: &mut PassthroughFs, reply: Reply) -> (flow: Flow<Self::Output>) {
        match self.phase {
            ReadPhase::Start => {
                self.phase = ReadPhase::Reopening;
                Flow::Do(
                    Action::Reopen {
                        inode: self.inode,
                        handle: self.handle,
                        desired_access: GENERIC_READ,
                    },
                )
            },
            ReadPhase::Reopening => match reply {
                Reply::Handle(file) => {
                    self.phase = ReadPhase::Copying { file };
                    Flow::Do(
                        Action::ReadFrom { handle: file, size: self.size, offset: self.offset },
                    )
                },
                Reply::Failed(e) => {
                    self.phase = ReadPhase::Over;
                    Flow::Done(Err(e.translated()))
                },
                _ => unreached(),
            },
            ReadPhase::Copying { file } => {
                let out = match reply {
                    Reply::Number(n) => Ok(n),
                    Reply::Failed(e) => Err(e),
                    _ => unreached(),
                };
                self.phase = ReadPhase::Closing { out };
                Flow::Do(Action::Close { handle: file })
            },
            ReadPhase::Closing { out } => {
                self.phase = ReadPhase::Over;
                Flow::Done(out)
            },
            ReadPhase::Over => unreached(),
        }
    }

    proof fn step_balances(
        &self,
        fs: PassthroughFs,
        reply: Reply,
        next: Self,
        next_fs: PassthroughFs,
        flow: Flow<Self::Output>,
        r: Resource,
    ) {
    }
}

/// A file that the guest has open is opened once more to write it.
pub open spec fn reopens_to_write<T>(flow: Flow<T>, inode: u64, handle: u64) -> bool {
    flow.does(Action::Reopen { inode, handle, desired_access: GENERIC_READ | GENERIC_WRITE })
}

fn reopen_to_write(inode: u64, handle: u64) -> (r: Action)
    ensures
        r == (Action::Reopen { inode, handle, desired_access: GENERIC_READ | GENERIC_WRITE }),
{
    Action::Reopen { inode, handle, desired_access: GENERIC_READ | GENERIC_WRITE }
}

/// How far writing has come.
#[derive(Clone, Copy)]
pub enum WritePhase {
    Start,
    Checking,
    Reopening,
    Copying { file: u64 },
    Closing { out: Result<u64, FsError> },
    Killing { count: u64 },
    Over,
}

/// Copies from the guest to a file, and tells how much. A write that worked removes the
/// privileges of the file if that was asked for.
pub struct WriteData {
    pub inode: u64,
    pub handle: u64,
    pub size: u32,
    pub offset: u64,
    pub kill_priv: bool,
    pub phase: WritePhase,
}

pub fn write(inode: u64, handle: u64, size: u32, offset: u64, kill_priv: bool) -> (r: WriteData)
    ensures
        r == (WriteData { inode, handle, size, offset, kill_priv, phase: WritePhase::Start }),
{
    WriteData { inode, handle, size, offset, kill_priv, phase: WritePhase::Start }
}

impl Operation for WriteData {
    type Output = Result<u64, FsError>;

    open spec fn expects(&self, reply: Reply) -> bool {
        match self.phase {
            WritePhase::Start => reply is Begin,
            WritePhase::Checking => reply is Flag,
            WritePhase::Reopening => reply.opened(),
            WritePhase::Copying { .. } => reply.number(),
            WritePhase::Closing { .. } => reply is Unit,
            WritePhase::Killing { .. } => reply is Unit,
            WritePhase::Over => false,
        }
    }

    open spec fn leads_to(
        &self,
        fs: PassthroughFs,
        reply: Reply,
        next: Self,
        next_fs: PassthroughFs,
        flow: Flow<Self::Output>,
    ) -> bool {
        &&& next_fs == fs
        &&& next == (WriteData { phase: next.phase, ..*self })
        &&& match self.phase {
            WritePhase::Start => {
                &&& next.phase == WritePhase::Checking
                &&& flow.does(Action::IsReadOnly { handle: self.handle })
            },
            WritePhase::Checking => match reply {
                Reply::Flag(read_only) => if read_only {
                    next.phase is Over && flow.ends(Err(FsError::linux(EBADF)))
                } else {
                    &&& next.phase == WritePhase::Reopening
                    &&& reopens_to_write(flow, self.inode, self.handle)
                },
                _ => false,
            },
            WritePhase::Reopening => match reply {
                Reply::Handle(file) => {
                    &&& next.phase == WritePhase::Copying { file }
                    &&& flow.does(
                        Action::WriteTo { handle: file, size: self.size, offset: self.offset },
                    )
                },
                Reply::Failed(e) => next.phase is Over && flow.ends(Err(e.once_more())),
                _ => false,
            },
            WritePhase::Copying { file } => {
                &&& flow.closes(file)
                &&& match reply {
                    Reply::Number(n) => next.phase == (WritePhase::Closing { out: Ok(n) }),
                    Reply::Failed(e) => next.phase == (WritePhase::Closing { out: Err(e) }),
                    _ => false,
                }
            },
            WritePhase::Closing { out } => match out {
                Ok(count) if self.kill_priv => if fs.knows(self.inode) {
                    &&& next.phase == WritePhase::Killing { count }
                    &&& flow matches Flow::Do(Action::KillPriv { path })
                    &&& path@ == fs.path_of(self.inode)
                } else {
                    next.phase is Over && flow.ends(Err(FsError::linux(EBADF)))
                },
                _ => next.phase is Over && flow.ends(out),
            },
            WritePhase::Killing { count } => next.phase is Over && flow.ends(Ok(count)),
            WritePhase::Over => false,
        }
    }

    open spec fn holds(&self, r: Resource) -> int {
        match self.phase {
            WritePhase::Copying { file } => one(Resource::Handle(file), r),
            _ => 0,
        }
    }

    open spec fn hands_over(out: Self::Output, r: Resource) -> int {
        0
    }

    fn step(&mut self, fs: &mut PassthroughFs, reply: Reply) -> (flow: Flow<Self::Output>) {
        match self.phase {
            WritePhase::Start => {
                self.phase = WritePhase::Checking;
                Flow::Do(Action::IsReadOnly { handle: self.handle })
            },
            WritePhase::Checking => match reply {
                Reply::Flag(read_only) => {
                    if read_only {
                        self.phase = WritePhase::Over;
                        return Flow::Done(Err(FsError::errno(EBADF)));
                    }
                    self.phase = WritePhase::Reopening;
                    Flow::Do(reopen_to_write(self.inode, self.handle))
                },
                _ => unreached(),
            },
            WritePhase::Reopening => match reply {
                Reply::Handle(file) => {
                    self.phase = WritePhase::Copying { file };
                    Flow::Do(
                        Action::WriteTo { handle: file, size: self.size, offset: self.offset },
                    )
                },
                Reply::Failed(e) => {
                    self.phase = WritePhase::Over;
                    Flow::Done(Err(e.translated()))
                },
                _ => unreached(),
            },
            WritePhase::Copying { file } => {
                let out = match reply {
                    Reply::Number(n) => Ok(n),
                    Reply::Failed(e) => Err(e),
                    _ => unreached(),
                };
                self.phase = WritePhase::Closing { out };
                Flow::Do(Action::Close { handle: file })
            },
            WritePhase::Closing { out } => {
                if let Ok(count) = out {
                    if self.kill_priv {
                        return match fs.inode_path(self.inode) {
                            Ok(path) => {
                                self.phase = WritePhase::Killing { count };
                                Flow::Do(Action::KillPriv { path })
                            },
                            Err(e) => {
                                self.phase = WritePhase::Over;
                                Flow::Done(Err(e))
                            },
                        };
                    }
                }
                self.phase = WritePhase::Over;
                Flow::Done(out)
            },
            WritePhase::Killing { count } => {
                self.phase = WritePhase::Over;
                Flow::Done(Ok(count))
            },
            WritePhase::Over => unreached(),
        }
    }

    proof fn step_balances(
        &self,
        fs: PassthroughFs,
        reply: Reply,
        next: Self,
        next_fs: PassthroughFs,
        flow: Flow<Self::Output>,
        r: Resource,
    ) {
    }
}

/// Why a file is written to the disk.
#[derive(Clone, Copy, Debug, PartialEq, Eq, Structural)]
pub enum SyncKind {
    /// The guest closes it.
    Flush,
    /// The guest wants its contents to be safe.
    Data,
    /// The guest wants its contents and attributes to be safe.
    All,
}

/// How far writing to the disk has come.
#[derive(Clone, Copy)]
pub enum SyncPhase {
    Start,
    Checking,
    Reopening,
    Syncing { file: u64 },
    Closing { out: Result<(), FsError> },
    Over,
}

/// Writes a file to the disk. The host asks for write access for that; a file that was
/// opened without has nothing that was not written.
pub struct SyncFile {
    pub inode: u64,
    pub handle: u64,
    pub kind: SyncKind,
    pub phase: SyncPhase,
}

pub fn flush(inode: u64, handle: u64) -> (r: SyncFile)
    ensures
        r == (SyncFile { inode, handle, kind: SyncKind::Flush, phase: SyncPhase::Start }),
{
    SyncFile { inode, handle, kind: SyncKind::Flush, phase: SyncPhase::Start }
}

/// Writes a file or a directory to the disk.
pub fn fsync(inode: u64, datasync: bool, handle: u64) -> (r: SyncFile)
    ensures
        r == (SyncFile {
            inode,
            handle,
            kind: if datasync {
                SyncKind::Data
            } else {
                SyncKind::All
            },
            phase: SyncPhase::Start,
        }),
{
    let kind = if datasync {
        SyncKind::Data
    } else {
        SyncKind::All
    };
    SyncFile { inode, handle, kind, phase: SyncPhase::Start }
}

impl Operation for SyncFile {
    type Output = Result<(), FsError>;

    open spec fn expects(&self, reply: Reply) -> bool {
        match self.phase {
            SyncPhase::Start => reply is Begin,
            SyncPhase::Checking => reply is Flag,
            SyncPhase::Reopening => reply.opened(),
            SyncPhase::Syncing { .. } => reply.done(),
            SyncPhase::Closing { .. } => reply is Unit,
            SyncPhase::Over => false,
        }
    }

    open spec fn leads_to(
        &self,
        fs: PassthroughFs,
        reply: Reply,
        next: Self,
        next_fs: PassthroughFs,
        flow: Flow<Self::Output>,
    ) -> bool {
        &&& next_fs == fs
        &&& next == (SyncFile { phase: next.phase, ..*self })
        &&& match self.phase {
            SyncPhase::Start => {
                &&& next.phase == SyncPhase::Checking
                &&& flow.does(Action::IsReadOnly { handle: self.handle })
            },
            SyncPhase::Checking => match reply {
                Reply::Flag(read_only) => if read_only {
                    next.phase is Over && flow.ends(Ok(()))
                } else {
                    &&& next.phase == SyncPhase::Reopening
                    &&& reopens_to_write(flow, self.inode, self.handle)
                },
                _ => false,
            },
            SyncPhase::Reopening => match reply {
                Reply::Handle(file) => {
                    &&& next.phase == SyncPhase::Syncing { file }
                    &&& flow.does(
                        if self.kind == SyncKind::Data {
                            Action::SyncData { handle: file }
                        } else {
                            Action::SyncAll { handle: file }
                        },
                    )
                },
                Reply::Failed(e) => {
                    &&& next.phase is Over
                    &&& flow.ends(
                        Err(
                            if self.kind == SyncKind::Flush {
                                e
                            } else {
                                e.once_more()
                            },
                        ),
                    )
                },
                _ => false,
            },
            SyncPhase::Syncing { file } => {
                &&& flow.closes(file)
                &&& match reply {
                    Reply::Unit => next.phase == (SyncPhase::Closing { out: Ok(()) }),
                    Reply::Failed(e) => next.phase == (SyncPhase::Closing {
                        out: Err(e.once_more()),
                    }),
                    _ => false,
                }
            },
            SyncPhase::Closing { out } => next.phase is Over && flow.ends(out),
            SyncPhase::Over => false,
        }
    }

    open spec fn holds(&self, r: Resource) -> int {
        match self.phase {
            SyncPhase::Syncing { file } => one(Resource::Handle(file), r),
            _ => 0,
        }
    }

    open spec fn hands_over(out: Self::Output, r: Resource) -> int {
        0
    }

    fn step(&mut self, fs: &mut PassthroughFs, reply: Reply) -> (flow: Flow<Self::Output>) {
        match self.phase {
            SyncPhase::Start => {
                self.phase = SyncPhase::Checking;
                Flow::Do(Action::IsReadOnly { handle: self.handle })
            },
            SyncPhase::Checking => match reply {
                Reply::Flag(read_only) => {
                    if read_only {
                        self.phase = SyncPhase::Over;
                        return Flow::Done(Ok(()));
                    }
                    self.phase = SyncPhase::Reopening;
                    Flow::Do(reopen_to_write(self.inode, self.handle))
                },
                _ => unreached(),
            },
            SyncPhase::Reopening => match reply {
                Reply::Handle(file) => {
                    self.phase = SyncPhase::Syncing { file };
                    if self.kind == SyncKind::Data {
                        Flow::Do(Action::SyncData { handle: file })
                    } else {
                        Flow::Do(Action::SyncAll { handle: file })
                    }
                },
                Reply::Failed(e) => {
                    self.phase = SyncPhase::Over;
                    if self.kind == SyncKind::Flush {
                        Flow::Done(Err(e))
                    } else {
                        Flow::Done(Err(e.translated()))
                    }
                },
                _ => unreached(),
            },
            SyncPhase::Syncing { file } => {
                let out = match reply {
                    Reply::Unit => Ok(()),
                    Reply::Failed(e) => Err(e.translated()),
                    _ => unreached(),
                };
                self.phase = SyncPhase::Closing { out };
                Flow::Do(Action::Close { handle: file })
            },
            SyncPhase::Closing { out } => {
                self.phase = SyncPhase::Over;
                Flow::Done(out)
            },
            SyncPhase::Over => unreached(),
        }
    }

    proof fn step_balances(
        &self,
        fs: PassthroughFs,
        reply: Reply,
        next: Self,
        next_fs: PassthroughFs,
        flow: Flow<Self::Output>,
        r: Resource,
    ) {
    }
}

/// How far reserving room has come.
#[derive(Clone, Copy)]
pub enum FallocatePhase {
    Start,
    Checking,
    Reopening,
    Measuring { file: u64, target: u64 },
    Growing { file: u64 },
    Closing { out: Result<(), FsError> },
    Over,
}

/// Makes sure that a file reaches at least to the end of a range. A file never shrinks.
pub struct Fallocate {
    pub inode: u64,
    pub handle: u64,
    pub offset: u64,
    pub length: u64,
    pub phase: FallocatePhase,
}

pub fn fallocate(inode: u64, handle: u64, offset: u64, length: u64) -> (r: Fallocate)
    ensures
        r == (Fallocate { inode, handle, offset, length, phase: FallocatePhase::Start }),
{
    Fallocate { inode, handle, offset, length, phase: FallocatePhase::Start }
}

impl Operation for Fallocate {
    type Output = Result<(), FsError>;

    open spec fn expects(&self, reply: Reply) -> bool {
        match self.phase {
            FallocatePhase::Start => reply is Begin,
            FallocatePhase::Checking => reply is Flag,
            FallocatePhase::Reopening => reply.opened(),
            FallocatePhase::Measuring { .. } => reply.number(),
            FallocatePhase::Growing { .. } => reply.done(),
            FallocatePhase::Closing { .. } => reply is Unit,
            FallocatePhase::Over => false,
        }
    }

    open spec fn leads_to(
        &self,
        fs: PassthroughFs,
        reply: Reply,
        next: Self,
        next_fs: PassthroughFs,
        flow: Flow<Self::Output>,
    ) -> bool {
        &&& next_fs == fs
        &&& next == (Fallocate { phase: next.phase, ..*self })
        &&& match self.phase {
            FallocatePhase::Start => {
                &&& next.phase == FallocatePhase::Checking
                &&& flow.does(Action::IsReadOnly { handle: self.handle })
            },
            FallocatePhase::Checking => match reply {
                Reply::Flag(read_only) => if read_only {
                    next.phase is Over && flow.ends(Err(FsError::linux(EBADF)))
                } else {
                    &&& next.phase == FallocatePhase::Reopening
                    &&& reopens_to_write(flow, self.inode, self.handle)
                },
                _ => false,
            },
            FallocatePhase::Reopening => match reply {
                Reply::Handle(file) => if self.offset + self.length > u64::MAX {
                    &&& next.phase == (FallocatePhase::Closing { out: Err(FsError::linux(EFBIG)) })
                    &&& flow.closes(file)
                } else {
                    let target = (self.offset + self.length) as u64;
                    &&& next.phase == FallocatePhase::Measuring { file, target }
                    &&& flow.does(Action::HandleLength { handle: file })
                },
                Reply::Failed(e) => next.phase is Over && flow.ends(Err(e.once_more())),
                _ => false,
            },
            FallocatePhase::Measuring { file, target } => match reply {
                Reply::Number(len) => if target > len {
                    &&& next.phase == FallocatePhase::Growing { file }
                    &&& flow.does(Action::SetLength { handle: file, length: target })
                } else {
                    &&& next.phase == (FallocatePhase::Closing { out: Ok(()) })
                    &&& flow.closes(file)
                },
                Reply::Failed(e) => {
                    &&& next.phase == (FallocatePhase::Closing { out: Err(e.once_more()) })
                    &&& flow.closes(file)
                },
                _ => false,
            },
            FallocatePhase::Growing { file } => {
                &&& flow.closes(file)
                &&& match reply {
                    Reply::Unit => next.phase == (FallocatePhase::Closing { out: Ok(()) }),
                    Reply::Failed(e) => next.phase == (FallocatePhase::Closing {
                        out: Err(e.once_more()),
                    }),
                    _ => false,
                }
            },
            FallocatePhase::Closing { out } => next.phase is Over && flow.ends(out),
            FallocatePhase::Over => false,
        }
    }

    open spec fn holds(&self, r: Resource) -> int {
        match self.phase {
            FallocatePhase::Measuring { file, .. } | FallocatePhase::Growing { file } => {
                one(Resource::Handle(file), r)
            },
            _ => 0,
        }
    }

    open spec fn hands_over(out: Self::Output, r: Resource) -> int {
        0
    }

    fn step(&mut self, fs: &mut PassthroughFs, reply: Reply) -> (flow: Flow<Self::Output>) {
        match self.phase {
            FallocatePhase::Start => {
                self.phase = FallocatePhase::Checking;
                Flow::Do(Action::IsReadOnly { handle: self.handle })
            },
            FallocatePhase::Checking => match reply {
                Reply::Flag(read_only) => {
                    if read_only {
                        self.phase = FallocatePhase::Over;
                        return Flow::Done(Err(FsError::errno(EBADF)));
                    }
                    self.phase = FallocatePhase::Reopening;
                    Flow::Do(reopen_to_write(self.inode, self.handle))
                },
                _ => unreached(),
            },
            FallocatePhase::Reopening => match reply {
                Reply::Handle(file) => match self.offset.checked_add(self.length) {
                    Some(target) => {
                        self.phase = FallocatePhase::Measuring { file, target };
                        Flow::Do(Action::HandleLength { handle: file })
                    },
                    None => {
                        self.phase = FallocatePhase::Closing { out: Err(FsError::errno(EFBIG)) };
                        Flow::Do(Action::Close { handle: file })
                    },
                },
                Reply::Failed(e) => {
                    self.phase = FallocatePhase::Over;
                    Flow::Done(Err(e.translated()))
                },
                _ => unreached(),
            },
            FallocatePhase::Measuring { file, target } => {
                let out = match reply {
                    Reply::Number(len) => {
                        if target > len {
                            self.phase = FallocatePhase::Growing { file };
                            return Flow::Do(Action::SetLength { handle: file, length: target });
                        }
                        Ok(())
                    },
                    Reply::Failed(e) => Err(e.translated()),
                    _ => unreached(),
                };
                self.phase = FallocatePhase::Closing { out };
                Flow::Do(Action::Close { handle: file })
            },
            FallocatePhase::Growing { file } => {
                let out = match reply {
                    Reply::Unit => Ok(()),
                    Reply::Failed(e) => Err(e.translated()),
                    _ => unreached(),
                };
                self.phase = FallocatePhase::Closing { out };
                Flow::Do(Action::Close { handle: file })
            },
            FallocatePhase::Closing { out } => {
                self.phase = FallocatePhase::Over;
                Flow::Done(out)
            },
            FallocatePhase::Over => unreached(),
        }
    }

    proof fn step_balances(
        &self,
        fs: PassthroughFs,
        reply: Reply,
        next: Self,
        next_fs: PassthroughFs,
        flow: Flow<Self::Output>,
        r: Resource,
    ) {
    }
}

/// Reserving room never makes a file shorter, and reaches the end of the range.
pub proof fn law_fallocate_only_grows(
    op: Fallocate,
    file: u64,
    target: u64,
    len: u64,
    fs: PassthroughFs,
    next: Fallocate,
    flow: Flow<Result<(), FsError>>,
)
    requires
        op.phase == (FallocatePhase::Measuring { file, target }),
        op.leads_to(fs, Reply::Number(len), next, fs, flow),
    ensures
        flow matches Flow::Do(Action::SetLength { length, .. }) ==> length > len && length
            == target,
        flow matches Flow::Do(a) && (a is SetLength <==> target > len),
{
}

/// Where a seek that needs the length of the file leads to. Lengths and offsets are words
/// of two's complement, so a negative offset leads before the end.
pub open spec fn sought(whence: u32, len: u64, offset: u64) -> u64 {
    if whence == SEEK_END {
        ((len + offset) % 0x1_0000_0000_0000_0000) as u64
    } else {
        len
    }
}

fn seek_to(whence: u32, len: u64, offset: u64) -> (r: u64)
    ensures
        r == sought(whence, len, offset),
{
    if whence == SEEK_END {
        len.wrapping_add(offset)
    } else {
        len
    }
}

/// A seek from the end is the sum of the length and the signed offset, if that is a
/// position.
pub proof fn law_seek_from_end(len: u64, offset: u64)
    requires
        len <= i64::MAX,
        0 <= len + as_signed(offset) <= i64::MAX,
    ensures
        sought(SEEK_END, len, offset) == len + as_signed(offset),
{
}

/// How far seeking has come.
#[derive(Clone, Copy)]
pub enum LseekPhase {
    Start,
    Reopening,
    Measuring { file: u64 },
    Closing { out: Result<u64, FsError> },
    Over,
}

/// Finds a position in a file. Every read and write names its own offset, so there is no
/// position that is kept: only what is relative to the end needs the file. All of the file
/// counts as data, and the first hole is its end.
pub struct Lseek {
    pub inode: u64,
    pub handle: u64,
    pub offset: u64,
    pub whence: u32,
    pub phase: LseekPhase,
}

pub fn lseek(inode: u64, handle: u64, offset: u64, whence: u32) -> (r: Lseek)
    ensures
        r == (Lseek { inode, handle, offset, whence, phase: LseekPhase::Start }),
{
    Lseek { inode, handle, offset, whence, phase: LseekPhase::Start }
}

impl Operation for Lseek {
    type Output = Result<u64, FsError>;

    open spec fn expects(&self, reply: Reply) -> bool {
        match self.phase {
            LseekPhase::Start => reply is Begin,
            LseekPhase::Reopening => reply.opened(),
            LseekPhase::Measuring { .. } => reply.number(),
            LseekPhase::Closing { .. } => reply is Unit,
            LseekPhase::Over => false,
        }
    }

    open spec fn leads_to(
        &self,
        fs: PassthroughFs,
        reply: Reply,
        next: Self,
        next_fs: PassthroughFs,
        flow: Flow<Self::Output>,
    ) -> bool {
        &&& next_fs == fs
        &&& next == (Lseek { phase: next.phase, ..*self })
        &&& match self.phase {
            LseekPhase::Start => if self.whence == SEEK_SET || self.whence == SEEK_CUR
                || self.whence == SEEK_DATA {
                next.phase is Over && flow.ends(Ok(self.offset))
            } else if self.whence == SEEK_END || self.whence == SEEK_HOLE {
                &&& next.phase == LseekPhase::Reopening
                &&& flow.does(
                    Action::Reopen {
                        inode: self.inode,
                        handle: self.handle,
                        desired_access: FILE_READ_ATTRIBUTES,
                    },
                )
            } else {
                next.phase is Over && flow.ends(Err(FsError::linux(EINVAL)))
            },
            LseekPhase::Reopening => match reply {
                Reply::Handle(file) => {
                    &&& next.phase == LseekPhase::Measuring { file }
                    &&& flow.does(Action::HandleLength { handle: file })
                },
                Reply::Failed(e) => next.phase is Over && flow.ends(Err(e.once_more())),
                _ => false,
            },
            LseekPhase::Measuring { file } => {
                &&& flow.closes(file)
                &&& match reply {
                    Reply::Number(len) => next.phase == (LseekPhase::Closing {
                        out: Ok(sought(self.whence, len, self.offset)),
                    }),
                    Reply::Failed(e) => next.phase == (LseekPhase::Closing {
                        out: Err(e.once_more()),
                    }),
                    _ => false,
                }
            },
            LseekPhase::Closing { out } => next.phase is Over && flow.ends(out),
            LseekPhase::Over => false,
        }
    }

    open spec fn holds(&self, r: Resource) -> int {
        match self.phase {
            LseekPhase::Measuring { file } => one(Resource::Handle(file), r),
            _ => 0,
        }
    }

    open spec fn hands_over(out: Self::Output, r: Resource) -> int {
        0
    }

    fn step(&mut self, fs: &mut PassthroughFs, reply: Reply) -> (flow: Flow<Self::Output>) {
        match self.phase {
            LseekPhase::Start => {
                if self.whence == SEEK_SET || self.whence == SEEK_CUR || self.whence == SEEK_DATA {
                    self.phase = LseekPhase::Over;
                    return Flow::Done(Ok(self.offset));
                }
                if self.whence != SEEK_END && self.whence != SEEK_HOLE {
                    self.phase = LseekPhase::Over;
                    return Flow::Done(Err(FsError::errno(EINVAL)));
                }
                self.phase = LseekPhase::Reopening;
                Flow::Do(
                    Action::Reopen {
                        inode: self.inode,
                        handle: self.handle,
                        desired_access: FILE_READ_ATTRIBUTES,
                    },
                )
            },
            LseekPhase::Reopening => match reply {
                Reply::Handle(file) => {
                    self.phase = LseekPhase::Measuring { file };
                    Flow::Do(Action::HandleLength { handle: file })
                },
                Reply::Failed(e) => {
                    self.phase = LseekPhase::Over;
                    Flow::Done(Err(e.translated()))
                },
                _ => unreached(),
            },
            LseekPhase::Measuring { file } => {
                let out = match reply {
                    Reply::Number(len) => Ok(seek_to(self.whence, len, self.offset)),
                    Reply::Failed(e) => Err(e.translated()),
                    _ => unreached(),
                };
                self.phase = LseekPhase::Closing { out };
                Flow::Do(Action::Close { handle: file })
            },
            LseekPhase::Closing { out } => {
                self.phase = LseekPhase::Over;
                Flow::Done(out)
            },
            LseekPhase::Over => unreached(),
        }
    }

    proof fn step_balances(
        &self,
        fs: PassthroughFs,
        reply: Reply,
        next: Self,
        next_fs: PassthroughFs,
        flow: Flow<Self::Output>,
        r: Resource,
    ) {
    }
}

/// How far mapping has come.
#[derive(Clone, Copy)]
pub enum MapPhase {
    Start,
    Measuring,
    Reopening,
    Creating { file: u64 },
    Mapping { file: u64, mapping: u64 },
    ClosingMapping { file: u64, out: Result<(), FsError> },
    Closing { out: Result<(), FsError> },
    Over,
}

/// Maps a part of a file into the memory that is shared with the guest. The mapping stays
/// when the handles are closed.
pub struct Setupmapping {
    pub inode: u64,
    pub handle: u64,
    pub foffset: u64,
    pub len: u64,
    pub flags: u64,
    pub moffset: u64,
    pub host_shm_base: u64,
    pub shm_size: u64,
    pub phase: MapPhase,
}

pub fn setupmapping(
    inode: u64,
    handle: u64,
    foffset: u64,
    len: u64,
    flags: u64,
    moffset: u64,
    host_shm_base: u64,
    shm_size: u64,
) -> (r: Setupmapping)
    ensures
        r == (Setupmapping {
            inode,
            handle,
            foffset,
            len,
            flags,
            moffset,
            host_shm_base,
            shm_size,
            phase: MapPhase::Start,
        }),
{
    Setupmapping {
        inode,
        handle,
        foffset,
        len,
        flags,
        moffset,
        host_shm_base,
        shm_size,
        phase: MapPhase::Start,
    }
}

impl Setupmapping {
    /// Whether the place lies in the shared memory, and in the address space.
    pub open spec fn fits(self) -> bool {
        &&& self.moffset + self.len <= self.shm_size
        &&& self.host_shm_base + self.moffset <= u64::MAX
    }

    fn is_inside(&self) -> (r: bool)
        ensures
            r == self.fits(),
    {
        match self.moffset.checked_add(self.len) {
            Some(end) => end <= self.shm_size && self.host_shm_base.checked_add(
                self.moffset,
            ).is_some(),
            None => false,
        }
    }

    /// Whether the guest wants to write through the mapping.
    pub open spec fn writes(self) -> bool {
        self.flags & SETUPMAPPING_WRITE != 0
    }

    /// The protection of the mapping object.
    pub open spec fn page_flags(self) -> u32 {
        if self.writes() {
            PAGE_READWRITE
        } else {
            PAGE_READONLY
        }
    }

    /// The mapping is made: the part of the file that was asked for, at its place in the
    /// shared memory.
    pub open spec fn maps(self, mapping: u64) -> Action {
        Action::MapView {
            mapping,
            map_flags: if self.writes() {
                FILE_MAP_READ | FILE_MAP_WRITE
            } else {
                FILE_MAP_READ
            },
            offset_high: (self.foffset / 0x1_0000_0000) as u32,
            offset_low: (self.foffset % 0x1_0000_0000) as u32,
            length: self.len,
            address: (self.host_shm_base + self.moffset) as u64,
        }
    }
}

impl Operation for Setupmapping {
    type Output = Result<(), FsError>;

    open spec fn expects(&self, reply: Reply) -> bool {
        match self.phase {
            MapPhase::Start => reply is Begin,
            MapPhase::Measuring => reply matches Reply::Word(g) && g != 0,
            MapPhase::Reopening => self.fits() && reply.opened(),
            MapPhase::Creating { .. } => self.fits() && reply.opened(),
            MapPhase::Mapping { .. } => reply.done(),
            MapPhase::ClosingMapping { .. } => reply is Unit,
            MapPhase::Closing { .. } => reply is Unit,
            MapPhase::Over => false,
        }
    }

    open spec fn leads_to(
        &self,
        fs: PassthroughFs,
        reply: Reply,
        next: Self,
        next_fs: PassthroughFs,
        flow: Flow<Self::Output>,
    ) -> bool {
        &&& next_fs == fs
        &&& next == (Setupmapping { phase: next.phase, ..*self })
        &&& match self.phase {
            MapPhase::Start => {
                next.phase == MapPhase::Measuring && flow.does(Action::Granularity)
            },
            MapPhase::Measuring => match reply {
                Reply::Word(granularity) => if self.foffset as int % granularity as int != 0
                    || !self.fits() {
                    next.phase is Over && flow.ends(Err(FsError::linux(EINVAL)))
                } else {
                    &&& next.phase == MapPhase::Reopening
                    &&& flow.does(
                        Action::Reopen {
                            inode: self.inode,
                            handle: self.handle,
                            desired_access: GENERIC_READ,
                        },
                    )
                },
                _ => false,
            },
            MapPhase::Reopening => match reply {
                Reply::Handle(file) => {
                    &&& next.phase == MapPhase::Creating { file }
                    &&& flow.does(
                        Action::CreateMapping { handle: file, page_flags: self.page_flags() },
                    )
                },
                Reply::Failed(e) => next.phase is Over && flow.ends(Err(e.once_more())),
                _ => false,
            },
            MapPhase::Creating { file } => match reply {
                Reply::Handle(mapping) => {
                    &&& next.phase == MapPhase::Mapping { file, mapping }
                    &&& flow.does(self.maps(mapping))
                },
                Reply::Failed(e) => {
                    next.phase == (MapPhase::Closing { out: Err(e) }) && flow.closes(file)
                },
                _ => false,
            },
            MapPhase::Mapping { file, mapping } => {
                &&& flow.closes(mapping)
                &&& match reply {
                    Reply::Unit => next.phase == (MapPhase::ClosingMapping { file, out: Ok(()) }),
                    Reply::Failed(e) => next.phase == (MapPhase::ClosingMapping {
                        file,
                        out: Err(e),
                    }),
                    _ => false,
                }
            },
            MapPhase::ClosingMapping { file, out } => {
                next.phase == (MapPhase::Closing { out }) && flow.closes(file)
            },
            MapPhase::Closing { out } => next.phase is Over && flow.ends(out),
            MapPhase::Over => false,
        }
    }

    open spec fn holds(&self, r: Resource) -> int {
        match self.phase {
            MapPhase::Creating { file } => one(Resource::Handle(file), r),
            MapPhase::Mapping { file, mapping } => {
                one(Resource::Handle(file), r) + one(Resource::Handle(mapping), r)
            },
            MapPhase::ClosingMapping { file, .. } => one(Resource::Handle(file), r),
            _ => 0,
        }
    }

    open spec fn hands_over(out: Self::Output, r: Resource) -> int {
        0
    }

    fn step(&mut self, fs: &mut PassthroughFs, reply: Reply) -> (flow: Flow<Self::Output>) {
        match self.phase {
            MapPhase::Start => {
                self.phase = MapPhase::Measuring;
                Flow::Do(Action::Granularity)
            },
            MapPhase::Measuring => match reply {
                Reply::Word(granularity) => {
                    if self.foffset % granularity as u64 != 0 || !self.is_inside() {
                        self.phase = MapPhase::Over;
                        return Flow::Done(Err(FsError::errno(EINVAL)));
                    }
                    self.phase = MapPhase::Reopening;
                    Flow::Do(
                        Action::Reopen {
                            inode: self.inode,
                            handle: self.handle,
                            desired_access: GENERIC_READ,
                        },
                    )
                },
                _ => unreached(),
            },
            MapPhase::Reopening => match reply {
                Reply::Handle(file) => {
                    self.phase = MapPhase::Creating { file };
                    let page_flags: u32 = if (self.flags & SETUPMAPPING_WRITE) != 0 {
                        PAGE_READWRITE
                    } else {
                        PAGE_READONLY
                    };
                    Flow::Do(Action::CreateMapping { handle: file, page_flags })
                },
                Reply::Failed(e) => {
                    self.phase = MapPhase::Over;
                    Flow::Done(Err(e.translated()))
                },
                _ => unreached(),
            },
            MapPhase::Creating { file } => match reply {
                Reply::Handle(mapping) => {
                    self.phase = MapPhase::Mapping { file, mapping };
                    let map_flags: u32 = if (self.flags & SETUPMAPPING_WRITE) != 0 {
                        FILE_MAP_READ | FILE_MAP_WRITE
                    } else {
                        FILE_MAP_READ
                    };
                    Flow::Do(
                        Action::MapView {
                            mapping,
                            map_flags,
                            offset_high: (self.foffset / 0x1_0000_0000) as u32,
                            offset_low: (self.foffset % 0x1_0000_0000) as u32,
                            length: self.len,
                            address: self.host_shm_base + self.moffset,
                        },
                    )
                },
                Reply::Failed(e) => {
                    self.phase = MapPhase::Closing { out: Err(e) };
                    Flow::Do(Action::Close { handle: file })
                },
                _ => unreached(),
            },
            MapPhase::Mapping { file, mapping } => {
                let out = match reply {
                    Reply::Unit => Ok(()),
                    Reply::Failed(e) => Err(e),
                    _ => unreached(),
                };
                self.phase = MapPhase::ClosingMapping { file, out };
                Flow::Do(Action::Close { handle: mapping })
            },
            MapPhase::ClosingMapping { file, out } => {
                self.phase = MapPhase::Closing { out };
                Flow::Do(Action::Close { handle: file })
            },
            MapPhase::Closing { out } => {
                self.phase = MapPhase::Over;
                Flow::Done(out)
            },
            MapPhase::Over => unreached(),
        }
    }

    proof fn step_balances(
        &self,
        fs: PassthroughFs,
        reply: Reply,
        next: Self,
        next_fs: PassthroughFs,
        flow: Flow<Self::Output>,
        r: Resource,
    ) {
    }
}

/// A place that is not aligned or not in the shared memory is refused before any file is
/// opened, wherever that memory lies.
pub proof fn law_bad_places_are_refused(
    op: Setupmapping,
    granularity: u32,
    fs: PassthroughFs,
    next: Setupmapping,
    flow: Flow<Result<(), FsError>>,
)
    requires
        op.phase == MapPhase::Measuring,
        op.leads_to(fs, Reply::Word(granularity), next, fs, flow),
        op.foffset as int % granularity as int != 0 || op.moffset + op.len > op.shm_size,
    ensures
        flow.ends(Err(FsError::linux(EINVAL))),
{
}

/// A mapping never reaches beyond the memory that is shared with the guest.
pub proof fn law_mappings_stay_inside(
    op: Setupmapping,
    fs: PassthroughFs,
    reply: Reply,
    next: Setupmapping,
    next_fs: PassthroughFs,
    flow: Flow<Result<(), FsError>>,
)
    requires
        op.expects(reply),
        op.phase == MapPhase::Measuring,
        op.leads_to(fs, reply, next, next_fs, flow),
        flow is Do,
    ensures
        op.maps(0) matches Action::MapView { address, length, .. } && op.host_shm_base <= address
            && address + length <= op.host_shm_base + op.shm_size,
{
}

/// How far unmapping has come.
#[derive(Clone, Copy)]
pub enum UnmapPhase {
    Start,
    Unmapping { index: usize },
    Over,
}

/// A part of the shared memory that is to be unmapped.
#[derive(Clone, Copy, Debug, PartialEq, Eq, Structural)]
pub struct RemovemappingOne {
    pub moffset: u64,
    pub len: u64,
}

/// Unmaps parts of the shared memory, one after the other, until one fails.
pub struct Removemapping {
    pub requests: Vec<RemovemappingOne>,
    pub host_shm_base: u64,
    pub shm_size: u64,
    pub phase: UnmapPhase,
}

pub fn removemapping(requests: Vec<RemovemappingOne>, host_shm_base: u64, shm_size: u64) -> (r:
    Removemapping)
    ensures
        r == (Removemapping { requests, host_shm_base, shm_size, phase: UnmapPhase::Start }),
{
    Removemapping { requests, host_shm_base, shm_size, phase: UnmapPhase::Start }
}

impl Removemapping {
    /// The part at `index` is unmapped, if there is one and it lies in the shared memory.
    pub open spec fn unmaps(
        self,
        index: int,
        phase: UnmapPhase,
        flow: Flow<Result<(), FsError>>,
    ) -> bool {
        if index >= self.requests@.len() {
            phase is Over && flow.ends(Ok(()))
        } else if self.requests@[index].moffset + self.requests@[index].len > self.shm_size
            || self.host_shm_base + self.requests@[index].moffset > u64::MAX {
            phase is Over && flow.ends(Err(FsError::linux(EINVAL)))
        } else {
            &&& phase matches UnmapPhase::Unmapping { index: i }
            &&& i == index
            &&& flow.does(
                Action::Unmap {
                    address: (self.host_shm_base + self.requests@[index].moffset) as u64,
                },
            )
        }
    }

    fn unmap(&mut self, index: usize) -> (flow: Flow<Result<(), FsError>>)
        ensures
            old(self).unmaps(index as int, final(self).phase, flow),
            *final(self) == (Removemapping { phase: final(self).phase, ..*old(self) }),
            final(self).phase matches UnmapPhase::Unmapping { index: i } ==> i
                < old(self).requests@.len(),
    {
        if index >= self.requests.len() {
            self.phase = UnmapPhase::Over;
            return Flow::Done(Ok(()));
        }
        let request = self.requests[index];
        if let Some(end) = request.moffset.checked_add(request.len) {
            if let Some(address) = self.host_shm_base.checked_add(request.moffset) {
                if end <= self.shm_size {
                    self.phase = UnmapPhase::Unmapping { index };
                    return Flow::Do(Action::Unmap { address });
                }
            }
        }
        self.phase = UnmapPhase::Over;
        Flow::Done(Err(FsError::errno(EINVAL)))
    }
}

impl Operation for Removemapping {
    type Output = Result<(), FsError>;

    open spec fn expects(&self, reply: Reply) -> bool {
        match self.phase {
            UnmapPhase::Start => reply is Begin,
            UnmapPhase::Unmapping { index } => index < self.requests@.len() && reply.done(),
            UnmapPhase::Over => false,
        }
    }

    open spec fn leads_to(
        &self,
        fs: PassthroughFs,
        reply: Reply,
        next: Self,
        next_fs: PassthroughFs,
        flow: Flow<Self::Output>,
    ) -> bool {
        &&& next_fs == fs
        &&& next == (Removemapping { phase: next.phase, ..*self })
        &&& match self.phase {
            UnmapPhase::Start => self.unmaps(0, next.phase, flow),
            UnmapPhase::Unmapping { index } => match reply {
                Reply::Unit => self.unmaps(index + 1, next.phase, flow),
                Reply::Failed(e) => next.phase is Over && flow.ends(Err(e)),
                _ => false,
            },
            UnmapPhase::Over => false,
        }
    }

    open spec fn holds(&self, r: Resource) -> int {
        0
    }

    open spec fn hands_over(out: Self::Output, r: Resource) -> int {
        0
    }

    fn step(&mut self, fs: &mut PassthroughFs, reply: Reply) -> (flow: Flow<Self::Output>) {
        match self.phase {
            UnmapPhase::Start => self.unmap(0),
            UnmapPhase::Unmapping { index } => match reply {
                Reply::Unit => {
                    assert(index < self.requests.len());
                    self.unmap(index + 1)
                },
                Reply::Failed(e) => {
                    self.phase = UnmapPhase::Over;
                    Flow::Done(Err(e))
                },
                _ => unreached(),
            },
            UnmapPhase::Over => unreached(),
        }
    }

    proof fn step_balances(
        &self,
        fs: PassthroughFs,
        reply: Reply,
        next: Self,
        next_fs: PassthroughFs,
        flow: Flow<Self::Output>,
        r: Resource,
    ) {
    }
}

} // verus!
