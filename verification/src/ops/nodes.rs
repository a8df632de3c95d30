//! Making and removing files and directories.

use crate::errno::{EBADF, EINVAL, FsError};
use crate::fs::{file_open_options, file_options, Entry, PassthroughFs, SecContext};
use crate::host::{one, Action, Flow, Reply, Resource};
use crate::linux::{LINUX_O_CREAT, LINUX_O_TRUNC, S_IFMT, S_IFREG};
use crate::nt::{open_by_id, open_flags, open_handle, open_relative, OpenFlags};
use crate::nt::parse_linux_open_flags;
use crate::operation::Operation;
use crate::ops::dirs::{dir_flags, dir_open_flags};
use crate::override_stat::{format_override_stat, law_override_stat_reads_back, override_of};
use crate::override_stat::{override_text, OverrideStat};
use crate::override_stat::OVERRIDE_STAT_STREAM;
use crate::path::{child_path, joins, stream_suffix, stream_suffix_of};
use crate::stat::{base_mode, overridden_mode, stat_of, Context, Metadata};
use crate::text::{copy_bytes, has_byte, lossy_utf8};
use crate::win::{DELETE, FILE_CREATE, FILE_DIRECTORY_FILE, FILE_NON_DIRECTORY_FILE, FILE_OPEN};
use crate::win::{FILE_OPEN_REPARSE_POINT, FILE_SYNCHRONOUS_IO_NONALERT, GENERIC_READ};
use crate::win::GENERIC_WRITE;
use vstd::pervasive::unreached;
use vstd::prelude::*;

verus! {

/// Whether a name holds a colon. A colon starts the name of a stream, so no file can have
/// one in its name.
pub open spec fn names_stream(name: Seq<u8>) -> bool {
    name.contains(0x3a)
}

/// A stream of an open file is written.
pub open spec fn writes_stream<T>(
    flow: Flow<T>,
    file: u64,
    stream: Seq<char>,
    contents: Seq<u8>,
) -> bool {
    &&& flow matches Flow::Do(Action::WriteAds { handle, suffix, data })
    &&& handle == file
    &&& suffix@ == stream
    &&& data@ == contents
}

/// A name is looked up.
pub open spec fn looks_up<T>(flow: Flow<T>, dir: u64, file: Seq<u8>) -> bool {
    &&& flow matches Flow::Do(Action::Lookup { parent, name })
    &&& parent == dir
    &&& name@ == file
}

/// The record of a new file.
pub open spec fn new_record(ctx: Context, mode: u32) -> OverrideStat {
    OverrideStat { uid: Some(ctx.uid), gid: Some(ctx.gid), mode: Some(mode) }
}

fn write_record(file: u64, ctx: Context, mode: u32) -> (r: Action)
    ensures
        r matches Action::WriteAds { handle, suffix, data } && handle == file && suffix@
            == OVERRIDE_STAT_STREAM@ && data@ == override_text(new_record(ctx, mode)),
{
    let o = OverrideStat { uid: Some(ctx.uid), gid: Some(ctx.gid), mode: Some(mode) };
    Action::WriteAds {
        handle: file,
        suffix: OVERRIDE_STAT_STREAM.to_owned(),
        data: format_override_stat(&o),
    }
}

fn write_label(file: u64, secctx: &SecContext) -> (r: Action)
    ensures
        r matches Action::WriteAds { handle, suffix, data } && handle == file && suffix@
            == stream_suffix(secctx.name@) && data@ == secctx.secctx@,
{
    Action::WriteAds {
        handle: file,
        suffix: stream_suffix_of(secctx.name.as_slice()),
        data: copy_bytes(secctx.secctx.as_slice()),
    }
}

fn look_up(parent: u64, name: &Vec<u8>) -> (r: Action)
    ensures
        r matches Action::Lookup { parent: p, name: n } && p == parent && n@ == name@,
{
    Action::Lookup { parent, name: copy_bytes(name.as_slice()) }
}

/// How a new entry of a directory is made.
pub open spec fn make_flags(directory: bool) -> OpenFlags {
    OpenFlags {
        desired_access: GENERIC_READ | GENERIC_WRITE,
        create_disposition: FILE_CREATE,
        create_options: if directory {
            FILE_SYNCHRONOUS_IO_NONALERT | FILE_DIRECTORY_FILE
        } else {
            FILE_SYNCHRONOUS_IO_NONALERT
        },
    }
}

/// How far making an entry has come.
#[derive(Clone, Copy)]
pub enum MakePhase {
    Start,
    OpeningDir,
    Making { dir: u64 },
    Labelling { dir: u64, child: u64 },
    Recording { dir: u64, child: u64 },
    LookingUp { dir: u64, child: u64 },
    ClosingChild { dir: u64, out: Result<Entry, FsError> },
    ClosingDir { out: Result<Entry, FsError> },
    Over,
}

/// Makes a directory, or a file of any other type, whose type and permissions are
/// recorded. The new entry is made relative to its open directory.
pub struct MakeNode {
    pub directory: bool,
    pub ctx: Context,
    pub parent: u64,
    pub name: Vec<u8>,
    /// The mode that is recorded.
    pub mode: u32,
    pub secctx: Option<SecContext>,
    pub phase: MakePhase,
}

/// Makes a directory.
pub fn mkdir(
    ctx: Context,
    parent: u64,
    name: Vec<u8>,
    mode: u32,
    umask: u32,
    secctx: Option<SecContext>,
) -> (r: MakeNode)
    ensures
        r == (MakeNode {
            directory: true,
            ctx,
            parent,
            name,
            mode: mode & !umask,
            secctx,
            phase: MakePhase::Start,
        }),
{
    MakeNode {
        directory: true,
        ctx,
        parent,
        name,
        mode: mode & !umask,
        secctx,
        phase: MakePhase::Start,
    }
}

/// Makes a file. The mode holds its type.
pub fn mknod(
    ctx: Context,
    parent: u64,
    name: Vec<u8>,
    mode: u32,
    umask: u32,
    secctx: Option<SecContext>,
) -> (r: MakeNode)
    ensures
        r == (MakeNode {
            directory: false,
            ctx,
            parent,
            name,
            mode: mode & !umask,
            secctx,
            phase: MakePhase::Start,
        }),
{
    MakeNode {
        directory: false,
        ctx,
        parent,
        name,
        mode: mode & !umask,
        secctx,
        phase: MakePhase::Start,
    }
}

impl Operation for MakeNode {
    type Output = Result<Entry, FsError>;

    open spec fn expects(&self, reply: Reply) -> bool {
        match self.phase {
            MakePhase::Start => reply is Begin,
            MakePhase::OpeningDir => reply.opened(),
            MakePhase::Making { .. } => reply.opened(),
            MakePhase::Labelling { .. } => self.secctx is Some && reply.done(),
            MakePhase::Recording { .. } => reply.done(),
            MakePhase::LookingUp { .. } => reply is Entry || reply is Failed,
            MakePhase::ClosingChild { .. } => reply is Unit,
            MakePhase::ClosingDir { .. } => reply is Unit,
            MakePhase::Over => false,
        }
    }

    open spec fn leads_to(
        &self,
        fs: PassthroughFs,
        reply: Reply,
        next: Self,
        next_fs: PassthroughFs,
        flow: Flow<Self::Output>,
    ) -> bool {
        let record = override_text(new_record(self.ctx, self.mode));
        &&& next_fs == fs
        &&& next == (MakeNode { phase: next.phase, ..*self })
        &&& match self.phase {
            MakePhase::Start => if names_stream(self.name@) {
                next.phase is Over && flow.ends(Err(FsError::linux(EINVAL)))
            } else if !fs.knows(self.parent) {
                next.phase is Over && flow.ends(Err(FsError::linux(EBADF)))
            } else {
                &&& next.phase == MakePhase::OpeningDir
                &&& flow.opens_id(fs.root_handle, fs.index_of(self.parent), dir_flags())
            },
            MakePhase::OpeningDir => match reply {
                Reply::Handle(dir) => {
                    &&& next.phase == MakePhase::Making { dir }
                    &&& flow.opens_child(dir, self.name@, make_flags(self.directory))
                },
                Reply::Failed(e) => next.phase is Over && flow.ends(Err(e.once_more())),
                _ => false,
            },
            MakePhase::Making { dir } => match reply {
                Reply::Handle(child) => match self.secctx {
                    Some(s) => {
                        &&& next.phase == MakePhase::Labelling { dir, child }
                        &&& writes_stream(flow, child, stream_suffix(s.name@), s.secctx@)
                    },
                    None => {
                        &&& next.phase == MakePhase::Recording { dir, child }
                        &&& writes_stream(flow, child, OVERRIDE_STAT_STREAM@, record)
                    },
                },
                Reply::Failed(e) => {
                    &&& next.phase == MakePhase::ClosingDir { out: Err(e.once_more()) }
                    &&& flow.closes(dir)
                },
                _ => false,
            },
            MakePhase::Labelling { dir, child } => match reply {
                Reply::Unit => {
                    &&& next.phase == MakePhase::Recording { dir, child }
                    &&& writes_stream(flow, child, OVERRIDE_STAT_STREAM@, record)
                },
                Reply::Failed(e) => {
                    &&& next.phase == MakePhase::ClosingChild { dir, out: Err(e) }
                    &&& flow.closes(child)
                },
                _ => false,
            },
            MakePhase::Recording { dir, child } => match reply {
                Reply::Unit => {
                    &&& next.phase == MakePhase::LookingUp { dir, child }
                    &&& looks_up(flow, self.parent, self.name@)
                },
                Reply::Failed(e) => {
                    &&& next.phase == MakePhase::ClosingChild { dir, out: Err(e) }
                    &&& flow.closes(child)
                },
                _ => false,
            },
            MakePhase::LookingUp { dir, child } => {
                &&& flow.closes(child)
                &&& match reply {
                    Reply::Entry(e) => next.phase == (MakePhase::ClosingChild { dir, out: Ok(e) }),
                    Reply::Failed(e) => next.phase == (MakePhase::ClosingChild {
                        dir,
                        out: Err(e),
                    }),
                    _ => false,
                }
            },
            MakePhase::ClosingChild { dir, out } => {
                next.phase == (MakePhase::ClosingDir { out }) && flow.closes(dir)
            },
            MakePhase::ClosingDir { out } => next.phase is Over && flow.ends(out),
            MakePhase::Over => false,
        }
    }

    open spec fn holds(&self, r: Resource) -> int {
        match self.phase {
            MakePhase::Making { dir } => one(Resource::Handle(dir), r),
            MakePhase::Labelling { dir, child }
            | MakePhase::Recording { dir, child }
            | MakePhase::LookingUp { dir, child } => {
                one(Resource::Handle(dir), r) + one(Resource::Handle(child), r)
            },
            MakePhase::ClosingChild { dir, .. } => one(Resource::Handle(dir), r),
            _ => 0,
        }
    }

    open spec fn hands_over(out: Self::Output, r: Resource) -> int {
        0
    }

    fn step(&mut self, fs: &mut PassthroughFs, reply: Reply) -> (flow: Flow<Self::Output>) {
        match self.phase {
            MakePhase::Start => {
                if has_byte(self.name.as_slice(), 0x3a) {
                    self.phase = MakePhase::Over;
                    return Flow::Done(Err(FsError::errno(EINVAL)));
                }
                match fs.inode_data(self.parent) {
                    Ok(data) => {
                        self.phase = MakePhase::OpeningDir;
                        let flags = dir_open_flags();
                        Flow::Do(Action::Open(open_by_id(fs.root_handle, data.file_index, &flags)))
                    },
                    Err(e) => {
                        self.phase = MakePhase::Over;
                        Flow::Done(Err(e))
                    },
                }
            },
            MakePhase::OpeningDir => match reply {
                Reply::Handle(dir) => {
                    self.phase = MakePhase::Making { dir };
                    let flags = OpenFlags {
                        desired_access: GENERIC_READ | GENERIC_WRITE,
                        create_disposition: FILE_CREATE,
                        create_options: if self.directory {
                            FILE_SYNCHRONOUS_IO_NONALERT | FILE_DIRECTORY_FILE
                        } else {
                            FILE_SYNCHRONOUS_IO_NONALERT
                        },
                    };
                    Flow::Do(Action::Open(open_relative(dir, self.name.as_slice(), &flags)))
                },
                Reply::Failed(e) => {
                    self.phase = MakePhase::Over;
                    Flow::Done(Err(e.translated()))
                },
                _ => unreached(),
            },
            MakePhase::Making { dir } => match reply {
                Reply::Handle(child) => {
                    if let Some(secctx) = &self.secctx {
                        self.phase = MakePhase::Labelling { dir, child };
                        return Flow::Do(write_label(child, secctx));
                    }
                    self.phase = MakePhase::Recording { dir, child };
                    Flow::Do(write_record(child, self.ctx, self.mode))
                },
                Reply::Failed(e) => {
                    self.phase = MakePhase::ClosingDir { out: Err(e.translated()) };
                    Flow::Do(Action::Close { handle: dir })
                },
                _ => unreached(),
            },
            MakePhase::Labelling { dir, child } => match reply {
                Reply::Unit => {
                    self.phase = MakePhase::Recording { dir, child };
                    Flow::Do(write_record(child, self.ctx, self.mode))
                },
                Reply::Failed(e) => {
                    self.phase = MakePhase::ClosingChild { dir, out: Err(e) };
                    Flow::Do(Action::Close { handle: child })
                },
                _ => unreached(),
            },
            MakePhase::Recording { dir, child } => match reply {
                Reply::Unit => {
                    self.phase = MakePhase::LookingUp { dir, child };
                    Flow::Do(look_up(self.parent, &self.name))
                },
                Reply::Failed(e) => {
                    self.phase = MakePhase::ClosingChild { dir, out: Err(e) };
                    Flow::Do(Action::Close { handle: child })
                },
                _ => unreached(),
            },
            MakePhase::LookingUp { dir, child } => {
                let out = match reply {
                    Reply::Entry(e) => Ok(e),
                    Reply::Failed(e) => Err(e),
                    _ => unreached(),
                };
                self.phase = MakePhase::ClosingChild { dir, out };
                Flow::Do(Action::Close { handle: child })
            },
            MakePhase::ClosingChild { dir, out } => {
                self.phase = MakePhase::ClosingDir { out };
                Flow::Do(Action::Close { handle: dir })
            },
            MakePhase::ClosingDir { out } => {
                self.phase = MakePhase::Over;
                Flow::Done(out)
            },
            MakePhase::Over => unreached(),
        }
    }

    proof fn step_balances(
        &self,
        fs: PassthroughFs,
        reply: Reply,
        next: Self,
        next_fs: PassthroughFs,
        flow: Flow<Self::Output>,
        r: Resource,
    ) {
    }
}

/// How an entry of a directory is opened to delete it: a link is deleted itself.
pub open spec fn remove_flags(directory: bool) -> OpenFlags {
    OpenFlags {
        desired_access: DELETE,
        create_disposition: FILE_OPEN,
        create_options: if directory {
            FILE_SYNCHRONOUS_IO_NONALERT | FILE_DIRECTORY_FILE | FILE_OPEN_REPARSE_POINT
        } else {
            FILE_SYNCHRONOUS_IO_NONALERT | FILE_OPEN_REPARSE_POINT | FILE_NON_DIRECTORY_FILE
        },
    }
}

/// How far removing an entry has come.
#[derive(Clone, Copy)]
pub enum RemovePhase {
    Start,
    OpeningDir,
    Opening { dir: u64 },
    Marking { dir: u64, child: u64 },
    ClosingChild { dir: u64, out: Result<(), FsError> },
    ClosingDir { out: Result<(), FsError> },
    Over,
}

/// Removes a directory, or a file of any other type.
pub struct RemoveNode {
    pub directory: bool,
    pub parent: u64,
    pub name: Vec<u8>,
    pub phase: RemovePhase,
}

/// Removes a directory.
pub fn rmdir(parent: u64, name: Vec<u8>) -> (r: RemoveNode)
    ensures
        r == (RemoveNode { directory: true, parent, name, phase: RemovePhase::Start }),
{
    RemoveNode { directory: true, parent, name, phase: RemovePhase::Start }
}

/// Removes a file. The host refuses to delete a file that is marked as read-only, even
/// where the directory can be written.
pub fn unlink(parent: u64, name: Vec<u8>) -> (r: RemoveNode)
    ensures
        r == (RemoveNode { directory: false, parent, name, phase: RemovePhase::Start }),
{
    RemoveNode { directory: false, parent, name, phase: RemovePhase::Start }
}

impl Operation for RemoveNode {
    type Output = Result<(), FsError>;

    open spec fn expects(&self, reply: Reply) -> bool {
        match self.phase {
            RemovePhase::Start => reply is Begin,
            RemovePhase::OpeningDir => reply.opened(),
            RemovePhase::Opening { .. } => reply.opened(),
            RemovePhase::Marking { .. } => reply.done(),
            RemovePhase::ClosingChild { .. } => reply is Unit,
            RemovePhase::ClosingDir { .. } => reply is Unit,
            RemovePhase::Over => false,
        }
    }

    open spec fn leads_to(
        &self,
        fs: PassthroughFs,
        reply: Reply,
        next: Self,
        next_fs: PassthroughFs,
        flow: Flow<Self::Output>,
    ) -> bool {
        &&& next_fs == fs
        &&& next == (RemoveNode { phase: next.phase, ..*self })
        &&& match self.phase {
            RemovePhase::Start => if fs.knows(self.parent) {
                &&& next.phase == RemovePhase::OpeningDir
                &&& flow.opens_id(fs.root_handle, fs.index_of(self.parent), dir_flags())
            } else {
                next.phase is Over && flow.ends(Err(FsError::linux(EBADF)))
            },
            RemovePhase::OpeningDir => match reply {
                Reply::Handle(dir) => {
                    &&& next.phase == RemovePhase::Opening { dir }
                    &&& flow.opens_child(dir, self.name@, remove_flags(self.directory))
                },
                Reply::Failed(e) => next.phase is Over && flow.ends(Err(e.once_more())),
                _ => false,
            },
            RemovePhase::Opening { dir } => match reply {
                Reply::Handle(child) => {
                    &&& next.phase == RemovePhase::Marking { dir, child }
                    &&& flow.does(Action::DeleteOnClose { handle: child })
                },
                Reply::Failed(e) => {
                    &&& next.phase == RemovePhase::ClosingDir { out: Err(e.once_more()) }
                    &&& flow.closes(dir)
                },
                _ => false,
            },
            RemovePhase::Marking { dir, child } => {
                &&& flow.closes(child)
                &&& match reply {
                    Reply::Unit => next.phase == (RemovePhase::ClosingChild { dir, out: Ok(()) }),
                    Reply::Failed(e) => next.phase == (RemovePhase::ClosingChild {
                        dir,
                        out: Err(e.once_more()),
                    }),
                    _ => false,
                }
            },
            RemovePhase::ClosingChild { dir, out } => {
                next.phase == (RemovePhase::ClosingDir { out }) && flow.closes(dir)
            },
            RemovePhase::ClosingDir { out } => next.phase is Over && flow.ends(out),
            RemovePhase::Over => false,
        }
    }

    open spec fn holds(&self, r: Resource) -> int {
        match self.phase {
            RemovePhase::Opening { dir } => one(Resource::Handle(dir), r),
            RemovePhase::Marking { dir, child } => {
                one(Resource::Handle(dir), r) + one(Resource::Handle(child), r)
            },
            RemovePhase::ClosingChild { dir, .. } => one(Resource::Handle(dir), r),
            _ => 0,
        }
    }

    open spec fn hands_over(out: Self::Output, r: Resource) -> int {
        0
    }

    fn step(&mut self, fs: &mut PassthroughFs, reply: Reply) -> (flow: Flow<Self::Output>) {
        match self.phase {
            RemovePhase::Start => match fs.inode_data(self.parent) {
                Ok(data) => {
                    self.phase = RemovePhase::OpeningDir;
                    let flags = dir_open_flags();
                    Flow::Do(Action::Open(open_by_id(fs.root_handle, data.file_index, &flags)))
                },
                Err(e) => {
                    self.phase = RemovePhase::Over;
                    Flow::Done(Err(e))
                },
            },
            RemovePhase::OpeningDir => match reply {
                Reply::Handle(dir) => {
                    self.phase = RemovePhase::Opening { dir };
                    let flags = OpenFlags {
                        desired_access: DELETE,
                        create_disposition: FILE_OPEN,
                        create_options: if self.directory {
                            FILE_SYNCHRONOUS_IO_NONALERT | FILE_DIRECTORY_FILE
                                | FILE_OPEN_REPARSE_POINT
                        } else {
                            FILE_SYNCHRONOUS_IO_NONALERT | FILE_OPEN_REPARSE_POINT
                                | FILE_NON_DIRECTORY_FILE
                        },
                    };
                    Flow::Do(Action::Open(open_relative(dir, self.name.as_slice(), &flags)))
                },
                Reply::Failed(e) => {
                    self.phase = RemovePhase::Over;
                    Flow::Done(Err(e.translated()))
                },
                _ => unreached(),
            },
            RemovePhase::Opening { dir } => match reply {
                Reply::Handle(child) => {
                    self.phase = RemovePhase::Marking { dir, child };
                    Flow::Do(Action::DeleteOnClose { handle: child })
                },
                Reply::Failed(e) => {
                    self.phase = RemovePhase::ClosingDir { out: Err(e.translated()) };
                    Flow::Do(Action::Close { handle: dir })
                },
                _ => unreached(),
            },
            RemovePhase::Marking { dir, child } => {
                let out = match reply {
                    Reply::Unit => Ok(()),
                    Reply::Failed(e) => Err(e.translated()),
                    _ => unreached(),
                };
                self.phase = RemovePhase::ClosingChild { dir, out };
                Flow::Do(Action::Close { handle: child })
            },
            RemovePhase::ClosingChild { dir, out } => {
                self.phase = RemovePhase::ClosingDir { out };
                Flow::Do(Action::Close { handle: dir })
            },
            RemovePhase::ClosingDir { out } => {
                self.phase = RemovePhase::Over;
                Flow::Done(out)
            },
            RemovePhase::Over => unreached(),
        }
    }

    proof fn step_balances(
        &self,
        fs: PassthroughFs,
        reply: Reply,
        next: Self,
        next_fs: PassthroughFs,
        flow: Flow<Self::Output>,
        r: Resource,
    ) {
    }
}

/// How far creating has come.
#[derive(Clone, Copy)]
pub enum CreatePhase {
    Start,
    Opening,
    Labelling { file: u64 },
    Recording { file: u64 },
    Stripping { file: u64 },
    LookingUp { file: u64 },
    Closing { error: FsError },
    Over,
}

/// Creates a file and leaves it open for the guest.
pub struct Create {
    pub ctx: Context,
    pub parent: u64,
    pub name: Vec<u8>,
    /// The mode that is recorded.
    pub mode: u32,
    pub kill_priv: bool,
    pub flags: u32,
    pub secctx: Option<SecContext>,
    pub path: String,
    pub phase: CreatePhase,
}

/// The mode that is recorded of a created file.
pub open spec fn created_mode(mode: u32, umask: u32) -> u32 {
    S_IFREG | (mode & !(umask & 0o777))
}

pub fn create(
    ctx: Context,
    parent: u64,
    name: Vec<u8>,
    mode: u32,
    kill_priv: bool,
    flags: u32,
    umask: u32,
    secctx: Option<SecContext>,
) -> (r: Create)
    ensures
        r == (Create {
            ctx,
            parent,
            name,
            mode: created_mode(mode, umask),
            kill_priv,
            flags,
            secctx,
            path: r.path,
            phase: CreatePhase::Start,
        }),
{
    Create {
        ctx,
        parent,
        name,
        mode: S_IFREG | (mode & !(umask & 0o777)),
        kill_priv,
        flags,
        secctx,
        path: String::new(),
        phase: CreatePhase::Start,
    }
}

impl Create {
    /// Whether the capabilities of an emptied file are removed.
    pub open spec fn strips(self) -> bool {
        self.flags as i32 & LINUX_O_TRUNC != 0 && self.kill_priv
    }
}

impl Operation for Create {
    type Output = Result<(Entry, Option<u64>, u32), FsError>;

    open spec fn expects(&self, reply: Reply) -> bool {
        match self.phase {
            CreatePhase::Start => reply is Begin,
            CreatePhase::Opening => reply.opened(),
            CreatePhase::Labelling { .. } => reply.done(),
            CreatePhase::Recording { .. } => reply.done(),
            CreatePhase::Stripping { .. } => reply is Unit,
            CreatePhase::LookingUp { .. } => reply is Entry || reply is Failed,
            CreatePhase::Closing { .. } => reply is Unit,
            CreatePhase::Over => false,
        }
    }

    open spec fn leads_to(
        &self,
        fs: PassthroughFs,
        reply: Reply,
        next: Self,
        next_fs: PassthroughFs,
        flow: Flow<Self::Output>,
    ) -> bool {
        let record = override_text(new_record(self.ctx, self.mode));
        &&& next_fs == fs
        &&& next == (Create { path: next.path, phase: next.phase, ..*self })
        &&& self.phase !is Start ==> next.path == self.path
        &&& match self.phase {
            CreatePhase::Start => if names_stream(self.name@) {
                next.phase is Over && flow.ends(Err(FsError::linux(EINVAL)))
            } else if !fs.knows(self.parent) {
                next.phase is Over && flow.ends(Err(FsError::linux(EBADF)))
            } else {
                &&& next.phase == CreatePhase::Opening
                &&& joins(next.path@, fs.path_of(self.parent), lossy_utf8(self.name@))
                &&& flow.opens_path(
                    next.path@,
                    open_flags(self.flags as i32 | LINUX_O_CREAT, fs.writeback),
                )
            },
            CreatePhase::Opening => match reply {
                Reply::Handle(file) => match self.secctx {
                    Some(s) => {
                        &&& next.phase == CreatePhase::Labelling { file }
                        &&& writes_stream(flow, file, stream_suffix(s.name@), s.secctx@)
                    },
                    None => {
                        &&& next.phase == CreatePhase::Recording { file }
                        &&& writes_stream(flow, file, OVERRIDE_STAT_STREAM@, record)
                    },
                },
                Reply::Failed(e) => next.phase is Over && flow.ends(Err(e.once_more())),
                _ => false,
            },
            CreatePhase::Labelling { file } => match reply {
                Reply::Unit => {
                    &&& next.phase == CreatePhase::Recording { file }
                    &&& writes_stream(flow, file, OVERRIDE_STAT_STREAM@, record)
                },
                Reply::Failed(e) => {
                    next.phase == (CreatePhase::Closing { error: e }) && flow.closes(file)
                },
                _ => false,
            },
            CreatePhase::Recording { file } => match reply {
                Reply::Unit => if self.strips() {
                    &&& next.phase == CreatePhase::Stripping { file }
                    &&& flow matches Flow::Do(Action::RemoveCapability { path })
                    &&& path@ == self.path@
                } else {
                    &&& next.phase == CreatePhase::LookingUp { file }
                    &&& looks_up(flow, self.parent, self.name@)
                },
                Reply::Failed(e) => {
                    next.phase == (CreatePhase::Closing { error: e }) && flow.closes(file)
                },
                _ => false,
            },
            CreatePhase::Stripping { file } => {
                &&& next.phase == CreatePhase::LookingUp { file }
                &&& looks_up(flow, self.parent, self.name@)
            },
            CreatePhase::LookingUp { file } => match reply {
                Reply::Entry(entry) => {
                    &&& next.phase is Over
                    &&& flow.ends(Ok((entry, Some(file), file_options(fs.cfg.cache_policy))))
                },
                Reply::Failed(e) => {
                    next.phase == (CreatePhase::Closing { error: e }) && flow.closes(file)
                },
                _ => false,
            },
            CreatePhase::Closing { error } => next.phase is Over && flow.ends(Err(error)),
            CreatePhase::Over => false,
        }
    }

    open spec fn holds(&self, r: Resource) -> int {
        match self.phase {
            CreatePhase::Labelling { file }
            | CreatePhase::Recording { file }
            | CreatePhase::Stripping { file }
            | CreatePhase::LookingUp { file } => one(Resource::Handle(file), r),
            _ => 0,
        }
    }

    open spec fn hands_over(out: Self::Output, r: Resource) -> int {
        match out {
            Ok((_, Some(handle), _)) => one(Resource::Handle(handle), r),
            _ => 0,
        }
    }

    fn step(&mut self, fs: &mut PassthroughFs, reply: Reply) -> (flow: Flow<Self::Output>) {
        match self.phase {
            CreatePhase::Start => {
                if has_byte(self.name.as_slice(), 0x3a) {
                    self.phase = CreatePhase::Over;
                    return Flow::Done(Err(FsError::errno(EINVAL)));
                }
                let parent_path = match fs.inode_path(self.parent) {
                    Ok(path) => path,
                    Err(e) => {
                        self.phase = CreatePhase::Over;
                        return Flow::Done(Err(e));
                    },
                };
                self.path = child_path(parent_path.as_str(), self.name.as_slice());
                self.phase = CreatePhase::Opening;
                let flags = parse_linux_open_flags(
                    self.flags as i32 | LINUX_O_CREAT,
                    fs.writeback,
                );
                Flow::Do(Action::Open(open_handle(self.path.as_str(), &flags)))
            },
            CreatePhase::Opening => match reply {
                Reply::Handle(file) => {
                    if let Some(secctx) = &self.secctx {
                        self.phase = CreatePhase::Labelling { file };
                        return Flow::Do(write_label(file, secctx));
                    }
                    self.phase = CreatePhase::Recording { file };
                    Flow::Do(write_record(file, self.ctx, self.mode))
                },
                Reply::Failed(e) => {
                    self.phase = CreatePhase::Over;
                    Flow::Done(Err(e.translated()))
                },
                _ => unreached(),
            },
            CreatePhase::Labelling { file } => match reply {
                Reply::Unit => {
                    self.phase = CreatePhase::Recording { file };
                    Flow::Do(write_record(file, self.ctx, self.mode))
                },
                Reply::Failed(e) => {
                    self.phase = CreatePhase::Closing { error: e };
                    Flow::Do(Action::Close { handle: file })
                },
                _ => unreached(),
            },
            CreatePhase::Recording { file } => match reply {
                Reply::Unit => {
                    if (self.flags as i32 & LINUX_O_TRUNC) != 0 && self.kill_priv {
                        self.phase = CreatePhase::Stripping { file };
                        return Flow::Do(Action::RemoveCapability { path: self.path.clone() });
                    }
                    self.phase = CreatePhase::LookingUp { file };
                    Flow::Do(look_up(self.parent, &self.name))
                },
                Reply::Failed(e) => {
                    self.phase = CreatePhase::Closing { error: e };
                    Flow::Do(Action::Close { handle: file })
                },
                _ => unreached(),
            },
            CreatePhase::Stripping { file } => {
                self.phase = CreatePhase::LookingUp { file };
                Flow::Do(look_up(self.parent, &self.name))
            },
            CreatePhase::LookingUp { file } => match reply {
                Reply::Entry(entry) => {
                    self.phase = CreatePhase::Over;
                    let options: u32 = file_open_options(fs.cfg.cache_policy);
                    Flow::Done(Ok((entry, Some(file), options)))
                },
                Reply::Failed(e) => {
                    self.phase = CreatePhase::Closing { error: e };
                    Flow::Do(Action::Close { handle: file })
                },
                _ => unreached(),
            },
            CreatePhase::Closing { error } => {
                self.phase = CreatePhase::Over;
                Flow::Done(Err(error))
            },
            CreatePhase::Over => unreached(),
        }
    }

    proof fn step_balances(
        &self,
        fs: PassthroughFs,
        reply: Reply,
        next: Self,
        next_fs: PassthroughFs,
        flow: Flow<Self::Output>,
        r: Resource,
    ) {
    }
}

/// What is recorded of a new file is what the guest sees of it: its owner, and its mode.
pub proof fn law_new_file_has_its_owner_and_mode(
    ctx: Context,
    mode: u32,
    meta: Metadata,
    reparse_tag: u32,
    ino: u64,
    n_link: u32,
)
    ensures
        ({
            let record = override_of(override_text(new_record(ctx, mode)));
            let st = stat_of(meta, reparse_tag, ino, n_link, record);
            &&& st.st_uid == ctx.uid
            &&& st.st_gid == ctx.gid
            &&& st.st_mode == overridden_mode(base_mode(meta, reparse_tag), Some(mode))
        }),
{
    law_override_stat_reads_back(new_record(ctx, mode));
}

/// A created file is a regular file with the permissions that were asked for, less those
/// that are masked.
pub proof fn law_created_file_is_regular(mode: u32, umask: u32, base: u32)
    requires
        mode & S_IFMT == 0 || mode & S_IFMT == S_IFREG,
    ensures
        overridden_mode(base, Some(created_mode(mode, umask))) == created_mode(mode, umask),
        created_mode(mode, umask) & S_IFMT == S_IFREG,
        created_mode(mode, umask) & 0o777 == mode & !umask & 0o777,
{
    assert((0o100000u32 | (mode & !(umask & 0o777u32))) & 0o170000u32 == 0o100000u32) by (bit_vector)
        requires
            mode & 0o170000u32 == 0 || mode & 0o170000u32 == 0o100000u32,
    ;
    assert((0o100000u32 | (mode & !(umask & 0o777u32))) & 0o777u32 == mode & !umask & 0o777u32)
        by (bit_vector);
}

} // verus!
