//! Finding out what a path or a handle is.

use crate::errno::FsError;
use crate::fs::{is_file_handle, names_file, PassthroughFs};
use crate::host::{one, Action, Flow, Reply, Resource};
use crate::nt::{open_handle, OpenFlags};
use crate::operation::Operation;
use crate::path::{path_to_wide, wide};
use crate::stat::{file_info_of, FileInfo};
use crate::win::{FILE_APPEND_DATA, FILE_ATTRIBUTE_REPARSE_POINT, FILE_OPEN};
use crate::win::{FILE_OPEN_REPARSE_POINT, FILE_READ_ATTRIBUTES, FILE_SYNCHRONOUS_IO_NONALERT};
use crate::win::{FILE_WRITE_ATTRIBUTES, FILE_WRITE_DATA};
use vstd::pervasive::unreached;
use vstd::prelude::*;

verus! {

/// How a path is opened to look at it: without touching its contents, and without
/// following a link.
pub open spec fn probe_flags() -> OpenFlags {
    OpenFlags {
        desired_access: FILE_READ_ATTRIBUTES,
        create_disposition: FILE_OPEN,
        create_options: FILE_SYNCHRONOUS_IO_NONALERT | FILE_OPEN_REPARSE_POINT,
    }
}

fn probe() -> (r: OpenFlags)
    ensures
        r == probe_flags(),
{
    OpenFlags {
        desired_access: FILE_READ_ATTRIBUTES,
        create_disposition: FILE_OPEN,
        create_options: FILE_SYNCHRONOUS_IO_NONALERT | FILE_OPEN_REPARSE_POINT,
    }
}

/// How far a probe has come.
#[derive(Clone, Copy)]
pub enum GetFileInfoPhase {
    Start,
    Opening,
    Querying { handle: u64 },
    Closing { out: Result<FileInfo, FsError> },
    Over,
}

/// Finds out what identifies a path, with a handle that is open only meanwhile.
pub struct GetFileInfo {
    pub path: String,
    pub phase: GetFileInfoPhase,
}

pub fn get_file_info(path: String) -> (r: GetFileInfo)
    ensures
        r == (GetFileInfo { path, phase: GetFileInfoPhase::Start }),
{
    GetFileInfo { path, phase: GetFileInfoPhase::Start }
}

impl Operation for GetFileInfo {
    type Output = Result<FileInfo, FsError>;

    open spec fn expects(&self, reply: Reply) -> bool {
        match self.phase {
            GetFileInfoPhase::Start => reply is Begin,
            GetFileInfoPhase::Opening => reply.opened(),
            GetFileInfoPhase::Querying { .. } => reply is Info || reply is Failed,
            GetFileInfoPhase::Closing { .. } => reply is Unit,
            GetFileInfoPhase::Over => false,
        }
    }

    open spec fn leads_to(
        &self,
        fs: PassthroughFs,
        reply: Reply,
        next: Self,
        next_fs: PassthroughFs,
        flow: Flow<Self::Output>,
    ) -> bool {
        &&& next_fs == fs
        &&& next.path == self.path
        &&& match self.phase {
            GetFileInfoPhase::Start => {
                &&& next.phase == GetFileInfoPhase::Opening
                &&& flow.opens_path(self.path@, probe_flags())
            },
            GetFileInfoPhase::Opening => match reply {
                Reply::Handle(handle) => {
                    &&& next.phase == GetFileInfoPhase::Querying { handle }
                    &&& flow.does(Action::QueryInfo { handle })
                },
                Reply::Failed(e) => next.phase is Over && flow.ends(Err(e)),
                _ => false,
            },
            GetFileInfoPhase::Querying { handle } => {
                &&& flow.closes(handle)
                &&& match reply {
                    Reply::Info(i) => next.phase == (GetFileInfoPhase::Closing {
                        out: Ok(file_info_of(i)),
                    }),
                    Reply::Failed(e) => next.phase == (GetFileInfoPhase::Closing { out: Err(e) }),
                    _ => false,
                }
            },
            GetFileInfoPhase::Closing { out } => next.phase is Over && flow.ends(out),
            GetFileInfoPhase::Over => false,
        }
    }

    open spec fn holds(&self, r: Resource) -> int {
        match self.phase {
            GetFileInfoPhase::Querying { handle } => one(Resource::Handle(handle), r),
            _ => 0,
        }
    }

    open spec fn hands_over(out: Self::Output, r: Resource) -> int {
        0
    }

    fn step(&mut self, fs: &mut PassthroughFs, reply: Reply) -> (flow: Flow<Self::Output>) {
        match self.phase {
            GetFileInfoPhase::Start => {
                self.phase = GetFileInfoPhase::Opening;
                Flow::Do(Action::Open(open_handle(self.path.as_str(), &probe())))
            },
            GetFileInfoPhase::Opening => match reply {
                Reply::Handle(handle) => {
                    self.phase = GetFileInfoPhase::Querying { handle };
                    Flow::Do(Action::QueryInfo { handle })
                },
                Reply::Failed(e) => {
                    self.phase = GetFileInfoPhase::Over;
                    Flow::Done(Err(e))
                },
                _ => unreached(),
            },
            GetFileInfoPhase::Querying { handle } => {
                let out = match reply {
                    Reply::Info(i) => Ok(i.file_info()),
                    Reply::Failed(e) => Err(e),
                    _ => unreached(),
                };
                self.phase = GetFileInfoPhase::Closing { out };
                Flow::Do(Action::Close { handle })
            },
            GetFileInfoPhase::Closing { out } => {
                self.phase = GetFileInfoPhase::Over;
                Flow::Done(out)
            },
            GetFileInfoPhase::Over => unreached(),
        }
    }

    proof fn step_balances(
        &self,
        fs: PassthroughFs,
        reply: Reply,
        next: Self,
        next_fs: PassthroughFs,
        flow: Flow<Self::Output>,
        r: Resource,
    ) {
    }
}

/// How far opening a root directory has come.
#[derive(Clone, Copy)]
pub enum OpenatPhase {
    Start,
    Opening,
    Querying { handle: u64 },
    Closing { error: FsError },
    Over,
}

/// Opens a path and makes sure that it is not a reparse point, that is a link or a
/// junction.
pub struct Openat {
    pub path: String,
    pub phase: OpenatPhase,
}

pub fn openat(path: String) -> (r: Openat)
    ensures
        r == (Openat { path, phase: OpenatPhase::Start }),
{
    Openat { path, phase: OpenatPhase::Start }
}

impl Operation for Openat {
    type Output = Result<u64, FsError>;

    open spec fn expects(&self, reply: Reply) -> bool {
        match self.phase {
            OpenatPhase::Start => reply is Begin,
            OpenatPhase::Opening => reply.opened(),
            OpenatPhase::Querying { .. } => reply is Info || reply is Failed,
            OpenatPhase::Closing { .. } => reply is Unit,
            OpenatPhase::Over => false,
        }
    }

    open spec fn leads_to(
        &self,
        fs: PassthroughFs,
        reply: Reply,
        next: Self,
        next_fs: PassthroughFs,
        flow: Flow<Self::Output>,
    ) -> bool {
        &&& next_fs == fs
        &&& next.path == self.path
        &&& match self.phase {
            OpenatPhase::Start => {
                &&& next.phase == OpenatPhase::Opening
                &&& flow.opens_path(self.path@, probe_flags())
            },
            OpenatPhase::Opening => match reply {
                Reply::Handle(handle) => {
                    &&& next.phase == OpenatPhase::Querying { handle }
                    &&& flow.does(Action::QueryInfo { handle })
                },
                Reply::Failed(e) => next.phase is Over && flow.ends(Err(e)),
                _ => false,
            },
            OpenatPhase::Querying { handle } => match reply {
                Reply::Info(i) => if i.is_reparse_point() {
                    &&& next.phase == OpenatPhase::Closing { error: FsError::ReparsePoint }
                    &&& flow.closes(handle)
                } else {
                    next.phase is Over && flow.ends(Ok(handle))
                },
                Reply::Failed(e) => {
                    &&& next.phase == OpenatPhase::Closing { error: e }
                    &&& flow.closes(handle)
                },
                _ => false,
            },
            OpenatPhase::Closing { error } => next.phase is Over && flow.ends(Err(error)),
            OpenatPhase::Over => false,
        }
    }

    open spec fn holds(&self, r: Resource) -> int {
        match self.phase {
            OpenatPhase::Querying { handle } => one(Resource::Handle(handle), r),
            _ => 0,
        }
    }

    open spec fn hands_over(out: Self::Output, r: Resource) -> int {
        match out {
            Ok(handle) => one(Resource::Handle(handle), r),
            Err(_) => 0,
        }
    }

    fn step(&mut self, fs: &mut PassthroughFs, reply: Reply) -> (flow: Flow<Self::Output>) {
        match self.phase {
            OpenatPhase::Start => {
                self.phase = OpenatPhase::Opening;
                Flow::Do(Action::Open(open_handle(self.path.as_str(), &probe())))
            },
            OpenatPhase::Opening => match reply {
                Reply::Handle(handle) => {
                    self.phase = OpenatPhase::Querying { handle };
                    Flow::Do(Action::QueryInfo { handle })
                },
                Reply::Failed(e) => {
                    self.phase = OpenatPhase::Over;
                    Flow::Done(Err(e))
                },
                _ => unreached(),
            },
            OpenatPhase::Querying { handle } => {
                let error = match reply {
                    Reply::Info(i) => {
                        if (i.file_attributes & FILE_ATTRIBUTE_REPARSE_POINT) == 0 {
                            self.phase = OpenatPhase::Over;
                            return Flow::Done(Ok(handle));
                        }
                        FsError::ReparsePoint
                    },
                    Reply::Failed(e) => e,
                    _ => unreached(),
                };
                self.phase = OpenatPhase::Closing { error };
                Flow::Do(Action::Close { handle })
            },
            OpenatPhase::Closing { error } => {
                self.phase = OpenatPhase::Over;
                Flow::Done(Err(error))
            },
            OpenatPhase::Over => unreached(),
        }
    }

    proof fn step_balances(
        &self,
        fs: PassthroughFs,
        reply: Reply,
        next: Self,
        next_fs: PassthroughFs,
        flow: Flow<Self::Output>,
        r: Resource,
    ) {
    }
}

/// Whether an access allows neither writing nor appending.
pub open spec fn reads_only(access: u32) -> bool {
    access & (FILE_WRITE_DATA | FILE_APPEND_DATA) == 0
}

/// How far the question has come.
#[derive(Clone, Copy)]
pub enum IsHandleReadOnlyPhase {
    Start,
    Querying,
    Over,
}

/// Finds out whether a handle of the guest was opened without write access. That holds
/// of directories. A handle of which the host says nothing counts as writable, so that a
/// later call of the host decides.
pub struct IsHandleReadOnly {
    pub handle: u64,
    pub phase: IsHandleReadOnlyPhase,
}

pub fn is_handle_read_only(handle: u64) -> (r: IsHandleReadOnly)
    ensures
        r == (IsHandleReadOnly { handle, phase: IsHandleReadOnlyPhase::Start }),
{
    IsHandleReadOnly { handle, phase: IsHandleReadOnlyPhase::Start }
}

impl Operation for IsHandleReadOnly {
    type Output = bool;

    open spec fn expects(&self, reply: Reply) -> bool {
        match self.phase {
            IsHandleReadOnlyPhase::Start => reply is Begin,
            IsHandleReadOnlyPhase::Querying => reply is Word || reply is Failed,
            IsHandleReadOnlyPhase::Over => false,
        }
    }

    open spec fn leads_to(
        &self,
        fs: PassthroughFs,
        reply: Reply,
        next: Self,
        next_fs: PassthroughFs,
        flow: Flow<Self::Output>,
    ) -> bool {
        &&& next_fs == fs
        &&& next.handle == self.handle
        &&& match self.phase {
            IsHandleReadOnlyPhase::Start => if is_file_handle(self.handle) {
                &&& next.phase == IsHandleReadOnlyPhase::Querying
                &&& flow.does(Action::QueryAccess { handle: self.handle })
            } else {
                next.phase is Over && flow.ends(true)
            },
            IsHandleReadOnlyPhase::Querying => match reply {
                Reply::Word(access) => next.phase is Over && flow.ends(reads_only(access)),
                Reply::Failed(_) => next.phase is Over && flow.ends(false),
                _ => false,
            },
            IsHandleReadOnlyPhase::Over => false,
        }
    }

    open spec fn holds(&self, r: Resource) -> int {
        0
    }

    open spec fn hands_over(out: Self::Output, r: Resource) -> int {
        0
    }

    fn step(&mut self, fs: &mut PassthroughFs, reply: Reply) -> (flow: Flow<Self::Output>) {
        match self.phase {
            IsHandleReadOnlyPhase::Start => {
                if !names_file(self.handle) {
                    self.phase = IsHandleReadOnlyPhase::Over;
                    return Flow::Done(true);
                }
                self.phase = IsHandleReadOnlyPhase::Querying;
                Flow::Do(Action::QueryAccess { handle: self.handle })
            },
            IsHandleReadOnlyPhase::Querying => {
                self.phase = IsHandleReadOnlyPhase::Over;
                match reply {
                    Reply::Word(access) => Flow::Done(
                        (access & (FILE_WRITE_DATA | FILE_APPEND_DATA)) == 0,
                    ),
                    Reply::Failed(_) => Flow::Done(false),
                    _ => unreached(),
                }
            },
            IsHandleReadOnlyPhase::Over => unreached(),
        }
    }

    proof fn step_balances(
        &self,
        fs: PassthroughFs,
        reply: Reply,
        next: Self,
        next_fs: PassthroughFs,
        flow: Flow<Self::Output>,
        r: Resource,
    ) {
    }
}

/// How far the question has come.
#[derive(Clone, Copy)]
pub enum GetReparseTagPhase {
    Start,
    Finding,
    Over,
}

/// Finds out the reparse tag of a path; zero if it has none.
pub struct GetReparseTag {
    pub path: String,
    pub phase: GetReparseTagPhase,
}

pub fn get_reparse_tag(path: String) -> (r: GetReparseTag)
    ensures
        r == (GetReparseTag { path, phase: GetReparseTagPhase::Start }),
{
    GetReparseTag { path, phase: GetReparseTagPhase::Start }
}

impl Operation for GetReparseTag {
    type Output = u32;

    open spec fn expects(&self, reply: Reply) -> bool {
        match self.phase {
            GetReparseTagPhase::Start => reply is Begin,
            GetReparseTagPhase::Finding => reply is Found || reply is Failed,
            GetReparseTagPhase::Over => false,
        }
    }

    open spec fn leads_to(
        &self,
        fs: PassthroughFs,
        reply: Reply,
        next: Self,
        next_fs: PassthroughFs,
        flow: Flow<Self::Output>,
    ) -> bool {
        &&& next_fs == fs
        &&& next.path == self.path
        &&& match self.phase {
            GetReparseTagPhase::Start => {
                &&& next.phase == GetReparseTagPhase::Finding
                &&& flow matches Flow::Do(Action::FindFirst { path })
                &&& path@ == wide(self.path@)
            },
            GetReparseTagPhase::Finding => match reply {
                Reply::Found { attributes, reserved } => {
                    &&& next.phase is Over
                    &&& flow.ends(
                        if attributes & FILE_ATTRIBUTE_REPARSE_POINT != 0 {
                            reserved
                        } else {
                            0
                        },
                    )
                },
                Reply::Failed(_) => next.phase is Over && flow.ends(0),
                _ => false,
            },
            GetReparseTagPhase::Over => false,
        }
    }

    open spec fn holds(&self, r: Resource) -> int {
        0
    }

    open spec fn hands_over(out: Self::Output, r: Resource) -> int {
        0
    }

    fn step(&mut self, fs: &mut PassthroughFs, reply: Reply) -> (flow: Flow<Self::Output>) {
        match self.phase {
            GetReparseTagPhase::Start => {
                self.phase = GetReparseTagPhase::Finding;
                Flow::Do(Action::FindFirst { path: path_to_wide(self.path.as_str()) })
            },
            GetReparseTagPhase::Finding => {
                self.phase = GetReparseTagPhase::Over;
                match reply {
                    Reply::Found { attributes, reserved } => if (attributes
                        & FILE_ATTRIBUTE_REPARSE_POINT) != 0 {
                        Flow::Done(reserved)
                    } else {
                        Flow::Done(0)
                    },
                    Reply::Failed(_) => Flow::Done(0),
                    _ => unreached(),
                }
            },
            GetReparseTagPhase::Over => unreached(),
        }
    }

    proof fn step_balances(
        &self,
        fs: PassthroughFs,
        reply: Reply,
        next: Self,
        next_fs: PassthroughFs,
        flow: Flow<Self::Output>,
        r: Resource,
    ) {
    }
}

/// A time as its low and its high word.
pub open spec fn time_words(t: Option<u64>) -> Option<(u32, u32)> {
    match t {
        Some(v) => Some(((v % 0x1_0000_0000) as u32, (v / 0x1_0000_0000) as u32)),
        None => None,
    }
}

fn split_time(t: Option<u64>) -> (r: Option<(u32, u32)>)
    ensures
        r == time_words(t),
{
    match t {
        Some(v) => Some(((v % 0x1_0000_0000) as u32, (v / 0x1_0000_0000) as u32)),
        None => None,
    }
}

/// How a path is opened to set its times.
pub open spec fn times_flags() -> OpenFlags {
    OpenFlags {
        desired_access: FILE_WRITE_ATTRIBUTES,
        create_disposition: FILE_OPEN,
        create_options: FILE_SYNCHRONOUS_IO_NONALERT,
    }
}

/// How far setting times has come.
#[derive(Clone, Copy)]
pub enum SetFileTimesPhase {
    Start,
    Opening,
    Setting { handle: u64 },
    Closing { out: Result<(), FsError> },
    Over,
}

/// Sets the times of a path, as far as they are given.
pub struct SetFileTimes {
    pub path: String,
    pub atime: Option<u64>,
    pub mtime: Option<u64>,
    pub phase: SetFileTimesPhase,
}

pub fn set_file_times(path: String, atime: Option<u64>, mtime: Option<u64>) -> (r: SetFileTimes)
    ensures
        r == (SetFileTimes { path, atime, mtime, phase: SetFileTimesPhase::Start }),
{
    SetFileTimes { path, atime, mtime, phase: SetFileTimesPhase::Start }
}

impl Operation for SetFileTimes {
    type Output = Result<(), FsError>;

    open spec fn expects(&self, reply: Reply) -> bool {
        match self.phase {
            SetFileTimesPhase::Start => reply is Begin,
            SetFileTimesPhase::Opening => reply.opened(),
            SetFileTimesPhase::Setting { .. } => reply.done(),
            SetFileTimesPhase::Closing { .. } => reply is Unit,
            SetFileTimesPhase::Over => false,
        }
    }

    open spec fn leads_to(
        &self,
        fs: PassthroughFs,
        reply: Reply,
        next: Self,
        next_fs: PassthroughFs,
        flow: Flow<Self::Output>,
    ) -> bool {
        &&& next_fs == fs
        &&& next == (SetFileTimes { phase: next.phase, ..*self })
        &&& match self.phase {
            SetFileTimesPhase::Start => {
                &&& next.phase == SetFileTimesPhase::Opening
                &&& flow.opens_path(self.path@, times_flags())
            },
            SetFileTimesPhase::Opening => match reply {
                Reply::Handle(handle) => {
                    &&& next.phase == SetFileTimesPhase::Setting { handle }
                    &&& flow.does(
                        Action::SetTimes {
                            handle,
                            atime: time_words(self.atime),
                            mtime: time_words(self.mtime),
                        },
                    )
                },
                Reply::Failed(e) => next.phase is Over && flow.ends(Err(e.once_more())),
                _ => false,
            },
            SetFileTimesPhase::Setting { handle } => {
                &&& flow.closes(handle)
                &&& match reply {
                    Reply::Unit => next.phase == (SetFileTimesPhase::Closing { out: Ok(()) }),
                    Reply::Failed(e) => next.phase == (SetFileTimesPhase::Closing {
                        out: Err(e.once_more()),
                    }),
                    _ => false,
                }
            },
            SetFileTimesPhase::Closing { out } => next.phase is Over && flow.ends(out),
            SetFileTimesPhase::Over => false,
        }
    }

    open spec fn holds(&self, r: Resource) -> int {
        match self.phase {
            SetFileTimesPhase::Setting { handle } => one(Resource::Handle(handle), r),
            _ => 0,
        }
    }

    open spec fn hands_over(out: Self::Output, r: Resource) -> int {
        0
    }

    fn step(&mut self, fs: &mut PassthroughFs, reply: Reply) -> (flow: Flow<Self::Output>) {
        match self.phase {
            SetFileTimesPhase::Start => {
                self.phase = SetFileTimesPhase::Opening;
                let flags = OpenFlags {
                    desired_access: FILE_WRITE_ATTRIBUTES,
                    create_disposition: FILE_OPEN,
                    create_options: FILE_SYNCHRONOUS_IO_NONALERT,
                };
                Flow::Do(Action::Open(open_handle(self.path.as_str(), &flags)))
            },
            SetFileTimesPhase::Opening => match reply {
                Reply::Handle(handle) => {
                    self.phase = SetFileTimesPhase::Setting { handle };
                    let atime = split_time(self.atime);
                    let mtime = split_time(self.mtime);
                    Flow::Do(Action::SetTimes { handle, atime, mtime })
                },
                Reply::Failed(e) => {
                    self.phase = SetFileTimesPhase::Over;
                    Flow::Done(Err(e.translated()))
                },
                _ => unreached(),
            },
            SetFileTimesPhase::Setting { handle } => {
                let out = match reply {
                    Reply::Unit => Ok(()),
                    Reply::Failed(e) => Err(e.translated()),
                    _ => unreached(),
                };
                self.phase = SetFileTimesPhase::Closing { out };
                Flow::Do(Action::Close { handle })
            },
            SetFileTimesPhase::Closing { out } => {
                self.phase = SetFileTimesPhase::Over;
                Flow::Done(out)
            },
            SetFileTimesPhase::Over => unreached(),
        }
    }

    proof fn step_balances(
        &self,
        fs: PassthroughFs,
        reply: Reply,
        next: Self,
        next_fs: PassthroughFs,
        flow: Flow<Self::Output>,
        r: Resource,
    ) {
    }
}

} // verus!
