//! What the library asks of the host, and what the host answers.

use crate::config::Timeout;
use crate::dir::well_formed_from;
use crate::errno::FsError;
use crate::fs::{is_file_handle, Entry};
use crate::nt::{opens_child, opens_id, opens_path, opens_stream, NtCreate, OpenFlags};
use crate::override_stat::OverrideStat;
use crate::stat::{DiskSpace, FileInfo, HandleInfo, Metadata, Stat64};
use crate::time::is_unix_time;
use vstd::prelude::*;

verus! {

/// A step that an operation asks for. The first group are calls of the host, the second
/// are other operations of the file system.
#[allow(inconsistent_fields)]
#[derive(Debug, PartialEq, Eq)]
pub enum Action {
    /// Open or create a file.
    Open(NtCreate),
    /// Open a path for writing.
    OpenWrite { path: String },
    /// Make a second handle with the same access.
    Duplicate { handle: u64 },
    /// Make a mapping object of a whole file.
    CreateMapping { handle: u64, page_flags: u32 },
    /// Close a handle.
    Close { handle: u64 },
    /// Ask for the identity of an open file.
    QueryInfo { handle: u64 },
    /// Ask for the access with which a file was opened.
    QueryAccess { handle: u64 },
    /// Ask for the attributes of an open file.
    HandleMetadata { handle: u64 },
    /// Ask for the length of an open file.
    HandleLength { handle: u64 },
    /// Ask for the attributes of a path; a link is not followed.
    Metadata { path: String },
    /// Ask for the directory entry of a path, and close the search.
    FindFirst { path: Vec<u16> },
    /// Read a file or stream.
    ReadFile { path: String },
    /// Replace the contents of a file or stream.
    WriteFile { path: String, data: Vec<u8> },
    /// Delete a file or stream.
    DeleteFile { path: Vec<u16> },
    /// Remove a file or stream.
    RemoveFile { path: String },
    /// Ask whether a file or stream exists.
    Exists { path: String },
    /// Write to an open file the first `length` bytes of `data`.
    WriteHandle { handle: u64, data: Vec<u8>, length: u32 },
    /// Mark an open file for deletion when it is closed.
    DeleteOnClose { handle: u64 },
    /// Set times of an open file, each as its low and its high word.
    SetTimes { handle: u64, atime: Option<(u32, u32)>, mtime: Option<(u32, u32)> },
    /// Set the length of an open file.
    SetLength { handle: u64, length: u64 },
    /// Write everything of an open file to the disk.
    SyncAll { handle: u64 },
    /// Write the contents of an open file to the disk.
    SyncData { handle: u64 },
    /// Rename a file and replace what has the new name.
    Rename { from: String, to: String },
    /// Rename a file if nothing has the new name.
    MoveNoReplace { from: Vec<u16>, to: Vec<u16> },
    /// Give a file a second name.
    HardLink { existing: String, new: String },
    /// Make a symbolic link to a file.
    SymlinkFile { target: String, link: String },
    /// Make a symbolic link to a directory.
    SymlinkDir { target: String, link: String },
    /// Ask for the target of a symbolic link.
    ReadLink { path: String },
    /// Ask for entries of an open directory.
    QueryDirectory { handle: u64, restart: bool },
    /// Ask for the volume on which a path lies. The answer has room for `extra` units more
    /// than the path.
    VolumePath { path: Vec<u16>, extra: usize },
    /// Ask for the sizes of a volume.
    DiskFree { path: Vec<u16> },
    /// Map a part of a file to an address.
    MapView {
        mapping: u64,
        map_flags: u32,
        offset_high: u32,
        offset_low: u32,
        length: u64,
        address: u64,
    },
    /// Unmap what is mapped at an address.
    Unmap { address: u64 },
    /// Ask for the first stream of a file.
    FirstStream { path: Vec<u16> },
    /// Ask for the next stream.
    NextStream { search: u64 },
    /// End a search for streams.
    CloseSearch { search: u64 },
    /// Ask for the time.
    Now,
    /// Ask for the granularity of mappings.
    Granularity,
    /// Copy from an open file to the guest.
    ReadFrom { handle: u64, size: u32, offset: u64 },
    /// Copy from the guest to an open file.
    WriteTo { handle: u64, size: u32, offset: u64 },
    /// Hand a directory entry to the guest.
    AddEntry { ino: u64, offset: u64, type_: u32, name: Vec<u8> },
    /// Hand a directory entry and what it names to the guest.
    AddEntryPlus { ino: u64, offset: u64, type_: u32, name: Vec<u8>, entry: Entry },
    /// Find out what identifies a path.
    GetFileInfo { path: String },
    /// Find out the reparse tag of a path.
    GetReparseTag { path: String },
    /// Make attributes for the guest.
    Stat { meta: Metadata, inode: u64, path: String, n_link: u32 },
    /// Read the recorded owner and mode.
    ReadOverride { path: String },
    /// Record an owner and a mode.
    WriteOverride { path: String, owner: Option<(u32, u32)>, mode: Option<u32> },
    /// Remove the capabilities of a file.
    RemoveCapability { path: String },
    /// Remove what gives a file privileges.
    KillPriv { path: String },
    /// Write a stream of an open file.
    WriteAds { handle: u64, suffix: String, data: Vec<u8> },
    /// Record a security context.
    WriteSecctx { path: String, name: Vec<u8>, data: Vec<u8>, symlink: bool },
    /// List the streams of a file.
    ListStreams { path: String },
    /// Set times of a path.
    SetFileTimes { path: String, atime: Option<u64>, mtime: Option<u64> },
    /// Find out whether a handle was opened without write access.
    IsReadOnly { handle: u64 },
    /// Open a file that the guest has open once more.
    Reopen { inode: u64, handle: u64, desired_access: u32 },
    /// Read a directory, unless it has been read.
    FillDirCache { inode: u64, handle: u64 },
    /// Look a name up.
    Lookup { parent: u64, name: Vec<u8> },
    /// Get attributes.
    Getattr { inode: u64, handle: Option<u64> },
}

/// The answer to an action.
#[derive(Debug, PartialEq, Eq)]
pub enum Reply {
    /// Nothing was asked yet.
    Begin,
    Unit,
    Failed(FsError),
    Handle(u64),
    Info(HandleInfo),
    Word(u32),
    Number(u64),
    Flag(bool),
    Meta(Metadata),
    Found { attributes: u32, reserved: u32 },
    Bytes(Vec<u8>),
    Units(Vec<u16>),
    Text(String),
    Names(Vec<String>),
    NoMore,
    Disk(DiskSpace),
    Stream { search: u64, name: Vec<u16> },
    Time { secs: i64, nsec: u32 },
    FileInfo(FileInfo),
    Stat(Stat64),
    Override(OverrideStat),
    Entry(Entry),
    Attr(Stat64, Timeout),
}

impl Reply {
    /// It worked, or it failed.
    pub open spec fn done(self) -> bool {
        self is Unit || self is Failed
    }

    /// A handle of the host came back, or it failed.
    pub open spec fn opened(self) -> bool {
        self is Failed || (self matches Reply::Handle(h) && is_file_handle(h))
    }

    /// Attributes came back that can be told to the guest, or it failed.
    pub open spec fn meta(self) -> bool {
        self is Failed || (self matches Reply::Meta(m) && m.in_range())
    }

    /// A number came back, or it failed.
    pub open spec fn number(self) -> bool {
        self is Number || self is Failed
    }

    /// A piece of a directory came back, or there is none, or it failed.
    pub open spec fn listing(self) -> bool {
        self is NoMore || self is Failed || (self matches Reply::Bytes(b) && well_formed_from(
            b@,
            0,
        ))
    }

    /// Contents came back, or it failed.
    pub open spec fn bytes(self) -> bool {
        self is Bytes || self is Failed
    }
}

/// The end of an operation that works or fails, as a reply.
pub open spec fn done_reply(out: Result<(), FsError>) -> Reply {
    match out {
        Ok(_) => Reply::Unit,
        Err(e) => Reply::Failed(e),
    }
}

/// Whether a reply can answer an action.
pub open spec fn answers(reply: Reply, action: Action) -> bool {
    match action {
        Action::Open(_)
        | Action::OpenWrite { .. }
        | Action::Duplicate { .. }
        | Action::CreateMapping { .. }
        | Action::Reopen { .. } => reply.opened(),
        Action::Close { .. }
        | Action::CloseSearch { .. }
        | Action::RemoveCapability { .. }
        | Action::KillPriv { .. } => reply is Unit,
        Action::QueryInfo { .. } => reply is Info || reply is Failed,
        Action::QueryAccess { .. } => reply is Word || reply is Failed,
        Action::HandleMetadata { .. } | Action::Metadata { .. } => reply.meta(),
        Action::FindFirst { .. } => reply is Found || reply is Failed,
        Action::ReadFile { .. } => reply.bytes(),
        Action::Exists { .. } | Action::IsReadOnly { .. } => reply is Flag,
        Action::ReadLink { .. } => reply is Text || reply is Failed,
        Action::QueryDirectory { .. } => reply.listing(),
        Action::VolumePath { .. } | Action::NextStream { .. } => reply is Units || reply is Failed,
        Action::DiskFree { .. } => reply is Disk || reply is Failed,
        Action::FirstStream { .. } => reply is Stream || reply is Failed,
        Action::Now => reply matches Reply::Time { secs, nsec } && is_unix_time(secs, nsec),
        Action::Granularity => reply matches Reply::Word(g) && g != 0,
        Action::HandleLength { .. }
        | Action::ReadFrom { .. }
        | Action::WriteTo { .. }
        | Action::AddEntry { .. }
        | Action::AddEntryPlus { .. } => reply.number(),
        Action::GetFileInfo { .. } => reply is FileInfo || reply is Failed,
        Action::GetReparseTag { .. } => reply is Word,
        Action::Stat { .. } => reply is Stat,
        Action::ReadOverride { .. } => reply is Override,
        Action::ListStreams { .. } => reply is Names || reply is Failed,
        Action::Lookup { .. } => reply is Entry || reply is Failed,
        Action::Getattr { .. } => reply is Attr || reply is Failed,
        _ => reply.done(),
    }
}

/// Whether an action can be asked for: attributes are made only of what can be told to
/// the guest.
pub open spec fn can_be_asked(action: Action) -> bool {
    action matches Action::Stat { meta, .. } ==> meta.in_range()
}

/// What an operation does next: it asks for a step, or it ends.
#[derive(Debug, PartialEq, Eq)]
pub enum Flow<T> {
    Do(Action),
    Done(T),
}

impl<T> Flow<T> {
    /// The operation asks for an action.
    pub open spec fn does(self, action: Action) -> bool {
        self == Flow::<T>::Do(action)
    }

    /// The operation ends.
    pub open spec fn ends(self, out: T) -> bool {
        self == Flow::Done(out)
    }

    /// The operation closes a handle.
    pub open spec fn closes(self, handle: u64) -> bool {
        self.does(Action::Close { handle })
    }

    /// The operation opens a path.
    pub open spec fn opens_path(self, path: Seq<char>, flags: OpenFlags) -> bool {
        self matches Flow::Do(Action::Open(r)) && opens_path(r, path, flags)
    }

    /// The operation opens a file by its index.
    pub open spec fn opens_id(self, root: u64, file_index: u64, flags: OpenFlags) -> bool {
        self matches Flow::Do(Action::Open(r)) && opens_id(r, root, file_index, flags)
    }

    /// The operation opens an entry of a directory.
    pub open spec fn opens_child(self, parent: u64, name: Seq<u8>, flags: OpenFlags) -> bool {
        self matches Flow::Do(Action::Open(r)) && opens_child(r, parent, name, flags)
    }

    /// The operation opens a stream of an open file.
    pub open spec fn opens_stream(self, file: u64, suffix: Seq<char>) -> bool {
        self matches Flow::Do(Action::Open(r)) && opens_stream(r, file, suffix)
    }
}

/// Something of the host that has to be given back.
#[derive(Clone, Copy, Debug, PartialEq, Eq, Structural)]
pub enum Resource {
    Handle(u64),
    Search(u64),
}

/// How often `b` counts where `a` is meant.
pub open spec fn one(a: Resource, b: Resource) -> int {
    if a == b {
        1
    } else {
        0
    }
}

/// What a reply hands to the operation.
pub open spec fn gained(reply: Reply, r: Resource) -> int {
    match reply {
        Reply::Handle(h) => one(Resource::Handle(h), r),
        Reply::Stream { search, .. } => one(Resource::Search(search), r),
        _ => 0,
    }
}

/// What an action gives back.
pub open spec fn given_back(action: Action, r: Resource) -> int {
    match action {
        Action::Close { handle } => one(Resource::Handle(handle), r),
        Action::CloseSearch { search } => one(Resource::Search(search), r),
        _ => 0,
    }
}

} // verus!
