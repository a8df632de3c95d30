//! Finding files, and their attributes.

use crate::config::Timeout;
use crate::errno::{EBADF, FsError};
use crate::fs::{is_file_handle, names_file, Entry, PassthroughFs};
use crate::host::{one, Action, Flow, Reply, Resource};
use crate::inode::{following, has_key, referenced, InodeAltKey};
use crate::linux::{ATTR_SUBMOUNT, S_IFDIR, S_IFMT};
use crate::nt::{open_by_id, open_handle, OpenFlags};
use crate::operation::Operation;
use crate::path::{child_path, joins};
use crate::stat::{metadata_to_stat64, stat_of, FileInfo, Metadata, Stat64};
use crate::text::lossy_utf8;
use crate::win::{FILE_OPEN, FILE_READ_ATTRIBUTES, FILE_SYNCHRONOUS_IO_NONALERT};
use vstd::pervasive::unreached;
use vstd::prelude::*;

verus! {

/// How far making attributes has come.
#[derive(Clone, Copy)]
pub enum StatPathPhase {
    Start,
    Tagging,
    Reading { reparse_tag: u32 },
    Over,
}

/// Makes the attributes of a path from what the host says of it and from its record. The
/// reparse tag is asked for only where it decides what the file is.
pub struct StatPath {
    pub meta: Metadata,
    pub inode: u64,
    pub path: String,
    pub n_link: u32,
    pub phase: StatPathPhase,
}

pub fn stat_path(meta: Metadata, inode: u64, path: String, n_link: u32) -> (r: StatPath)
    requires
        meta.in_range(),
    ensures
        r == (StatPath { meta, inode, path, n_link, phase: StatPathPhase::Start }),
{
    StatPath { meta, inode, path, n_link, phase: StatPathPhase::Start }
}

impl Operation for StatPath {
    type Output = Stat64;

    open spec fn expects(&self, reply: Reply) -> bool {
        &&& self.meta.in_range()
        &&& match self.phase {
            StatPathPhase::Start => reply is Begin,
            StatPathPhase::Tagging => reply is Word,
            StatPathPhase::Reading { .. } => reply is Override,
            StatPathPhase::Over => false,
        }
    }

    open spec fn leads_to(
        &self,
        fs: PassthroughFs,
        reply: Reply,
        next: Self,
        next_fs: PassthroughFs,
        flow: Flow<Self::Output>,
    ) -> bool {
        &&& next_fs == fs
        &&& next == (StatPath { phase: next.phase, ..*self })
        &&& match self.phase {
            StatPathPhase::Start => if self.meta.tag_matters() {
                &&& next.phase == StatPathPhase::Tagging
                &&& flow matches Flow::Do(Action::GetReparseTag { path })
                &&& path@ == self.path@
            } else {
                &&& next.phase == StatPathPhase::Reading { reparse_tag: 0 }
                &&& flow matches Flow::Do(Action::ReadOverride { path })
                &&& path@ == self.path@
            },
            StatPathPhase::Tagging => match reply {
                Reply::Word(reparse_tag) => {
                    &&& next.phase == StatPathPhase::Reading { reparse_tag }
                    &&& flow matches Flow::Do(Action::ReadOverride { path })
                    &&& path@ == self.path@
                },
                _ => false,
            },
            StatPathPhase::Reading { reparse_tag } => match reply {
                Reply::Override(o) => {
                    &&& next.phase is Over
                    &&& flow.ends(stat_of(self.meta, reparse_tag, self.inode, self.n_link, o))
                },
                _ => false,
            },
            StatPathPhase::Over => false,
        }
    }

    open spec fn holds(&self, r: Resource) -> int {
        0
    }

    open spec fn hands_over(out: Self::Output, r: Resource) -> int {
        0
    }

    fn step(&mut self, fs: &mut PassthroughFs, reply: Reply) -> (flow: Flow<Self::Output>) {
        match self.phase {
            StatPathPhase::Start => {
                if self.meta.needs_tag() {
                    self.phase = StatPathPhase::Tagging;
                    return Flow::Do(Action::GetReparseTag { path: self.path.clone() });
                }
                self.phase = StatPathPhase::Reading { reparse_tag: 0 };
                Flow::Do(Action::ReadOverride { path: self.path.clone() })
            },
            StatPathPhase::Tagging => match reply {
                Reply::Word(reparse_tag) => {
                    self.phase = StatPathPhase::Reading { reparse_tag };
                    Flow::Do(Action::ReadOverride { path: self.path.clone() })
                },
                _ => unreached(),
            },
            StatPathPhase::Reading { reparse_tag } => match reply {
                Reply::Override(o) => {
                    self.phase = StatPathPhase::Over;
                    Flow::Done(
                        metadata_to_stat64(&self.meta, reparse_tag, self.inode, self.n_link, &o),
                    )
                },
                _ => unreached(),
            },
            StatPathPhase::Over => unreached(),
        }
    }

    proof fn step_balances(
        &self,
        fs: PassthroughFs,
        reply: Reply,
        next: Self,
        next_fs: PassthroughFs,
        flow: Flow<Self::Output>,
        r: Resource,
    ) {
    }
}

/// How a file that the guest has open is opened once more.
pub open spec fn reopen_flags(desired_access: u32) -> OpenFlags {
    OpenFlags {
        desired_access,
        create_disposition: FILE_OPEN,
        create_options: FILE_SYNCHRONOUS_IO_NONALERT,
    }
}

fn reopen_with(desired_access: u32) -> (r: OpenFlags)
    ensures
        r == reopen_flags(desired_access),
{
    OpenFlags {
        desired_access,
        create_disposition: FILE_OPEN,
        create_options: FILE_SYNCHRONOUS_IO_NONALERT,
    }
}

/// How far opening a file once more has come.
#[derive(Clone, Copy)]
pub enum ReopenPhase {
    Start,
    Duplicating,
    ById,
    ByPath,
    Over,
}

/// Opens a file once more. A handle of the host is duplicated. Otherwise the file is
/// opened by its index, and by its path if that fails. The caller owns the handle.
pub struct ReopenInode {
    pub inode: u64,
    pub handle: u64,
    pub desired_access: u32,
    pub path: String,
    pub phase: ReopenPhase,
}

pub fn reopen_inode(inode: u64, handle: u64, desired_access: u32) -> (r: ReopenInode)
    ensures
        r.inode == inode,
        r.handle == handle,
        r.desired_access == desired_access,
        r.phase == ReopenPhase::Start,
{
    ReopenInode { inode, handle, desired_access, path: String::new(), phase: ReopenPhase::Start }
}

impl Operation for ReopenInode {
    type Output = Result<u64, FsError>;

    open spec fn expects(&self, reply: Reply) -> bool {
        match self.phase {
            ReopenPhase::Start => reply is Begin,
            ReopenPhase::Over => false,
            _ => reply.opened(),
        }
    }

    open spec fn leads_to(
        &self,
        fs: PassthroughFs,
        reply: Reply,
        next: Self,
        next_fs: PassthroughFs,
        flow: Flow<Self::Output>,
    ) -> bool {
        let flags = reopen_flags(self.desired_access);
        &&& next_fs == fs
        &&& next == (ReopenInode { path: next.path, phase: next.phase, ..*self })
        &&& match self.phase {
            ReopenPhase::Start => if is_file_handle(self.handle) {
                &&& next.phase == ReopenPhase::Duplicating
                &&& flow.does(Action::Duplicate { handle: self.handle })
            } else if fs.knows(self.inode) {
                &&& next.phase == ReopenPhase::ById
                &&& next.path@ == fs.path_of(self.inode)
                &&& flow.opens_id(fs.root_handle, fs.index_of(self.inode), flags)
            } else {
                next.phase is Over && flow.ends(Err(FsError::linux(EBADF)))
            },
            ReopenPhase::Duplicating => match reply {
                Reply::Handle(h) => next.phase is Over && flow.ends(Ok(h)),
                Reply::Failed(e) => next.phase is Over && flow.ends(Err(e.once_more())),
                _ => false,
            },
            ReopenPhase::ById => match reply {
                Reply::Handle(h) => next.phase is Over && flow.ends(Ok(h)),
                Reply::Failed(_) => {
                    &&& next.phase == ReopenPhase::ByPath
                    &&& flow.opens_path(self.path@, flags)
                },
                _ => false,
            },
            ReopenPhase::ByPath => match reply {
                Reply::Handle(h) => next.phase is Over && flow.ends(Ok(h)),
                Reply::Failed(e) => next.phase is Over && flow.ends(Err(e)),
                _ => false,
            },
            ReopenPhase::Over => false,
        }
    }

    open spec fn holds(&self, r: Resource) -> int {
        0
    }

    open spec fn hands_over(out: Self::Output, r: Resource) -> int {
        match out {
            Ok(handle) => one(Resource::Handle(handle), r),
            Err(_) => 0,
        }
    }

    fn step(&mut self, fs: &mut PassthroughFs, reply: Reply) -> (flow: Flow<Self::Output>) {
        let flags = reopen_with(self.desired_access);
        match self.phase {
            ReopenPhase::Start => {
                if names_file(self.handle) {
                    self.phase = ReopenPhase::Duplicating;
                    return Flow::Do(Action::Duplicate { handle: self.handle });
                }
                match fs.inode_data(self.inode) {
                    Ok(data) => {
                        self.path = data.get_path().clone();
                        self.phase = ReopenPhase::ById;
                        Flow::Do(Action::Open(open_by_id(fs.root_handle, data.file_index, &flags)))
                    },
                    Err(e) => {
                        self.phase = ReopenPhase::Over;
                        Flow::Done(Err(e))
                    },
                }
            },
            ReopenPhase::Duplicating => {
                self.phase = ReopenPhase::Over;
                match reply {
                    Reply::Handle(h) => Flow::Done(Ok(h)),
                    Reply::Failed(e) => Flow::Done(Err(e.translated())),
                    _ => unreached(),
                }
            },
            ReopenPhase::ById => match reply {
                Reply::Handle(h) => {
                    self.phase = ReopenPhase::Over;
                    Flow::Done(Ok(h))
                },
                Reply::Failed(_) => {
                    self.phase = ReopenPhase::ByPath;
                    Flow::Do(Action::Open(open_handle(self.path.as_str(), &flags)))
                },
                _ => unreached(),
            },
            ReopenPhase::ByPath => {
                self.phase = ReopenPhase::Over;
                match reply {
                    Reply::Handle(h) => Flow::Done(Ok(h)),
                    Reply::Failed(e) => Flow::Done(Err(e)),
                    _ => unreached(),
                }
            },
            ReopenPhase::Over => unreached(),
        }
    }

    proof fn step_balances(
        &self,
        fs: PassthroughFs,
        reply: Reply,
        next: Self,
        next_fs: PassthroughFs,
        flow: Flow<Self::Output>,
        r: Resource,
    ) {
    }
}

/// What the guest learns of a file.
pub open spec fn entry_of(fs: PassthroughFs, inode: u64, attr: Stat64, attr_flags: u32) -> Entry {
    Entry {
        inode,
        generation: 0,
        attr,
        attr_flags,
        attr_timeout: fs.cfg.attr_timeout,
        entry_timeout: fs.cfg.entry_timeout,
    }
}

/// What identifies a file.
pub open spec fn key_of(info: FileInfo) -> InodeAltKey {
    InodeAltKey { file_index: info.file_index, volume_serial: info.volume_serial }
}

/// How far looking a name up has come.
#[derive(Clone, Copy)]
pub enum LookupPhase {
    Start,
    Probing,
    Attributes { info: FileInfo, inode: u64 },
    Stating { info: FileInfo, inode: u64 },
    Comparing { info: FileInfo, inode: u64, attr: Stat64 },
    Over,
}

/// Looks up a name in a directory and adds a reference to the file that it names.
pub struct DoLookup {
    pub parent: u64,
    pub name: Vec<u8>,
    pub parent_path: String,
    pub child_path: String,
    pub phase: LookupPhase,
}

pub fn do_lookup(parent: u64, name: Vec<u8>) -> (r: DoLookup)
    ensures
        r.parent == parent,
        r.name == name,
        r.phase == LookupPhase::Start,
{
    DoLookup {
        parent,
        name,
        parent_path: String::new(),
        child_path: String::new(),
        phase: LookupPhase::Start,
    }
}

/// A reference to a file is added, and nothing else of the file system changes.
pub open spec fn adds_reference(
    fs: PassthroughFs,
    next_fs: PassthroughFs,
    info: FileInfo,
    parent: u64,
    path: Seq<char>,
    inode: u64,
) -> bool {
    &&& referenced(
        fs.inodes@,
        next_fs.inodes@,
        key_of(info),
        parent,
        path,
        fs.inode_alloc.next_inode,
        inode,
    )
    &&& next_fs.inode_alloc.next_inode == if has_key(fs.inodes@, key_of(info)) {
        fs.inode_alloc.next_inode
    } else {
        following(fs.inode_alloc.next_inode)
    }
    &&& next_fs == (PassthroughFs {
        inodes: next_fs.inodes,
        inode_alloc: next_fs.inode_alloc,
        ..fs
    })
}

impl Operation for DoLookup {
    type Output = Result<Entry, FsError>;

    open spec fn expects(&self, reply: Reply) -> bool {
        match self.phase {
            LookupPhase::Start => reply is Begin,
            LookupPhase::Probing => reply is FileInfo || reply is Failed,
            LookupPhase::Attributes { .. } => reply.meta(),
            LookupPhase::Stating { .. } => reply is Stat,
            LookupPhase::Comparing { .. } => reply is FileInfo || reply is Failed,
            LookupPhase::Over => false,
        }
    }

    open spec fn leads_to(
        &self,
        fs: PassthroughFs,
        reply: Reply,
        next: Self,
        next_fs: PassthroughFs,
        flow: Flow<Self::Output>,
    ) -> bool {
        &&& next.parent == self.parent
        &&& next.name == self.name
        &&& self.phase !is Probing ==> next_fs == fs
        &&& self.phase !is Start ==> next.child_path == self.child_path
        &&& match self.phase {
            LookupPhase::Start => if fs.knows(self.parent) {
                &&& next.phase == LookupPhase::Probing
                &&& next.parent_path@ == fs.path_of(self.parent)
                &&& joins(next.child_path@, fs.path_of(self.parent), lossy_utf8(self.name@))
                &&& flow matches Flow::Do(Action::GetFileInfo { path })
                &&& path@ == next.child_path@
            } else {
                next.phase is Over && flow.ends(Err(FsError::linux(EBADF)))
            },
            LookupPhase::Probing => match reply {
                Reply::FileInfo(info) => {
                    &&& next.phase matches LookupPhase::Attributes { info: i, inode }
                    &&& i == info
                    &&& adds_reference(
                        fs,
                        next_fs,
                        info,
                        self.parent,
                        self.child_path@,
                        inode,
                    )
                    &&& next.parent_path@ == if next_fs.knows(self.parent) {
                        next_fs.path_of(self.parent)
                    } else {
                        self.parent_path@
                    }
                    &&& flow matches Flow::Do(Action::Metadata { path })
                    &&& path@ == self.child_path@
                },
                Reply::Failed(e) => {
                    &&& next_fs == fs
                    &&& next.phase is Over
                    &&& flow.ends(Err(e.once_more()))
                },
                _ => false,
            },
            LookupPhase::Attributes { info, inode } => match reply {
                Reply::Meta(m) => {
                    &&& next.phase == LookupPhase::Stating { info, inode }
                    &&& next.parent_path == self.parent_path
                    &&& flow matches Flow::Do(Action::Stat { meta, inode: i, path, n_link })
                    &&& meta == m
                    &&& i == inode
                    &&& path@ == self.child_path@
                    &&& n_link == info.n_number_of_links
                },
                Reply::Failed(e) => next.phase is Over && flow.ends(Err(e.once_more())),
                _ => false,
            },
            LookupPhase::Stating { info, inode } => match reply {
                Reply::Stat(attr) => if attr.st_mode & S_IFMT == S_IFDIR
                    && fs.announce_submounts {
                    &&& next.phase == LookupPhase::Comparing { info, inode, attr }
                    &&& flow matches Flow::Do(Action::GetFileInfo { path })
                    &&& path@ == self.parent_path@
                } else {
                    next.phase is Over && flow.ends(Ok(entry_of(fs, inode, attr, 0)))
                },
                _ => false,
            },
            LookupPhase::Comparing { info, inode, attr } => match reply {
                Reply::FileInfo(p) => {
                    let attr_flags = if p.volume_serial != info.volume_serial {
                        ATTR_SUBMOUNT
                    } else {
                        0
                    };
                    next.phase is Over && flow.ends(Ok(entry_of(fs, inode, attr, attr_flags)))
                },
                Reply::Failed(_) => {
                    next.phase is Over && flow.ends(Ok(entry_of(fs, inode, attr, 0)))
                },
                _ => false,
            },
            LookupPhase::Over => false,
        }
    }

    open spec fn holds(&self, r: Resource) -> int {
        0
    }

    open spec fn hands_over(out: Self::Output, r: Resource) -> int {
        0
    }

    fn step(&mut self, fs: &mut PassthroughFs, reply: Reply) -> (flow: Flow<Self::Output>) {
        match self.phase {
            LookupPhase::Start => match fs.inode_path(self.parent) {
                Ok(parent_path) => {
                    let child = child_path(parent_path.as_str(), self.name.as_slice());
                    self.parent_path = parent_path;
                    self.child_path = child.clone();
                    self.phase = LookupPhase::Probing;
                    Flow::Do(Action::GetFileInfo { path: child })
                },
                Err(e) => {
                    self.phase = LookupPhase::Over;
                    Flow::Done(Err(e))
                },
            },
            LookupPhase::Probing => match reply {
                Reply::FileInfo(info) => {
                    let key = InodeAltKey {
                        file_index: info.file_index,
                        volume_serial: info.volume_serial,
                    };
                    let inode: u64 = fs.inodes.add_reference(
                        key,
                        self.parent,
                        self.child_path.as_str(),
                        &mut fs.inode_alloc,
                    );
                    // The name may stand for the directory itself.
                    if let Ok(path) = fs.inode_path(self.parent) {
                        self.parent_path = path;
                    }
                    self.phase = LookupPhase::Attributes { info, inode };
                    Flow::Do(Action::Metadata { path: self.child_path.clone() })
                },
                Reply::Failed(e) => {
                    self.phase = LookupPhase::Over;
                    Flow::Done(Err(e.translated()))
                },
                _ => unreached(),
            },
            LookupPhase::Attributes { info, inode } => match reply {
                Reply::Meta(meta) => {
                    self.phase = LookupPhase::Stating { info, inode };
                    Flow::Do(
                        Action::Stat {
                            meta,
                            inode,
                            path: self.child_path.clone(),
                            n_link: info.n_number_of_links,
                        },
                    )
                },
                Reply::Failed(e) => {
                    self.phase = LookupPhase::Over;
                    Flow::Done(Err(e.translated()))
                },
                _ => unreached(),
            },
            LookupPhase::Stating { info, inode } => match reply {
                Reply::Stat(attr) => {
                    if (attr.st_mode & S_IFMT) == S_IFDIR && fs.announce_submounts {
                        self.phase = LookupPhase::Comparing { info, inode, attr };
                        return Flow::Do(Action::GetFileInfo { path: self.parent_path.clone() });
                    }
                    self.phase = LookupPhase::Over;
                    Flow::Done(Ok(make_entry(fs, inode, attr, 0)))
                },
                _ => unreached(),
            },
            LookupPhase::Comparing { info, inode, attr } => {
                let attr_flags: u32 = match reply {
                    // Another volume is a mount.
                    Reply::FileInfo(p) => if p.volume_serial != info.volume_serial {
                        ATTR_SUBMOUNT
                    } else {
                        0
                    },
                    Reply::Failed(_) => 0,
                    _ => unreached(),
                };
                self.phase = LookupPhase::Over;
                Flow::Done(Ok(make_entry(fs, inode, attr, attr_flags)))
            },
            LookupPhase::Over => unreached(),
        }
    }

    proof fn step_balances(
        &self,
        fs: PassthroughFs,
        reply: Reply,
        next: Self,
        next_fs: PassthroughFs,
        flow: Flow<Self::Output>,
        r: Resource,
    ) {
    }
}

fn make_entry(fs: &PassthroughFs, inode: u64, attr: Stat64, attr_flags: u32) -> (r: Entry)
    ensures
        r == entry_of(*fs, inode, attr, attr_flags),
{
    Entry {
        inode,
        generation: 0,
        attr,
        attr_flags,
        attr_timeout: fs.cfg.attr_timeout,
        entry_timeout: fs.cfg.entry_timeout,
    }
}

/// How far getting attributes has come.
#[derive(Clone, Copy)]
pub enum GetattrPhase {
    Start,
    Reopening,
    HandleMeta { file: u64 },
    Links { file: u64, meta: Metadata },
    Stating { file: u64 },
    Closing { attr: Stat64 },
    Dropping,
    PathMeta,
    Probing { meta: Metadata },
    PathStating,
    Over,
}

/// Gets the attributes of a file: through the handle of the guest if that is one of the
/// host, and by its path otherwise or if the handle is of no use.
pub struct DoGetattr {
    pub inode: u64,
    pub handle: Option<u64>,
    pub path: String,
    pub phase: GetattrPhase,
}

pub fn do_getattr(inode: u64, handle: Option<u64>) -> (r: DoGetattr)
    ensures
        r.inode == inode,
        r.handle == handle,
        r.phase == GetattrPhase::Start,
{
    DoGetattr { inode, handle, path: String::new(), phase: GetattrPhase::Start }
}

impl DoGetattr {
    /// The attributes of the path are asked for.
    pub open spec fn asks_path(
        self,
        phase: GetattrPhase,
        flow: Flow<Result<(Stat64, Timeout), FsError>>,
        path: Seq<char>,
    ) -> bool {
        &&& phase == GetattrPhase::PathMeta
        &&& flow matches Flow::Do(Action::Metadata { path: p })
        &&& p@ == path
    }

    /// Attributes for the guest are asked for.
    pub open spec fn asks_stat(
        self,
        flow: Flow<Result<(Stat64, Timeout), FsError>>,
        meta: Metadata,
        links: u32,
    ) -> bool {
        &&& flow matches Flow::Do(Action::Stat { meta: m, inode, path, n_link })
        &&& m == meta
        &&& inode == self.inode
        &&& path@ == self.path@
        &&& n_link == links
    }
}

impl Operation for DoGetattr {
    type Output = Result<(Stat64, Timeout), FsError>;

    open spec fn expects(&self, reply: Reply) -> bool {
        match self.phase {
            GetattrPhase::Start => reply is Begin,
            GetattrPhase::Reopening => reply.opened(),
            GetattrPhase::HandleMeta { .. } => reply.meta(),
            GetattrPhase::Links { meta, .. } => {
                meta.in_range() && (reply is Info || reply is Failed)
            },
            GetattrPhase::Stating { .. } => reply is Stat,
            GetattrPhase::Closing { .. } => reply is Unit,
            GetattrPhase::Dropping => reply is Unit,
            GetattrPhase::PathMeta => reply.meta(),
            GetattrPhase::Probing { meta } => {
                meta.in_range() && (reply is FileInfo || reply is Failed)
            },
            GetattrPhase::PathStating => reply is Stat,
            GetattrPhase::Over => false,
        }
    }

    open spec fn leads_to(
        &self,
        fs: PassthroughFs,
        reply: Reply,
        next: Self,
        next_fs: PassthroughFs,
        flow: Flow<Self::Output>,
    ) -> bool {
        &&& next_fs == fs
        &&& next.inode == self.inode
        &&& next.handle == self.handle
        &&& self.phase !is Start ==> next.path == self.path
        &&& match self.phase {
            GetattrPhase::Start => if !fs.knows(self.inode) {
                next.phase is Over && flow.ends(Err(FsError::linux(EBADF)))
            } else {
                &&& next.path@ == fs.path_of(self.inode)
                &&& match self.handle {
                    Some(handle) if is_file_handle(handle) => {
                        &&& next.phase == GetattrPhase::Reopening
                        &&& flow.does(
                            Action::Reopen {
                                inode: self.inode,
                                handle,
                                desired_access: FILE_READ_ATTRIBUTES,
                            },
                        )
                    },
                    _ => self.asks_path(next.phase, flow, next.path@),
                }
            },
            GetattrPhase::Reopening => match reply {
                Reply::Handle(file) => {
                    &&& next.phase == GetattrPhase::HandleMeta { file }
                    &&& flow.does(Action::HandleMetadata { handle: file })
                },
                Reply::Failed(_) => self.asks_path(next.phase, flow, self.path@),
                _ => false,
            },
            GetattrPhase::HandleMeta { file } => match reply {
                Reply::Meta(meta) => {
                    &&& next.phase == GetattrPhase::Links { file, meta }
                    &&& flow.does(Action::QueryInfo { handle: file })
                },
                Reply::Failed(_) => next.phase == GetattrPhase::Dropping && flow.closes(file),
                _ => false,
            },
            GetattrPhase::Links { file, meta } => {
                &&& next.phase == GetattrPhase::Stating { file }
                &&& match reply {
                    Reply::Info(i) => self.asks_stat(flow, meta, i.number_of_links),
                    Reply::Failed(_) => self.asks_stat(flow, meta, 1),
                    _ => false,
                }
            },
            GetattrPhase::Stating { file } => match reply {
                Reply::Stat(attr) => {
                    next.phase == GetattrPhase::Closing { attr } && flow.closes(file)
                },
                _ => false,
            },
            GetattrPhase::Closing { attr } => {
                next.phase is Over && flow.ends(Ok((attr, fs.cfg.attr_timeout)))
            },
            GetattrPhase::Dropping => self.asks_path(next.phase, flow, self.path@),
            GetattrPhase::PathMeta => match reply {
                Reply::Meta(meta) => {
                    &&& next.phase == GetattrPhase::Probing { meta }
                    &&& flow matches Flow::Do(Action::GetFileInfo { path })
                    &&& path@ == self.path@
                },
                Reply::Failed(e) => next.phase is Over && flow.ends(Err(e.once_more())),
                _ => false,
            },
            GetattrPhase::Probing { meta } => match reply {
                Reply::FileInfo(i) => {
                    &&& next.phase == GetattrPhase::PathStating
                    &&& self.asks_stat(flow, meta, i.n_number_of_links)
                },
                Reply::Failed(e) => next.phase is Over && flow.ends(Err(e.once_more())),
                _ => false,
            },
            GetattrPhase::PathStating => match reply {
                Reply::Stat(attr) => {
                    next.phase is Over && flow.ends(Ok((attr, fs.cfg.attr_timeout)))
                },
                _ => false,
            },
            GetattrPhase::Over => false,
        }
    }

    open spec fn holds(&self, r: Resource) -> int {
        match self.phase {
            GetattrPhase::HandleMeta { file } => one(Resource::Handle(file), r),
            GetattrPhase::Links { file, .. } => one(Resource::Handle(file), r),
            GetattrPhase::Stating { file } => one(Resource::Handle(file), r),
            _ => 0,
        }
    }

    open spec fn hands_over(out: Self::Output, r: Resource) -> int {
        0
    }

    fn step(&mut self, fs: &mut PassthroughFs, reply: Reply) -> (flow: Flow<Self::Output>) {
        match self.phase {
            GetattrPhase::Start => {
                self.path = match fs.inode_path(self.inode) {
                    Ok(path) => path,
                    Err(e) => {
                        self.phase = GetattrPhase::Over;
                        return Flow::Done(Err(e));
                    },
                };
                if let Some(handle) = self.handle {
                    if names_file(handle) {
                        self.phase = GetattrPhase::Reopening;
                        return Flow::Do(
                            Action::Reopen {
                                inode: self.inode,
                                handle,
                                desired_access: FILE_READ_ATTRIBUTES,
                            },
                        );
                    }
                }
                self.phase = GetattrPhase::PathMeta;
                Flow::Do(Action::Metadata { path: self.path.clone() })
            },
            GetattrPhase::Reopening => match reply {
                Reply::Handle(file) => {
                    self.phase = GetattrPhase::HandleMeta { file };
                    Flow::Do(Action::HandleMetadata { handle: file })
                },
                Reply::Failed(_) => {
                    self.phase = GetattrPhase::PathMeta;
                    Flow::Do(Action::Metadata { path: self.path.clone() })
                },
                _ => unreached(),
            },
            GetattrPhase::HandleMeta { file } => match reply {
                Reply::Meta(meta) => {
                    self.phase = GetattrPhase::Links { file, meta };
                    Flow::Do(Action::QueryInfo { handle: file })
                },
                Reply::Failed(_) => {
                    self.phase = GetattrPhase::Dropping;
                    Flow::Do(Action::Close { handle: file })
                },
                _ => unreached(),
            },
            GetattrPhase::Links { file, meta } => {
                let n_link: u32 = match reply {
                    Reply::Info(i) => i.number_of_links,
                    Reply::Failed(_) => 1,
                    _ => unreached(),
                };
                self.phase = GetattrPhase::Stating { file };
                Flow::Do(
                    Action::Stat { meta, inode: self.inode, path: self.path.clone(), n_link },
                )
            },
            GetattrPhase::Stating { file } => match reply {
                Reply::Stat(attr) => {
                    self.phase = GetattrPhase::Closing { attr };
                    Flow::Do(Action::Close { handle: file })
                },
                _ => unreached(),
            },
            GetattrPhase::Closing { attr } => {
                self.phase = GetattrPhase::Over;
                Flow::Done(Ok((attr, fs.cfg.attr_timeout)))
            },
            GetattrPhase::Dropping => {
                self.phase = GetattrPhase::PathMeta;
                Flow::Do(Action::Metadata { path: self.path.clone() })
            },
            GetattrPhase::PathMeta => match reply {
                Reply::Meta(meta) => {
                    self.phase = GetattrPhase::Probing { meta };
                    Flow::Do(Action::GetFileInfo { path: self.path.clone() })
                },
                Reply::Failed(e) => {
                    self.phase = GetattrPhase::Over;
                    Flow::Done(Err(e.translated()))
                },
                _ => unreached(),
            },
            GetattrPhase::Probing { meta } => match reply {
                Reply::FileInfo(i) => {
                    self.phase = GetattrPhase::PathStating;
                    Flow::Do(
                        Action::Stat {
                            meta,
                            inode: self.inode,
                            path: self.path.clone(),
                            n_link: i.n_number_of_links,
                        },
                    )
                },
                Reply::Failed(e) => {
                    self.phase = GetattrPhase::Over;
                    Flow::Done(Err(e.translated()))
                },
                _ => unreached(),
            },
            GetattrPhase::PathStating => match reply {
                Reply::Stat(attr) => {
                    self.phase = GetattrPhase::Over;
                    Flow::Done(Ok((attr, fs.cfg.attr_timeout)))
                },
                _ => unreached(),
            },
            GetattrPhase::Over => unreached(),
        }
    }

    proof fn step_balances(
        &self,
        fs: PassthroughFs,
        reply: Reply,
        next: Self,
        next_fs: PassthroughFs,
        flow: Flow<Self::Output>,
        r: Resource,
    ) {
    }
}

} // verus!
