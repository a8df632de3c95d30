//! Names of files: links and renames.

use crate::errno::{EBADF, EINVAL, FsError};
use crate::fs::{Entry, PassthroughFs, SecContext};
use crate::host::{Action, Flow, Reply, Resource};
use crate::linux::{LINUX_RENAME_EXCHANGE, LINUX_RENAME_NOREPLACE, S_IFLNK};
use crate::operation::Operation;
use crate::ops::nodes::{looks_up, names_stream};
use crate::path::{child_path, cstr_to_path, exchange_path, extends, joins};
use crate::path::{link_target, path_to_wide, target_bytes, wide, EXCHANGE_EXTENSION};
use crate::stat::Context;
use crate::text::{copy_bytes, has_byte, lossy_utf8};
use vstd::pervasive::unreached;
use vstd::prelude::*;

verus! {

/// How far reading a link has come.
#[derive(Clone, Copy)]
pub enum ReadlinkPhase {
    Start,
    Reading,
    Over,
}

/// Reads the target of a symbolic link.
pub struct Readlink {
    pub inode: u64,
    pub phase: ReadlinkPhase,
}

pub fn readlink(inode: u64) -> (r: Readlink)
    ensures
        r == (Readlink { inode, phase: ReadlinkPhase::Start }),
{
    Readlink { inode, phase: ReadlinkPhase::Start }
}

impl Operation for Readlink {
    type Output = Result<Vec<u8>, FsError>;

    open spec fn expects(&self, reply: Reply) -> bool {
        match self.phase {
            ReadlinkPhase::Start => reply is Begin,
            ReadlinkPhase::Reading => reply is Text || reply is Failed,
            ReadlinkPhase::Over => false,
        }
    }

    open spec fn leads_to(
        &self,
        fs: PassthroughFs,
        reply: Reply,
        next: Self,
        next_fs: PassthroughFs,
        flow: Flow<Self::Output>,
    ) -> bool {
        &&& next_fs == fs
        &&& next.inode == self.inode
        &&& match self.phase {
            ReadlinkPhase::Start => if fs.knows(self.inode) {
                &&& next.phase == ReadlinkPhase::Reading
                &&& flow matches Flow::Do(Action::ReadLink { path })
                &&& path@ == fs.path_of(self.inode)
            } else {
                next.phase is Over && flow.ends(Err(FsError::linux(EBADF)))
            },
            ReadlinkPhase::Reading => match reply {
                Reply::Text(target) => {
                    &&& next.phase is Over
                    &&& flow matches Flow::Done(Ok(bytes))
                    &&& bytes@ == target_bytes(target@)
                },
                Reply::Failed(e) => next.phase is Over && flow.ends(Err(e.once_more())),
                _ => false,
            },
            ReadlinkPhase::Over => false,
        }
    }

    open spec fn holds(&self, r: Resource) -> int {
        0
    }

    open spec fn hands_over(out: Self::Output, r: Resource) -> int {
        0
    }

    fn step(&mut self, fs: &mut PassthroughFs, reply: Reply) -> (flow: Flow<Self::Output>) {
        match self.phase {
            ReadlinkPhase::Start => match fs.inode_path(self.inode) {
                Ok(path) => {
                    self.phase = ReadlinkPhase::Reading;
                    Flow::Do(Action::ReadLink { path })
                },
                Err(e) => {
                    self.phase = ReadlinkPhase::Over;
                    Flow::Done(Err(e))
                },
            },
            ReadlinkPhase::Reading => {
                self.phase = ReadlinkPhase::Over;
                match reply {
                    Reply::Text(target) => Flow::Done(Ok(link_target(target.as_str()))),
                    Reply::Failed(e) => Flow::Done(Err(e.translated())),
                    _ => unreached(),
                }
            },
            ReadlinkPhase::Over => unreached(),
        }
    }

    proof fn step_balances(
        &self,
        fs: PassthroughFs,
        reply: Reply,
        next: Self,
        next_fs: PassthroughFs,
        flow: Flow<Self::Output>,
        r: Resource,
    ) {
    }
}

/// How far making a link has come.
#[derive(Clone, Copy)]
pub enum SymlinkPhase {
    Start,
    AsFile,
    AsDir,
    Labelling,
    Recording,
    LookingUp,
    Over,
}

/// Makes a symbolic link. The host wants to know whether a link leads to a file or to a
/// directory, and the guest does not say, so both are tried. A target that is absolute for
/// the guest is relative to a drive for the host, which may refuse it.
pub struct Symlink {
    pub ctx: Context,
    pub linkname: Vec<u8>,
    pub parent: u64,
    pub name: Vec<u8>,
    pub secctx: Option<SecContext>,
    pub link_path: String,
    pub phase: SymlinkPhase,
}

pub fn symlink(
    ctx: Context,
    linkname: Vec<u8>,
    parent: u64,
    name: Vec<u8>,
    secctx: Option<SecContext>,
) -> (r: Symlink)
    ensures
        r == (Symlink {
            ctx,
            linkname,
            parent,
            name,
            secctx,
            link_path: r.link_path,
            phase: SymlinkPhase::Start,
        }),
{
    Symlink {
        ctx,
        linkname,
        parent,
        name,
        secctx,
        link_path: String::new(),
        phase: SymlinkPhase::Start,
    }
}

/// The mode that is recorded of a link.
pub open spec fn link_mode() -> u32 {
    S_IFLNK | 0o777
}

impl Symlink {
    /// The link is made; its security context is recorded first if there is one.
    pub open spec fn proceeds(
        self,
        phase: SymlinkPhase,
        flow: Flow<Result<Entry, FsError>>,
    ) -> bool {
        match self.secctx {
            Some(s) => {
                &&& phase == SymlinkPhase::Labelling
                &&& flow matches Flow::Do(Action::WriteSecctx { path, name, data, symlink })
                &&& path@ == self.link_path@
                &&& name@ == s.name@
                &&& data@ == s.secctx@
                &&& symlink
            },
            None => self.records(phase, flow),
        }
    }

    /// The owner of the link is recorded.
    pub open spec fn records(
        self,
        phase: SymlinkPhase,
        flow: Flow<Result<Entry, FsError>>,
    ) -> bool {
        &&& phase == SymlinkPhase::Recording
        &&& flow matches Flow::Do(Action::WriteOverride { path, owner, mode })
        &&& path@ == self.link_path@
        &&& owner == Some((self.ctx.uid, self.ctx.gid))
        &&& mode == Some(link_mode())
    }

    fn record(&mut self) -> (flow: Flow<Result<Entry, FsError>>)
        ensures
            old(self).records(final(self).phase, flow),
            *final(self) == (Symlink { phase: final(self).phase, ..*old(self) }),
    {
        self.phase = SymlinkPhase::Recording;
        Flow::Do(
            Action::WriteOverride {
                path: self.link_path.clone(),
                owner: Some((self.ctx.uid, self.ctx.gid)),
                mode: Some(S_IFLNK | 0o777),
            },
        )
    }

    fn proceed(&mut self) -> (flow: Flow<Result<Entry, FsError>>)
        ensures
            old(self).proceeds(final(self).phase, flow),
            *final(self) == (Symlink { phase: final(self).phase, ..*old(self) }),
    {
        if let Some(secctx) = &self.secctx {
            self.phase = SymlinkPhase::Labelling;
            return Flow::Do(
                Action::WriteSecctx {
                    path: self.link_path.clone(),
                    name: copy_bytes(secctx.name.as_slice()),
                    data: copy_bytes(secctx.secctx.as_slice()),
                    symlink: true,
                },
            );
        }
        self.record()
    }
}

impl Operation for Symlink {
    type Output = Result<Entry, FsError>;

    open spec fn expects(&self, reply: Reply) -> bool {
        match self.phase {
            SymlinkPhase::Start => reply is Begin,
            SymlinkPhase::LookingUp => reply is Entry || reply is Failed,
            SymlinkPhase::Over => false,
            _ => reply.done(),
        }
    }

    open spec fn leads_to(
        &self,
        fs: PassthroughFs,
        reply: Reply,
        next: Self,
        next_fs: PassthroughFs,
        flow: Flow<Self::Output>,
    ) -> bool {
        &&& next_fs == fs
        &&& next == (Symlink { link_path: next.link_path, phase: next.phase, ..*self })
        &&& self.phase !is Start ==> next.link_path == self.link_path
        &&& match self.phase {
            SymlinkPhase::Start => if names_stream(self.name@) {
                next.phase is Over && flow.ends(Err(FsError::linux(EINVAL)))
            } else if !fs.knows(self.parent) {
                next.phase is Over && flow.ends(Err(FsError::linux(EBADF)))
            } else {
                &&& next.phase == SymlinkPhase::AsFile
                &&& joins(next.link_path@, fs.path_of(self.parent), lossy_utf8(self.name@))
                &&& flow matches Flow::Do(Action::SymlinkFile { target, link })
                &&& target@ == lossy_utf8(self.linkname@)
                &&& link@ == next.link_path@
            },
            SymlinkPhase::AsFile => match reply {
                Reply::Unit => self.proceeds(next.phase, flow),
                Reply::Failed(_) => {
                    &&& next.phase == SymlinkPhase::AsDir
                    &&& flow matches Flow::Do(Action::SymlinkDir { target, link })
                    &&& target@ == lossy_utf8(self.linkname@)
                    &&& link@ == self.link_path@
                },
                _ => false,
            },
            SymlinkPhase::AsDir => match reply {
                Reply::Unit => self.proceeds(next.phase, flow),
                Reply::Failed(e) => next.phase is Over && flow.ends(Err(e.once_more())),
                _ => false,
            },
            SymlinkPhase::Labelling => match reply {
                Reply::Unit => self.records(next.phase, flow),
                Reply::Failed(e) => next.phase is Over && flow.ends(Err(e)),
                _ => false,
            },
            SymlinkPhase::Recording => match reply {
                Reply::Unit => {
                    &&& next.phase == SymlinkPhase::LookingUp
                    &&& looks_up(flow, self.parent, self.name@)
                },
                Reply::Failed(e) => next.phase is Over && flow.ends(Err(e)),
                _ => false,
            },
            SymlinkPhase::LookingUp => match reply {
                Reply::Entry(entry) => next.phase is Over && flow.ends(Ok(entry)),
                Reply::Failed(e) => next.phase is Over && flow.ends(Err(e)),
                _ => false,
            },
            SymlinkPhase::Over => false,
        }
    }

    open spec fn holds(&self, r: Resource) -> int {
        0
    }

    open spec fn hands_over(out: Self::Output, r: Resource) -> int {
        0
    }

    fn step(&mut self, fs: &mut PassthroughFs, reply: Reply) -> (flow: Flow<Self::Output>) {
        match self.phase {
            SymlinkPhase::Start => {
                if has_byte(self.name.as_slice(), 0x3a) {
                    self.phase = SymlinkPhase::Over;
                    return Flow::Done(Err(FsError::errno(EINVAL)));
                }
                let parent_path = match fs.inode_path(self.parent) {
                    Ok(path) => path,
                    Err(e) => {
                        self.phase = SymlinkPhase::Over;
                        return Flow::Done(Err(e));
                    },
                };
                self.link_path = child_path(parent_path.as_str(), self.name.as_slice());
                self.phase = SymlinkPhase::AsFile;
                let target = cstr_to_path(self.linkname.as_slice());
                Flow::Do(Action::SymlinkFile { target, link: self.link_path.clone() })
            },
            SymlinkPhase::AsFile => match reply {
                Reply::Unit => self.proceed(),
                Reply::Failed(_) => {
                    self.phase = SymlinkPhase::AsDir;
                    let target = cstr_to_path(self.linkname.as_slice());
                    Flow::Do(Action::SymlinkDir { target, link: self.link_path.clone() })
                },
                _ => unreached(),
            },
            SymlinkPhase::AsDir => match reply {
                Reply::Unit => self.proceed(),
                Reply::Failed(e) => {
                    self.phase = SymlinkPhase::Over;
                    Flow::Done(Err(e.translated()))
                },
                _ => unreached(),
            },
            SymlinkPhase::Labelling => match reply {
                Reply::Unit => self.record(),
                Reply::Failed(e) => {
                    self.phase = SymlinkPhase::Over;
                    Flow::Done(Err(e))
                },
                _ => unreached(),
            },
            SymlinkPhase::Recording => match reply {
                Reply::Unit => {
                    self.phase = SymlinkPhase::LookingUp;
                    let name = copy_bytes(self.name.as_slice());
                    Flow::Do(Action::Lookup { parent: self.parent, name })
                },
                Reply::Failed(e) => {
                    self.phase = SymlinkPhase::Over;
                    Flow::Done(Err(e))
                },
                _ => unreached(),
            },
            SymlinkPhase::LookingUp => {
                self.phase = SymlinkPhase::Over;
                match reply {
                    Reply::Entry(entry) => Flow::Done(Ok(entry)),
                    Reply::Failed(e) => Flow::Done(Err(e)),
                    _ => unreached(),
                }
            },
            SymlinkPhase::Over => unreached(),
        }
    }

    proof fn step_balances(
        &self,
        fs: PassthroughFs,
        reply: Reply,
        next: Self,
        next_fs: PassthroughFs,
        flow: Flow<Self::Output>,
        r: Resource,
    ) {
    }
}

/// How far renaming has come.
#[derive(Clone, Copy)]
pub enum RenamePhase {
    Start,
    /// The one call that renames was made.
    Renaming,
    /// The file with the new name moves out of the way.
    Parking,
    /// The file gets the new name.
    Moving,
    /// The file that was out of the way gets the new name back.
    RollingBack { error: FsError },
    /// The file that was out of the way gets the old name.
    Unparking,
    Over,
}

/// Renames a file. The host cannot exchange two files at once, so one of them moves out of
/// the way meanwhile; if the exchange fails half-way, it moves back.
pub struct Rename {
    pub olddir: u64,
    pub oldname: Vec<u8>,
    pub newdir: u64,
    pub newname: Vec<u8>,
    pub flags: u32,
    pub old_path: String,
    pub new_path: String,
    pub tmp_path: String,
    pub phase: RenamePhase,
}

pub fn rename(olddir: u64, oldname: Vec<u8>, newdir: u64, newname: Vec<u8>, flags: u32) -> (r:
    Rename)
    ensures
        r == (Rename {
            olddir,
            oldname,
            newdir,
            newname,
            flags,
            old_path: r.old_path,
            new_path: r.new_path,
            tmp_path: r.tmp_path,
            phase: RenamePhase::Start,
        }),
{
    Rename {
        olddir,
        oldname,
        newdir,
        newname,
        flags,
        old_path: String::new(),
        new_path: String::new(),
        tmp_path: String::new(),
        phase: RenamePhase::Start,
    }
}

/// A path is renamed, and replaces what has the new name.
pub open spec fn renames<T>(flow: Flow<T>, old_path: Seq<char>, new_path: Seq<char>) -> bool {
    &&& flow matches Flow::Do(Action::Rename { from, to })
    &&& from@ == old_path
    &&& to@ == new_path
}

impl Operation for Rename {
    type Output = Result<(), FsError>;

    open spec fn expects(&self, reply: Reply) -> bool {
        match self.phase {
            RenamePhase::Start => reply is Begin,
            RenamePhase::Over => false,
            _ => reply.done(),
        }
    }

    open spec fn leads_to(
        &self,
        fs: PassthroughFs,
        reply: Reply,
        next: Self,
        next_fs: PassthroughFs,
        flow: Flow<Self::Output>,
    ) -> bool {
        &&& next_fs == fs
        &&& next == (Rename {
            old_path: next.old_path,
            new_path: next.new_path,
            tmp_path: next.tmp_path,
            phase: next.phase,
            ..*self
        })
        &&& self.phase !is Start ==> next == (Rename { phase: next.phase, ..*self })
        &&& match self.phase {
            RenamePhase::Start => if !fs.knows(self.olddir) || !fs.knows(self.newdir) {
                next.phase is Over && flow.ends(Err(FsError::linux(EBADF)))
            } else {
                &&& joins(next.old_path@, fs.path_of(self.olddir), lossy_utf8(self.oldname@))
                &&& joins(next.new_path@, fs.path_of(self.newdir), lossy_utf8(self.newname@))
                &&& if self.flags as i32 & LINUX_RENAME_EXCHANGE != 0 {
                    &&& next.phase == RenamePhase::Parking
                    &&& extends(next.tmp_path@, next.new_path@, EXCHANGE_EXTENSION@)
                    &&& renames(flow, next.new_path@, next.tmp_path@)
                } else if self.flags as i32 & LINUX_RENAME_NOREPLACE != 0 {
                    &&& next.phase == RenamePhase::Renaming
                    &&& flow matches Flow::Do(Action::MoveNoReplace { from, to })
                    &&& from@ == wide(next.old_path@)
                    &&& to@ == wide(next.new_path@)
                } else {
                    &&& next.phase == RenamePhase::Renaming
                    &&& renames(flow, next.old_path@, next.new_path@)
                }
            },
            RenamePhase::Renaming | RenamePhase::Unparking => match reply {
                Reply::Unit => next.phase is Over && flow.ends(Ok(())),
                Reply::Failed(e) => next.phase is Over && flow.ends(Err(e.once_more())),
                _ => false,
            },
            RenamePhase::Parking => match reply {
                Reply::Unit => {
                    &&& next.phase == RenamePhase::Moving
                    &&& renames(flow, self.old_path@, self.new_path@)
                },
                Reply::Failed(e) => next.phase is Over && flow.ends(Err(e.once_more())),
                _ => false,
            },
            RenamePhase::Moving => match reply {
                Reply::Unit => {
                    &&& next.phase == RenamePhase::Unparking
                    &&& renames(flow, self.tmp_path@, self.old_path@)
                },
                Reply::Failed(e) => {
                    &&& next.phase == (RenamePhase::RollingBack { error: e.once_more() })
                    &&& renames(flow, self.tmp_path@, self.new_path@)
                },
                _ => false,
            },
            RenamePhase::RollingBack { error } => next.phase is Over && flow.ends(Err(error)),
            RenamePhase::Over => false,
        }
    }

    open spec fn holds(&self, r: Resource) -> int {
        0
    }

    open spec fn hands_over(out: Self::Output, r: Resource) -> int {
        0
    }

    fn step(&mut self, fs: &mut PassthroughFs, reply: Reply) -> (flow: Flow<Self::Output>) {
        match self.phase {
            RenamePhase::Start => {
                let old_dir = match fs.inode_path(self.olddir) {
                    Ok(path) => path,
                    Err(e) => {
                        self.phase = RenamePhase::Over;
                        return Flow::Done(Err(e));
                    },
                };
                let new_dir = match fs.inode_path(self.newdir) {
                    Ok(path) => path,
                    Err(e) => {
                        self.phase = RenamePhase::Over;
                        return Flow::Done(Err(e));
                    },
                };
                self.old_path = child_path(old_dir.as_str(), self.oldname.as_slice());
                self.new_path = child_path(new_dir.as_str(), self.newname.as_slice());
                if (self.flags as i32 & LINUX_RENAME_EXCHANGE) != 0 {
                    self.tmp_path = exchange_path(self.new_path.as_str());
                    self.phase = RenamePhase::Parking;
                    return Flow::Do(
                        Action::Rename { from: self.new_path.clone(), to: self.tmp_path.clone() },
                    );
                }
                self.phase = RenamePhase::Renaming;
                if (self.flags as i32 & LINUX_RENAME_NOREPLACE) != 0 {
                    let from = path_to_wide(self.old_path.as_str());
                    let to = path_to_wide(self.new_path.as_str());
                    return Flow::Do(Action::MoveNoReplace { from, to });
                }
                Flow::Do(Action::Rename { from: self.old_path.clone(), to: self.new_path.clone() })
            },
            RenamePhase::Renaming | RenamePhase::Unparking => {
                self.phase = RenamePhase::Over;
                match reply {
                    Reply::Unit => Flow::Done(Ok(())),
                    Reply::Failed(e) => Flow::Done(Err(e.translated())),
                    _ => unreached(),
                }
            },
            RenamePhase::Parking => match reply {
                Reply::Unit => {
                    self.phase = RenamePhase::Moving;
                    Flow::Do(
                        Action::Rename { from: self.old_path.clone(), to: self.new_path.clone() },
                    )
                },
                Reply::Failed(e) => {
                    self.phase = RenamePhase::Over;
                    Flow::Done(Err(e.translated()))
                },
                _ => unreached(),
            },
            RenamePhase::Moving => match reply {
                Reply::Unit => {
                    self.phase = RenamePhase::Unparking;
                    Flow::Do(
                        Action::Rename { from: self.tmp_path.clone(), to: self.old_path.clone() },
                    )
                },
                Reply::Failed(e) => {
                    self.phase = RenamePhase::RollingBack { error: e.translated() };
                    Flow::Do(
                        Action::Rename { from: self.tmp_path.clone(), to: self.new_path.clone() },
                    )
                },
                _ => unreached(),
            },
            RenamePhase::RollingBack { error } => {
                self.phase = RenamePhase::Over;
                Flow::Done(Err(error))
            },
            RenamePhase::Over => unreached(),
        }
    }

    proof fn step_balances(
        &self,
        fs: PassthroughFs,
        reply: Reply,
        next: Self,
        next_fs: PassthroughFs,
        flow: Flow<Self::Output>,
        r: Resource,
    ) {
    }
}

/// How far linking has come.
#[derive(Clone, Copy)]
pub enum LinkPhase {
    Start,
    Linking,
    LookingUp,
    Over,
}

/// Gives a file a second name. The host shares the streams of the file between its names,
/// and with them what is recorded of it.
pub struct Link {
    pub inode: u64,
    pub newparent: u64,
    pub newname: Vec<u8>,
    pub phase: LinkPhase,
}

pub fn link(inode: u64, newparent: u64, newname: Vec<u8>) -> (r: Link)
    ensures
        r == (Link { inode, newparent, newname, phase: LinkPhase::Start }),
{
    Link { inode, newparent, newname, phase: LinkPhase::Start }
}

impl Operation for Link {
    type Output = Result<Entry, FsError>;

    open spec fn expects(&self, reply: Reply) -> bool {
        match self.phase {
            LinkPhase::Start => reply is Begin,
            LinkPhase::Linking => reply.done(),
            LinkPhase::LookingUp => reply is Entry || reply is Failed,
            LinkPhase::Over => false,
        }
    }

    open spec fn leads_to(
        &self,
        fs: PassthroughFs,
        reply: Reply,
        next: Self,
        next_fs: PassthroughFs,
        flow: Flow<Self::Output>,
    ) -> bool {
        &&& next_fs == fs
        &&& next == (Link { phase: next.phase, ..*self })
        &&& match self.phase {
            LinkPhase::Start => if !fs.knows(self.inode) || !fs.knows(self.newparent) {
                next.phase is Over && flow.ends(Err(FsError::linux(EBADF)))
            } else {
                &&& next.phase == LinkPhase::Linking
                &&& flow matches Flow::Do(Action::HardLink { existing, new })
                &&& existing@ == fs.path_of(self.inode)
                &&& joins(new@, fs.path_of(self.newparent), lossy_utf8(self.newname@))
            },
            LinkPhase::Linking => match reply {
                Reply::Unit => {
                    &&& next.phase == LinkPhase::LookingUp
                    &&& looks_up(flow, self.newparent, self.newname@)
                },
                Reply::Failed(e) => next.phase is Over && flow.ends(Err(e.once_more())),
                _ => false,
            },
            LinkPhase::LookingUp => match reply {
                Reply::Entry(entry) => next.phase is Over && flow.ends(Ok(entry)),
                Reply::Failed(e) => next.phase is Over && flow.ends(Err(e)),
                _ => false,
            },
            LinkPhase::Over => false,
        }
    }

    open spec fn holds(&self, r: Resource) -> int {
        0
    }

    open spec fn hands_over(out: Self::Output, r: Resource) -> int {
        0
    }

    fn step(&mut self, fs: &mut PassthroughFs, reply: Reply) -> (flow: Flow<Self::Output>) {
        match self.phase {
            LinkPhase::Start => {
                let existing = match fs.inode_path(self.inode) {
                    Ok(path) => path,
                    Err(e) => {
                        self.phase = LinkPhase::Over;
                        return Flow::Done(Err(e));
                    },
                };
                let new_dir = match fs.inode_path(self.newparent) {
                    Ok(path) => path,
                    Err(e) => {
                        self.phase = LinkPhase::Over;
                        return Flow::Done(Err(e));
                    },
                };
                self.phase = LinkPhase::Linking;
                let new = child_path(new_dir.as_str(), self.newname.as_slice());
                Flow::Do(Action::HardLink { existing, new })
            },
            LinkPhase::Linking => match reply {
                Reply::Unit => {
                    self.phase = LinkPhase::LookingUp;
                    let name = copy_bytes(self.newname.as_slice());
                    Flow::Do(Action::Lookup { parent: self.newparent, name })
                },
                Reply::Failed(e) => {
                    self.phase = LinkPhase::Over;
                    Flow::Done(Err(e.translated()))
                },
                _ => unreached(),
            },
            LinkPhase::LookingUp => {
                self.phase = LinkPhase::Over;
                match reply {
                    Reply::Entry(entry) => Flow::Done(Ok(entry)),
                    Reply::Failed(e) => Flow::Done(Err(e)),
                    _ => unreached(),
                }
            },
            LinkPhase::Over => unreached(),
        }
    }

    proof fn step_balances(
        &self,
        fs: PassthroughFs,
        reply: Reply,
        next: Self,
        next_fs: PassthroughFs,
        flow: Flow<Self::Output>,
        r: Resource,
    ) {
    }
}

/// What the host has under each path after a rename that worked.
pub open spec fn renamed<F>(
    files: Map<Seq<char>, F>,
    from: Seq<char>,
    to: Seq<char>,
) -> Map<Seq<char>, F> {
    files.remove(from).insert(to, files[from])
}

/// The three renames of an exchange exchange two files and leave nothing behind.
pub proof fn law_exchange_exchanges<F>(
    files: Map<Seq<char>, F>,
    old_path: Seq<char>,
    new_path: Seq<char>,
    tmp_path: Seq<char>,
)
    requires
        files.contains_key(old_path),
        files.contains_key(new_path),
        !files.contains_key(tmp_path),
        old_path != new_path,
    ensures
        renamed(
            renamed(renamed(files, new_path, tmp_path), old_path, new_path),
            tmp_path,
            old_path,
        ) == files.insert(old_path, files[new_path]).insert(new_path, files[old_path]),
{
    assert(renamed(
        renamed(renamed(files, new_path, tmp_path), old_path, new_path),
        tmp_path,
        old_path,
    ) =~= files.insert(old_path, files[new_path]).insert(new_path, files[old_path]));
}

/// An exchange that fails half-way is undone: after the file that was out of the way
/// moved back, everything is as it was.
pub proof fn law_exchange_rolls_back<F>(
    files: Map<Seq<char>, F>,
    new_path: Seq<char>,
    tmp_path: Seq<char>,
)
    requires
        files.contains_key(new_path),
        !files.contains_key(tmp_path),
    ensures
        renamed(renamed(files, new_path, tmp_path), tmp_path, new_path) == files,
{
    assert(renamed(renamed(files, new_path, tmp_path), tmp_path, new_path) =~= files);
}

/// An exchange that fails half-way undoes its first rename, and only then tells the
/// guest.
pub proof fn law_failed_exchange_is_undone(
    op: Rename,
    e: FsError,
    fs: PassthroughFs,
    next: Rename,
    flow: Flow<Result<(), FsError>>,
    reply: Reply,
    last: Rename,
    last_flow: Flow<Result<(), FsError>>,
)
    requires
        op.phase == RenamePhase::Moving,
        op.leads_to(fs, Reply::Failed(e), next, fs, flow),
        next.leads_to(fs, reply, last, fs, last_flow),
    ensures
        renames(flow, op.tmp_path@, op.new_path@),
        last_flow.ends(Err(e.once_more())),
{
}

} // verus!
