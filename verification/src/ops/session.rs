//! The start and the end of a session, and the open files of the guest.

use crate::errno::{EBADF, FsError};
use crate::fs::{dir_open_options, dir_options, file_open_options, file_options};
use crate::fs::{is_dir_handle, is_file_handle, PassthroughFs, DIR_TAG};
use crate::host::{one, Action, Flow, Reply, Resource};
use crate::inode::{count_up, entered, following, forgotten, InodeAltKey, InodeData};
use crate::linux::{FS_DO_READDIRPLUS, FS_READDIRPLUS_AUTO, FS_SUBMOUNTS, FS_WRITEBACK_CACHE};
use crate::linux::{LINUX_O_DIRECTORY, ROOT_ID};
use crate::nt::{law_opendir_opens_a_directory, open_by_id, open_flags, open_handle, OpenFlags};
use crate::nt::parse_linux_open_flags;
use crate::operation::Operation;
use crate::ops::lookup::key_of;
use crate::path::{path_to_wide, wide};
use crate::stat::{disk_to_statvfs, statvfs_of, FileInfo, StatVfs64};
use crate::text::copy_units;
use crate::win::{FILE_DIRECTORY_FILE, INVALID_HANDLE_VALUE};
use vstd::pervasive::unreached;
use vstd::prelude::*;

verus! {

/// Whether all bits of an option are among the options.
pub open spec fn offers(capable: u64, option: u64) -> bool {
    capable & option == option
}

/// Whether writes may be cached: both sides have to agree.
pub open spec fn caches_writes(fs: PassthroughFs, capable: u64) -> bool {
    fs.cfg.writeback && offers(capable, FS_WRITEBACK_CACHE)
}

/// What is agreed with the guest when a session starts.
pub open spec fn session_options(fs: PassthroughFs, capable: u64) -> u64 {
    let always = FS_DO_READDIRPLUS | FS_READDIRPLUS_AUTO;
    let writes = if caches_writes(fs, capable) {
        always | FS_WRITEBACK_CACHE
    } else {
        always
    };
    if offers(capable, FS_SUBMOUNTS) {
        writes | FS_SUBMOUNTS
    } else {
        writes
    }
}

/// The file system after a session started: the root directory is known, with two
/// references.
pub open spec fn is_started(
    fs: PassthroughFs,
    capable: u64,
    info: FileInfo,
    next_fs: PassthroughFs,
) -> bool {
    let root = next_fs.inodes@[ROOT_ID];
    &&& next_fs.knows(ROOT_ID)
    &&& entered(fs.inodes@, next_fs.inodes@, root)
    &&& root.inode == ROOT_ID
    &&& root.parent_inode == ROOT_ID
    &&& root.key() == key_of(info)
    &&& root.path@ == fs.cfg.root_dir@
    &&& root.refcount == 2
    &&& next_fs == (PassthroughFs {
        inodes: next_fs.inodes,
        writeback: fs.writeback || caches_writes(fs, capable),
        announce_submounts: fs.announce_submounts || offers(capable, FS_SUBMOUNTS),
        ..fs
    })
}

/// How far starting a session has come.
#[derive(Clone, Copy)]
pub enum InitPhase {
    Start,
    Probing,
    Over,
}

/// Starts a session: makes the root directory known, and agrees with the guest on what
/// both support.
pub struct Init {
    pub capable: u64,
    pub phase: InitPhase,
}

pub fn init(capable: u64) -> (r: Init)
    ensures
        r == (Init { capable, phase: InitPhase::Start }),
{
    Init { capable, phase: InitPhase::Start }
}

impl Operation for Init {
    type Output = Result<u64, FsError>;

    open spec fn expects(&self, reply: Reply) -> bool {
        match self.phase {
            InitPhase::Start => reply is Begin,
            InitPhase::Probing => reply is FileInfo || reply is Failed,
            InitPhase::Over => false,
        }
    }

    open spec fn leads_to(
        &self,
        fs: PassthroughFs,
        reply: Reply,
        next: Self,
        next_fs: PassthroughFs,
        flow: Flow<Self::Output>,
    ) -> bool {
        &&& next.capable == self.capable
        &&& match self.phase {
            InitPhase::Start => {
                &&& next_fs == fs
                &&& next.phase == InitPhase::Probing
                &&& flow matches Flow::Do(Action::GetFileInfo { path })
                &&& path@ == fs.cfg.root_dir@
            },
            InitPhase::Probing => match reply {
                Reply::FileInfo(info) => {
                    &&& is_started(fs, self.capable, info, next_fs)
                    &&& next.phase is Over
                    &&& flow.ends(Ok(session_options(fs, self.capable)))
                },
                Reply::Failed(e) => {
                    &&& next_fs == fs
                    &&& next.phase is Over
                    &&& flow.ends(Err(e.once_more()))
                },
                _ => false,
            },
            InitPhase::Over => false,
        }
    }

    open spec fn holds(&self, r: Resource) -> int {
        0
    }

    open spec fn hands_over(out: Self::Output, r: Resource) -> int {
        0
    }

    fn step(&mut self, fs: &mut PassthroughFs, reply: Reply) -> (flow: Flow<Self::Output>) {
        match self.phase {
            InitPhase::Start => {
                self.phase = InitPhase::Probing;
                Flow::Do(Action::GetFileInfo { path: fs.cfg.root_dir.clone() })
            },
            InitPhase::Probing => {
                self.phase = InitPhase::Over;
                let info = match reply {
                    Reply::FileInfo(info) => info,
                    Reply::Failed(e) => {
                        return Flow::Done(Err(e.translated()));
                    },
                    _ => unreached(),
                };
                let key = InodeAltKey {
                    file_index: info.file_index,
                    volume_serial: info.volume_serial,
                };
                let root = InodeData::new(ROOT_ID, ROOT_ID, key, fs.cfg.root_dir.as_str(), 2);
                fs.inodes.insert(root);
                assert(fs.inodes@.contains_key(ROOT_ID));
                let mut opts: u64 = FS_DO_READDIRPLUS | FS_READDIRPLUS_AUTO;
                if fs.cfg.writeback && (self.capable & FS_WRITEBACK_CACHE) == FS_WRITEBACK_CACHE {
                    opts = opts | FS_WRITEBACK_CACHE;
                    fs.writeback = true;
                }
                if (self.capable & FS_SUBMOUNTS) == FS_SUBMOUNTS {
                    opts = opts | FS_SUBMOUNTS;
                    fs.announce_submounts = true;
                }
                Flow::Done(Ok(opts))
            },
            InitPhase::Over => unreached(),
        }
    }

    proof fn step_balances(
        &self,
        fs: PassthroughFs,
        reply: Reply,
        next: Self,
        next_fs: PassthroughFs,
        flow: Flow<Self::Output>,
        r: Resource,
    ) {
    }
}

/// The guest is granted what needs both sides only if both sides want it.
pub proof fn law_session_needs_both_sides(fs: PassthroughFs, capable: u64)
    ensures
        offers(session_options(fs, capable), FS_WRITEBACK_CACHE) <==> caches_writes(fs, capable),
        offers(session_options(fs, capable), FS_SUBMOUNTS) <==> offers(capable, FS_SUBMOUNTS),
{
    let always = 0x2000u64 | 0x4000u64;
    assert(always & 0x1_0000u64 != 0x1_0000u64 && always & 0x800_0000u64 != 0x800_0000u64 && (always
        | 0x1_0000u64) & 0x1_0000u64 == 0x1_0000u64 && (always | 0x1_0000u64) & 0x800_0000u64
        != 0x800_0000u64 && (always | 0x800_0000u64) & 0x800_0000u64 == 0x800_0000u64 && (always
        | 0x800_0000u64) & 0x1_0000u64 != 0x1_0000u64 && (always | 0x1_0000u64 | 0x800_0000u64)
        & 0x800_0000u64 == 0x800_0000u64 && (always | 0x1_0000u64 | 0x800_0000u64) & 0x1_0000u64
        == 0x1_0000u64) by (bit_vector)
        requires
            always == 0x2000u64 | 0x4000u64,
    ;
}

/// The root directory stays known when the guest forgets it once.
pub proof fn law_root_stays_known(
    fs: PassthroughFs,
    capable: u64,
    info: FileInfo,
    next_fs: PassthroughFs,
)
    requires
        is_started(fs, capable, info, next_fs),
    ensures
        forgotten(next_fs.inodes@, ROOT_ID, 1).contains_key(ROOT_ID),
{
}

/// How far ending a session has come.
#[derive(Clone, Copy)]
pub enum DestroyPhase {
    Start,
    Closing,
    Over,
}

/// Ends a session: forgets every file and every listing, and closes the root directory.
pub struct Destroy {
    pub phase: DestroyPhase,
}

pub fn destroy() -> (r: Destroy)
    ensures
        r == (Destroy { phase: DestroyPhase::Start }),
{
    Destroy { phase: DestroyPhase::Start }
}

impl Operation for Destroy {
    type Output = ();

    open spec fn expects(&self, reply: Reply) -> bool {
        match self.phase {
            DestroyPhase::Start => reply is Begin,
            DestroyPhase::Closing => reply is Unit,
            DestroyPhase::Over => false,
        }
    }

    open spec fn leads_to(
        &self,
        fs: PassthroughFs,
        reply: Reply,
        next: Self,
        next_fs: PassthroughFs,
        flow: Flow<Self::Output>,
    ) -> bool {
        match self.phase {
            DestroyPhase::Start => {
                &&& next_fs.inodes@ == Map::<u64, InodeData>::empty()
                &&& next_fs.dir_caches@.dom() == Set::<u64>::empty()
                &&& next_fs == (PassthroughFs {
                    inodes: next_fs.inodes,
                    dir_caches: next_fs.dir_caches,
                    root_handle: INVALID_HANDLE_VALUE,
                    ..fs
                })
                &&& if fs.root_handle != INVALID_HANDLE_VALUE {
                    next.phase is Closing && flow.closes(fs.root_handle)
                } else {
                    next.phase is Over && flow.ends(())
                }
            },
            DestroyPhase::Closing => next_fs == fs && next.phase is Over && flow.ends(()),
            DestroyPhase::Over => false,
        }
    }

    open spec fn holds(&self, r: Resource) -> int {
        0
    }

    open spec fn hands_over(out: Self::Output, r: Resource) -> int {
        0
    }

    fn step(&mut self, fs: &mut PassthroughFs, reply: Reply) -> (flow: Flow<Self::Output>) {
        match self.phase {
            DestroyPhase::Start => {
                fs.dir_caches.clear();
                assert(fs.dir_caches@.dom() =~= Set::<u64>::empty());
                fs.inodes.clear();
                let root: u64 = fs.root_handle;
                fs.root_handle = INVALID_HANDLE_VALUE;
                if root != INVALID_HANDLE_VALUE {
                    self.phase = DestroyPhase::Closing;
                    return Flow::Do(Action::Close { handle: root });
                }
                self.phase = DestroyPhase::Over;
                Flow::Done(())
            },
            DestroyPhase::Closing => {
                self.phase = DestroyPhase::Over;
                Flow::Done(())
            },
            DestroyPhase::Over => unreached(),
        }
    }

    proof fn step_balances(
        &self,
        fs: PassthroughFs,
        reply: Reply,
        next: Self,
        next_fs: PassthroughFs,
        flow: Flow<Self::Output>,
        r: Resource,
    ) {
    }
}

/// After a session ended no file is known, and ending it once more closes nothing.
pub proof fn law_destroy_settles(
    op: Destroy,
    fs: PassthroughFs,
    reply: Reply,
    next: Destroy,
    next_fs: PassthroughFs,
    flow: Flow<()>,
    again: Destroy,
    again_next: Destroy,
    again_fs: PassthroughFs,
    again_flow: Flow<()>,
)
    requires
        op.phase == DestroyPhase::Start,
        again.phase == DestroyPhase::Start,
        op.leads_to(fs, reply, next, next_fs, flow),
        again.leads_to(next_fs, reply, again_next, again_fs, again_flow),
    ensures
        forall|inode: u64| !next_fs.knows(inode),
        again_flow.ends(()),
{
}

/// How far getting the attributes of a volume has come.
#[derive(Clone, Copy)]
pub enum StatfsPhase {
    Start,
    Resolving,
    Querying,
    Over,
}

/// Gets the attributes of the volume on which a file lies, or of that of the root
/// directory if the host does not tell which one it is.
pub struct Statfs {
    pub inode: u64,
    pub phase: StatfsPhase,
}

pub fn statfs(inode: u64) -> (r: Statfs)
    ensures
        r == (Statfs { inode, phase: StatfsPhase::Start }),
{
    Statfs { inode, phase: StatfsPhase::Start }
}

impl Operation for Statfs {
    type Output = Result<StatVfs64, FsError>;

    open spec fn expects(&self, reply: Reply) -> bool {
        match self.phase {
            StatfsPhase::Start => reply is Begin,
            StatfsPhase::Resolving => reply is Units || reply is Failed,
            StatfsPhase::Querying => reply is Disk || reply is Failed,
            StatfsPhase::Over => false,
        }
    }

    open spec fn leads_to(
        &self,
        fs: PassthroughFs,
        reply: Reply,
        next: Self,
        next_fs: PassthroughFs,
        flow: Flow<Self::Output>,
    ) -> bool {
        &&& next_fs == fs
        &&& next.inode == self.inode
        &&& match self.phase {
            StatfsPhase::Start => if fs.knows(self.inode) {
                &&& next.phase == StatfsPhase::Resolving
                &&& flow matches Flow::Do(Action::VolumePath { path, extra })
                &&& path@ == fs.inodes@[self.inode].wide_path@
                &&& extra == 1
            } else {
                next.phase is Over && flow.ends(Err(FsError::linux(EBADF)))
            },
            StatfsPhase::Resolving => {
                &&& next.phase == StatfsPhase::Querying
                &&& flow matches Flow::Do(Action::DiskFree { path })
                &&& match reply {
                    Reply::Units(volume) => path@ == volume@,
                    Reply::Failed(_) => path@ == wide(fs.cfg.root_dir@),
                    _ => false,
                }
            },
            StatfsPhase::Querying => match reply {
                Reply::Disk(d) => {
                    next.phase is Over && flow.ends(Ok(statvfs_of(d, fs.cfg.export_fsid)))
                },
                Reply::Failed(e) => next.phase is Over && flow.ends(Err(e.once_more())),
                _ => false,
            },
            StatfsPhase::Over => false,
        }
    }

    open spec fn holds(&self, r: Resource) -> int {
        0
    }

    open spec fn hands_over(out: Self::Output, r: Resource) -> int {
        0
    }

    fn step(&mut self, fs: &mut PassthroughFs, reply: Reply) -> (flow: Flow<Self::Output>) {
        match self.phase {
            StatfsPhase::Start => match fs.inode_data(self.inode) {
                Ok(data) => {
                    self.phase = StatfsPhase::Resolving;
                    let path = copy_units(data.get_wide_path().as_slice());
                    // One unit more holds the separator that a drive may get.
                    Flow::Do(Action::VolumePath { path, extra: 1 })
                },
                Err(e) => {
                    self.phase = StatfsPhase::Over;
                    Flow::Done(Err(e))
                },
            },
            StatfsPhase::Resolving => {
                self.phase = StatfsPhase::Querying;
                let path = match reply {
                    Reply::Units(volume) => volume,
                    Reply::Failed(_) => path_to_wide(fs.cfg.root_dir.as_str()),
                    _ => unreached(),
                };
                Flow::Do(Action::DiskFree { path })
            },
            StatfsPhase::Querying => {
                self.phase = StatfsPhase::Over;
                match reply {
                    Reply::Disk(d) => Flow::Done(Ok(disk_to_statvfs(&d, fs.cfg.export_fsid))),
                    Reply::Failed(e) => Flow::Done(Err(e.translated())),
                    _ => unreached(),
                }
            },
            StatfsPhase::Over => unreached(),
        }
    }

    proof fn step_balances(
        &self,
        fs: PassthroughFs,
        reply: Reply,
        next: Self,
        next_fs: PassthroughFs,
        flow: Flow<Self::Output>,
        r: Resource,
    ) {
    }
}

/// How far opening has come.
#[derive(Clone, Copy)]
pub enum OpenPhase {
    Start,
    ById { flags: OpenFlags },
    ByPath { flags: OpenFlags },
    Killing { handle: u64 },
    Over,
}

/// Opens a file or a directory for the guest. The handle of a file is that of the host.
/// The handle of a directory is a number of its own, and nothing is opened for it.
pub struct DoOpen {
    pub inode: u64,
    pub kill_priv: bool,
    pub linux_flags: u32,
    pub path: String,
    pub phase: OpenPhase,
}

pub fn do_open(inode: u64, kill_priv: bool, linux_flags: u32) -> (r: DoOpen)
    ensures
        r.inode == inode,
        r.kill_priv == kill_priv,
        r.linux_flags == linux_flags,
        r.phase == OpenPhase::Start,
{
    DoOpen { inode, kill_priv, linux_flags, path: String::new(), phase: OpenPhase::Start }
}

/// Whether an open asks for a directory.
pub open spec fn asks_for_dir(flags: OpenFlags) -> bool {
    flags.create_options & FILE_DIRECTORY_FILE != 0
}

/// The handle that the next directory gets.
pub open spec fn next_dir_handle(fs: PassthroughFs) -> u64 {
    fs.next_handle | DIR_TAG
}

impl DoOpen {
    /// The file is open; its privileges are removed first if that was asked for.
    pub open spec fn proceeds(
        self,
        fs: PassthroughFs,
        handle: u64,
        phase: OpenPhase,
        flow: Flow<Result<(Option<u64>, u32), FsError>>,
    ) -> bool {
        if self.kill_priv {
            &&& phase == OpenPhase::Killing { handle }
            &&& flow matches Flow::Do(Action::KillPriv { path })
            &&& path@ == self.path@
        } else {
            phase is Over && flow.ends(Ok((Some(handle), file_options(fs.cfg.cache_policy))))
        }
    }

    fn proceed(&mut self, fs: &PassthroughFs, handle: u64) -> (flow: Flow<
        Result<(Option<u64>, u32), FsError>,
    >)
        ensures
            old(self).proceeds(*fs, handle, final(self).phase, flow),
            *final(self) == (DoOpen { phase: final(self).phase, ..*old(self) }),
    {
        if self.kill_priv {
            self.phase = OpenPhase::Killing { handle };
            Flow::Do(Action::KillPriv { path: self.path.clone() })
        } else {
            self.phase = OpenPhase::Over;
            Flow::Done(Ok((Some(handle), file_open_options(fs.cfg.cache_policy))))
        }
    }
}

impl Operation for DoOpen {
    type Output = Result<(Option<u64>, u32), FsError>;

    open spec fn expects(&self, reply: Reply) -> bool {
        match self.phase {
            OpenPhase::Start => reply is Begin,
            OpenPhase::ById { .. } => reply.opened(),
            OpenPhase::ByPath { .. } => reply.opened(),
            OpenPhase::Killing { handle } => is_file_handle(handle) && reply is Unit,
            OpenPhase::Over => false,
        }
    }

    open spec fn leads_to(
        &self,
        fs: PassthroughFs,
        reply: Reply,
        next: Self,
        next_fs: PassthroughFs,
        flow: Flow<Self::Output>,
    ) -> bool {
        &&& next == (DoOpen { path: next.path, phase: next.phase, ..*self })
        &&& self.phase !is Start ==> next_fs == fs && next.path == self.path
        &&& match self.phase {
            OpenPhase::Start => {
                let flags = open_flags(self.linux_flags as i32, fs.writeback);
                if asks_for_dir(flags) {
                    &&& next_fs == (PassthroughFs { next_handle: following(fs.next_handle), ..fs })
                    &&& next.phase is Over
                    &&& flow.ends(
                        Ok((Some(next_dir_handle(fs)), dir_options(fs.cfg.cache_policy))),
                    )
                } else if fs.knows(self.inode) {
                    &&& next_fs == fs
                    &&& next.phase == OpenPhase::ById { flags }
                    &&& next.path@ == fs.path_of(self.inode)
                    &&& flow.opens_id(fs.root_handle, fs.index_of(self.inode), flags)
                } else {
                    &&& next_fs == fs
                    &&& next.phase is Over
                    &&& flow.ends(Err(FsError::linux(EBADF)))
                }
            },
            OpenPhase::ById { flags } => match reply {
                Reply::Handle(h) => self.proceeds(fs, h, next.phase, flow),
                Reply::Failed(_) => {
                    &&& next.phase == OpenPhase::ByPath { flags }
                    &&& flow.opens_path(self.path@, flags)
                },
                _ => false,
            },
            OpenPhase::ByPath { .. } => match reply {
                Reply::Handle(h) => self.proceeds(fs, h, next.phase, flow),
                Reply::Failed(e) => next.phase is Over && flow.ends(Err(e.once_more())),
                _ => false,
            },
            OpenPhase::Killing { handle } => {
                &&& next.phase is Over
                &&& flow.ends(Ok((Some(handle), file_options(fs.cfg.cache_policy))))
            },
            OpenPhase::Over => false,
        }
    }

    open spec fn holds(&self, r: Resource) -> int {
        match self.phase {
            OpenPhase::Killing { handle } => one(Resource::Handle(handle), r),
            _ => 0,
        }
    }

    open spec fn hands_over(out: Self::Output, r: Resource) -> int {
        match out {
            Ok((Some(handle), _)) if is_file_handle(handle) => one(Resource::Handle(handle), r),
            _ => 0,
        }
    }

    fn step(&mut self, fs: &mut PassthroughFs, reply: Reply) -> (flow: Flow<Self::Output>) {
        match self.phase {
            OpenPhase::Start => {
                let flags = parse_linux_open_flags(self.linux_flags as i32, fs.writeback);
                if (flags.create_options & FILE_DIRECTORY_FILE) != 0 {
                    let handle: u64 = fs.next_handle | DIR_TAG;
                    fs.next_handle = count_up(fs.next_handle);
                    self.phase = OpenPhase::Over;
                    return Flow::Done(Ok((Some(handle), dir_open_options(fs.cfg.cache_policy))));
                }
                match fs.inode_data(self.inode) {
                    Ok(data) => {
                        self.path = data.get_path().clone();
                        self.phase = OpenPhase::ById { flags };
                        Flow::Do(Action::Open(open_by_id(fs.root_handle, data.file_index, &flags)))
                    },
                    Err(e) => {
                        self.phase = OpenPhase::Over;
                        Flow::Done(Err(e))
                    },
                }
            },
            OpenPhase::ById { flags } => match reply {
                Reply::Handle(h) => self.proceed(fs, h),
                Reply::Failed(_) => {
                    self.phase = OpenPhase::ByPath { flags };
                    Flow::Do(Action::Open(open_handle(self.path.as_str(), &flags)))
                },
                _ => unreached(),
            },
            OpenPhase::ByPath { .. } => match reply {
                Reply::Handle(h) => self.proceed(fs, h),
                Reply::Failed(e) => {
                    self.phase = OpenPhase::Over;
                    Flow::Done(Err(e.translated()))
                },
                _ => unreached(),
            },
            OpenPhase::Killing { handle } => {
                self.phase = OpenPhase::Over;
                Flow::Done(Ok((Some(handle), file_open_options(fs.cfg.cache_policy))))
            },
            OpenPhase::Over => unreached(),
        }
    }

    proof fn step_balances(
        &self,
        fs: PassthroughFs,
        reply: Reply,
        next: Self,
        next_fs: PassthroughFs,
        flow: Flow<Self::Output>,
        r: Resource,
    ) {
        lemma_dir_handle_is_tagged(fs.next_handle);
    }
}

proof fn lemma_dir_handle_is_tagged(n: u64)
    ensures
        is_dir_handle(n | DIR_TAG),
{
    assert((n | 0x8000_0000_0000_0000u64) & 0x8000_0000_0000_0000u64 != 0) by (bit_vector);
}

/// The handle of a directory can be told from that of a file, whatever number it has.
pub proof fn law_dir_handles_are_tagged(fs: PassthroughFs)
    ensures
        is_dir_handle(next_dir_handle(fs)),
        !is_file_handle(next_dir_handle(fs)),
{
    lemma_dir_handle_is_tagged(fs.next_handle);
}

/// Directories that are opened under different numbers below the tag have different
/// handles.
pub proof fn law_dir_handles_differ(a: PassthroughFs, b: PassthroughFs)
    requires
        a.next_handle < DIR_TAG,
        b.next_handle < DIR_TAG,
        a.next_handle != b.next_handle,
    ensures
        next_dir_handle(a) != next_dir_handle(b),
{
    let x = a.next_handle;
    let y = b.next_handle;
    assert(x | 0x8000_0000_0000_0000u64 != y | 0x8000_0000_0000_0000u64) by (bit_vector)
        requires
            x < 0x8000_0000_0000_0000u64,
            y < 0x8000_0000_0000_0000u64,
            x != y,
    ;
}

/// How far opening a directory has come.
#[derive(Clone, Copy)]
pub enum OpendirPhase {
    Start,
    Filling { handle: u64, options: u32 },
    Over,
}

/// Opens a directory for the guest: gives it a handle, and reads all of it into the listing
/// that is kept for the handle. The handle of the host is closed again, so that the directory
/// is not locked on the host.
pub struct Opendir {
    pub inode: u64,
    pub flags: u32,
    pub phase: OpendirPhase,
}

pub fn opendir(inode: u64, flags: u32) -> (r: Opendir)
    ensures
        r == (Opendir { inode, flags, phase: OpendirPhase::Start }),
{
    Opendir { inode, flags, phase: OpendirPhase::Start }
}

impl Operation for Opendir {
    type Output = Result<(Option<u64>, u32), FsError>;

    open spec fn expects(&self, reply: Reply) -> bool {
        match self.phase {
            OpendirPhase::Start => reply is Begin,
            OpendirPhase::Filling { .. } => reply.done(),
            OpendirPhase::Over => false,
        }
    }

    open spec fn leads_to(
        &self,
        fs: PassthroughFs,
        reply: Reply,
        next: Self,
        next_fs: PassthroughFs,
        flow: Flow<Self::Output>,
    ) -> bool {
        &&& next == (Opendir { phase: next.phase, ..*self })
        &&& match self.phase {
            OpendirPhase::Start => {
                let handle = next_dir_handle(fs);
                let options = dir_options(fs.cfg.cache_policy);
                &&& next_fs == (PassthroughFs { next_handle: following(fs.next_handle), ..fs })
                &&& next.phase == OpendirPhase::Filling { handle, options }
                &&& flow.does(Action::FillDirCache { inode: self.inode, handle })
            },
            OpendirPhase::Filling { handle, options } => {
                &&& next_fs == fs
                &&& next.phase is Over
                &&& match reply {
                    Reply::Unit => flow.ends(Ok((Some(handle), options))),
                    Reply::Failed(e) => flow.ends(Err(e)),
                    _ => false,
                }
            },
            OpendirPhase::Over => false,
        }
    }

    open spec fn holds(&self, r: Resource) -> int {
        0
    }

    open spec fn hands_over(out: Self::Output, r: Resource) -> int {
        0
    }

    fn step(&mut self, fs: &mut PassthroughFs, reply: Reply) -> (flow: Flow<Self::Output>) {
        match self.phase {
            OpendirPhase::Start => {
                proof {
                    law_opendir_opens_a_directory(self.flags, fs.writeback);
                }
                let mut open = do_open(self.inode, false, self.flags | LINUX_O_DIRECTORY as u32);
                match open.step(fs, reply) {
                    Flow::Done(Ok((Some(handle), options))) => {
                        self.phase = OpendirPhase::Filling { handle, options };
                        Flow::Do(Action::FillDirCache { inode: self.inode, handle })
                    },
                    _ => unreached(),
                }
            },
            OpendirPhase::Filling { handle, options } => {
                self.phase = OpendirPhase::Over;
                match reply {
                    Reply::Unit => Flow::Done(Ok((Some(handle), options))),
                    Reply::Failed(e) => Flow::Done(Err(e)),
                    _ => unreached(),
                }
            },
            OpendirPhase::Over => unreached(),
        }
    }

    proof fn step_balances(
        &self,
        fs: PassthroughFs,
        reply: Reply,
        next: Self,
        next_fs: PassthroughFs,
        flow: Flow<Self::Output>,
        r: Resource,
    ) {
    }
}

/// How far releasing has come.
#[derive(Clone, Copy)]
pub enum ReleasePhase {
    Start,
    Closing,
    Over,
}

/// Releases a handle of the guest: drops the listing of a directory, or closes a file.
pub struct DoRelease {
    pub handle: u64,
    pub phase: ReleasePhase,
}

pub fn do_release(handle: u64) -> (r: DoRelease)
    ensures
        r == (DoRelease { handle, phase: ReleasePhase::Start }),
{
    DoRelease { handle, phase: ReleasePhase::Start }
}

impl Operation for DoRelease {
    type Output = Result<(), FsError>;

    open spec fn expects(&self, reply: Reply) -> bool {
        match self.phase {
            ReleasePhase::Start => reply is Begin,
            ReleasePhase::Closing => reply is Unit,
            ReleasePhase::Over => false,
        }
    }

    open spec fn leads_to(
        &self,
        fs: PassthroughFs,
        reply: Reply,
        next: Self,
        next_fs: PassthroughFs,
        flow: Flow<Self::Output>,
    ) -> bool {
        &&& next.handle == self.handle
        &&& match self.phase {
            ReleasePhase::Start => if is_dir_handle(self.handle) {
                &&& next_fs.dir_caches@ == fs.dir_caches@.remove(self.handle)
                &&& next_fs == (PassthroughFs { dir_caches: next_fs.dir_caches, ..fs })
                &&& next.phase is Over
                &&& flow.ends(Ok(()))
            } else if self.handle != 0 {
                &&& next_fs == fs
                &&& next.phase is Closing
                &&& flow.closes(self.handle)
            } else {
                next_fs == fs && next.phase is Over && flow.ends(Ok(()))
            },
            ReleasePhase::Closing => next_fs == fs && next.phase is Over && flow.ends(Ok(())),
            ReleasePhase::Over => false,
        }
    }

    open spec fn holds(&self, r: Resource) -> int {
        match self.phase {
            ReleasePhase::Start if is_file_handle(self.handle) => {
                one(Resource::Handle(self.handle), r)
            },
            _ => 0,
        }
    }

    open spec fn hands_over(out: Self::Output, r: Resource) -> int {
        0
    }

    fn step(&mut self, fs: &mut PassthroughFs, reply: Reply) -> (flow: Flow<Self::Output>) {
        match self.phase {
            ReleasePhase::Start => {
                if (self.handle & DIR_TAG) != 0 {
                    fs.dir_caches.remove(&self.handle);
                    assert(fs.dir_caches@ =~= old(fs).dir_caches@.remove(self.handle));
                } else if self.handle != 0 {
                    self.phase = ReleasePhase::Closing;
                    return Flow::Do(Action::Close { handle: self.handle });
                }
                self.phase = ReleasePhase::Over;
                Flow::Done(Ok(()))
            },
            ReleasePhase::Closing => {
                self.phase = ReleasePhase::Over;
                Flow::Done(Ok(()))
            },
            ReleasePhase::Over => unreached(),
        }
    }

    proof fn step_balances(
        &self,
        fs: PassthroughFs,
        reply: Reply,
        next: Self,
        next_fs: PassthroughFs,
        flow: Flow<Self::Output>,
        r: Resource,
    ) {
    }
}

} // verus!
