//! Runs that start and end a session, and that open and release files.

use crate::config::{CachePolicy, Config};
use crate::errno::{EBADF, FsError};
use crate::fs::{PassthroughFs, DIR_TAG};
use crate::host::{Action, Reply};
use crate::inode::InodeAllocator;
use crate::laws::run::{answer, asked, host_error, is_run, lemma_steps, linux_error};
use crate::laws::values::{is_translation_of, law_open_flags_ask_for};
use crate::linux::{FS_DO_READDIRPLUS, FS_READDIRPLUS_AUTO, FS_SUBMOUNTS, FS_WRITEBACK_CACHE};
use crate::linux::{LINUX_O_DIRECTORY, OPEN_CACHE_DIR, OPEN_DIRECT_IO, OPEN_KEEP_CACHE, ROOT_ID};
use crate::nt::{law_directory_flag, open_flags, opens_id, opens_path, OpenFlags};
use crate::operation::Step;
use crate::ops::probe::{openat, Openat};
use crate::ops::serve::{serve, Serve};
use crate::ops::session::{destroy, do_open, do_release, init, opendir, statfs};
use crate::ops::session::{Destroy, DoOpen, DoRelease, Init, Opendir, Statfs};
use crate::path::wide;
use crate::stat::{statvfs_of, StatVfs64};
use crate::win::{FILE_ATTRIBUTE_REPARSE_POINT, FILE_OPEN, FILE_OPEN_REPARSE_POINT};
use crate::win::{FILE_READ_ATTRIBUTES, FILE_SYNCHRONOUS_IO_NONALERT, INVALID_HANDLE_VALUE};
use vstd::prelude::*;

verus! {

/// Whether both the guest and the configuration want writes to be cached.
pub open spec fn agree_on_caching(fs: PassthroughFs, capable: u64) -> bool {
    fs.cfg.writeback && capable & FS_WRITEBACK_CACHE == FS_WRITEBACK_CACHE
}

/// The root directory of a configuration is opened as it is, without following a link, and kept
/// open if it is none. A link or a junction is closed and refused, and so is one of which the host
/// does not say what it is.
pub proof fn law_root_is_opened(
    steps: Seq<Step<Openat>>,
    path: String,
    out: Result<u64, FsError>,
)
    requires
        call_ensures(openat, (path,), steps[0].before),
        is_run(steps, out),
    ensures
        asked(steps, 0) matches Some(Action::Open(r)) && opens_path(
            r,
            path@,
            OpenFlags {
                desired_access: FILE_READ_ATTRIBUTES,
                create_disposition: FILE_OPEN,
                create_options: FILE_SYNCHRONOUS_IO_NONALERT | FILE_OPEN_REPARSE_POINT,
            },
        ),
        match answer(steps, 0) {
            Reply::Failed(e) => steps.len() == 2 && out == Err::<u64, FsError>(e),
            Reply::Handle(h) => {
                &&& asked(steps, 1) == Some(Action::QueryInfo { handle: h })
                &&& match answer(steps, 1) {
                    Reply::Info(i) => if i.file_attributes & FILE_ATTRIBUTE_REPARSE_POINT == 0 {
                        steps.len() == 3 && out == Ok::<u64, FsError>(h)
                    } else {
                        &&& steps.len() == 4
                        &&& asked(steps, 2) == Some(Action::Close { handle: h })
                        &&& out == Err::<u64, FsError>(FsError::ReparsePoint)
                    },
                    Reply::Failed(e) => {
                        &&& steps.len() == 4
                        &&& asked(steps, 2) == Some(Action::Close { handle: h })
                        &&& out == Err::<u64, FsError>(e)
                    },
                    _ => false,
                }
            },
            _ => false,
        },
        forall|i: int|
            0 <= i < steps.len() ==> (#[trigger] steps[i]).fs_after == steps[i].fs_before,
{
    lemma_steps(steps);
}

/// A file system is made of the root directory of its configuration: that is what the host is asked
/// to open, and its handle is what the file system keeps. Nothing is known yet.
pub proof fn law_file_system_serves_its_root(
    steps: Seq<Step<Serve>>,
    cfg: Config,
    inode_alloc: InodeAllocator,
    out: Result<PassthroughFs, FsError>,
)
    requires
        call_ensures(serve, (cfg, inode_alloc), steps[0].before),
        is_run(steps, out),
    ensures
        asked(steps, 0) matches Some(Action::Open(r)) && opens_path(
            r,
            cfg.root_dir@,
            OpenFlags {
                desired_access: FILE_READ_ATTRIBUTES,
                create_disposition: FILE_OPEN,
                create_options: FILE_SYNCHRONOUS_IO_NONALERT | FILE_OPEN_REPARSE_POINT,
            },
        ),
        match answer(steps, 0) {
            Reply::Failed(e) => steps.len() == 2 && (out matches Err(f) && f == e),
            Reply::Handle(h) => {
                &&& asked(steps, 1) == Some(Action::QueryInfo { handle: h })
                &&& match answer(steps, 1) {
                    Reply::Info(i) => if i.file_attributes & FILE_ATTRIBUTE_REPARSE_POINT == 0 {
                        &&& steps.len() == 3
                        &&& out matches Ok(fs)
                        &&& fs.root_handle == h
                        &&& fs.cfg == cfg
                        &&& fs.inode_alloc == inode_alloc
                        &&& fs.next_handle == 1
                        &&& !fs.writeback
                        &&& !fs.announce_submounts
                        &&& fs.inodes@.dom() == Set::<u64>::empty()
                        &&& fs.dir_caches@.dom() == Set::<u64>::empty()
                    } else {
                        &&& steps.len() == 4
                        &&& asked(steps, 2) == Some(Action::Close { handle: h })
                        &&& out matches Err(f)
                        &&& f == FsError::ReparsePoint
                    },
                    Reply::Failed(e) => {
                        &&& steps.len() == 4
                        &&& asked(steps, 2) == Some(Action::Close { handle: h })
                        &&& out matches Err(f)
                        &&& f == e
                    },
                    _ => false,
                }
            },
            _ => false,
        },
{
    lemma_steps(steps);
    if let Ok(fs) = out {
        assert(fs.inodes@.dom() =~= Set::<u64>::empty());
        assert(fs.dir_caches@.dom() =~= Set::<u64>::empty());
    }
}

/// A session starts with the root directory of the configuration: it is known under its number,
/// with what identifies it on the host, as its own parent, and with two references, and no other
/// file that was known changes. Writes are cached only if both sides want that, and mounts are
/// announced only if the guest wants to know of them.
pub proof fn law_session_starts_with_the_root(
    steps: Seq<Step<Init>>,
    capable: u64,
    out: Result<u64, FsError>,
)
    requires
        call_ensures(init, (capable,), steps[0].before),
        is_run(steps, out),
    ensures
        steps.len() == 2,
        asked(steps, 0) matches Some(Action::GetFileInfo { path }) && path@
            == steps[0].fs_before.cfg.root_dir@,
        steps[0].fs_after == steps[0].fs_before,
        ({
            let before = steps[1].fs_before;
            let after = steps[1].fs_after;
            let caches = agree_on_caching(before, capable);
            let mounts = capable & FS_SUBMOUNTS == FS_SUBMOUNTS;
            match answer(steps, 0) {
                Reply::Failed(e) => {
                    after == before && out == Err::<u64, FsError>(host_error(e))
                },
                Reply::FileInfo(info) => {
                    let root = after.inodes@[ROOT_ID];
                    &&& out matches Ok(options)
                    &&& options == FS_DO_READDIRPLUS | FS_READDIRPLUS_AUTO || options
                        == FS_DO_READDIRPLUS | FS_READDIRPLUS_AUTO | FS_WRITEBACK_CACHE || options
                        == FS_DO_READDIRPLUS | FS_READDIRPLUS_AUTO | FS_SUBMOUNTS || options
                        == FS_DO_READDIRPLUS | FS_READDIRPLUS_AUTO | FS_WRITEBACK_CACHE
                        | FS_SUBMOUNTS
                    &&& caches && mounts ==> options == FS_DO_READDIRPLUS | FS_READDIRPLUS_AUTO
                        | FS_WRITEBACK_CACHE | FS_SUBMOUNTS
                    &&& caches && !mounts ==> options == FS_DO_READDIRPLUS | FS_READDIRPLUS_AUTO
                        | FS_WRITEBACK_CACHE
                    &&& !caches && mounts ==> options == FS_DO_READDIRPLUS | FS_READDIRPLUS_AUTO
                        | FS_SUBMOUNTS
                    &&& !caches && !mounts ==> options == FS_DO_READDIRPLUS | FS_READDIRPLUS_AUTO
                    &&& after.writeback == (before.writeback || caches)
                    &&& after.announce_submounts == (before.announce_submounts || mounts)
                    &&& after.inodes@.contains_key(ROOT_ID)
                    &&& root.inode == ROOT_ID
                    &&& root.parent_inode == ROOT_ID
                    &&& root.file_index == info.file_index
                    &&& root.volume_serial == info.volume_serial
                    &&& root.path@ == before.cfg.root_dir@
                    &&& root.refcount == 2
                    &&& forall|i: u64| #[trigger]
                        after.inodes@.contains_key(i) && i != ROOT_ID
                            ==> before.inodes@.contains_key(i) && after.inodes@[i]
                            == before.inodes@[i]
                    &&& forall|i: u64| #[trigger]
                        before.inodes@.contains_key(i) && i != ROOT_ID && !(
                        before.inodes@[i].file_index == info.file_index
                            && before.inodes@[i].volume_serial == info.volume_serial)
                            ==> after.inodes@.contains_key(i)
                    &&& after.cfg == before.cfg
                    &&& after.root_handle == before.root_handle
                    &&& after.next_handle == before.next_handle
                    &&& after.dir_caches == before.dir_caches
                    &&& after.inode_alloc == before.inode_alloc
                },
                _ => false,
            }
        }),
{
    lemma_steps(steps);
}

/// A session that ends forgets every file and every listing. The root directory is closed, once,
/// if it is open.
pub proof fn law_session_ends_with_nothing(steps: Seq<Step<Destroy>>)
    requires
        call_ensures(destroy, (), steps[0].before),
        is_run(steps, ()),
    ensures
        ({
            let before = steps[0].fs_before;
            let after = steps[0].fs_after;
            &&& forall|i: u64| !after.inodes@.contains_key(i)
            &&& forall|h: u64| !after.dir_caches@.contains_key(h)
            &&& after.root_handle == INVALID_HANDLE_VALUE
            &&& after.cfg == before.cfg
            &&& after.writeback == before.writeback
            &&& after.announce_submounts == before.announce_submounts
            &&& after.next_handle == before.next_handle
            &&& after.inode_alloc == before.inode_alloc
            &&& if before.root_handle == INVALID_HANDLE_VALUE {
                steps.len() == 1
            } else {
                &&& steps.len() == 2
                &&& asked(steps, 0) == Some(Action::Close { handle: before.root_handle })
                &&& steps[1].fs_after == steps[1].fs_before
            }
        }),
{
    lemma_steps(steps);
    let after = steps[0].fs_after;
    assert forall|h: u64| !after.dir_caches@.contains_key(h) by {
        assert(!after.dir_caches@.dom().contains(h));
    }
}

/// The attributes of a volume are those of the volume on which the file lies that the guest names,
/// or of that of the root directory if the host does not say which one that is.
pub proof fn law_statfs_tells_of_the_volume(
    steps: Seq<Step<Statfs>>,
    inode: u64,
    out: Result<StatVfs64, FsError>,
)
    requires
        call_ensures(statfs, (inode,), steps[0].before),
        is_run(steps, out),
        steps[0].fs_before.wf(),
    ensures
        ({
            let fs = steps[0].fs_before;
            if !fs.inodes@.contains_key(inode) {
                steps.len() == 1 && out == Err::<StatVfs64, FsError>(linux_error(EBADF))
            } else {
                &&& steps.len() == 3
                &&& asked(steps, 0) matches Some(Action::VolumePath { path, extra })
                &&& path@ == wide(fs.inodes@[inode].path@)
                &&& extra == 1
                &&& asked(steps, 1) matches Some(Action::DiskFree { path: volume })
                &&& match answer(steps, 0) {
                    Reply::Units(v) => volume@ == v@,
                    _ => volume@ == wide(steps[1].fs_before.cfg.root_dir@),
                }
                &&& match answer(steps, 1) {
                    Reply::Disk(d) => out == Ok::<StatVfs64, FsError>(
                        statvfs_of(d, steps[2].fs_before.cfg.export_fsid),
                    ),
                    Reply::Failed(e) => out == Err::<StatVfs64, FsError>(host_error(e)),
                    _ => false,
                }
            }
        }),
        forall|i: int|
            0 <= i < steps.len() ==> (#[trigger] steps[i]).fs_after == steps[i].fs_before,
{
    lemma_steps(steps);
    steps[0].fs_before.inodes.law_files_are_told_apart();
}

/// From the `i`-th action on: a file is open; it loses its privileges if that was asked for, and
/// the guest gets the handle.
pub open spec fn is_handed_out(
    steps: Seq<Step<DoOpen>>,
    i: int,
    kill_priv: bool,
    path: Seq<char>,
    handle: u64,
    out: Result<(Option<u64>, u32), FsError>,
) -> bool {
    let last = steps.len() - 1;
    &&& if kill_priv {
        &&& last == i + 1
        &&& asked(steps, i) matches Some(Action::KillPriv { path: p })
        &&& p@ == path
    } else {
        last == i
    }
    &&& out == Ok::<(Option<u64>, u32), FsError>(
        (
            Some(handle),
            match steps[last].fs_before.cfg.cache_policy {
                CachePolicy::Never => OPEN_DIRECT_IO,
                CachePolicy::Always => OPEN_KEEP_CACHE,
                CachePolicy::Auto => 0,
            },
        ),
    )
}

/// A file that the guest opens is the one that it names, opened as its flags ask for: by its index
/// next to the root directory, and by its path if that fails. A directory gets a number of its
/// own, with the highest bit set, and nothing is opened; the next one gets the next number.
pub proof fn law_open_opens_the_file(
    steps: Seq<Step<DoOpen>>,
    inode: u64,
    kill_priv: bool,
    flags: u32,
    out: Result<(Option<u64>, u32), FsError>,
) -> (f: OpenFlags)
    requires
        call_ensures(do_open, (inode, kill_priv, flags), steps[0].before),
        is_run(steps, out),
    ensures
        ({
            let fs = steps[0].fs_before;
            let path = fs.inodes@[inode].path@;
            &&& is_translation_of(f, flags as i32, fs.writeback)
            &&& if flags as i32 & LINUX_O_DIRECTORY != 0 {
                let after = steps[0].fs_after;
                &&& steps.len() == 1
                &&& out == Ok::<(Option<u64>, u32), FsError>(
                    (
                        Some(fs.next_handle | DIR_TAG),
                        match fs.cfg.cache_policy {
                            CachePolicy::Always => OPEN_CACHE_DIR,
                            _ => 0,
                        },
                    ),
                )
                &&& fs.next_handle < u64::MAX ==> after.next_handle == fs.next_handle + 1
                &&& after == (PassthroughFs { next_handle: after.next_handle, ..fs })
            } else if !fs.inodes@.contains_key(inode) {
                &&& steps.len() == 1
                &&& out == Err::<(Option<u64>, u32), FsError>(linux_error(EBADF))
            } else {
                &&& asked(steps, 0) matches Some(Action::Open(r))
                &&& opens_id(r, fs.root_handle, fs.inodes@[inode].file_index, f)
                &&& match answer(steps, 0) {
                    Reply::Handle(h) => is_handed_out(steps, 1, kill_priv, path, h, out),
                    _ => {
                        &&& asked(steps, 1) matches Some(Action::Open(s))
                        &&& opens_path(s, path, f)
                        &&& match answer(steps, 1) {
                            Reply::Handle(h) => is_handed_out(steps, 2, kill_priv, path, h, out),
                            Reply::Failed(e) => {
                                &&& steps.len() == 3
                                &&& out == Err::<(Option<u64>, u32), FsError>(host_error(e))
                            },
                            _ => false,
                        }
                    },
                }
            }
        }),
        flags as i32 & LINUX_O_DIRECTORY == 0 ==> forall|i: int|
            0 <= i < steps.len() ==> (#[trigger] steps[i]).fs_after == steps[i].fs_before,
{
    lemma_steps(steps);
    let fs = steps[0].fs_before;
    law_open_flags_ask_for(flags as i32, fs.writeback);
    law_directory_flag(flags as i32, fs.writeback);
    open_flags(flags as i32, fs.writeback)
}

/// A directory that the guest opens gets a number of its own, with the highest bit set, and the
/// directory that the guest names is read into the listing under that number. The guest gets the
/// number only if that worked.
pub proof fn law_opendir_reads_the_directory(
    steps: Seq<Step<Opendir>>,
    inode: u64,
    flags: u32,
    out: Result<(Option<u64>, u32), FsError>,
)
    requires
        call_ensures(opendir, (inode, flags), steps[0].before),
        is_run(steps, out),
    ensures
        ({
            let fs = steps[0].fs_before;
            let after = steps[0].fs_after;
            let handle = fs.next_handle | DIR_TAG;
            &&& steps.len() == 2
            &&& asked(steps, 0) == Some(Action::FillDirCache { inode, handle })
            &&& fs.next_handle < u64::MAX ==> after.next_handle == fs.next_handle + 1
            &&& after == (PassthroughFs { next_handle: after.next_handle, ..fs })
            &&& steps[1].fs_after == steps[1].fs_before
            &&& match answer(steps, 0) {
                Reply::Failed(e) => out == Err::<(Option<u64>, u32), FsError>(e),
                _ => out == Ok::<(Option<u64>, u32), FsError>(
                    (
                        Some(handle),
                        match fs.cfg.cache_policy {
                            CachePolicy::Always => OPEN_CACHE_DIR,
                            _ => 0,
                        },
                    ),
                ),
            }
        }),
{
    lemma_steps(steps);
}

/// A handle that the guest releases is closed if it is one of the host; a directory loses its
/// listing, and no other directory does.
pub proof fn law_release_closes_the_handle(
    steps: Seq<Step<DoRelease>>,
    handle: u64,
    out: Result<(), FsError>,
)
    requires
        call_ensures(do_release, (handle,), steps[0].before),
        is_run(steps, out),
    ensures
        out == Ok::<(), FsError>(()),
        ({
            let fs = steps[0].fs_before;
            let after = steps[0].fs_after;
            if handle & DIR_TAG != 0 {
                &&& steps.len() == 1
                &&& !after.dir_caches@.contains_key(handle)
                &&& forall|h: u64|
                    h != handle ==> (#[trigger] after.dir_caches@.contains_key(h)
                        <==> fs.dir_caches@.contains_key(h)) && (fs.dir_caches@.contains_key(h)
                        ==> after.dir_caches@[h] == fs.dir_caches@[h])
                &&& after == (PassthroughFs { dir_caches: after.dir_caches, ..fs })
            } else {
                &&& after == fs
                &&& handle == 0 ==> steps.len() == 1
                &&& handle != 0 ==> steps.len() == 2 && asked(steps, 0) == Some(
                    Action::Close { handle },
                ) && steps[1].fs_after == steps[1].fs_before
            }
        }),
{
    lemma_steps(steps);
}

} // verus!
