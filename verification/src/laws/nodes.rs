//! Runs that make and remove files.

use crate::config::CachePolicy;
use crate::errno::{EBADF, EINVAL, FsError};
use crate::fs::{Entry, SecContext};
use crate::host::{Action, Reply};
use crate::laws::run::{answer, asked, host_error, is_run, lemma_steps, linux_error};
use crate::laws::values::law_open_flags_ask_for;
use crate::linux::{LINUX_O_APPEND, LINUX_O_CREAT, LINUX_O_DIRECTORY, LINUX_O_EXCL};
use crate::linux::{LINUX_O_NOFOLLOW, LINUX_O_TRUNC, OPEN_DIRECT_IO, OPEN_KEEP_CACHE, S_IFREG};
use crate::nt::{open_flags, opens_child, opens_id, opens_path, OpenFlags};
use crate::operation::Step;
use crate::ops::nodes::{create, mkdir, mknod, rmdir, unlink, Create, MakeNode, RemoveNode};
use crate::override_stat::{override_text, OverrideStat, OVERRIDE_STAT_STREAM};
use crate::path::{joins, stream_suffix};
use crate::stat::Context;
use crate::text::lossy_utf8;
use crate::win::{DELETE, FILE_APPEND_DATA, FILE_CREATE, FILE_DIRECTORY_FILE};
use crate::win::{FILE_NON_DIRECTORY_FILE, FILE_OPEN};
use crate::win::{FILE_OPEN_IF, FILE_OPEN_REPARSE_POINT, FILE_OVERWRITE_IF};
use crate::win::{FILE_SYNCHRONOUS_IO_NONALERT, GENERIC_READ, GENERIC_WRITE};
use vstd::prelude::*;

verus! {

/// How a directory is opened to look into it.
pub open spec fn looking() -> OpenFlags {
    OpenFlags {
        desired_access: GENERIC_READ,
        create_disposition: FILE_OPEN,
        create_options: FILE_SYNCHRONOUS_IO_NONALERT | FILE_DIRECTORY_FILE,
    }
}

/// A stream of an open file is written.
pub open spec fn asks_stream(
    a: Option<Action>,
    file: u64,
    stream: Seq<char>,
    text: Seq<u8>,
) -> bool {
    &&& a matches Some(Action::WriteAds { handle, suffix, data })
    &&& handle == file
    &&& suffix@ == stream
    &&& data@ == text
}

/// The text of the record of a file with an owner and a mode.
pub open spec fn record_text(ctx: Context, mode: u32) -> Seq<u8> {
    override_text(OverrideStat { uid: Some(ctx.uid), gid: Some(ctx.gid), mode: Some(mode) })
}

/// From the `i`-th action on: owner and mode of a new entry are recorded through its handle, it is
/// looked up in its directory, and both handles are closed.
pub open spec fn records_node(
    steps: Seq<Step<MakeNode>>,
    i: int,
    ctx: Context,
    dir: u64,
    file: Seq<u8>,
    mode: u32,
    dir_handle: u64,
    child: u64,
    out: Result<Entry, FsError>,
) -> bool {
    &&& asks_stream(
        asked(steps, i),
        child,
        OVERRIDE_STAT_STREAM@,
        record_text(ctx, mode),
    )
    &&& match answer(steps, i) {
        Reply::Failed(e) => {
            &&& steps.len() == i + 4
            &&& asked(steps, i + 1) == Some(Action::Close { handle: child })
            &&& asked(steps, i + 2) == Some(Action::Close { handle: dir_handle })
            &&& out == Err::<Entry, FsError>(e)
        },
        _ => {
            &&& steps.len() == i + 5
            &&& asked(steps, i + 1) matches Some(Action::Lookup { parent, name })
            &&& parent == dir
            &&& name@ == file
            &&& asked(steps, i + 2) == Some(Action::Close { handle: child })
            &&& asked(steps, i + 3) == Some(Action::Close { handle: dir_handle })
            &&& match answer(steps, i + 1) {
                Reply::Entry(entry) => out == Ok::<Entry, FsError>(entry),
                Reply::Failed(e) => out == Err::<Entry, FsError>(e),
                _ => false,
            }
        },
    }
}

/// Making an entry: the directory that the guest names is opened by its index, the entry is made
/// in it under its name, new or not at all, and its security context, owner and mode are recorded.
pub open spec fn makes(
    steps: Seq<Step<MakeNode>>,
    directory: bool,
    ctx: Context,
    dir: u64,
    file: Seq<u8>,
    mode: u32,
    secctx: Option<SecContext>,
    out: Result<Entry, FsError>,
) -> bool {
    let fs = steps[0].fs_before;
    if file.contains(0x3a) {
        steps.len() == 1 && out == Err::<Entry, FsError>(linux_error(EINVAL))
    } else if !fs.inodes@.contains_key(dir) {
        steps.len() == 1 && out == Err::<Entry, FsError>(linux_error(EBADF))
    } else {
        &&& asked(steps, 0) matches Some(Action::Open(r))
        &&& opens_id(r, fs.root_handle, fs.inodes@[dir].file_index, looking())
        &&& match answer(steps, 0) {
            Reply::Failed(e) => steps.len() == 2 && out == Err::<Entry, FsError>(host_error(e)),
            Reply::Handle(dir_handle) => {
                &&& asked(steps, 1) matches Some(Action::Open(s))
                &&& opens_child(
                    s,
                    dir_handle,
                    file,
                    OpenFlags {
                        desired_access: GENERIC_READ | GENERIC_WRITE,
                        create_disposition: FILE_CREATE,
                        create_options: if directory {
                            FILE_SYNCHRONOUS_IO_NONALERT | FILE_DIRECTORY_FILE
                        } else {
                            FILE_SYNCHRONOUS_IO_NONALERT
                        },
                    },
                )
                &&& match answer(steps, 1) {
                    Reply::Failed(e) => {
                        &&& steps.len() == 4
                        &&& asked(steps, 2) == Some(Action::Close { handle: dir_handle })
                        &&& out == Err::<Entry, FsError>(host_error(e))
                    },
                    Reply::Handle(child) => match secctx {
                        None => records_node(
                            steps,
                            2,
                            ctx,
                            dir,
                            file,
                            mode,
                            dir_handle,
                            child,
                            out,
                        ),
                        Some(x) => {
                            &&& asks_stream(
                                asked(steps, 2),
                                child,
                                stream_suffix(x.name@),
                                x.secctx@,
                            )
                            &&& match answer(steps, 2) {
                                Reply::Failed(e) => {
                                    &&& steps.len() == 6
                                    &&& asked(steps, 3) == Some(Action::Close { handle: child })
                                    &&& asked(steps, 4) == Some(
                                        Action::Close { handle: dir_handle },
                                    )
                                    &&& out == Err::<Entry, FsError>(e)
                                },
                                _ => records_node(
                                    steps,
                                    3,
                                    ctx,
                                    dir,
                                    file,
                                    mode,
                                    dir_handle,
                                    child,
                                    out,
                                ),
                            }
                        },
                    },
                    _ => false,
                }
            },
            _ => false,
        }
    }
}

/// A directory is made in the directory that the guest names, under the name that it gives. It
/// belongs to who made it, with the mode that was asked for less what is masked.
pub proof fn law_mkdir_makes_a_directory(
    steps: Seq<Step<MakeNode>>,
    ctx: Context,
    dir: u64,
    file: Vec<u8>,
    mode: u32,
    umask: u32,
    secctx: Option<SecContext>,
    out: Result<Entry, FsError>,
)
    requires
        call_ensures(mkdir, (ctx, dir, file, mode, umask, secctx), steps[0].before),
        is_run(steps, out),
    ensures
        makes(steps, true, ctx, dir, file@, mode & !umask, secctx, out),
        forall|i: int|
            0 <= i < steps.len() ==> (#[trigger] steps[i]).fs_after == steps[i].fs_before,
{
    lemma_steps(steps);
}

/// A file of any other type is made likewise, and its type is recorded with its mode.
pub proof fn law_mknod_makes_a_file(
    steps: Seq<Step<MakeNode>>,
    ctx: Context,
    dir: u64,
    file: Vec<u8>,
    mode: u32,
    umask: u32,
    secctx: Option<SecContext>,
    out: Result<Entry, FsError>,
)
    requires
        call_ensures(mknod, (ctx, dir, file, mode, umask, secctx), steps[0].before),
        is_run(steps, out),
    ensures
        makes(steps, false, ctx, dir, file@, mode & !umask, secctx, out),
        forall|i: int|
            0 <= i < steps.len() ==> (#[trigger] steps[i]).fs_after == steps[i].fs_before,
{
    lemma_steps(steps);
}

/// Removing an entry: the directory that the guest names is opened by its index, the entry with
/// the name is opened in it to be deleted, itself and not what it leads to, and is marked.
pub open spec fn removes(
    steps: Seq<Step<RemoveNode>>,
    directory: bool,
    dir: u64,
    file: Seq<u8>,
    out: Result<(), FsError>,
) -> bool {
    let fs = steps[0].fs_before;
    if !fs.inodes@.contains_key(dir) {
        steps.len() == 1 && out == Err::<(), FsError>(linux_error(EBADF))
    } else {
        &&& asked(steps, 0) matches Some(Action::Open(r))
        &&& opens_id(r, fs.root_handle, fs.inodes@[dir].file_index, looking())
        &&& match answer(steps, 0) {
            Reply::Failed(e) => steps.len() == 2 && out == Err::<(), FsError>(host_error(e)),
            Reply::Handle(dir_handle) => {
                &&& asked(steps, 1) matches Some(Action::Open(s))
                &&& opens_child(
                    s,
                    dir_handle,
                    file,
                    OpenFlags {
                        desired_access: DELETE,
                        create_disposition: FILE_OPEN,
                        create_options: if directory {
                            FILE_SYNCHRONOUS_IO_NONALERT | FILE_DIRECTORY_FILE
                                | FILE_OPEN_REPARSE_POINT
                        } else {
                            FILE_SYNCHRONOUS_IO_NONALERT | FILE_OPEN_REPARSE_POINT
                                | FILE_NON_DIRECTORY_FILE
                        },
                    },
                )
                &&& match answer(steps, 1) {
                    Reply::Failed(e) => {
                        &&& steps.len() == 4
                        &&& asked(steps, 2) == Some(Action::Close { handle: dir_handle })
                        &&& out == Err::<(), FsError>(host_error(e))
                    },
                    Reply::Handle(child) => {
                        &&& steps.len() == 6
                        &&& asked(steps, 2) == Some(Action::DeleteOnClose { handle: child })
                        &&& asked(steps, 3) == Some(Action::Close { handle: child })
                        &&& asked(steps, 4) == Some(Action::Close { handle: dir_handle })
                        &&& match answer(steps, 2) {
                            Reply::Failed(e) => out == Err::<(), FsError>(host_error(e)),
                            _ => out == Ok::<(), FsError>(()),
                        }
                    },
                    _ => false,
                }
            },
            _ => false,
        }
    }
}

/// Removing a directory removes the entry that the guest names, and only a directory.
pub proof fn law_rmdir_removes_the_directory(
    steps: Seq<Step<RemoveNode>>,
    dir: u64,
    file: Vec<u8>,
    out: Result<(), FsError>,
)
    requires
        call_ensures(rmdir, (dir, file), steps[0].before),
        is_run(steps, out),
    ensures
        removes(steps, true, dir, file@, out),
        forall|i: int|
            0 <= i < steps.len() ==> (#[trigger] steps[i]).fs_after == steps[i].fs_before,
{
    lemma_steps(steps);
}

/// Removing a file removes the entry that the guest names, and no directory.
pub proof fn law_unlink_removes_the_file(
    steps: Seq<Step<RemoveNode>>,
    dir: u64,
    file: Vec<u8>,
    out: Result<(), FsError>,
)
    requires
        call_ensures(unlink, (dir, file), steps[0].before),
        is_run(steps, out),
    ensures
        removes(steps, false, dir, file@, out),
        forall|i: int|
            0 <= i < steps.len() ==> (#[trigger] steps[i]).fs_after == steps[i].fs_before,
{
    lemma_steps(steps);
}

/// How a file is opened when it is created: what can be read and written follows from the two
/// lowest flags that the guest gives, and with writeback caching what is written can be read. A
/// file that is there is refused, emptied or opened, as the guest wants.
pub open spec fn creates(f: OpenFlags, flags: i32, writeback: bool) -> bool {
    let mode = flags & 3;
    &&& f.desired_access & GENERIC_READ != 0 <==> mode == 0 || mode == 2 || (writeback && mode == 1)
    &&& f.desired_access & GENERIC_WRITE != 0 <==> mode == 1 || mode == 2
    &&& f.desired_access & FILE_APPEND_DATA != 0 <==> flags & LINUX_O_APPEND != 0 && !writeback
    &&& f.desired_access & !(GENERIC_READ | GENERIC_WRITE | FILE_APPEND_DATA) == 0
    &&& flags & LINUX_O_EXCL != 0 ==> f.create_disposition == FILE_CREATE
    &&& flags & LINUX_O_EXCL == 0 && flags & LINUX_O_TRUNC != 0 ==> f.create_disposition
        == FILE_OVERWRITE_IF
    &&& flags & LINUX_O_EXCL == 0 && flags & LINUX_O_TRUNC == 0 ==> f.create_disposition
        == FILE_OPEN_IF
    &&& f.create_options & FILE_SYNCHRONOUS_IO_NONALERT != 0
    &&& f.create_options & FILE_OPEN_REPARSE_POINT != 0 <==> flags & LINUX_O_NOFOLLOW != 0
    &&& f.create_options & FILE_DIRECTORY_FILE != 0 <==> flags & LINUX_O_DIRECTORY != 0
    &&& f.create_options & !(FILE_SYNCHRONOUS_IO_NONALERT | FILE_OPEN_REPARSE_POINT
        | FILE_DIRECTORY_FILE) == 0
}

proof fn lemma_creates(flags: i32, writeback: bool)
    ensures
        creates(open_flags(flags | LINUX_O_CREAT, writeback), flags, writeback),
{
    law_open_flags_ask_for(flags | LINUX_O_CREAT, writeback);
    assert((flags | 0o100i32) & 3i32 == flags & 3i32 && (flags | 0o100i32) & 0o100i32 != 0 && (flags
        | 0o100i32) & 0o200i32 == flags & 0o200i32 && (flags | 0o100i32) & 0o1000i32 == flags
        & 0o1000i32 && (flags | 0o100i32) & 0o2000i32 == flags & 0o2000i32 && (flags | 0o100i32)
        & 0o200000i32 == flags & 0o200000i32 && (flags | 0o100i32) & 0o400000i32 == flags
        & 0o400000i32) by (bit_vector);
}

/// From the `i`-th action on: a created file is looked up in its directory; the guest gets it with
/// the open handle, and the handle is closed only if that fails.
pub open spec fn hands_out(
    steps: Seq<Step<Create>>,
    i: int,
    dir: u64,
    file: Seq<u8>,
    handle: u64,
    out: Result<(Entry, Option<u64>, u32), FsError>,
) -> bool {
    &&& asked(steps, i) matches Some(Action::Lookup { parent, name })
    &&& parent == dir
    &&& name@ == file
    &&& match answer(steps, i) {
        Reply::Entry(entry) => {
            &&& steps.len() == i + 2
            &&& out matches Ok((e, h, options))
            &&& e == entry
            &&& h == Some(handle)
            &&& options == match steps[i + 1].fs_before.cfg.cache_policy {
                CachePolicy::Never => OPEN_DIRECT_IO,
                CachePolicy::Always => OPEN_KEEP_CACHE,
                CachePolicy::Auto => 0,
            }
        },
        Reply::Failed(e) => gives_up(steps, i, handle, e, out),
        _ => false,
    }
}

/// After the `i`-th action failed: the handle is closed, and the guest gets the error.
pub open spec fn gives_up(
    steps: Seq<Step<Create>>,
    i: int,
    handle: u64,
    e: FsError,
    out: Result<(Entry, Option<u64>, u32), FsError>,
) -> bool {
    &&& steps.len() == i + 3
    &&& asked(steps, i + 1) == Some(Action::Close { handle })
    &&& out == Err::<(Entry, Option<u64>, u32), FsError>(e)
}

/// From the `i`-th action on: owner and mode of a created file are recorded through its handle.
/// Capabilities are removed if the file was emptied and the guest wants that.
pub open spec fn records_created(
    steps: Seq<Step<Create>>,
    i: int,
    ctx: Context,
    dir: u64,
    file: Seq<u8>,
    mode: u32,
    strips: bool,
    path: Seq<char>,
    handle: u64,
    out: Result<(Entry, Option<u64>, u32), FsError>,
) -> bool {
    &&& asks_stream(asked(steps, i), handle, OVERRIDE_STAT_STREAM@, record_text(ctx, mode))
    &&& match answer(steps, i) {
        Reply::Failed(e) => gives_up(steps, i, handle, e, out),
        _ => if strips {
            &&& asked(steps, i + 1) matches Some(Action::RemoveCapability { path: p })
            &&& p@ == path
            &&& hands_out(steps, i + 2, dir, file, handle, out)
        } else {
            hands_out(steps, i + 1, dir, file, handle, out)
        },
    }
}

/// A file is created under its name in the directory that the guest names, opened as the flags of
/// the guest ask for. It is a regular file that belongs to who made it, with the permissions that
/// were asked for less what is masked, and the guest gets the handle with which it was opened.
pub proof fn law_create_opens_what_is_asked_for(
    steps: Seq<Step<Create>>,
    ctx: Context,
    dir: u64,
    file: Vec<u8>,
    mode: u32,
    kill_priv: bool,
    flags: u32,
    umask: u32,
    secctx: Option<SecContext>,
    out: Result<(Entry, Option<u64>, u32), FsError>,
) -> (f: OpenFlags)
    requires
        call_ensures(
            create,
            (ctx, dir, file, mode, kill_priv, flags, umask, secctx),
            steps[0].before,
        ),
        is_run(steps, out),
    ensures
        ({
            let fs = steps[0].fs_before;
            let recorded = S_IFREG | (mode & !(umask & 0o777));
            let strips = flags as i32 & LINUX_O_TRUNC != 0 && kill_priv;
            if file@.contains(0x3a) {
                &&& steps.len() == 1
                &&& out == Err::<(Entry, Option<u64>, u32), FsError>(linux_error(EINVAL))
            } else if !fs.inodes@.contains_key(dir) {
                &&& steps.len() == 1
                &&& out == Err::<(Entry, Option<u64>, u32), FsError>(linux_error(EBADF))
            } else {
                &&& creates(f, flags as i32, fs.writeback)
                &&& exists|path: Seq<char>| #[trigger]
                    joins(path, fs.inodes@[dir].path@, lossy_utf8(file@)) && {
                        &&& asked(steps, 0) matches Some(Action::Open(r))
                        &&& opens_path(r, path, f)
                        &&& match answer(steps, 0) {
                            Reply::Failed(e) => {
                                &&& steps.len() == 2
                                &&& out == Err::<(Entry, Option<u64>, u32), FsError>(host_error(e))
                            },
                            Reply::Handle(handle) => match secctx {
                                None => records_created(
                                    steps,
                                    1,
                                    ctx,
                                    dir,
                                    file@,
                                    recorded,
                                    strips,
                                    path,
                                    handle,
                                    out,
                                ),
                                Some(x) => {
                                    &&& asks_stream(
                                        asked(steps, 1),
                                        handle,
                                        stream_suffix(x.name@),
                                        x.secctx@,
                                    )
                                    &&& match answer(steps, 1) {
                                        Reply::Failed(e) => gives_up(steps, 1, handle, e, out),
                                        _ => records_created(
                                            steps,
                                            2,
                                            ctx,
                                            dir,
                                            file@,
                                            recorded,
                                            strips,
                                            path,
                                            handle,
                                            out,
                                        ),
                                    }
                                },
                            },
                            _ => false,
                        }
                    }
            }
        }),
        forall|i: int|
            0 <= i < steps.len() ==> (#[trigger] steps[i]).fs_after == steps[i].fs_before,
{
    lemma_steps(steps);
    let fs = steps[0].fs_before;
    lemma_creates(flags as i32, fs.writeback);
    if !file@.contains(0x3a) && fs.inodes@.contains_key(dir) {
        let path = steps[0].after.path@;
        assert(joins(path, fs.inodes@[dir].path@, lossy_utf8(file@)));
    }
    open_flags(flags as i32 | LINUX_O_CREAT, fs.writeback)
}

} // verus!
