//! Runs that use streams, and that look at paths and handles.

use crate::errno::{EACCES, EBADF, EEXIST, ENODATA, ENOSYS, ERROR_FILE_NOT_FOUND};
use crate::errno::{ERROR_HANDLE_EOF, ERROR_PATH_NOT_FOUND, FsError};
use crate::fs::{PassthroughFs, DIR_TAG};
use crate::host::{Action, Reply};
use crate::laws::run::{answer, asked, host_error, is_run, lemma_step, lemma_steps, linux_error};
use crate::linux::{XATTR_CREATE, XATTR_REPLACE};
use crate::nt::{opens_path, opens_stream, OpenFlags};
use crate::operation::Step;
use crate::ops::probe::{get_file_info, get_reparse_tag, is_handle_read_only, set_file_times};
use crate::ops::probe::{GetFileInfo, GetReparseTag, IsHandleReadOnly, SetFileTimes};
use crate::ops::streams::{ads_list_streams, kill_priv, read_override_stat};
use crate::ops::streams::{remove_security_capability, ListStreams, ListStreamsPhase};
use crate::ops::streams::{write_ads_by_handle, write_override_stat, write_secctx};
use crate::ops::streams::{KillPriv, ReadOverrideStat, RemoveSecurityCapability, WriteAds};
use crate::ops::streams::{WriteOverrideStat, WriteSecctx};
use crate::ops::xattrs::{find_stream, getxattr, listxattr, removexattr, setxattr};
use crate::ops::xattrs::{Getxattr, Listxattr, Removexattr, Setxattr};
use crate::override_stat::{law_override_stat_reads_back, merged, override_of, override_text};
use crate::override_stat::{without_suid_sgid, OverrideStat};
use crate::path::wide;
use crate::stat::{file_info_of, FileInfo};
use crate::text::lossy_utf8;
use crate::win::{FILE_APPEND_DATA, FILE_ATTRIBUTE_REPARSE_POINT, FILE_OPEN};
use crate::win::{FILE_OPEN_REPARSE_POINT, FILE_OVERWRITE_IF, FILE_READ_ATTRIBUTES};
use crate::win::{FILE_SYNCHRONOUS_IO_NONALERT, FILE_WRITE_ATTRIBUTES, FILE_WRITE_DATA};
use crate::win::GENERIC_WRITE;
use crate::xattr::{attribute_of, names_buffer, sized, stream_name, XattrReply};
use vstd::prelude::*;
use vstd::utf8::encode_utf8;

verus! {

/// The record of a file is read from the stream of that file that holds it. Without one nothing is
/// known of its owner and mode.
pub proof fn law_record_is_read_from_its_stream(
    steps: Seq<Step<ReadOverrideStat>>,
    path: String,
    out: OverrideStat,
)
    requires
        call_ensures(read_override_stat, (path,), steps[0].before),
        is_run(steps, out),
    ensures
        steps.len() == 2,
        asked(steps, 0) matches Some(Action::ReadFile { path: p }) && p@ == path@
            + ":user.containers.override_stat"@,
        match answer(steps, 0) {
            Reply::Bytes(b) => out == override_of(b@),
            _ => out.uid is None && out.gid is None && out.mode is None,
        },
        forall|i: int|
            0 <= i < steps.len() ==> (#[trigger] steps[i]).fs_after == steps[i].fs_before,
{
    lemma_steps(steps);
}

/// A record is written to the stream of the file that holds it: the change that is given over what
/// the file's record said before, which is not read only where the change names everything.
pub proof fn law_record_is_written_to_its_stream(
    steps: Seq<Step<WriteOverrideStat>>,
    path: String,
    owner: Option<(u32, u32)>,
    mode: Option<u32>,
    out: Result<(), FsError>,
)
    requires
        call_ensures(write_override_stat, (path, owner, mode), steps[0].before),
        is_run(steps, out),
    ensures
        ({
            let whole = mode is Some && (owner matches Some((u, g)) && u < 0xffff_fffe && g
                < 0xffff_fffe);
            let w = if whole {
                0int
            } else {
                1int
            };
            let before = steps[1].reply->Override_0;
            &&& steps.len() == w + 2
            &&& !whole ==> (asked(steps, 0) matches Some(Action::ReadOverride { path: p }) && p@
                == path@) && answer(steps, 0) is Override
            &&& asked(steps, w) matches Some(Action::WriteFile { path: p, data })
            &&& p@ == path@ + ":user.containers.override_stat"@
            &&& whole ==> override_of(data@) == (OverrideStat {
                uid: Some(owner->Some_0.0),
                gid: Some(owner->Some_0.1),
                mode,
            })
            &&& !whole ==> override_of(data@) == merged(owner, mode, before)
            &&& whole ==> data@ == override_text(override_of(data@))
            &&& !whole ==> data@ == override_text(merged(owner, mode, before))
            &&& match answer(steps, w) {
                Reply::Failed(e) => out == Err::<(), FsError>(host_error(e)),
                _ => out == Ok::<(), FsError>(()),
            }
        }),
        forall|i: int|
            0 <= i < steps.len() ==> (#[trigger] steps[i]).fs_after == steps[i].fs_before,
{
    lemma_steps(steps);
    law_override_stat_reads_back(merged(owner, mode, OverrideStat::nothing()));
    if steps.len() > 1 && steps[1].reply is Override {
        law_override_stat_reads_back(merged(owner, mode, steps[1].reply->Override_0));
    }
}

/// Removing capabilities deletes the stream of the file that emulates them, and never fails.
pub proof fn law_capabilities_are_deleted(
    steps: Seq<Step<RemoveSecurityCapability>>,
    path: String,
)
    requires
        call_ensures(remove_security_capability, (path,), steps[0].before),
        is_run(steps, ()),
    ensures
        steps.len() == 2,
        asked(steps, 0) matches Some(Action::DeleteFile { path: p }) && p@ == wide(
            path@ + ":security.capability"@,
        ),
        forall|i: int|
            0 <= i < steps.len() ==> (#[trigger] steps[i]).fs_after == steps[i].fs_before,
{
    lemma_steps(steps);
}

/// Removing privileges removes the capabilities of the file, and records its mode without its
/// set-id bits if it has any; its owner stays.
pub proof fn law_privileges_are_removed(steps: Seq<Step<KillPriv>>, path: String)
    requires
        call_ensures(kill_priv, (path,), steps[0].before),
        is_run(steps, ()),
    ensures
        asked(steps, 0) matches Some(Action::RemoveCapability { path: p }) && p@ == path@,
        asked(steps, 1) matches Some(Action::ReadOverride { path: p }) && p@ == path@,
        answer(steps, 1) matches Reply::Override(o) && match o.mode {
            Some(m) if without_suid_sgid(m) != m => {
                &&& steps.len() == 4
                &&& asked(steps, 2) matches Some(Action::WriteOverride { path: p, owner, mode })
                &&& p@ == path@
                &&& owner is None
                &&& mode == Some(without_suid_sgid(m))
            },
            _ => steps.len() == 3,
        },
        forall|i: int|
            0 <= i < steps.len() ==> (#[trigger] steps[i]).fs_after == steps[i].fs_before,
{
    lemma_steps(steps);
}

/// The host is asked to write data to an open file, with its length as far as thirty-two bits can
/// tell.
pub open spec fn asks_data(a: Option<Action>, file: u64, text: Seq<u8>) -> bool {
    &&& a matches Some(Action::WriteHandle { handle, data, length })
    &&& handle == file
    &&& data@ == text
    &&& length == text.len() % 0x1_0000_0000
}

/// A stream of an open file is written: it is opened next to the handle of the file under its
/// suffix, the data is written to it, and it is closed.
pub proof fn law_stream_of_a_handle_is_written(
    steps: Seq<Step<WriteAds>>,
    handle: u64,
    suffix: String,
    data: Vec<u8>,
    out: Result<(), FsError>,
)
    requires
        call_ensures(write_ads_by_handle, (handle, suffix, data), steps[0].before),
        is_run(steps, out),
    ensures
        asked(steps, 0) matches Some(Action::Open(r)) && opens_stream(r, handle, suffix@),
        match answer(steps, 0) {
            Reply::Failed(e) => steps.len() == 2 && out == Err::<(), FsError>(e),
            Reply::Handle(stream) => {
                &&& steps.len() == 4
                &&& asks_data(asked(steps, 1), stream, data@)
                &&& asked(steps, 2) == Some(Action::Close { handle: stream })
                &&& match answer(steps, 1) {
                    Reply::Failed(e) => out == Err::<(), FsError>(e),
                    _ => out == Ok::<(), FsError>(()),
                }
            },
            _ => false,
        },
        forall|i: int|
            0 <= i < steps.len() ==> (#[trigger] steps[i]).fs_after == steps[i].fs_before,
{
    lemma_steps(steps);
}

/// A security context is written to a stream of the file that is named after it; for a symbolic
/// link to a stream of the link itself.
pub proof fn law_security_context_is_written(
    steps: Seq<Step<WriteSecctx>>,
    path: String,
    name: Vec<u8>,
    data: Vec<u8>,
    symlink: bool,
    out: Result<(), FsError>,
)
    requires
        call_ensures(write_secctx, (path, name, data, symlink), steps[0].before),
        is_run(steps, out),
    ensures
        ({
            let stream = path@ + (":"@ + lossy_utf8(name@));
            if symlink {
                &&& asked(steps, 0) matches Some(Action::Open(r))
                &&& opens_path(
                    r,
                    stream,
                    OpenFlags {
                        desired_access: GENERIC_WRITE,
                        create_disposition: FILE_OVERWRITE_IF,
                        create_options: FILE_SYNCHRONOUS_IO_NONALERT | FILE_OPEN_REPARSE_POINT,
                    },
                )
                &&& match answer(steps, 0) {
                    Reply::Failed(e) => {
                        steps.len() == 2 && out == Err::<(), FsError>(host_error(e))
                    },
                    Reply::Handle(h) => {
                        &&& steps.len() == 4
                        &&& asks_data(asked(steps, 1), h, data@)
                        &&& asked(steps, 2) == Some(Action::Close { handle: h })
                        &&& match answer(steps, 1) {
                            Reply::Failed(e) => out == Err::<(), FsError>(e),
                            _ => out == Ok::<(), FsError>(()),
                        }
                    },
                    _ => false,
                }
            } else {
                &&& steps.len() == 2
                &&& asked(steps, 0) matches Some(Action::WriteFile { path: p, data: d })
                &&& p@ == stream
                &&& d@ == data@
                &&& match answer(steps, 0) {
                    Reply::Failed(e) => out == Err::<(), FsError>(host_error(e)),
                    _ => out == Ok::<(), FsError>(()),
                }
            }
        }),
        forall|i: int|
            0 <= i < steps.len() ==> (#[trigger] steps[i]).fs_after == steps[i].fs_before,
{
    lemma_steps(steps);
}

/// Why an attribute is refused before the host is asked.
pub open spec fn refused(fs: PassthroughFs, inode: u64, name: Seq<u8>) -> Option<FsError> {
    if !fs.cfg.xattr {
        Some(linux_error(ENOSYS))
    } else if name == encode_utf8("user.containers.override_stat"@) || name == encode_utf8(
        "security.capability"@,
    ) {
        Some(linux_error(EACCES))
    } else if !fs.inodes@.contains_key(inode) {
        Some(linux_error(EBADF))
    } else {
        None
    }
}

/// The stream of a file that holds an attribute.
pub open spec fn attribute_stream(fs: PassthroughFs, inode: u64, name: Seq<u8>) -> Seq<char> {
    fs.inodes@[inode].path@ + (":"@ + lossy_utf8(name))
}

/// An error of a stream, as the guest is told: one that is not there is a missing attribute.
pub open spec fn stream_failure(e: FsError) -> FsError {
    match e {
        FsError::Os { code, .. } if code == ERROR_FILE_NOT_FOUND || code
            == ERROR_PATH_NOT_FOUND => linux_error(ENODATA),
        _ => host_error(e),
    }
}

/// The stream of an attribute is found unless the attribute is refused.
pub proof fn law_stream_is_found_or_refused(
    fs: &PassthroughFs,
    inode: u64,
    name: &[u8],
    r: Result<String, FsError>,
)
    requires
        call_ensures(find_stream, (fs, inode, name), r),
    ensures
        match (refused(*fs, inode, name@), r) {
            (Some(e), Err(f)) => f == e,
            (None, Ok(s)) => s@ == attribute_stream(*fs, inode, name@),
            _ => false,
        },
{
}

/// An attribute is set by writing its value to the stream of the file that the guest names: not if
/// it has to be new and is there, and not if it has to be there and is not.
pub proof fn law_attribute_is_set(
    steps: Seq<Step<Setxattr>>,
    inode: u64,
    name: Vec<u8>,
    value: Vec<u8>,
    flags: u32,
    out: Result<(), FsError>,
)
    requires
        call_ensures(setxattr, (inode, name, value, flags), steps[0].before),
        is_run(steps, out),
    ensures
        ({
            let fs = steps[0].fs_before;
            let stream = attribute_stream(fs, inode, name@);
            let new = flags & XATTR_CREATE != 0;
            let there = flags & XATTR_REPLACE != 0;
            let c = if new {
                1int
            } else {
                0int
            };
            let w = if there {
                c + 1
            } else {
                c
            };
            match refused(fs, inode, name@) {
                Some(e) => steps.len() == 1 && out == Err::<(), FsError>(e),
                None => {
                    &&& new ==> (asked(steps, 0) matches Some(Action::Exists { path }) && path@
                        == stream)
                    &&& if new && answer(steps, 0) == Reply::Flag(true) {
                        steps.len() == 2 && out == Err::<(), FsError>(linux_error(EEXIST))
                    } else {
                        &&& there ==> (asked(steps, c) matches Some(Action::Exists { path })
                            && path@ == stream)
                        &&& if there && answer(steps, c) == Reply::Flag(false) {
                            steps.len() == c + 2 && out == Err::<(), FsError>(linux_error(ENODATA))
                        } else {
                            &&& steps.len() == w + 2
                            &&& asked(steps, w) matches Some(Action::WriteFile { path, data })
                            &&& path@ == stream
                            &&& data@ == value@
                            &&& match answer(steps, w) {
                                Reply::Failed(e) => out == Err::<(), FsError>(host_error(e)),
                                _ => out == Ok::<(), FsError>(()),
                            }
                        }
                    }
                },
            }
        }),
        forall|i: int|
            0 <= i < steps.len() ==> (#[trigger] steps[i]).fs_after == steps[i].fs_before,
{
    lemma_steps(steps);
}

/// An attribute is got by reading the stream of the file that the guest names.
pub proof fn law_attribute_is_got(
    steps: Seq<Step<Getxattr>>,
    inode: u64,
    name: Vec<u8>,
    size: u32,
    out: Result<XattrReply, FsError>,
)
    requires
        call_ensures(getxattr, (inode, name, size), steps[0].before),
        is_run(steps, out),
    ensures
        ({
            let fs = steps[0].fs_before;
            match refused(fs, inode, name@) {
                Some(e) => steps.len() == 1 && out == Err::<XattrReply, FsError>(e),
                None => {
                    &&& steps.len() == 2
                    &&& asked(steps, 0) matches Some(Action::ReadFile { path })
                    &&& path@ == attribute_stream(fs, inode, name@)
                    &&& match answer(steps, 0) {
                        Reply::Bytes(data) => sized(size, data@, out),
                        Reply::Failed(e) => out == Err::<XattrReply, FsError>(stream_failure(e)),
                        _ => false,
                    }
                },
            }
        }),
        forall|i: int|
            0 <= i < steps.len() ==> (#[trigger] steps[i]).fs_after == steps[i].fs_before,
{
    lemma_steps(steps);
}

/// An attribute is removed by removing the stream of the file that the guest names.
pub proof fn law_attribute_is_removed(
    steps: Seq<Step<Removexattr>>,
    inode: u64,
    name: Vec<u8>,
    out: Result<(), FsError>,
)
    requires
        call_ensures(removexattr, (inode, name), steps[0].before),
        is_run(steps, out),
    ensures
        ({
            let fs = steps[0].fs_before;
            match refused(fs, inode, name@) {
                Some(e) => steps.len() == 1 && out == Err::<(), FsError>(e),
                None => {
                    &&& steps.len() == 2
                    &&& asked(steps, 0) matches Some(Action::RemoveFile { path })
                    &&& path@ == attribute_stream(fs, inode, name@)
                    &&& match answer(steps, 0) {
                        Reply::Failed(e) => out == Err::<(), FsError>(stream_failure(e)),
                        _ => out == Ok::<(), FsError>(()),
                    }
                },
            }
        }),
        forall|i: int|
            0 <= i < steps.len() ==> (#[trigger] steps[i]).fs_after == steps[i].fs_before,
{
    lemma_steps(steps);
}

/// The names of the attributes of a file are those of its streams, less those that belong to the
/// emulation; there are none where the host cannot list them.
pub proof fn law_attributes_are_listed(
    steps: Seq<Step<Listxattr>>,
    inode: u64,
    size: u32,
    out: Result<XattrReply, FsError>,
)
    requires
        call_ensures(listxattr, (inode, size), steps[0].before),
        is_run(steps, out),
    ensures
        ({
            let fs = steps[0].fs_before;
            if !fs.cfg.xattr {
                steps.len() == 1 && out == Err::<XattrReply, FsError>(linux_error(ENOSYS))
            } else if !fs.inodes@.contains_key(inode) {
                steps.len() == 1 && out == Err::<XattrReply, FsError>(linux_error(EBADF))
            } else {
                &&& steps.len() == 2
                &&& asked(steps, 0) matches Some(Action::ListStreams { path })
                &&& path@ == fs.inodes@[inode].path@
                &&& match answer(steps, 0) {
                    Reply::Names(names) => sized(size, names_buffer(names@), out),
                    _ => sized(size, seq![], out),
                }
            }
        }),
        forall|i: int|
            0 <= i < steps.len() ==> (#[trigger] steps[i]).fs_after == steps[i].fs_before,
{
    lemma_steps(steps);
}

/// The attributes that the host told in the first answers of a run, in their order.
pub open spec fn attributes_first(steps: Seq<Step<ListStreams>>, n: int) -> Seq<Seq<char>>
    decreases n,
{
    if n <= 0 {
        Seq::empty()
    } else {
        let before = attributes_first(steps, n - 1);
        let buffer = match steps[n - 1].reply {
            Reply::Stream { name, .. } => Some(name@),
            Reply::Units(name) => Some(name@),
            _ => None,
        };
        match buffer {
            Some(b) => match attribute_of(stream_name(b)) {
                Some(name) => before.push(name),
                None => before,
            },
            None => before,
        }
    }
}

/// Names are texts, in the same order.
pub open spec fn are_texts(names: Seq<String>, texts: Seq<Seq<char>>) -> bool {
    &&& names.len() == texts.len()
    &&& forall|i: int| 0 <= i < names.len() ==> #[trigger] names[i]@ == texts[i]
}

proof fn lemma_listing(
    steps: Seq<Step<ListStreams>>,
    path: String,
    out: Result<Vec<String>, FsError>,
    i: int,
)
    requires
        call_ensures(ads_list_streams, (path,), steps[0].before),
        is_run(steps, out),
        steps.len() > 1,
        answer(steps, 0) is Stream,
        0 < i < steps.len() - 1,
    ensures
        i == 1 ==> steps[i].before.phase is First,
        i > 1 ==> steps[i].before.phase == (ListStreamsPhase::Next {
            search: answer(steps, 0)->search,
        }),
        are_texts(steps[i].before.found@, attributes_first(steps, i)),
        i > 2 ==> answer(steps, i - 2) is Units,
    decreases i,
{
    lemma_steps(steps);
    lemma_step(steps, i);
    if i > 1 {
        lemma_listing(steps, path, out, i - 1);
        lemma_step(steps, i - 1);
        let f = steps[i - 1].before.found@;
        let g = steps[i].before.found@;
        assert(g.len() == f.len() + 1 ==> forall|k: int|
            0 <= k < f.len() ==> g[k] == g.drop_last()[k]);
        if steps[i].before.phase is Closing {
            lemma_step(steps, i + 1);
        }
        if i + 1 < steps.len() {
            lemma_step(steps, i + 1);
        }
    } else {
        assert(attributes_first(steps, 0).len() == 0);
    }
}

/// The attributes of a path are asked of its streams, one after the other, until the host has no
/// more, and the search is closed. Every one that the host told is listed, in its order, and
/// nothing else. A path without streams has none, and a failure to begin is told as it is.
pub proof fn law_streams_are_asked_for(
    steps: Seq<Step<ListStreams>>,
    path: String,
    out: Result<Vec<String>, FsError>,
)
    requires
        call_ensures(ads_list_streams, (path,), steps[0].before),
        is_run(steps, out),
    ensures
        ({
            let last = steps.len() - 1;
            &&& asked(steps, 0) matches Some(Action::FirstStream { path: p })
            &&& p@ == wide(path@)
            &&& match answer(steps, 0) {
                Reply::Failed(e) => {
                    &&& steps.len() == 2
                    &&& if e matches FsError::Os { code, .. } && code == ERROR_HANDLE_EOF {
                        out matches Ok(names) && names@.len() == 0
                    } else {
                        out == Err::<Vec<String>, FsError>(e)
                    }
                },
                Reply::Stream { search, .. } => {
                    &&& last >= 3
                    &&& forall|i: int|
                        0 < i < last - 1 ==> #[trigger] asked(steps, i) == Some(
                            Action::NextStream { search },
                        )
                    &&& forall|i: int| 0 < i < last - 2 ==> #[trigger] answer(steps, i) is Units
                    &&& answer(steps, last - 2) is Failed
                    &&& asked(steps, last - 1) == Some(Action::CloseSearch { search })
                    &&& out matches Ok(names)
                    &&& are_texts(names@, attributes_first(steps, last - 1))
                },
                _ => false,
            }
        }),
        forall|i: int|
            0 <= i < steps.len() ==> (#[trigger] steps[i]).fs_after == steps[i].fs_before,
{
    lemma_steps(steps);
    let last = steps.len() - 1;
    assert(last >= 1);
    if answer(steps, 0) is Stream {
        assert(last >= 3);
        lemma_listing(steps, path, out, last - 1);
        lemma_step(steps, last - 1);
        lemma_step(steps, last);
        assert forall|i: int| 0 < i < last - 1 implies #[trigger] asked(steps, i) == Some(
            Action::NextStream { search: answer(steps, 0)->search },
        ) by {
            lemma_listing(steps, path, out, i);
            lemma_listing(steps, path, out, i + 1);
            lemma_step(steps, i);
            lemma_step(steps, i + 1);
        }
        assert forall|i: int| 0 < i < last - 2 implies #[trigger] answer(steps, i) is Units by {
            lemma_listing(steps, path, out, i + 2);
        }
    }
    assert forall|i: int| 0 <= i < steps.len() implies (#[trigger] steps[i]).fs_after
        == steps[i].fs_before by {
        lemma_step(steps, i);
    }
}

/// What identifies a path is asked of the path itself, not of what it leads to, with a handle that
/// is closed again.
pub proof fn law_path_is_identified(
    steps: Seq<Step<GetFileInfo>>,
    path: String,
    out: Result<FileInfo, FsError>,
)
    requires
        call_ensures(get_file_info, (path,), steps[0].before),
        is_run(steps, out),
    ensures
        asked(steps, 0) matches Some(Action::Open(r)) && opens_path(
            r,
            path@,
            OpenFlags {
                desired_access: FILE_READ_ATTRIBUTES,
                create_disposition: FILE_OPEN,
                create_options: FILE_SYNCHRONOUS_IO_NONALERT | FILE_OPEN_REPARSE_POINT,
            },
        ),
        match answer(steps, 0) {
            Reply::Failed(e) => steps.len() == 2 && out == Err::<FileInfo, FsError>(e),
            Reply::Handle(handle) => {
                &&& steps.len() == 4
                &&& asked(steps, 1) == Some(Action::QueryInfo { handle })
                &&& asked(steps, 2) == Some(Action::Close { handle })
                &&& match answer(steps, 1) {
                    Reply::Info(i) => out == Ok::<FileInfo, FsError>(file_info_of(i)),
                    Reply::Failed(e) => out == Err::<FileInfo, FsError>(e),
                    _ => false,
                }
            },
            _ => false,
        },
        forall|i: int|
            0 <= i < steps.len() ==> (#[trigger] steps[i]).fs_after == steps[i].fs_before,
{
    lemma_steps(steps);
}

/// A handle is without write access if it is none of a file of the host, or if the host says that
/// it allows neither writing nor appending. Where the host says nothing it counts as writable.
pub proof fn law_handle_is_read_only(
    steps: Seq<Step<IsHandleReadOnly>>,
    handle: u64,
    out: bool,
)
    requires
        call_ensures(is_handle_read_only, (handle,), steps[0].before),
        is_run(steps, out),
    ensures
        if handle == 0 || handle & DIR_TAG != 0 {
            steps.len() == 1 && out
        } else {
            &&& steps.len() == 2
            &&& asked(steps, 0) == Some(Action::QueryAccess { handle })
            &&& match answer(steps, 0) {
                Reply::Word(access) => out <==> access & (FILE_WRITE_DATA | FILE_APPEND_DATA) == 0,
                _ => !out,
            }
        },
        forall|i: int|
            0 <= i < steps.len() ==> (#[trigger] steps[i]).fs_after == steps[i].fs_before,
{
    lemma_steps(steps);
}

/// The reparse tag of a path is what the host has for it, if it is a reparse point.
pub proof fn law_reparse_tag_is_found(
    steps: Seq<Step<GetReparseTag>>,
    path: String,
    out: u32,
)
    requires
        call_ensures(get_reparse_tag, (path,), steps[0].before),
        is_run(steps, out),
    ensures
        steps.len() == 2,
        asked(steps, 0) matches Some(Action::FindFirst { path: p }) && p@ == wide(path@),
        match answer(steps, 0) {
            Reply::Found { attributes, reserved } => if attributes & FILE_ATTRIBUTE_REPARSE_POINT
                != 0 {
                out == reserved
            } else {
                out == 0
            },
            _ => out == 0,
        },
        forall|i: int|
            0 <= i < steps.len() ==> (#[trigger] steps[i]).fs_after == steps[i].fs_before,
{
    lemma_steps(steps);
}

/// A time of the host, put together of its two words.
pub open spec fn is_in_words(words: Option<(u32, u32)>, time: Option<u64>) -> bool {
    match (words, time) {
        (Some((low, high)), Some(t)) => high * 0x1_0000_0000 + low == t,
        (None, None) => true,
        _ => false,
    }
}

/// The times of a path are set with a handle that is closed again, each where it belongs, and only
/// those that are given.
pub proof fn law_times_are_set(
    steps: Seq<Step<SetFileTimes>>,
    path: String,
    atime: Option<u64>,
    mtime: Option<u64>,
    out: Result<(), FsError>,
)
    requires
        call_ensures(set_file_times, (path, atime, mtime), steps[0].before),
        is_run(steps, out),
    ensures
        asked(steps, 0) matches Some(Action::Open(r)) && opens_path(
            r,
            path@,
            OpenFlags {
                desired_access: FILE_WRITE_ATTRIBUTES,
                create_disposition: FILE_OPEN,
                create_options: FILE_SYNCHRONOUS_IO_NONALERT,
            },
        ),
        match answer(steps, 0) {
            Reply::Failed(e) => steps.len() == 2 && out == Err::<(), FsError>(host_error(e)),
            Reply::Handle(h) => {
                &&& steps.len() == 4
                &&& asked(steps, 1) matches Some(Action::SetTimes { handle, atime: a, mtime: m })
                &&& handle == h
                &&& is_in_words(a, atime)
                &&& is_in_words(m, mtime)
                &&& asked(steps, 2) == Some(Action::Close { handle: h })
                &&& match answer(steps, 1) {
                    Reply::Failed(e) => out == Err::<(), FsError>(host_error(e)),
                    _ => out == Ok::<(), FsError>(()),
                }
            },
            _ => false,
        },
        forall|i: int|
            0 <= i < steps.len() ==> (#[trigger] steps[i]).fs_after == steps[i].fs_before,
{
    lemma_steps(steps);
}

} // verus!
