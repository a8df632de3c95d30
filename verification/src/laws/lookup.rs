//! Runs that find files and their attributes.

use crate::config::Timeout;
use crate::errno::{EBADF, FsError};
use crate::fs::{Entry, PassthroughFs, DIR_TAG};
use crate::host::{Action, Reply};
use crate::inode::{has_key, InodeAltKey, InodeData};
use crate::laws::run::{answer, asked, host_error, is_run, lemma_steps, linux_error};
use crate::linux::{ATTR_SUBMOUNT, S_IFDIR, S_IFMT};
use crate::nt::{opens_id, opens_path, OpenFlags};
use crate::operation::Step;
use crate::ops::lookup::{do_getattr, do_lookup, reopen_inode, stat_path};
use crate::ops::lookup::{DoGetattr, DoLookup, ReopenInode, StatPath};
use crate::path::{dotdot, is_plain_name, is_same, joins, may_be_same, pieces};
use crate::path::law_child_is_one_name_deeper;
use crate::stat::{stat_of, FileInfo, Metadata, Stat64};
use crate::text::lossy_utf8;
use crate::win::{FILE_ATTRIBUTE_REPARSE_POINT, FILE_OPEN, FILE_READ_ATTRIBUTES};
use crate::win::FILE_SYNCHRONOUS_IO_NONALERT;
use vstd::prelude::*;

verus! {

/// Whether a record of a file says that it is the file with this index on this volume.
pub open spec fn is_file(data: InodeData, info: FileInfo) -> bool {
    data.file_index == info.file_index && data.volume_serial == info.volume_serial
}

/// The table of files after a file was found at a path. One that was known keeps its number and
/// everything else but its path, and gets one reference more; one that was not gets the next
/// number, and has one reference. No other file changes, but that a number that was taken goes
/// to the new file.
pub open spec fn found(
    before: PassthroughFs,
    after: PassthroughFs,
    info: FileInfo,
    parent: u64,
    path: Seq<char>,
    inode: u64,
) -> bool {
    let b = before.inodes@;
    let a = after.inodes@;
    &&& a.contains_key(inode)
    &&& is_file(a[inode], info)
    &&& a[inode].inode == inode
    &&& forall|i: u64| #[trigger]
        b.contains_key(i) && i != inode ==> !is_file(b[i], info) && a.contains_key(i) && a[i]
            == b[i]
    &&& forall|i: u64| #[trigger] a.contains_key(i) && i != inode ==> b.contains_key(i)
    &&& if b.contains_key(inode) && is_file(b[inode], info) {
        &&& after.inode_alloc == before.inode_alloc
        &&& a[inode].parent_inode == b[inode].parent_inode
        &&& b[inode].refcount < u64::MAX ==> a[inode].refcount == b[inode].refcount + 1
        &&& a[inode].path@ == path || (a[inode].path == b[inode].path && may_be_same(
            b[inode].path@,
            path,
        ))
        &&& is_same(b[inode].path@, path) ==> a[inode].path == b[inode].path
    } else {
        &&& inode == before.inode_alloc.next_inode
        &&& inode < u64::MAX ==> after.inode_alloc.next_inode == inode + 1
        &&& a[inode].parent_inode == parent
        &&& a[inode].refcount == 1
        &&& a[inode].path@ == path
    }
    &&& after.dir_caches == before.dir_caches
    &&& after.cfg == before.cfg
    &&& after.root_handle == before.root_handle
    &&& after.next_handle == before.next_handle
    &&& after.writeback == before.writeback
    &&& after.announce_submounts == before.announce_submounts
}

/// What the guest is told of a file that was found.
pub open spec fn tells(
    fs: PassthroughFs,
    entry: Entry,
    inode: u64,
    attr: Stat64,
    attr_flags: u32,
) -> bool {
    &&& entry.inode == inode
    &&& entry.generation == 0
    &&& entry.attr == attr
    &&& entry.attr_flags == attr_flags
    &&& entry.attr_timeout == fs.cfg.attr_timeout
    &&& entry.entry_timeout == fs.cfg.entry_timeout
}

proof fn lemma_found(steps: Seq<Step<DoLookup>>, out: Result<Entry, FsError>)
    requires
        is_run(steps, out),
        steps.len() > 1,
        steps[0].before.phase is Start,
        steps[1].reply is FileInfo,
        steps[1].fs_before.wf(),
    ensures
        ({
            let info = steps[1].reply->FileInfo_0;
            let inode = steps[1].after.phase->Attributes_inode;
            &&& steps[1].after.phase is Attributes
            &&& found(
                steps[1].fs_before,
                steps[1].fs_after,
                info,
                steps[0].before.parent,
                steps[0].after.child_path@,
                inode,
            )
        }),
{
    lemma_steps(steps);
    steps[1].fs_before.inodes.law_files_are_told_apart();
    let info = steps[1].reply->FileInfo_0;
    let key = InodeAltKey { file_index: info.file_index, volume_serial: info.volume_serial };
    let b = steps[1].fs_before.inodes@;
    let a = steps[1].fs_after.inodes@;
    let inode = steps[1].after.phase->Attributes_inode;
    assert forall|i: u64| #[trigger] b.contains_key(i) && i != inode implies !is_file(b[i], info)
        && a.contains_key(i) && a[i] == b[i] by {
        if is_file(b[i], info) {
            assert(b[i].key() == key);
            assert(has_key(b, key));
        }
        assert(a.contains_key(i));
    }
    if has_key(b, key) {
        assert(b.contains_key(inode) && b[inode].key() == key);
    } else {
        assert(!(b.contains_key(inode) && is_file(b[inode], info))) by {
            if b.contains_key(inode) && is_file(b[inode], info) {
                assert(b[inode].key() == key);
            }
        }
    }
}

/// A lookup asks the host about one path, and that is the name put behind the path of the
/// directory that the guest asks about, whichever directory that is. The file that the host
/// finds there is the one that the table has under the number that the guest is told, it has
/// one reference more, and the attributes are those that are made of what the host says of that
/// path, under that number. A directory on another volume than the one it is in is a mount, if
/// the guest wants to know of mounts.
pub proof fn law_lookup_finds_the_file_in_its_directory(
    steps: Seq<Step<DoLookup>>,
    parent: u64,
    name: Vec<u8>,
    out: Result<Entry, FsError>,
)
    requires
        call_ensures(do_lookup, (parent, name), steps[0].before),
        is_run(steps, out),
        steps.len() > 1 ==> steps[1].fs_before.wf(),
    ensures
        ({
            let fs = steps[0].fs_before;
            if !fs.inodes@.contains_key(parent) {
                steps.len() == 1 && out == Err::<Entry, FsError>(linux_error(EBADF))
            } else {
                &&& asked(steps, 0) matches Some(Action::GetFileInfo { path: child })
                &&& joins(child@, fs.inodes@[parent].path@, lossy_utf8(name@))
                &&& match answer(steps, 0) {
                    Reply::Failed(e) => {
                        &&& steps.len() == 2
                        &&& steps[1].fs_after == steps[1].fs_before
                        &&& out == Err::<Entry, FsError>(host_error(e))
                    },
                    Reply::FileInfo(info) => {
                        &&& exists|inode: u64| #[trigger]
                            found(
                                steps[1].fs_before,
                                steps[1].fs_after,
                                info,
                                parent,
                                child@,
                                inode,
                            ) && looked_up(steps, parent, child@, info, inode, out)
                    },
                    _ => false,
                }
            }
        }),
{
    lemma_steps(steps);
    if steps[0].fs_before.inodes@.contains_key(parent) {
        if let Reply::FileInfo(info) = answer(steps, 0) {
            lemma_found(steps, out);
            let inode = steps[1].after.phase->Attributes_inode;
            let child = steps[0].after.child_path@;
            assert(found(steps[1].fs_before, steps[1].fs_after, info, parent, child, inode));
            assert(looked_up(steps, parent, child, info, inode, out));
        }
    }
}

/// What happens after the file at a path was found.
pub open spec fn looked_up(
    steps: Seq<Step<DoLookup>>,
    parent: u64,
    child: Seq<char>,
    info: FileInfo,
    number: u64,
    out: Result<Entry, FsError>,
) -> bool {
    let table = steps[1].fs_after.inodes@;
    &&& asked(steps, 1) matches Some(Action::Metadata { path })
    &&& path@ == child
    &&& match answer(steps, 1) {
        Reply::Failed(e) => steps.len() == 3 && out == Err::<Entry, FsError>(host_error(e)),
        Reply::Meta(m) => {
            &&& asked(steps, 2) matches Some(Action::Stat { meta, inode, path: p, n_link })
            &&& meta == m
            &&& inode == number
            &&& p@ == child
            &&& n_link == info.n_number_of_links
            &&& answer(steps, 2) matches Reply::Stat(attr)
            &&& out matches Ok(entry)
            &&& if attr.st_mode & S_IFMT == S_IFDIR && steps[3].fs_before.announce_submounts {
                &&& steps.len() == 5
                &&& asked(steps, 3) matches Some(Action::GetFileInfo { path: dir })
                &&& table.contains_key(parent) ==> dir@ == table[parent].path@
                &&& !table.contains_key(parent) ==> dir@
                    == steps[0].fs_before.inodes@[parent].path@
                &&& match answer(steps, 3) {
                    Reply::FileInfo(p) if p.volume_serial != info.volume_serial => tells(
                        steps[4].fs_before,
                        entry,
                        number,
                        attr,
                        ATTR_SUBMOUNT,
                    ),
                    _ => tells(steps[4].fs_before, entry, number, attr, 0),
                }
            } else {
                &&& steps.len() == 4
                &&& tells(steps[3].fs_before, entry, number, attr, 0)
            }
        },
        _ => false,
    }
}

/// A name that is looked up in two directories that are not in the same place is asked for in
/// two places.
pub proof fn law_lookups_in_two_directories_differ(
    a: Seq<Step<DoLookup>>,
    b: Seq<Step<DoLookup>>,
    dir_a: u64,
    dir_b: u64,
    name: Vec<u8>,
    out_a: Result<Entry, FsError>,
    out_b: Result<Entry, FsError>,
)
    requires
        call_ensures(do_lookup, (dir_a, name), a[0].before),
        call_ensures(do_lookup, (dir_b, name), b[0].before),
        is_run(a, out_a),
        is_run(b, out_b),
        a[0].fs_before == b[0].fs_before,
        is_plain_name(lossy_utf8(name@)),
        ({
            let fs = a[0].fs_before;
            let pa = fs.inodes@[dir_a].path@;
            let pb = fs.inodes@[dir_b].path@;
            &&& fs.inodes@.contains_key(dir_a) && fs.inodes@.contains_key(dir_b)
            &&& pieces(pa) != pieces(pb)
            &&& !pieces(pa).contains(dotdot()) && !pieces(pb).contains(dotdot())
            &&& pa.len() > 0 ==> pa.last() != ':'
            &&& pb.len() > 0 ==> pb.last() != ':'
        }),
    ensures
        asked(a, 0) matches Some(Action::GetFileInfo { path: path_a }) && (asked(
            b,
            0,
        ) matches Some(Action::GetFileInfo { path: path_b }) && path_a@ != path_b@),
{
    lemma_steps(a);
    lemma_steps(b);
    let fs = a[0].fs_before;
    let pa = fs.inodes@[dir_a].path@;
    let pb = fs.inodes@[dir_b].path@;
    let text = lossy_utf8(name@);
    let ca = a[0].after.child_path@;
    let cb = b[0].after.child_path@;
    law_child_is_one_name_deeper(ca, pa, text);
    law_child_is_one_name_deeper(cb, pb, text);
    assert(pieces(pa).push(text).drop_last() =~= pieces(pa));
    assert(pieces(pb).push(text).drop_last() =~= pieces(pb));
}

/// The attributes of a path are made of what the host says of it, of the record of that path, and
/// of its reparse tag, which is asked for exactly if the host says that it is a link with one.
pub proof fn law_attributes_are_made_of_the_record(
    steps: Seq<Step<StatPath>>,
    meta: Metadata,
    inode: u64,
    path: String,
    n_link: u32,
    out: Stat64,
)
    requires
        call_ensures(stat_path, (meta, inode, path, n_link), steps[0].before),
        is_run(steps, out),
    ensures
        ({
            let tagged = meta.is_symlink && meta.file_attributes & FILE_ATTRIBUTE_REPARSE_POINT
                != 0;
            let last = if tagged {
                1int
            } else {
                0int
            };
            &&& steps.len() == last + 2
            &&& tagged ==> (asked(steps, 0) matches Some(Action::GetReparseTag { path: p }) && p@
                == path@)
            &&& asked(steps, last) matches Some(Action::ReadOverride { path: p })
            &&& p@ == path@
            &&& answer(steps, last) matches Reply::Override(o)
            &&& if tagged {
                answer(steps, 0) matches Reply::Word(tag) && out == stat_of(
                    meta,
                    tag,
                    inode,
                    n_link,
                    o,
                )
            } else {
                out == stat_of(meta, 0, inode, n_link, o)
            }
        }),
{
    lemma_steps(steps);
}

/// A file that the guest has open is opened once more: the handle of the guest is duplicated if
/// it is one of the host, which has the same access. Otherwise the file itself is opened with the
/// access that is wanted: by its index next to the root directory, and by its path if that fails.
pub proof fn law_reopening_opens_the_same_file(
    steps: Seq<Step<ReopenInode>>,
    inode: u64,
    handle: u64,
    desired_access: u32,
    out: Result<u64, FsError>,
)
    requires
        call_ensures(reopen_inode, (inode, handle, desired_access), steps[0].before),
        is_run(steps, out),
    ensures
        ({
            let fs = steps[0].fs_before;
            let flags = OpenFlags {
                desired_access,
                create_disposition: FILE_OPEN,
                create_options: FILE_SYNCHRONOUS_IO_NONALERT,
            };
            if handle != 0 && handle & DIR_TAG == 0 {
                &&& steps.len() == 2
                &&& asked(steps, 0) == Some(Action::Duplicate { handle })
                &&& match answer(steps, 0) {
                    Reply::Handle(h) => out == Ok::<u64, FsError>(h),
                    Reply::Failed(e) => out == Err::<u64, FsError>(host_error(e)),
                    _ => false,
                }
            } else if !fs.inodes@.contains_key(inode) {
                steps.len() == 1 && out == Err::<u64, FsError>(linux_error(EBADF))
            } else {
                &&& asked(steps, 0) matches Some(Action::Open(r))
                &&& opens_id(r, fs.root_handle, fs.inodes@[inode].file_index, flags)
                &&& match answer(steps, 0) {
                    Reply::Handle(h) => steps.len() == 2 && out == Ok::<u64, FsError>(h),
                    _ => {
                        &&& steps.len() == 3
                        &&& asked(steps, 1) matches Some(Action::Open(s))
                        &&& opens_path(s, fs.inodes@[inode].path@, flags)
                        &&& match answer(steps, 1) {
                            Reply::Handle(h) => out == Ok::<u64, FsError>(h),
                            Reply::Failed(e) => out == Err::<u64, FsError>(e),
                            _ => false,
                        }
                    },
                }
            }
        }),
{
    lemma_steps(steps);
}

/// Attributes by the path of a file: from the `i`-th action on the host is asked about that path
/// and no other, and the attributes that are made of the answers, under the number that the
/// guest gave, are what the guest gets.
pub open spec fn gets_by_path(
    steps: Seq<Step<DoGetattr>>,
    i: int,
    path: Seq<char>,
    number: u64,
    out: Result<(Stat64, Timeout), FsError>,
) -> bool {
    &&& asked(steps, i) matches Some(Action::Metadata { path: p })
    &&& p@ == path
    &&& match answer(steps, i) {
        Reply::Failed(e) => {
            &&& steps.len() == i + 2
            &&& out == Err::<(Stat64, Timeout), FsError>(host_error(e))
        },
        Reply::Meta(m) => {
            &&& asked(steps, i + 1) matches Some(Action::GetFileInfo { path: q })
            &&& q@ == path
            &&& match answer(steps, i + 1) {
                Reply::Failed(e) => {
                    &&& steps.len() == i + 3
                    &&& out == Err::<(Stat64, Timeout), FsError>(host_error(e))
                },
                Reply::FileInfo(info) => {
                    &&& steps.len() == i + 4
                    &&& asked(steps, i + 2) matches Some(
                        Action::Stat { meta, inode, path: r, n_link },
                    )
                    &&& meta == m
                    &&& inode == number
                    &&& r@ == path
                    &&& n_link == info.n_number_of_links
                    &&& answer(steps, i + 2) matches Reply::Stat(attr)
                    &&& out == Ok::<(Stat64, Timeout), FsError>(
                        (attr, steps[i + 3].fs_before.cfg.attr_timeout),
                    )
                },
                _ => false,
            }
        },
        _ => false,
    }
}

/// The attributes that the guest gets are those of the file that it asks about: through its
/// handle if that is one of the host and of use, and by the path of the file otherwise.
pub proof fn law_getattr_tells_of_the_file(
    steps: Seq<Step<DoGetattr>>,
    number: u64,
    handle: Option<u64>,
    out: Result<(Stat64, Timeout), FsError>,
)
    requires
        call_ensures(do_getattr, (number, handle), steps[0].before),
        is_run(steps, out),
    ensures
        ({
            let fs = steps[0].fs_before;
            let path = fs.inodes@[number].path@;
            if !fs.inodes@.contains_key(number) {
                &&& steps.len() == 1
                &&& out == Err::<(Stat64, Timeout), FsError>(linux_error(EBADF))
            } else {
                match handle {
                    Some(h) if h != 0 && h & DIR_TAG == 0 => {
                        &&& asked(steps, 0) == Some(
                            Action::Reopen {
                                inode: number,
                                handle: h,
                                desired_access: FILE_READ_ATTRIBUTES,
                            },
                        )
                        &&& match answer(steps, 0) {
                            Reply::Handle(file) => {
                                &&& asked(steps, 1) == Some(
                                    Action::HandleMetadata { handle: file },
                                )
                                &&& match answer(steps, 1) {
                                    Reply::Meta(m) => {
                                        &&& steps.len() == 6
                                        &&& asked(steps, 2) == Some(
                                            Action::QueryInfo { handle: file },
                                        )
                                        &&& asked(steps, 3) matches Some(
                                            Action::Stat { meta, inode, path: p, n_link },
                                        )
                                        &&& meta == m
                                        &&& inode == number
                                        &&& p@ == path
                                        &&& match answer(steps, 2) {
                                            Reply::Info(i) => n_link == i.number_of_links,
                                            _ => n_link == 1,
                                        }
                                        &&& asked(steps, 4) == Some(Action::Close { handle: file })
                                        &&& answer(steps, 3) matches Reply::Stat(attr)
                                        &&& out == Ok::<(Stat64, Timeout), FsError>(
                                            (attr, steps[5].fs_before.cfg.attr_timeout),
                                        )
                                    },
                                    _ => {
                                        &&& asked(steps, 2) == Some(Action::Close { handle: file })
                                        &&& gets_by_path(steps, 3, path, number, out)
                                    },
                                }
                            },
                            _ => gets_by_path(steps, 1, path, number, out),
                        }
                    },
                    _ => gets_by_path(steps, 0, path, number, out),
                }
            }
        }),
{
    lemma_steps(steps);
}

} // verus!
