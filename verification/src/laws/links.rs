//! Runs that make links and rename files.

use crate::errno::{EBADF, EINVAL, FsError};
use crate::fs::{Entry, SecContext};
use crate::host::{Action, Reply};
use crate::laws::run::{answer, asked, host_error, is_run, lemma_steps, linux_error};
use crate::linux::{LINUX_RENAME_EXCHANGE, LINUX_RENAME_NOREPLACE, S_IFLNK};
use crate::operation::Step;
use crate::ops::links::{law_exchange_exchanges, law_exchange_rolls_back, renamed};
use crate::ops::links::{link, readlink, rename, symlink, Link, Readlink, Rename, Symlink};
use crate::path::{extends, joins, target_bytes, wide, EXCHANGE_EXTENSION};
use crate::stat::Context;
use crate::text::lossy_utf8;
use vstd::prelude::*;

verus! {

/// The host is asked to rename one path to another, and to replace what has the new name.
pub open spec fn asks_rename(a: Option<Action>, old: Seq<char>, new: Seq<char>) -> bool {
    a matches Some(Action::Rename { from, to }) && from@ == old && to@ == new
}

/// A rename, in terms of the two paths: one behind the path of the old directory, the other
/// behind that of the new one.
pub open spec fn renames(
    steps: Seq<Step<Rename>>,
    flags: u32,
    old: Seq<char>,
    new: Seq<char>,
    tmp: Seq<char>,
    out: Result<(), FsError>,
) -> bool {
    if flags as i32 & LINUX_RENAME_EXCHANGE != 0 {
        &&& extends(tmp, new, EXCHANGE_EXTENSION@)
        &&& asks_rename(asked(steps, 0), new, tmp)
        &&& match answer(steps, 0) {
            Reply::Failed(e) => steps.len() == 2 && out == Err::<(), FsError>(host_error(e)),
            _ => {
                &&& asks_rename(asked(steps, 1), old, new)
                &&& steps.len() == 4
                &&& match answer(steps, 1) {
                    Reply::Failed(e) => {
                        &&& asks_rename(asked(steps, 2), tmp, new)
                        &&& out == Err::<(), FsError>(host_error(e))
                    },
                    _ => {
                        &&& asks_rename(asked(steps, 2), tmp, old)
                        &&& match answer(steps, 2) {
                            Reply::Failed(e) => out == Err::<(), FsError>(host_error(e)),
                            _ => out == Ok::<(), FsError>(()),
                        }
                    },
                }
            },
        }
    } else {
        &&& steps.len() == 2
        &&& flags as i32 & LINUX_RENAME_NOREPLACE == 0 ==> asks_rename(asked(steps, 0), old, new)
        &&& flags as i32 & LINUX_RENAME_NOREPLACE != 0 ==> (asked(steps, 0) matches Some(
            Action::MoveNoReplace { from, to },
        ) && from@ == wide(old) && to@ == wide(new))
        &&& match answer(steps, 0) {
            Reply::Failed(e) => out == Err::<(), FsError>(host_error(e)),
            _ => out == Ok::<(), FsError>(()),
        }
    }
}

/// A rename takes a file from its name in the old directory to its name in the new one,
/// whichever directories those are. Without leave to replace, what has the new name stays. An
/// exchange parks the file with the new name beside it, and gives it the old name in the end, or
/// its own if the exchange fails half-way.
pub proof fn law_rename_goes_from_directory_to_directory(
    steps: Seq<Step<Rename>>,
    olddir: u64,
    oldname: Vec<u8>,
    newdir: u64,
    newname: Vec<u8>,
    flags: u32,
    out: Result<(), FsError>,
) -> (paths: (Seq<char>, Seq<char>, Seq<char>))
    requires
        call_ensures(rename, (olddir, oldname, newdir, newname, flags), steps[0].before),
        is_run(steps, out),
    ensures
        ({
            let table = steps[0].fs_before.inodes@;
            if !table.contains_key(olddir) || !table.contains_key(newdir) {
                steps.len() == 1 && out == Err::<(), FsError>(linux_error(EBADF))
            } else {
                &&& joins(paths.0, table[olddir].path@, lossy_utf8(oldname@))
                &&& joins(paths.1, table[newdir].path@, lossy_utf8(newname@))
                &&& renames(steps, flags, paths.0, paths.1, paths.2, out)
            }
        }),
        forall|i: int|
            0 <= i < steps.len() ==> (#[trigger] steps[i]).fs_after == steps[i].fs_before,
{
    lemma_steps(steps);
    let op = steps[0].after;
    (op.old_path@, op.new_path@, op.tmp_path@)
}

/// What the host has under each path after the first actions of a rename. The host does what it
/// says worked.
pub open spec fn files_after<F>(
    files: Map<Seq<char>, F>,
    steps: Seq<Step<Rename>>,
    i: int,
) -> Map<Seq<char>, F>
    decreases i,
{
    if i <= 0 {
        files
    } else {
        let before = files_after(files, steps, i - 1);
        match (asked(steps, i - 1), answer(steps, i - 1)) {
            (Some(Action::Rename { from, to }), Reply::Unit) => renamed(before, from@, to@),
            _ => before,
        }
    }
}

/// After a rename that worked the file is under its new path and not under its old one, and every
/// other file is where it was. After an exchange that worked each of the two files is under the
/// path of the other. After an exchange that failed half-way, if moving back worked, everything
/// is where it was.
pub proof fn law_renamed_file_is_under_its_new_path<F>(
    steps: Seq<Step<Rename>>,
    flags: u32,
    old: Seq<char>,
    new: Seq<char>,
    tmp: Seq<char>,
    out: Result<(), FsError>,
    files: Map<Seq<char>, F>,
)
    requires
        is_run(steps, out),
        renames(steps, flags, old, new, tmp, out),
        forall|i: int|
            0 <= i < steps.len() - 1 ==> #[trigger] answer(steps, i) is Unit || answer(
                steps,
                i,
            ) is Failed,
        flags as i32 & LINUX_RENAME_NOREPLACE == 0,
        files.contains_key(old),
        old != new,
        flags as i32 & LINUX_RENAME_EXCHANGE != 0 ==> files.contains_key(new)
            && !files.contains_key(tmp),
    ensures
        ({
            let after = files_after(files, steps, steps.len() - 1);
            if flags as i32 & LINUX_RENAME_EXCHANGE == 0 {
                match out {
                    Ok(_) => {
                        &&& after.contains_key(new) && after[new] == files[old]
                        &&& !after.contains_key(old)
                        &&& forall|p: Seq<char>|
                            p != old && p != new ==> (#[trigger] after.contains_key(p)
                                <==> files.contains_key(p)) && (files.contains_key(p) ==> after[p]
                                == files[p])
                    },
                    Err(_) => after == files,
                }
            } else {
                match out {
                    Ok(_) => after == files.insert(old, files[new]).insert(new, files[old]),
                    Err(_) => {
                        &&& steps.len() == 2 ==> after == files
                        &&& steps.len() == 4 && answer(steps, 1) is Failed && answer(steps, 2)
                            == Reply::Unit ==> after == files
                    },
                }
            }
        }),
{
    reveal_with_fuel(files_after, 4);
    assert(steps.len() > 1);
    assert(answer(steps, 0) is Unit || answer(steps, 0) is Failed);
    if flags as i32 & LINUX_RENAME_EXCHANGE != 0 {
        if steps.len() == 4 {
            assert(answer(steps, 1) is Unit || answer(steps, 1) is Failed);
            assert(answer(steps, 2) is Unit || answer(steps, 2) is Failed);
        }
        law_exchange_exchanges(files, old, new, tmp);
        law_exchange_rolls_back(files, new, tmp);
    }
}

/// A file gets a second name in the directory that the guest names: the path of the file itself
/// is linked, and the new name is looked up in the new directory.
pub proof fn law_link_names_the_file_once_more(
    steps: Seq<Step<Link>>,
    inode: u64,
    newparent: u64,
    newname: Vec<u8>,
    out: Result<Entry, FsError>,
)
    requires
        call_ensures(link, (inode, newparent, newname), steps[0].before),
        is_run(steps, out),
    ensures
        ({
            let table = steps[0].fs_before.inodes@;
            if !table.contains_key(inode) || !table.contains_key(newparent) {
                steps.len() == 1 && out == Err::<Entry, FsError>(linux_error(EBADF))
            } else {
                &&& asked(steps, 0) matches Some(Action::HardLink { existing, new })
                &&& existing@ == table[inode].path@
                &&& joins(new@, table[newparent].path@, lossy_utf8(newname@))
                &&& match answer(steps, 0) {
                    Reply::Failed(e) => {
                        steps.len() == 2 && out == Err::<Entry, FsError>(host_error(e))
                    },
                    _ => {
                        &&& steps.len() == 3
                        &&& asked(steps, 1) matches Some(Action::Lookup { parent, name })
                        &&& parent == newparent
                        &&& name@ == newname@
                        &&& match answer(steps, 1) {
                            Reply::Entry(entry) => out == Ok::<Entry, FsError>(entry),
                            Reply::Failed(e) => out == Err::<Entry, FsError>(e),
                            _ => false,
                        }
                    },
                }
            }
        }),
        forall|i: int|
            0 <= i < steps.len() ==> (#[trigger] steps[i]).fs_after == steps[i].fs_before,
{
    lemma_steps(steps);
}

/// The target of a link that the guest reads is that of the file that it names.
pub proof fn law_readlink_reads_the_target(
    steps: Seq<Step<Readlink>>,
    inode: u64,
    out: Result<Vec<u8>, FsError>,
)
    requires
        call_ensures(readlink, (inode,), steps[0].before),
        is_run(steps, out),
    ensures
        ({
            let table = steps[0].fs_before.inodes@;
            if !table.contains_key(inode) {
                steps.len() == 1 && out == Err::<Vec<u8>, FsError>(linux_error(EBADF))
            } else {
                &&& steps.len() == 2
                &&& asked(steps, 0) matches Some(Action::ReadLink { path })
                &&& path@ == table[inode].path@
                &&& match answer(steps, 0) {
                    Reply::Text(target) => {
                        out matches Ok(bytes) && bytes@ == target_bytes(target@)
                    },
                    Reply::Failed(e) => out == Err::<Vec<u8>, FsError>(host_error(e)),
                    _ => false,
                }
            }
        }),
        forall|i: int|
            0 <= i < steps.len() ==> (#[trigger] steps[i]).fs_after == steps[i].fs_before,
{
    lemma_steps(steps);
}

/// From the `i`-th action on: the owner of a link is recorded, with the mode of a link, and the
/// link is looked up.
pub open spec fn records_link(
    steps: Seq<Step<Symlink>>,
    i: int,
    ctx: Context,
    dir: u64,
    file: Seq<u8>,
    link_path: Seq<char>,
    out: Result<Entry, FsError>,
) -> bool {
    &&& asked(steps, i) matches Some(Action::WriteOverride { path, owner, mode })
    &&& path@ == link_path
    &&& owner == Some((ctx.uid, ctx.gid))
    &&& mode == Some(S_IFLNK | 0o777)
    &&& match answer(steps, i) {
        Reply::Failed(e) => steps.len() == i + 2 && out == Err::<Entry, FsError>(e),
        _ => {
            &&& steps.len() == i + 3
            &&& asked(steps, i + 1) matches Some(Action::Lookup { parent, name })
            &&& parent == dir
            &&& name@ == file
            &&& match answer(steps, i + 1) {
                Reply::Entry(entry) => out == Ok::<Entry, FsError>(entry),
                Reply::Failed(e) => out == Err::<Entry, FsError>(e),
                _ => false,
            }
        },
    }
}

/// From the `i`-th action on: the security context of a link is recorded if there is one, then
/// its owner.
pub open spec fn labels_link(
    steps: Seq<Step<Symlink>>,
    i: int,
    ctx: Context,
    dir: u64,
    file: Seq<u8>,
    secctx: Option<SecContext>,
    link_path: Seq<char>,
    out: Result<Entry, FsError>,
) -> bool {
    match secctx {
        None => records_link(steps, i, ctx, dir, file, link_path, out),
        Some(s) => {
            &&& asked(steps, i) matches Some(Action::WriteSecctx { path, name, data, symlink })
            &&& path@ == link_path
            &&& name@ == s.name@
            &&& data@ == s.secctx@
            &&& symlink
            &&& match answer(steps, i) {
                Reply::Failed(e) => steps.len() == i + 2 && out == Err::<Entry, FsError>(e),
                _ => records_link(steps, i + 1, ctx, dir, file, link_path, out),
            }
        },
    }
}

/// A link is made under its name in the directory that the guest names, to the target that the
/// guest gives: as one to a file, and if that fails as one to a directory. It belongs to who made
/// it. A name with a colon names no file.
pub proof fn law_symlink_leads_to_its_target(
    steps: Seq<Step<Symlink>>,
    ctx: Context,
    linkname: Vec<u8>,
    dir: u64,
    file: Vec<u8>,
    secctx: Option<SecContext>,
    out: Result<Entry, FsError>,
)
    requires
        call_ensures(symlink, (ctx, linkname, dir, file, secctx), steps[0].before),
        is_run(steps, out),
    ensures
        ({
            let table = steps[0].fs_before.inodes@;
            let to = lossy_utf8(linkname@);
            if file@.contains(0x3a) {
                steps.len() == 1 && out == Err::<Entry, FsError>(linux_error(EINVAL))
            } else if !table.contains_key(dir) {
                steps.len() == 1 && out == Err::<Entry, FsError>(linux_error(EBADF))
            } else {
                &&& asked(steps, 0) matches Some(Action::SymlinkFile { target, link })
                &&& target@ == to
                &&& joins(link@, table[dir].path@, lossy_utf8(file@))
                &&& match answer(steps, 0) {
                    Reply::Failed(_) => {
                        &&& asked(steps, 1) matches Some(
                            Action::SymlinkDir { target: target2, link: link2 },
                        )
                        &&& target2@ == to
                        &&& link2@ == link@
                        &&& match answer(steps, 1) {
                            Reply::Failed(e) => {
                                steps.len() == 3 && out == Err::<Entry, FsError>(host_error(e))
                            },
                            _ => labels_link(steps, 2, ctx, dir, file@, secctx, link@, out),
                        }
                    },
                    _ => labels_link(steps, 1, ctx, dir, file@, secctx, link@, out),
                }
            }
        }),
        forall|i: int|
            0 <= i < steps.len() ==> (#[trigger] steps[i]).fs_after == steps[i].fs_before,
{
    lemma_steps(steps);
}

} // verus!
