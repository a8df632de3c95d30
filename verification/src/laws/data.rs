//! Runs that read and write the contents of files.

use crate::errno::{EBADF, EFBIG, EINVAL, FsError};
use crate::host::{Action, Reply};
use crate::laws::run::{answer, asked, host_error, is_run, lemma_step, lemma_steps, linux_error};
use crate::linux::{SEEK_CUR, SEEK_DATA, SEEK_END, SEEK_HOLE, SEEK_SET, SETUPMAPPING_WRITE};
use crate::operation::Step;
use crate::ops::data::{fallocate, flush, fsync, lseek, read, removemapping, setupmapping};
use crate::ops::data::{Fallocate, Lseek, ReadData, Removemapping, RemovemappingOne, Setupmapping};
use crate::ops::data::{SyncFile, UnmapPhase, WriteData};
use crate::win::{FILE_MAP_READ, FILE_MAP_WRITE, FILE_READ_ATTRIBUTES, GENERIC_READ};
use crate::win::{GENERIC_WRITE, PAGE_READONLY, PAGE_READWRITE};
use vstd::prelude::*;

verus! {

/// A file after bytes were written at an offset. A gap before them is filled with zeros.
pub open spec fn written(contents: Seq<u8>, offset: int, data: Seq<u8>) -> Seq<u8> {
    Seq::new(
        if offset + data.len() > contents.len() && data.len() > 0 {
            (offset + data.len()) as nat
        } else {
            contents.len()
        },
        |i: int|
            if offset <= i < offset + data.len() {
                data[i - offset]
            } else if i < contents.len() {
                contents[i]
            } else {
                0
            },
    )
}

/// The contents of a file after the steps of a write. The host takes as many of the bytes that
/// the guest offers as it says, and puts them where it is told.
pub open spec fn contents_after(
    contents: Seq<u8>,
    steps: Seq<Step<WriteData>>,
    offered: Seq<u8>,
    i: int,
) -> Seq<u8>
    decreases i,
{
    if i <= 0 {
        contents
    } else {
        let before = contents_after(contents, steps, offered, i - 1);
        match (asked(steps, i - 1), answer(steps, i - 1)) {
            (Some(Action::WriteTo { size, offset, .. }), Reply::Number(n)) => written(
                before,
                offset as int,
                offered.take(n as int),
            ),
            _ => before,
        }
    }
}

/// A write that worked asked the host once to write, through the file that the guest has open,
/// what the guest offers, at the offset that the guest gave. The guest is told how much the host
/// took. Afterwards, and only if that was asked for, the file loses its privileges.
pub proof fn law_write_writes_at_the_offset(
    steps: Seq<Step<WriteData>>,
    inode: u64,
    handle: u64,
    size: u32,
    offset: u64,
    kill_priv: bool,
    count: u64,
)
    requires
        call_ensures(
            crate::ops::data::write,
            (inode, handle, size, offset, kill_priv),
            steps[0].before,
        ),
        is_run(steps, Ok(count)),
    ensures
        asked(steps, 0) == Some(Action::IsReadOnly { handle }),
        answer(steps, 0) == Reply::Flag(false),
        asked(steps, 1) == Some(
            Action::Reopen { inode, handle, desired_access: GENERIC_READ | GENERIC_WRITE },
        ),
        answer(steps, 1) matches Reply::Handle(file) && asked(steps, 2) == Some(
            Action::WriteTo { handle: file, size, offset },
        ) && asked(steps, 3) == Some(Action::Close { handle: file }),
        answer(steps, 2) == Reply::Number(count),
        kill_priv ==> {
            &&& steps.len() == 6
            &&& steps[4].fs_before.inodes@.contains_key(inode)
            &&& asked(steps, 4) matches Some(Action::KillPriv { path })
            &&& path@ == steps[4].fs_before.inodes@[inode].path@
        },
        !kill_priv ==> steps.len() == 5,
{
    lemma_steps(steps);
}

/// After a write that worked the file holds the guest's bytes at the guest's offset, as many as
/// the guest is told, and every other byte is as it was.
pub proof fn law_written_bytes_are_where_they_belong(
    steps: Seq<Step<WriteData>>,
    inode: u64,
    handle: u64,
    size: u32,
    offset: u64,
    kill_priv: bool,
    count: u64,
    contents: Seq<u8>,
    offered: Seq<u8>,
)
    requires
        call_ensures(
            crate::ops::data::write,
            (inode, handle, size, offset, kill_priv),
            steps[0].before,
        ),
        is_run(steps, Ok(count)),
        offered.len() == size,
        count <= size,
    ensures
        ({
            let after = contents_after(contents, steps, offered, steps.len() - 1);
            &&& count > 0 ==> after.len() >= offset + count
            &&& after.len() >= contents.len()
            &&& forall|i: int| 0 <= i < count ==> #[trigger] after[offset + i] == offered[i]
            &&& forall|i: int|
                0 <= i < contents.len() && !(offset <= i < offset + count) ==> #[trigger] after[i]
                    == contents[i]
        }),
{
    law_write_writes_at_the_offset(steps, inode, handle, size, offset, kill_priv, count);
    let data = offered.take(count as int);
    assert(contents_after(contents, steps, offered, 0) == contents);
    assert(contents_after(contents, steps, offered, 1) == contents);
    assert(contents_after(contents, steps, offered, 2) == contents);
    assert(contents_after(contents, steps, offered, 3) == written(contents, offset as int, data));
    assert(contents_after(contents, steps, offered, 4) == written(contents, offset as int, data));
    if kill_priv {
        assert(contents_after(contents, steps, offered, 5) == written(
            contents,
            offset as int,
            data,
        ));
    }
}

/// A write that failed: through a handle without write access it is refused, and nothing was
/// asked of the file; otherwise the error is that of the host, and nothing was removed from the
/// file. Only a file that the guest does not know any more has no privileges to remove.
pub proof fn law_failed_write(
    steps: Seq<Step<WriteData>>,
    inode: u64,
    handle: u64,
    size: u32,
    offset: u64,
    kill_priv: bool,
    error: FsError,
)
    requires
        call_ensures(
            crate::ops::data::write,
            (inode, handle, size, offset, kill_priv),
            steps[0].before,
        ),
        is_run(steps, Err(error)),
    ensures
        asked(steps, 0) == Some(Action::IsReadOnly { handle }),
        forall|i: int| (#[trigger] asked(steps, i)) matches Some(a) ==> a !is KillPriv,
        answer(steps, 0) == Reply::Flag(true) ==> steps.len() == 2 && error == linux_error(EBADF),
        answer(steps, 0) != Reply::Flag(true) ==> {
            ||| answer(steps, 1) matches Reply::Failed(e) && steps.len() == 3 && error
                == host_error(e)
            ||| answer(steps, 2) matches Reply::Failed(e) && steps.len() == 5 && error == e
            ||| answer(steps, 2) is Number && kill_priv && steps.len() == 5
                && !steps[4].fs_before.inodes@.contains_key(inode) && error == linux_error(EBADF)
        },
{
    lemma_steps(steps);
}

/// A read asks the host once to copy, from the file that the guest has open, as much as the guest
/// asks for, from the offset that the guest gave; the guest is told what the host says. The file
/// is opened to be read, and closed again.
pub proof fn law_read_reads_at_the_offset(
    steps: Seq<Step<ReadData>>,
    inode: u64,
    handle: u64,
    size: u32,
    offset: u64,
    out: Result<u64, FsError>,
)
    requires
        call_ensures(read, (inode, handle, size, offset), steps[0].before),
        is_run(steps, out),
    ensures
        asked(steps, 0) == Some(Action::Reopen { inode, handle, desired_access: GENERIC_READ }),
        match answer(steps, 0) {
            Reply::Handle(file) => {
                &&& steps.len() == 4
                &&& asked(steps, 1) == Some(Action::ReadFrom { handle: file, size, offset })
                &&& asked(steps, 2) == Some(Action::Close { handle: file })
                &&& match answer(steps, 1) {
                    Reply::Number(n) => out == Ok::<u64, FsError>(n),
                    Reply::Failed(e) => out == Err::<u64, FsError>(e),
                    _ => false,
                }
            },
            Reply::Failed(e) => steps.len() == 2 && out == Err::<u64, FsError>(host_error(e)),
            _ => false,
        },
{
    lemma_steps(steps);
}

/// What a run that writes a file to the disk asks for, and what the guest is told.
pub open spec fn syncs(
    steps: Seq<Step<SyncFile>>,
    inode: u64,
    handle: u64,
    data_only: bool,
    as_is: bool,
    out: Result<(), FsError>,
) -> bool {
    &&& asked(steps, 0) == Some(Action::IsReadOnly { handle })
    &&& if answer(steps, 0) == Reply::Flag(true) {
        steps.len() == 2 && out == Ok::<(), FsError>(())
    } else {
        &&& asked(steps, 1) == Some(
            Action::Reopen { inode, handle, desired_access: GENERIC_READ | GENERIC_WRITE },
        )
        &&& match answer(steps, 1) {
            Reply::Handle(file) => {
                &&& steps.len() == 5
                &&& data_only ==> asked(steps, 2) == Some(Action::SyncData { handle: file })
                &&& !data_only ==> asked(steps, 2) == Some(Action::SyncAll { handle: file })
                &&& asked(steps, 3) == Some(Action::Close { handle: file })
                &&& match answer(steps, 2) {
                    Reply::Failed(e) => out == Err::<(), FsError>(host_error(e)),
                    _ => out == Ok::<(), FsError>(()),
                }
            },
            Reply::Failed(e) => {
                &&& steps.len() == 3
                &&& as_is ==> out == Err::<(), FsError>(e)
                &&& !as_is ==> out == Err::<(), FsError>(host_error(e))
            },
            _ => false,
        }
    }
}

/// When the guest closes a file, all of it is written to the disk; a file that cannot be written
/// through the handle has nothing to write, and that is a success.
pub proof fn law_flush_syncs_all(
    steps: Seq<Step<SyncFile>>,
    inode: u64,
    handle: u64,
    out: Result<(), FsError>,
)
    requires
        call_ensures(flush, (inode, handle), steps[0].before),
        is_run(steps, out),
    ensures
        syncs(steps, inode, handle, false, true, out),
{
    lemma_steps(steps);
}

/// When the guest wants a file to be safe, its contents are written to the disk, and its
/// attributes unless only the contents are wanted.
pub proof fn law_fsync_syncs_what_is_wanted(
    steps: Seq<Step<SyncFile>>,
    inode: u64,
    datasync: bool,
    handle: u64,
    out: Result<(), FsError>,
)
    requires
        call_ensures(fsync, (inode, datasync, handle), steps[0].before),
        is_run(steps, out),
    ensures
        syncs(steps, inode, handle, datasync, false, out),
{
    lemma_steps(steps);
}

/// Reserving room that works leaves the file at least as long as the range that was asked for
/// reaches, and never shorter than it was: its length is set only if it was shorter, and then to
/// the end of the range.
pub proof fn law_reserved_room_is_there(
    steps: Seq<Step<Fallocate>>,
    inode: u64,
    handle: u64,
    offset: u64,
    length: u64,
    out: Result<(), FsError>,
)
    requires
        call_ensures(fallocate, (inode, handle, offset, length), steps[0].before),
        is_run(steps, out),
    ensures
        asked(steps, 0) == Some(Action::IsReadOnly { handle }),
        answer(steps, 0) == Reply::Flag(true) ==> steps.len() == 2 && out == Err::<(), FsError>(
            linux_error(EBADF),
        ),
        answer(steps, 0) != Reply::Flag(true) ==> {
            &&& asked(steps, 1) == Some(
                Action::Reopen { inode, handle, desired_access: GENERIC_READ | GENERIC_WRITE },
            )
            &&& match answer(steps, 1) {
                Reply::Failed(e) => steps.len() == 3 && out == Err::<(), FsError>(host_error(e)),
                Reply::Handle(file) => if offset + length > u64::MAX {
                    &&& steps.len() == 4
                    &&& asked(steps, 2) == Some(Action::Close { handle: file })
                    &&& out == Err::<(), FsError>(linux_error(EFBIG))
                } else {
                    &&& asked(steps, 2) == Some(Action::HandleLength { handle: file })
                    &&& asked(steps, steps.len() - 2) == Some(Action::Close { handle: file })
                    &&& match answer(steps, 2) {
                        Reply::Failed(e) => {
                            steps.len() == 5 && out == Err::<(), FsError>(host_error(e))
                        },
                        Reply::Number(len) => if len >= offset + length {
                            steps.len() == 5 && out == Ok::<(), FsError>(())
                        } else {
                            &&& steps.len() == 6
                            &&& asked(steps, 3) == Some(
                                Action::SetLength {
                                    handle: file,
                                    length: (offset + length) as u64,
                                },
                            )
                            &&& match answer(steps, 3) {
                                Reply::Failed(e) => out == Err::<(), FsError>(host_error(e)),
                                _ => out == Ok::<(), FsError>(()),
                            }
                        },
                        _ => false,
                    }
                },
                _ => false,
            }
        },
{
    lemma_steps(steps);
}

/// A seek leads to the offset that is given, if it counts from the start, from where the guest
/// is, or to data, because all of a file is data. From the end it leads to the length and the
/// offset together, counted as words of two's complement, and the first hole is the end.
pub proof fn law_seek_leads_to(
    steps: Seq<Step<Lseek>>,
    inode: u64,
    handle: u64,
    offset: u64,
    whence: u32,
    out: Result<u64, FsError>,
)
    requires
        call_ensures(lseek, (inode, handle, offset, whence), steps[0].before),
        is_run(steps, out),
    ensures
        whence == SEEK_SET || whence == SEEK_CUR || whence == SEEK_DATA ==> steps.len() == 1 && out
            == Ok::<u64, FsError>(offset),
        whence != SEEK_SET && whence != SEEK_CUR && whence != SEEK_DATA && whence != SEEK_END
            && whence != SEEK_HOLE ==> steps.len() == 1 && out == Err::<u64, FsError>(
            linux_error(EINVAL),
        ),
        whence == SEEK_END || whence == SEEK_HOLE ==> {
            &&& asked(steps, 0) == Some(
                Action::Reopen { inode, handle, desired_access: FILE_READ_ATTRIBUTES },
            )
            &&& match answer(steps, 0) {
                Reply::Failed(e) => steps.len() == 2 && out == Err::<u64, FsError>(host_error(e)),
                Reply::Handle(file) => {
                    &&& steps.len() == 4
                    &&& asked(steps, 1) == Some(Action::HandleLength { handle: file })
                    &&& asked(steps, 2) == Some(Action::Close { handle: file })
                    &&& match answer(steps, 1) {
                        Reply::Failed(e) => out == Err::<u64, FsError>(host_error(e)),
                        Reply::Number(len) => {
                            &&& out matches Ok(place)
                            &&& whence == SEEK_HOLE ==> place == len
                            &&& whence == SEEK_END ==> place == len + offset || place + u64::MAX + 1
                                == len + offset
                        },
                        _ => false,
                    }
                },
                _ => false,
            }
        },
{
    lemma_steps(steps);
}

/// A mapping that worked shows the part of the file that the guest asked for, at the place in the
/// shared memory that the guest gave, inside that memory, and writable exactly if the guest wants
/// to write. A part that does not start where the host can map, or a place outside the shared
/// memory, is refused before a file is opened.
pub proof fn law_mapping_shows_the_part(
    steps: Seq<Step<Setupmapping>>,
    inode: u64,
    handle: u64,
    foffset: u64,
    len: u64,
    flags: u64,
    moffset: u64,
    base: u64,
    shm_size: u64,
    out: Result<(), FsError>,
)
    requires
        call_ensures(
            setupmapping,
            (inode, handle, foffset, len, flags, moffset, base, shm_size),
            steps[0].before,
        ),
        is_run(steps, out),
    ensures
        asked(steps, 0) == Some(Action::Granularity),
        answer(steps, 0) matches Reply::Word(unit) && {
            if foffset as int % unit as int != 0 || moffset + len > shm_size || base + moffset
                > u64::MAX {
                steps.len() == 2 && out == Err::<(), FsError>(linux_error(EINVAL))
            } else {
                &&& asked(steps, 1) == Some(
                    Action::Reopen { inode, handle, desired_access: GENERIC_READ },
                )
                &&& match answer(steps, 1) {
                    Reply::Failed(e) => {
                        steps.len() == 3 && out == Err::<(), FsError>(host_error(e))
                    },
                    Reply::Handle(file) => {
                        let writes = flags & SETUPMAPPING_WRITE != 0;
                        &&& asked(steps, 2) == Some(
                            Action::CreateMapping {
                                handle: file,
                                page_flags: if writes {
                                    PAGE_READWRITE
                                } else {
                                    PAGE_READONLY
                                },
                            },
                        )
                        &&& match answer(steps, 2) {
                            Reply::Failed(e) => {
                                &&& steps.len() == 5
                                &&& asked(steps, 3) == Some(Action::Close { handle: file })
                                &&& out == Err::<(), FsError>(e)
                            },
                            Reply::Handle(object) => {
                                &&& steps.len() == 7
                                &&& asked(steps, 3) matches Some(
                                    Action::MapView {
                                        mapping,
                                        map_flags,
                                        offset_high,
                                        offset_low,
                                        length,
                                        address,
                                    },
                                )
                                &&& mapping == object
                                &&& map_flags == if writes {
                                    FILE_MAP_READ | FILE_MAP_WRITE
                                } else {
                                    FILE_MAP_READ
                                }
                                &&& offset_high * 0x1_0000_0000 + offset_low == foffset
                                &&& length == len
                                &&& address == base + moffset
                                &&& address + length <= base + shm_size
                                &&& asked(steps, 4) == Some(Action::Close { handle: object })
                                &&& asked(steps, 5) == Some(Action::Close { handle: file })
                                &&& match answer(steps, 3) {
                                    Reply::Failed(e) => out == Err::<(), FsError>(e),
                                    _ => out == Ok::<(), FsError>(()),
                                }
                            },
                            _ => false,
                        }
                    },
                    _ => false,
                }
            }
        },
{
    lemma_steps(steps);
}

proof fn lemma_unmapping(
    steps: Seq<Step<Removemapping>>,
    requests: Vec<RemovemappingOne>,
    base: u64,
    shm_size: u64,
    out: Result<(), FsError>,
    i: int,
)
    requires
        call_ensures(removemapping, (requests, base, shm_size), steps[0].before),
        is_run(steps, out),
        0 <= i < steps.len(),
    ensures
        steps[i].before.requests == requests,
        steps[i].before.host_shm_base == base,
        steps[i].before.shm_size == shm_size,
        i == 0 ==> steps[i].before.phase == UnmapPhase::Start,
        i > 0 ==> (steps[i].before.phase matches UnmapPhase::Unmapping { index } && index == i - 1),
        i <= requests@.len(),
    decreases i,
{
    lemma_step(steps, i);
    if i > 0 {
        lemma_unmapping(steps, requests, base, shm_size, out, i - 1);
        lemma_step(steps, i - 1);
    }
}

/// Parts of the shared memory are unmapped one by one, in their order, each at its place. The
/// guest is told of a success only when all of them were unmapped; the first that lies outside
/// the shared memory, or that the host cannot unmap, ends it.
pub proof fn law_parts_are_unmapped_in_order(
    steps: Seq<Step<Removemapping>>,
    requests: Vec<RemovemappingOne>,
    base: u64,
    shm_size: u64,
    out: Result<(), FsError>,
)
    requires
        call_ensures(removemapping, (requests, base, shm_size), steps[0].before),
        is_run(steps, out),
    ensures
        steps.len() - 1 <= requests@.len(),
        forall|i: int|
            0 <= i < steps.len() - 1 ==> {
                &&& (#[trigger] asked(steps, i)) matches Some(Action::Unmap { address })
                &&& address == base + requests@[i].moffset
                &&& requests@[i].moffset + requests@[i].len <= shm_size
                &&& i + 2 < steps.len() ==> answer(steps, i) == Reply::Unit
            },
        match out {
            Ok(_) => {
                &&& steps.len() - 1 == requests@.len()
                &&& steps.len() > 1 ==> answer(steps, steps.len() - 2) == Reply::Unit
            },
            Err(e) => {
                ||| steps.len() > 1 && answer(steps, steps.len() - 2) == Reply::Failed(e)
                ||| {
                    let i = steps.len() - 1;
                    &&& i < requests@.len()
                    &&& e == linux_error(EINVAL)
                    &&& requests@[i].moffset + requests@[i].len > shm_size || base
                        + requests@[i].moffset > u64::MAX
                }
            },
        },
{
    assert forall|i: int| 0 <= i < steps.len() - 1 implies {
        &&& (#[trigger] asked(steps, i)) matches Some(Action::Unmap { address })
        &&& address == base + requests@[i].moffset
        &&& requests@[i].moffset + requests@[i].len <= shm_size
        &&& i + 2 < steps.len() ==> answer(steps, i) == Reply::Unit
    } by {
        lemma_unmapping(steps, requests, base, shm_size, out, i);
        lemma_unmapping(steps, requests, base, shm_size, out, i + 1);
        lemma_step(steps, i);
        lemma_step(steps, i + 1);
        if i + 2 < steps.len() {
            lemma_unmapping(steps, requests, base, shm_size, out, i + 2);
            lemma_step(steps, i + 2);
        }
    }
    lemma_unmapping(steps, requests, base, shm_size, out, steps.len() - 1);
    lemma_step(steps, steps.len() - 1);
}

} // verus!
