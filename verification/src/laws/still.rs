//! What operations leave as it is.

use crate::fs::PassthroughFs;
use crate::operation::{is_step, Step};
use crate::ops::attrs::Access;
use crate::ops::data::{Fallocate, Lseek, ReadData, Removemapping, Setupmapping, SyncFile};
use crate::ops::data::WriteData;
use crate::ops::lookup::{DoGetattr, DoLookup, ReopenInode, StatPath};
use vstd::prelude::*;

verus! {

/// Reading, writing, syncing, reserving room, seeking and mapping change the files of the host, and
/// leave what the file system knows of them as it is.
pub proof fn law_data_is_no_matter_of_the_table(
    read: Step<ReadData>,
    write: Step<WriteData>,
    sync: Step<SyncFile>,
    reserve: Step<Fallocate>,
    seek: Step<Lseek>,
    map: Step<Setupmapping>,
    unmap: Step<Removemapping>,
)
    requires
        is_step(read),
        is_step(write),
        is_step(sync),
        is_step(reserve),
        is_step(seek),
        is_step(map),
        is_step(unmap),
    ensures
        read.fs_after == read.fs_before,
        write.fs_after == write.fs_before,
        sync.fs_after == sync.fs_before,
        reserve.fs_after == reserve.fs_before,
        seek.fs_after == seek.fs_before,
        map.fs_after == map.fs_before,
        unmap.fs_after == unmap.fs_before,
{
}

/// Asking for attributes, reopening a file and checking an access leave everything as it is.
pub proof fn law_asking_changes_nothing(
    get: Step<DoGetattr>,
    stat: Step<StatPath>,
    reopen: Step<ReopenInode>,
    access: Step<Access>,
)
    requires
        is_step(get),
        is_step(stat),
        is_step(reopen),
        is_step(access),
    ensures
        get.fs_after == get.fs_before,
        stat.fs_after == stat.fs_before,
        reopen.fs_after == reopen.fs_before,
        access.fs_after == access.fs_before,
{
}

/// Looking a name up changes at most which files are known, and which number comes next.
pub proof fn law_lookup_changes_the_table_alone(look: Step<DoLookup>)
    requires
        is_step(look),
    ensures
        look.fs_after == (PassthroughFs {
            inodes: look.fs_after.inodes,
            inode_alloc: look.fs_after.inode_alloc,
            ..look.fs_before
        }),
{
}

} // verus!
