//! Attributes of files and volumes as the guest sees them.

use crate::errno::{EACCES, FsError};
use crate::linux::{F_OK, R_OK, S_IFDIR, S_IFLNK, S_IFMT, S_IFREG, W_OK, X_OK};
use crate::override_stat::OverrideStat;
use crate::time::{as_signed, div_to_zero, filetime_to_unix_nsec, filetime_to_unix_secs};
use crate::time::fits_unix_time;
use crate::time::{is_filetime, unix_nsec, unix_secs, word_to_signed};
use crate::win::{FILE_ATTRIBUTE_DIRECTORY, FILE_ATTRIBUTE_REPARSE_POINT};
use crate::win::IO_REPARSE_TAG_MOUNT_POINT;
use vstd::prelude::*;

verus! {

/// What the host says of a file.
#[derive(Clone, Copy, Debug, PartialEq, Eq, Structural)]
pub struct Metadata {
    pub file_attributes: u32,
    pub is_symlink: bool,
    pub len: u64,
    pub creation_time: u64,
    pub last_access_time: u64,
    pub last_write_time: u64,
}

impl Metadata {
    /// Whether the times and the size can be told to the guest.
    pub open spec fn in_range(self) -> bool {
        &&& is_filetime(self.creation_time)
        &&& is_filetime(self.last_access_time)
        &&& is_filetime(self.last_write_time)
        &&& as_signed(self.len) + 511 <= i64::MAX
    }

    /// Whether the times and the size can be told to the guest.
    pub fn fits(&self) -> (r: bool)
        ensures
            r == self.in_range(),
    {
        fits_unix_time(self.creation_time) && fits_unix_time(self.last_access_time)
            && fits_unix_time(self.last_write_time) && word_to_signed(self.len) <= i64::MAX - 511
    }

    /// Whether the reparse tag decides what the file is.
    pub open spec fn tag_matters(self) -> bool {
        self.is_symlink && self.file_attributes & FILE_ATTRIBUTE_REPARSE_POINT != 0
    }

    /// Whether the guest sees a symbolic link. A volume mount is a directory to it.
    pub open spec fn seen_as_link(self, reparse_tag: u32) -> bool {
        self.is_symlink && !(self.tag_matters() && reparse_tag == IO_REPARSE_TAG_MOUNT_POINT)
    }

    pub fn needs_tag(&self) -> (r: bool)
        ensures
            r == self.tag_matters(),
    {
        self.is_symlink && (self.file_attributes & FILE_ATTRIBUTE_REPARSE_POINT) != 0
    }
}

/// What the host says of an open file.
#[derive(Clone, Copy, Debug, PartialEq, Eq, Structural)]
pub struct HandleInfo {
    pub file_attributes: u32,
    pub volume_serial: u32,
    pub number_of_links: u32,
    pub file_index_high: u32,
    pub file_index_low: u32,
}

/// What identifies a file on the host, and how many names it has.
#[derive(Clone, Copy, Debug, PartialEq, Eq, Structural)]
pub struct FileInfo {
    pub file_index: u64,
    pub volume_serial: u32,
    pub n_number_of_links: u32,
}

/// The identity of an open file.
pub open spec fn file_info_of(info: HandleInfo) -> FileInfo {
    FileInfo {
        file_index: (info.file_index_high * 0x1_0000_0000 + info.file_index_low) as u64,
        volume_serial: info.volume_serial,
        n_number_of_links: info.number_of_links,
    }
}

impl HandleInfo {
    pub fn file_info(&self) -> (r: FileInfo)
        ensures
            r == file_info_of(*self),
    {
        let high: u32 = self.file_index_high;
        let low: u32 = self.file_index_low;
        assert(((high as u64) << 32) | (low as u64) == high * 0x1_0000_0000 + low)
            by (bit_vector);
        FileInfo {
            file_index: ((high as u64) << 32) | (low as u64),
            volume_serial: self.volume_serial,
            n_number_of_links: self.number_of_links,
        }
    }

    /// Whether the file is a reparse point, such as a symbolic link or a junction.
    pub open spec fn is_reparse_point(self) -> bool {
        self.file_attributes & FILE_ATTRIBUTE_REPARSE_POINT != 0
    }
}

/// Attributes of a file.
#[derive(Clone, Copy, Debug, PartialEq, Eq, Structural)]
pub struct Stat64 {
    pub st_dev: u64,
    pub st_ino: u64,
    pub st_nlink: u32,
    pub st_mode: u32,
    pub st_uid: u32,
    pub st_gid: u32,
    pub st_rdev: u64,
    pub st_size: i64,
    pub st_atime: i64,
    pub st_atime_nsec: u32,
    pub st_mtime: i64,
    pub st_mtime_nsec: u32,
    pub st_ctime: i64,
    pub st_ctime_nsec: u32,
    pub st_blksize: i64,
    pub st_blocks: i64,
}

/// The mode that the host's view of a file gives.
pub open spec fn base_mode(meta: Metadata, reparse_tag: u32) -> u32 {
    if meta.seen_as_link(reparse_tag) {
        S_IFLNK | 0o777
    } else if meta.file_attributes & FILE_ATTRIBUTE_DIRECTORY != 0 {
        S_IFDIR | 0o755
    } else {
        S_IFREG | 0o644
    }
}

/// The number of names of a file.
pub open spec fn link_count(meta: Metadata, reparse_tag: u32, n_link: u32) -> u32 {
    if meta.seen_as_link(reparse_tag) {
        1
    } else if meta.file_attributes & FILE_ATTRIBUTE_DIRECTORY != 0 {
        2
    } else {
        n_link
    }
}

/// The mode of a file for which another one was recorded: the recorded one, with the
/// file type of the host if it names none.
pub open spec fn overridden_mode(base: u32, mode: Option<u32>) -> u32 {
    match mode {
        Some(m) => if m & S_IFMT == 0 {
            (base & S_IFMT) | m
        } else {
            m
        },
        None => base,
    }
}

/// The attributes of a file: what the host says of it, with the recorded ownership and
/// mode where there are any.
pub open spec fn stat_of(
    meta: Metadata,
    reparse_tag: u32,
    ino: u64,
    n_link: u32,
    o: OverrideStat,
) -> Stat64 {
    Stat64 {
        st_dev: 0,
        st_ino: ino,
        st_nlink: link_count(meta, reparse_tag, n_link),
        st_mode: overridden_mode(base_mode(meta, reparse_tag), o.mode),
        st_uid: match o.uid {
            Some(u) => u,
            None => 0,
        },
        st_gid: match o.gid {
            Some(g) => g,
            None => 0,
        },
        st_rdev: 0,
        st_size: as_signed(meta.len) as i64,
        st_atime: unix_secs(meta.last_access_time) as i64,
        st_atime_nsec: unix_nsec(meta.last_access_time) as u32,
        st_mtime: unix_secs(meta.last_write_time) as i64,
        st_mtime_nsec: unix_nsec(meta.last_write_time) as u32,
        st_ctime: unix_secs(meta.creation_time) as i64,
        st_ctime_nsec: unix_nsec(meta.creation_time) as u32,
        st_blksize: 4096,
        st_blocks: div_to_zero(as_signed(meta.len) + 511, 512) as i64,
    }
}

/// Builds the attributes of a file from what the host says of it and from the recorded
/// ownership and mode. The reparse tag counts only where it decides what the file is.
pub fn metadata_to_stat64(
    meta: &Metadata,
    reparse_tag: u32,
    ino: u64,
    n_link: u32,
    o: &OverrideStat,
) -> (r: Stat64)
    requires
        meta.in_range(),
    ensures
        r == stat_of(*meta, reparse_tag, ino, n_link, *o),
{
    let is_directory: bool = (meta.file_attributes & FILE_ATTRIBUTE_DIRECTORY) != 0;
    let mut is_symlink: bool = meta.is_symlink;
    if meta.needs_tag() && reparse_tag == IO_REPARSE_TAG_MOUNT_POINT {
        is_symlink = false;
    }
    let (mode, nlink): (u32, u32) = if is_symlink {
        (S_IFLNK | 0o777, 1)
    } else if is_directory {
        (S_IFDIR | 0o755, 2)
    } else {
        (S_IFREG | 0o644, n_link)
    };
    let size: i64 = word_to_signed(meta.len);
    let mut st = Stat64 {
        st_dev: 0,
        st_ino: ino,
        st_nlink: nlink,
        st_mode: mode,
        st_uid: 0,
        st_gid: 0,
        st_rdev: 0,
        st_size: size,
        st_atime: filetime_to_unix_secs(meta.last_access_time),
        st_atime_nsec: filetime_to_unix_nsec(meta.last_access_time),
        st_mtime: filetime_to_unix_secs(meta.last_write_time),
        st_mtime_nsec: filetime_to_unix_nsec(meta.last_write_time),
        st_ctime: filetime_to_unix_secs(meta.creation_time),
        st_ctime_nsec: filetime_to_unix_nsec(meta.creation_time),
        st_blksize: 4096,
        st_blocks: (size + 511) / 512,
    };
    if let Some(uid) = o.uid {
        st.st_uid = uid;
    }
    if let Some(gid) = o.gid {
        st.st_gid = gid;
    }
    if let Some(mode) = o.mode {
        if mode & S_IFMT == 0 {
            st.st_mode = (st.st_mode & S_IFMT) | mode;
        } else {
            st.st_mode = mode;
        }
    }
    st
}

/// A recorded mode that names no file type changes the permissions only: the guest sees
/// the file type that it would see without it.
pub proof fn law_recorded_permissions_keep_the_type(base: u32, m: u32)
    requires
        m & S_IFMT == 0,
    ensures
        overridden_mode(base, Some(m)) & S_IFMT == base & S_IFMT,
        overridden_mode(base, Some(m)) & !S_IFMT == m & !S_IFMT,
{
    assert(m & 0o170000u32 == 0 ==> ((base & 0o170000u32) | m) & 0o170000u32 == base & 0o170000u32)
        by (bit_vector);
    assert(m & 0o170000u32 == 0 ==> ((base & 0o170000u32) | m) & !0o170000u32 == m & !0o170000u32)
        by (bit_vector);
}

/// A volume mounted in a directory is a directory to the guest, not a link.
pub proof fn law_mount_point_is_no_link(meta: Metadata)
    requires
        meta.file_attributes & FILE_ATTRIBUTE_REPARSE_POINT != 0,
        meta.file_attributes & FILE_ATTRIBUTE_DIRECTORY != 0,
    ensures
        base_mode(meta, IO_REPARSE_TAG_MOUNT_POINT) == S_IFDIR | 0o755,
{
}

/// Sizes of a volume in bytes.
#[derive(Clone, Copy, Debug, PartialEq, Eq, Structural)]
pub struct DiskSpace {
    pub free_available: u64,
    pub total: u64,
    pub total_free: u64,
}

/// Attributes of a volume.
#[derive(Clone, Copy, Debug, PartialEq, Eq, Structural)]
pub struct StatVfs64 {
    pub f_bsize: u64,
    pub f_frsize: u64,
    pub f_blocks: u64,
    pub f_bfree: u64,
    pub f_bavail: u64,
    pub f_files: u64,
    pub f_ffree: u64,
    pub f_favail: u64,
    pub f_fsid: u64,
    pub f_flag: u64,
    pub f_namemax: u64,
}

/// The attributes of a volume: blocks of four kilobytes, and no limit on files.
pub open spec fn statvfs_of(disk: DiskSpace, fsid: u64) -> StatVfs64 {
    StatVfs64 {
        f_bsize: 4096,
        f_frsize: 4096,
        f_blocks: disk.total / 4096,
        f_bfree: disk.total_free / 4096,
        f_bavail: disk.free_available / 4096,
        f_files: 0x7fff_ffff_ffff_ffff,
        f_ffree: 0x7fff_ffff_ffff_ffff,
        f_favail: 0x7fff_ffff_ffff_ffff,
        f_fsid: fsid,
        f_flag: 0,
        f_namemax: 255,
    }
}

pub fn disk_to_statvfs(disk: &DiskSpace, fsid: u64) -> (r: StatVfs64)
    ensures
        r == statvfs_of(*disk, fsid),
{
    StatVfs64 {
        f_bsize: 4096,
        f_frsize: 4096,
        f_blocks: disk.total / 4096,
        f_bfree: disk.total_free / 4096,
        f_bavail: disk.free_available / 4096,
        f_files: 0x7fff_ffff_ffff_ffff,
        f_ffree: 0x7fff_ffff_ffff_ffff,
        f_favail: 0x7fff_ffff_ffff_ffff,
        f_fsid: fsid,
        f_flag: 0,
        f_namemax: 255,
    }
}

/// The guest is told whole blocks: never more than there is, and less than a block less.
pub proof fn law_sizes_round_down(disk: DiskSpace, fsid: u64)
    ensures
        ({
            let st = statvfs_of(disk, fsid);
            &&& st.f_blocks * st.f_frsize <= disk.total < (st.f_blocks + 1) * st.f_frsize
            &&& st.f_bfree * st.f_frsize <= disk.total_free < (st.f_bfree + 1) * st.f_frsize
            &&& st.f_bavail * st.f_frsize <= disk.free_available < (st.f_bavail + 1) * st.f_frsize
        }),
{
}

/// Who asks.
#[derive(Clone, Copy, Debug, PartialEq, Eq, Structural)]
pub struct Context {
    pub uid: u32,
    pub gid: u32,
}

/// Whether one of the three classes that the caller belongs to has a permission: the
/// owner, the group, everyone.
pub open spec fn class_has(
    ctx: Context,
    st: Stat64,
    owner_bit: u32,
    group_bit: u32,
    other_bit: u32,
) -> bool {
    ||| st.st_uid == ctx.uid && st.st_mode & owner_bit != 0
    ||| st.st_gid == ctx.gid && st.st_mode & group_bit != 0
    ||| st.st_mode & other_bit != 0
}

/// Whether the caller may read. The superuser may.
pub open spec fn may_read(ctx: Context, st: Stat64) -> bool {
    ctx.uid == 0 || class_has(ctx, st, 0o400, 0o040, 0o004)
}

/// Whether the caller may write. The superuser may.
pub open spec fn may_write(ctx: Context, st: Stat64) -> bool {
    ctx.uid == 0 || class_has(ctx, st, 0o200, 0o020, 0o002)
}

/// Whether the caller may execute. The superuser may if anyone may.
pub open spec fn may_execute(ctx: Context, st: Stat64) -> bool {
    (ctx.uid == 0 && st.st_mode & 0o111 != 0) || class_has(ctx, st, 0o100, 0o010, 0o001)
}

/// Whether every access that the mask asks for is granted.
pub open spec fn access_granted(ctx: Context, st: Stat64, mask: u32) -> bool {
    &&& mask & R_OK != 0 ==> may_read(ctx, st)
    &&& mask & W_OK != 0 ==> may_write(ctx, st)
    &&& mask & X_OK != 0 ==> may_execute(ctx, st)
}

/// Checks an access against the attributes of a file.
pub fn check_access(ctx: Context, st: &Stat64, mask: u32) -> (r: Result<(), FsError>)
    ensures
        access_granted(ctx, *st, mask) ==> r == Ok::<(), FsError>(()),
        !access_granted(ctx, *st, mask) ==> r == Err::<(), FsError>(FsError::linux(EACCES)),
{
    let mode: u32 = mask & (R_OK | W_OK | X_OK);
    assert((mask & (4u32 | 2u32 | 1u32)) & 4u32 == mask & 4u32 && (mask & (4u32 | 2u32 | 1u32))
        & 2u32 == mask & 2u32 && (mask & (4u32 | 2u32 | 1u32)) & 1u32 == mask & 1u32 && (mask & (
    4u32 | 2u32 | 1u32) == 0 ==> mask & 4u32 == 0 && mask & 2u32 == 0 && mask & 1u32 == 0))
        by (bit_vector);
    if mode == F_OK {
        // The file exists, which is all that is asked for.
        return Ok(());
    }
    if (mode & R_OK) != 0 && ctx.uid != 0 && (st.st_uid != ctx.uid || st.st_mode & 0o400 == 0) && (
    st.st_gid != ctx.gid || st.st_mode & 0o040 == 0) && st.st_mode & 0o004 == 0 {
        return Err(FsError::errno(EACCES));
    }
    if (mode & W_OK) != 0 && ctx.uid != 0 && (st.st_uid != ctx.uid || st.st_mode & 0o200 == 0) && (
    st.st_gid != ctx.gid || st.st_mode & 0o020 == 0) && st.st_mode & 0o002 == 0 {
        return Err(FsError::errno(EACCES));
    }
    if (mode & X_OK) != 0 && (ctx.uid != 0 || st.st_mode & 0o111 == 0) && (st.st_uid != ctx.uid
        || st.st_mode & 0o100 == 0) && (st.st_gid != ctx.gid || st.st_mode & 0o010 == 0)
        && st.st_mode & 0o001 == 0 {
        return Err(FsError::errno(EACCES));
    }
    Ok(())
}

/// An access that is granted for a mask is granted for every part of the mask.
pub proof fn law_access_for_less(ctx: Context, st: Stat64, mask: u32, part: u32)
    requires
        access_granted(ctx, st, mask),
        part & !mask == 0,
    ensures
        access_granted(ctx, st, part),
{
    assert(part & !mask == 0 ==> (part & 4u32 != 0 ==> mask & 4u32 != 0) && (part & 2u32 != 0
        ==> mask & 2u32 != 0) && (part & 1u32 != 0 ==> mask & 1u32 != 0)) by (bit_vector);
}

/// The superuser may read and write everything.
pub proof fn law_superuser_reads_and_writes(ctx: Context, st: Stat64)
    requires
        ctx.uid == 0,
    ensures
        access_granted(ctx, st, R_OK | W_OK),
{
    assert((4u32 | 2u32) & 1u32 == 0) by (bit_vector);
}

} // verus!
