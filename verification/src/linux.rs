//! The numbers of the Linux and FUSE interfaces that the guest speaks.

use vstd::prelude::*;

verus! {

/// `open(2)` flags.
pub const LINUX_O_CREAT: i32 = 0o100;

pub const LINUX_O_EXCL: i32 = 0o200;

pub const LINUX_O_TRUNC: i32 = 0o1000;

pub const LINUX_O_APPEND: i32 = 0o2000;

pub const LINUX_O_DIRECTORY: i32 = 0o200000;

pub const LINUX_O_NOFOLLOW: i32 = 0o400000;

/// `renameat2(2)` flags.
pub const LINUX_RENAME_NOREPLACE: i32 = 1;

pub const LINUX_RENAME_EXCHANGE: i32 = 2;

/// `setxattr(2)` flags.
pub const XATTR_CREATE: u32 = 1;

pub const XATTR_REPLACE: u32 = 2;

/// File types in `st_mode`.
pub const S_IFMT: u32 = 0o170000;

pub const S_IFDIR: u32 = 0o040000;

pub const S_IFREG: u32 = 0o100000;

pub const S_IFLNK: u32 = 0o120000;

/// Mode bits.
pub const S_ISUID: u32 = 0o4000;

pub const S_ISGID: u32 = 0o2000;

pub const S_IXGRP: u32 = 0o0010;

/// File types in directory entries.
pub const DT_UNKNOWN: u32 = 0;

pub const DT_FIFO: u32 = 1;

pub const DT_CHR: u32 = 2;

pub const DT_DIR: u32 = 4;

pub const DT_BLK: u32 = 6;

pub const DT_REG: u32 = 8;

pub const DT_LNK: u32 = 10;

pub const DT_SOCK: u32 = 12;

/// `access(2)` modes.
pub const F_OK: u32 = 0;

pub const X_OK: u32 = 1;

pub const W_OK: u32 = 2;

pub const R_OK: u32 = 4;

/// `lseek(2)` origins.
pub const SEEK_SET: u32 = 0;

pub const SEEK_CUR: u32 = 1;

pub const SEEK_END: u32 = 2;

pub const SEEK_DATA: u32 = 3;

pub const SEEK_HOLE: u32 = 4;

/// The inode number of the root of a FUSE file system.
pub const ROOT_ID: u64 = 1;

/// FUSE: the entry is the root of another file system.
pub const ATTR_SUBMOUNT: u32 = 1;

/// FUSE session options.
pub const FS_DO_READDIRPLUS: u64 = 0x0000_2000;

pub const FS_READDIRPLUS_AUTO: u64 = 0x0000_4000;

pub const FS_WRITEBACK_CACHE: u64 = 0x0001_0000;

pub const FS_SUBMOUNTS: u64 = 0x0800_0000;

/// FUSE options of an open file.
pub const OPEN_DIRECT_IO: u32 = 0x0000_0001;

pub const OPEN_KEEP_CACHE: u32 = 0x0000_0002;

pub const OPEN_CACHE_DIR: u32 = 0x0000_0008;

/// FUSE: which attributes a `setattr` request sets.
pub const SETATTR_MODE: u32 = 0x0000_0001;

pub const SETATTR_UID: u32 = 0x0000_0002;

pub const SETATTR_GID: u32 = 0x0000_0004;

pub const SETATTR_SIZE: u32 = 0x0000_0008;

pub const SETATTR_ATIME: u32 = 0x0000_0010;

pub const SETATTR_MTIME: u32 = 0x0000_0020;

pub const SETATTR_ATIME_NOW: u32 = 0x0000_0080;

pub const SETATTR_MTIME_NOW: u32 = 0x0000_0100;

/// FUSE: the mapping is writable.
pub const SETUPMAPPING_WRITE: u64 = 0x0000_0000_0000_0001;

/// The longest path that Linux hands out.
pub const PATH_MAX: usize = 4096;

} // verus!
