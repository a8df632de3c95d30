//! The numbers that the guest and the host count on.

use crate::win::{DELETE, FILE_APPEND_DATA, FILE_ATTRIBUTE_DIRECTORY, FILE_ATTRIBUTE_NORMAL};
use crate::win::{FILE_ATTRIBUTE_REPARSE_POINT, FILE_CREATE, FILE_DIRECTORY_FILE, FILE_MAP_READ};
use crate::win::{FILE_MAP_WRITE, FILE_NON_DIRECTORY_FILE, FILE_OPEN, FILE_OPEN_BY_FILE_ID};
use crate::win::{FILE_OPEN_IF, FILE_OPEN_REPARSE_POINT, FILE_OVERWRITE, FILE_OVERWRITE_IF};
use crate::win::{FILE_READ_ATTRIBUTES, FILE_SHARE_DELETE, FILE_SHARE_READ, FILE_SHARE_WRITE};
use crate::win::{FILE_SYNCHRONOUS_IO_NONALERT, FILE_WRITE_ATTRIBUTES, FILE_WRITE_DATA};
use crate::win::{GENERIC_READ, GENERIC_WRITE, INVALID_HANDLE_VALUE, IO_REPARSE_TAG_MOUNT_POINT};
use crate::win::{IO_REPARSE_TAG_SYMLINK, PAGE_READONLY, PAGE_READWRITE, SYNCHRONIZE};
use crate::linux::{ATTR_SUBMOUNT, DT_BLK, DT_CHR, DT_DIR, DT_FIFO, DT_LNK, DT_REG, DT_SOCK};
use crate::linux::{DT_UNKNOWN, FS_DO_READDIRPLUS, FS_READDIRPLUS_AUTO, FS_SUBMOUNTS};
use crate::linux::{FS_WRITEBACK_CACHE, F_OK, LINUX_O_APPEND, LINUX_O_CREAT, LINUX_O_DIRECTORY};
use crate::linux::{LINUX_O_EXCL, LINUX_O_NOFOLLOW, LINUX_O_TRUNC, LINUX_RENAME_EXCHANGE};
use crate::linux::{LINUX_RENAME_NOREPLACE, OPEN_CACHE_DIR, OPEN_DIRECT_IO, OPEN_KEEP_CACHE};
use crate::linux::{PATH_MAX, ROOT_ID, R_OK, SEEK_CUR, SEEK_DATA, SEEK_END, SEEK_HOLE, SEEK_SET};
use crate::linux::{SETATTR_ATIME, SETATTR_ATIME_NOW, SETATTR_GID, SETATTR_MODE, SETATTR_MTIME};
use crate::linux::{SETATTR_MTIME_NOW, SETATTR_SIZE, SETATTR_UID, SETUPMAPPING_WRITE, S_IFDIR};
use crate::linux::{S_IFLNK, S_IFMT, S_IFREG, S_ISGID, S_ISUID, S_IXGRP, W_OK, XATTR_CREATE};
use crate::linux::{XATTR_REPLACE, X_OK};
use crate::errno::{EACCES, EBADF, EEXIST, EFBIG, EINVAL, ENODATA, ENOSYS, ERANGE};
use crate::errno::{ERROR_FILE_NOT_FOUND, ERROR_HANDLE_EOF, ERROR_PATH_NOT_FOUND};
use vstd::prelude::*;

verus! {

/// The host knows its dispositions, options, rights, modes, attributes and tags by these numbers.
pub proof fn law_numbers_of_the_host()
    ensures
        FILE_OPEN == 1,
        FILE_CREATE == 2,
        FILE_OPEN_IF == 3,
        FILE_OVERWRITE == 4,
        FILE_OVERWRITE_IF == 5,
        FILE_DIRECTORY_FILE == 0x0000_0001,
        FILE_SYNCHRONOUS_IO_NONALERT == 0x0000_0020,
        FILE_NON_DIRECTORY_FILE == 0x0000_0040,
        FILE_OPEN_BY_FILE_ID == 0x0000_2000,
        FILE_OPEN_REPARSE_POINT == 0x0020_0000,
        FILE_WRITE_DATA == 0x0000_0002,
        FILE_APPEND_DATA == 0x0000_0004,
        FILE_READ_ATTRIBUTES == 0x0000_0080,
        FILE_WRITE_ATTRIBUTES == 0x0000_0100,
        DELETE == 0x0001_0000,
        SYNCHRONIZE == 0x0010_0000,
        GENERIC_WRITE == 0x4000_0000,
        GENERIC_READ == 0x8000_0000,
        FILE_SHARE_READ == 0x0000_0001,
        FILE_SHARE_WRITE == 0x0000_0002,
        FILE_SHARE_DELETE == 0x0000_0004,
        FILE_ATTRIBUTE_DIRECTORY == 0x0000_0010,
        FILE_ATTRIBUTE_NORMAL == 0x0000_0080,
        FILE_ATTRIBUTE_REPARSE_POINT == 0x0000_0400,
        IO_REPARSE_TAG_MOUNT_POINT == 0xA000_0003,
        IO_REPARSE_TAG_SYMLINK == 0xA000_000C,
        PAGE_READONLY == 0x0000_0002,
        PAGE_READWRITE == 0x0000_0004,
        FILE_MAP_WRITE == 0x0000_0002,
        FILE_MAP_READ == 0x0000_0004,
        INVALID_HANDLE_VALUE == 0xFFFF_FFFF_FFFF_FFFF,
{
}

/// The guest knows its flags, modes, types and options by these numbers.
pub proof fn law_numbers_of_the_guest()
    ensures
        LINUX_O_CREAT == 0o100,
        LINUX_O_EXCL == 0o200,
        LINUX_O_TRUNC == 0o1000,
        LINUX_O_APPEND == 0o2000,
        LINUX_O_DIRECTORY == 0o200000,
        LINUX_O_NOFOLLOW == 0o400000,
        LINUX_RENAME_NOREPLACE == 1,
        LINUX_RENAME_EXCHANGE == 2,
        XATTR_CREATE == 1,
        XATTR_REPLACE == 2,
        S_IFMT == 0o170000,
        S_IFDIR == 0o040000,
        S_IFREG == 0o100000,
        S_IFLNK == 0o120000,
        S_ISUID == 0o4000,
        S_ISGID == 0o2000,
        S_IXGRP == 0o0010,
        DT_UNKNOWN == 0,
        DT_FIFO == 1,
        DT_CHR == 2,
        DT_DIR == 4,
        DT_BLK == 6,
        DT_REG == 8,
        DT_LNK == 10,
        DT_SOCK == 12,
        F_OK == 0,
        X_OK == 1,
        W_OK == 2,
        R_OK == 4,
        SEEK_SET == 0,
        SEEK_CUR == 1,
        SEEK_END == 2,
        SEEK_DATA == 3,
        SEEK_HOLE == 4,
        ROOT_ID == 1,
        ATTR_SUBMOUNT == 1,
        FS_DO_READDIRPLUS == 0x0000_2000,
        FS_READDIRPLUS_AUTO == 0x0000_4000,
        FS_WRITEBACK_CACHE == 0x0001_0000,
        FS_SUBMOUNTS == 0x0800_0000,
        OPEN_DIRECT_IO == 0x0000_0001,
        OPEN_KEEP_CACHE == 0x0000_0002,
        OPEN_CACHE_DIR == 0x0000_0008,
        SETATTR_MODE == 0x0000_0001,
        SETATTR_UID == 0x0000_0002,
        SETATTR_GID == 0x0000_0004,
        SETATTR_SIZE == 0x0000_0008,
        SETATTR_ATIME == 0x0000_0010,
        SETATTR_MTIME == 0x0000_0020,
        SETATTR_ATIME_NOW == 0x0000_0080,
        SETATTR_MTIME_NOW == 0x0000_0100,
        SETUPMAPPING_WRITE == 0x0000_0000_0000_0001,
        PATH_MAX == 4096,
{
}

/// The guest and the host know why something failed by these numbers.
pub proof fn law_numbers_of_errors()
    ensures
        EBADF == 9,
        EACCES == 13,
        EEXIST == 17,
        EINVAL == 22,
        EFBIG == 27,
        ERANGE == 34,
        ENOSYS == 38,
        ENODATA == 61,
        ERROR_FILE_NOT_FOUND == 2,
        ERROR_PATH_NOT_FOUND == 3,
        ERROR_HANDLE_EOF == 38,
{
}

} // verus!
