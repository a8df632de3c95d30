//! The numbers of the Windows interfaces that the file system speaks.

use vstd::prelude::*;

verus! {

/// `NtCreateFile` dispositions.
pub const FILE_OPEN: u32 = 1;

pub const FILE_CREATE: u32 = 2;

pub const FILE_OPEN_IF: u32 = 3;

pub const FILE_OVERWRITE: u32 = 4;

pub const FILE_OVERWRITE_IF: u32 = 5;

/// `NtCreateFile` options.
pub const FILE_DIRECTORY_FILE: u32 = 0x0000_0001;

pub const FILE_SYNCHRONOUS_IO_NONALERT: u32 = 0x0000_0020;

pub const FILE_NON_DIRECTORY_FILE: u32 = 0x0000_0040;

pub const FILE_OPEN_BY_FILE_ID: u32 = 0x0000_2000;

pub const FILE_OPEN_REPARSE_POINT: u32 = 0x0020_0000;

/// Access rights.
pub const FILE_WRITE_DATA: u32 = 0x0000_0002;

pub const FILE_APPEND_DATA: u32 = 0x0000_0004;

pub const FILE_READ_ATTRIBUTES: u32 = 0x0000_0080;

pub const FILE_WRITE_ATTRIBUTES: u32 = 0x0000_0100;

pub const DELETE: u32 = 0x0001_0000;

pub const SYNCHRONIZE: u32 = 0x0010_0000;

pub const GENERIC_WRITE: u32 = 0x4000_0000;

pub const GENERIC_READ: u32 = 0x8000_0000;

/// Sharing modes.
pub const FILE_SHARE_READ: u32 = 0x0000_0001;

pub const FILE_SHARE_WRITE: u32 = 0x0000_0002;

pub const FILE_SHARE_DELETE: u32 = 0x0000_0004;

/// File attributes.
pub const FILE_ATTRIBUTE_DIRECTORY: u32 = 0x0000_0010;

pub const FILE_ATTRIBUTE_NORMAL: u32 = 0x0000_0080;

pub const FILE_ATTRIBUTE_REPARSE_POINT: u32 = 0x0000_0400;

/// Reparse tags.
pub const IO_REPARSE_TAG_MOUNT_POINT: u32 = 0xA000_0003;

pub const IO_REPARSE_TAG_SYMLINK: u32 = 0xA000_000C;

/// Page protections and view access of file mappings.
pub const PAGE_READONLY: u32 = 0x0000_0002;

pub const PAGE_READWRITE: u32 = 0x0000_0004;

pub const FILE_MAP_WRITE: u32 = 0x0000_0002;

pub const FILE_MAP_READ: u32 = 0x0000_0004;

/// The handle value that stands for no handle.
pub const INVALID_HANDLE_VALUE: u64 = 0xFFFF_FFFF_FFFF_FFFF;

} // verus!
