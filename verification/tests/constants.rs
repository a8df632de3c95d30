//! The constants of the library are those of the host and of the guest.

use passthrough_fs::{errno, linux, win};
use windows_sys::Wdk::Storage::FileSystem as wdk;
use windows_sys::Win32::Foundation as foundation;
use windows_sys::Win32::Storage::FileSystem as fs;
use windows_sys::Win32::System::Memory as memory;
use windows_sys::Win32::System::SystemServices as services;

#[test]
fn dispositions_are_those_of_windows() {
    assert_eq!(win::FILE_OPEN, wdk::FILE_OPEN);
    assert_eq!(win::FILE_CREATE, wdk::FILE_CREATE);
    assert_eq!(win::FILE_OPEN_IF, wdk::FILE_OPEN_IF);
    assert_eq!(win::FILE_OVERWRITE, wdk::FILE_OVERWRITE);
    assert_eq!(win::FILE_OVERWRITE_IF, wdk::FILE_OVERWRITE_IF);
}

#[test]
fn create_options_are_those_of_windows() {
    assert_eq!(win::FILE_DIRECTORY_FILE, wdk::FILE_DIRECTORY_FILE);
    assert_eq!(win::FILE_SYNCHRONOUS_IO_NONALERT, wdk::FILE_SYNCHRONOUS_IO_NONALERT);
    assert_eq!(win::FILE_NON_DIRECTORY_FILE, wdk::FILE_NON_DIRECTORY_FILE);
    assert_eq!(win::FILE_OPEN_BY_FILE_ID, wdk::FILE_OPEN_BY_FILE_ID);
    assert_eq!(win::FILE_OPEN_REPARSE_POINT, wdk::FILE_OPEN_REPARSE_POINT);
}

#[test]
fn access_rights_are_those_of_windows() {
    assert_eq!(win::FILE_WRITE_DATA, fs::FILE_WRITE_DATA);
    assert_eq!(win::FILE_APPEND_DATA, fs::FILE_APPEND_DATA);
    assert_eq!(win::FILE_READ_ATTRIBUTES, fs::FILE_READ_ATTRIBUTES);
    assert_eq!(win::FILE_WRITE_ATTRIBUTES, fs::FILE_WRITE_ATTRIBUTES);
    assert_eq!(win::DELETE, fs::DELETE);
    assert_eq!(win::SYNCHRONIZE, fs::SYNCHRONIZE);
    assert_eq!(win::GENERIC_READ, foundation::GENERIC_READ);
    assert_eq!(win::GENERIC_WRITE, foundation::GENERIC_WRITE);
}

#[test]
fn sharing_and_attributes_are_those_of_windows() {
    assert_eq!(win::FILE_SHARE_READ, fs::FILE_SHARE_READ);
    assert_eq!(win::FILE_SHARE_WRITE, fs::FILE_SHARE_WRITE);
    assert_eq!(win::FILE_SHARE_DELETE, fs::FILE_SHARE_DELETE);
    assert_eq!(win::FILE_ATTRIBUTE_DIRECTORY, fs::FILE_ATTRIBUTE_DIRECTORY);
    assert_eq!(win::FILE_ATTRIBUTE_NORMAL, fs::FILE_ATTRIBUTE_NORMAL);
    assert_eq!(win::FILE_ATTRIBUTE_REPARSE_POINT, fs::FILE_ATTRIBUTE_REPARSE_POINT);
}

#[test]
fn reparse_tags_are_those_of_windows() {
    assert_eq!(win::IO_REPARSE_TAG_MOUNT_POINT, services::IO_REPARSE_TAG_MOUNT_POINT);
    assert_eq!(win::IO_REPARSE_TAG_SYMLINK, services::IO_REPARSE_TAG_SYMLINK);
}

#[test]
fn mapping_flags_are_those_of_windows() {
    assert_eq!(win::PAGE_READONLY, memory::PAGE_READONLY);
    assert_eq!(win::PAGE_READWRITE, memory::PAGE_READWRITE);
    assert_eq!(win::FILE_MAP_READ, memory::FILE_MAP_READ);
    assert_eq!(win::FILE_MAP_WRITE, memory::FILE_MAP_WRITE);
    assert_eq!(win::INVALID_HANDLE_VALUE, foundation::INVALID_HANDLE_VALUE as u64);
}

#[test]
fn windows_errors_are_those_of_windows() {
    assert_eq!(errno::ERROR_FILE_NOT_FOUND as u32, foundation::ERROR_FILE_NOT_FOUND);
    assert_eq!(errno::ERROR_PATH_NOT_FOUND as u32, foundation::ERROR_PATH_NOT_FOUND);
    assert_eq!(errno::ERROR_HANDLE_EOF as u32, foundation::ERROR_HANDLE_EOF);
}

#[test]
fn errors_are_those_of_linux() {
    assert_eq!(errno::EBADF, libc::EBADF);
    assert_eq!(errno::EACCES, libc::EACCES);
    assert_eq!(errno::EEXIST, libc::EEXIST);
    assert_eq!(errno::EINVAL, libc::EINVAL);
    assert_eq!(errno::EFBIG, libc::EFBIG);
    assert_eq!(errno::ERANGE, libc::ERANGE);
    assert_eq!(errno::ENOSYS, libc::ENOSYS);
    assert_eq!(errno::ENODATA, libc::ENODATA);
}

#[test]
fn file_types_are_those_of_linux() {
    assert_eq!(linux::S_IFMT, libc::S_IFMT);
    assert_eq!(linux::S_IFDIR, libc::S_IFDIR);
    assert_eq!(linux::S_IFREG, libc::S_IFREG);
    assert_eq!(linux::S_IFLNK, libc::S_IFLNK);
    assert_eq!(linux::S_ISUID, libc::S_ISUID);
    assert_eq!(linux::S_ISGID, libc::S_ISGID);
    assert_eq!(linux::S_IXGRP, libc::S_IXGRP);
    assert_eq!(linux::DT_UNKNOWN, libc::DT_UNKNOWN as u32);
    assert_eq!(linux::DT_FIFO, libc::DT_FIFO as u32);
    assert_eq!(linux::DT_CHR, libc::DT_CHR as u32);
    assert_eq!(linux::DT_DIR, libc::DT_DIR as u32);
    assert_eq!(linux::DT_BLK, libc::DT_BLK as u32);
    assert_eq!(linux::DT_REG, libc::DT_REG as u32);
    assert_eq!(linux::DT_LNK, libc::DT_LNK as u32);
    assert_eq!(linux::DT_SOCK, libc::DT_SOCK as u32);
}

#[test]
fn flags_are_those_of_linux() {
    assert_eq!(linux::LINUX_O_CREAT, libc::O_CREAT);
    assert_eq!(linux::LINUX_O_EXCL, libc::O_EXCL);
    assert_eq!(linux::LINUX_O_TRUNC, libc::O_TRUNC);
    assert_eq!(linux::LINUX_O_APPEND, libc::O_APPEND);
    assert_eq!(linux::LINUX_O_DIRECTORY, libc::O_DIRECTORY);
    assert_eq!(linux::LINUX_O_NOFOLLOW, libc::O_NOFOLLOW);
    assert_eq!(linux::LINUX_RENAME_NOREPLACE as u32, libc::RENAME_NOREPLACE as u32);
    assert_eq!(linux::LINUX_RENAME_EXCHANGE as u32, libc::RENAME_EXCHANGE as u32);
    assert_eq!(linux::XATTR_CREATE, libc::XATTR_CREATE as u32);
    assert_eq!(linux::XATTR_REPLACE, libc::XATTR_REPLACE as u32);
    assert_eq!(linux::F_OK, libc::F_OK as u32);
    assert_eq!(linux::X_OK, libc::X_OK as u32);
    assert_eq!(linux::W_OK, libc::W_OK as u32);
    assert_eq!(linux::R_OK, libc::R_OK as u32);
    assert_eq!(linux::SEEK_SET, libc::SEEK_SET as u32);
    assert_eq!(linux::SEEK_CUR, libc::SEEK_CUR as u32);
    assert_eq!(linux::SEEK_END, libc::SEEK_END as u32);
    assert_eq!(linux::SEEK_DATA, libc::SEEK_DATA as u32);
    assert_eq!(linux::SEEK_HOLE, libc::SEEK_HOLE as u32);
    assert_eq!(linux::PATH_MAX, libc::PATH_MAX as usize);
}
