//! Values that go between the guest and the host.

use passthrough_fs::config::{CachePolicy, Config, Timeout};
use passthrough_fs::dir::{dir_buffer_fits, read_dir_buffer, start_listing};
use passthrough_fs::errno::{EACCES, ENODATA, ERANGE, FsError};
use passthrough_fs::linux;
use passthrough_fs::nt::{open_by_id, open_handle, open_relative, open_stream, OpenFlags};
use passthrough_fs::nt::parse_linux_open_flags;
use passthrough_fs::number::item_to_value;
use passthrough_fs::override_stat::{clear_suid_sgid, format_override_stat, is_valid_owner};
use passthrough_fs::override_stat::{merge_override_stat, parse_override_stat, OverrideStat};
use passthrough_fs::path::{ads_stream_path, ads_xattr_path, child_path, cstr_to_path};
use passthrough_fs::path::{exchange_path, link_target, path_to_nt_wide, path_to_wide};
use passthrough_fs::stat::{check_access, disk_to_statvfs, metadata_to_stat64, Context};
use passthrough_fs::stat::{DiskSpace, HandleInfo, Metadata, Stat64};
use passthrough_fs::text::from_utf16_lossy;
use passthrough_fs::time::{filetime_to_unix_nsec, filetime_to_unix_secs, fits_filetime};
use passthrough_fs::time::{fits_unix_time, unix_to_filetime};
use passthrough_fs::win;
use passthrough_fs::xattr::{list_names, names_protected, sized_reply, stream_attribute};
use passthrough_fs::xattr::XattrReply;

fn utf16(s: &str) -> Vec<u16> {
    s.encode_utf16().collect()
}

fn utf16z(s: &str) -> Vec<u16> {
    let mut v = utf16(s);
    v.push(0);
    v
}

#[test]
fn wide_paths_end_in_a_zero() {
    assert_eq!(path_to_wide("C:\\a"), vec![0x43, 0x3a, 0x5c, 0x61, 0]);
    assert_eq!(path_to_wide(""), vec![0]);
    assert_eq!(path_to_wide("\u{1f600}"), vec![0xd83d, 0xde00, 0]);
    assert_eq!(path_to_wide("C:\\b\u{e9}\u{1f600}\u{4e2d}"), utf16z("C:\\b\u{e9}\u{1f600}\u{4e2d}"));
}

#[test]
fn nt_paths_start_with_the_nt_prefix() {
    assert_eq!(path_to_nt_wide("C:\\a"), utf16z("\\??\\C:\\a"));
    assert_eq!(path_to_nt_wide("\\\\?\\C:\\a"), utf16z("\\??\\C:\\a"));
    assert_eq!(path_to_nt_wide("\\\\?"), utf16z("\\??\\\\\\?"));
    assert_eq!(path_to_nt_wide(""), utf16z("\\??\\"));
}

#[test]
fn stream_paths_are_put_together() {
    assert_eq!(ads_stream_path("C:\\f", ":s"), "C:\\f:s");
    assert_eq!(ads_xattr_path("C:\\f", b"user.x"), "C:\\f:user.x");
    assert_eq!(ads_xattr_path("C:\\f", b"a\xff"), "C:\\f:a\u{fffd}");
}

#[test]
fn names_are_decoded_with_replacements() {
    assert_eq!(cstr_to_path(b"abc"), "abc");
    assert_eq!(cstr_to_path(b"a\xffb"), "a\u{fffd}b");
    assert_eq!(cstr_to_path("\u{e9}".as_bytes()), "\u{e9}");
}

#[test]
fn children_stand_behind_their_directory() {
    let child = child_path("dir", b"name");
    assert!(child == "dir/name" || child == "dir\\name");
    let nested = child_path("dir/", b"name");
    assert_eq!(nested, "dir/name");
}

#[test]
fn dot_names_stand_behind_their_directory() {
    for name in [".", ".."] {
        let child = child_path("dir", name.as_bytes());
        assert!(child == format!("dir/{}", name) || child == format!("dir\\{}", name));
        assert_eq!(child_path("dir/", name.as_bytes()), format!("dir/{}", name));
    }
}

#[test]
fn names_with_separators_stand_behind_their_directory() {
    for name in ["a\\b", "a\\..\\b", "a/b", ".\\a", "a\\"] {
        let child = child_path("dir", name.as_bytes());
        assert!(child == format!("dir/{}", name) || child == format!("dir\\{}", name));
        assert_eq!(child_path("dir/", name.as_bytes()), format!("dir/{}", name));
        assert_eq!(child_path("", name.as_bytes()), name);
    }
    let child = child_path("dir", b"");
    assert!(child == "dir/" || child == "dir\\");
    let child = child_path("C:\\dir", b"a\\b");
    assert!(child == "C:\\dir\\a\\b" || child == "C:\\dir/a\\b");
}

#[test]
fn names_with_a_root_take_the_place_of_their_directory() {
    assert_eq!(child_path("dir", b"/a"), "/a");
    let child = child_path("C:\\dir", b"/a");
    assert!(child == "C:/a" || child == "/a");
    let child = child_path("dir", b"\\a");
    assert!(child == "\\a" || child == "dir/\\a");
    let child = child_path("dir", b"C:a");
    assert!(child == "C:a" || child == "dir/C:a");
}

#[test]
fn names_behind_a_drive_need_no_separator() {
    let child = child_path("C:", b".");
    assert!(child == "C:." || child == "C:/.");
}

#[test]
fn children_of_literal_paths_stand_at_their_end() {
    let child = child_path("\\\\?\\C:\\dir", b"a\\b");
    assert!(child == "\\\\?\\C:\\dir\\a\\b" || child == "\\\\?\\C:\\dir/a\\b");
    let child = child_path("\\\\?\\C:\\dir", b"name");
    assert!(child == "\\\\?\\C:\\dir\\name" || child == "\\\\?\\C:\\dir/name");
    let child = child_path("\\\\?\\C:\\", b"name");
    assert!(child == "\\\\?\\C:\\name" || child == "\\\\?\\C:\\/name");
    let child = child_path("\\\\?\\C:\\dir", b".");
    assert!(child == "\\\\?\\C:\\dir" || child == "\\\\?\\C:\\dir/.");
    let child = child_path("\\\\?\\C:\\dir", b"..");
    assert!(child == "\\\\?\\C:\\" || child == "\\\\?\\C:\\dir/..");
}

#[test]
fn children_of_shares_stand_behind_them() {
    let child = child_path("\\\\server\\share", b"name");
    assert!(child == "\\\\server\\share\\name" || child == "\\\\server\\share/name");
    assert_eq!(child_path("//server/share/", b"name"), "//server/share/name");
}

#[test]
fn exchanged_files_on_shares_and_literal_paths_get_an_extension() {
    assert_eq!(exchange_path("//server/share/a/f.txt"), "//server/share/a/f..__exchange_tmp__");
    let parked = exchange_path("\\\\?\\C:\\a\\f.txt");
    assert_eq!(parked, "\\\\?\\C:\\a\\f..__exchange_tmp__");
    let parked = exchange_path("\\\\?\\UNC\\server\\share\\f.txt");
    assert_eq!(parked, "\\\\?\\UNC\\server\\share\\f..__exchange_tmp__");
}

#[test]
fn exchanged_files_get_an_extension() {
    let parked = exchange_path("dir/file.txt");
    assert_eq!(parked, "dir/file..__exchange_tmp__");
}

#[test]
fn exchanged_files_keep_the_dots_before_their_extension() {
    assert_eq!(exchange_path("dir/a..b"), "dir/a...__exchange_tmp__");
    assert_eq!(exchange_path("dir/.b"), "dir/.b..__exchange_tmp__");
    assert_eq!(exchange_path("dir/...b"), "dir/....__exchange_tmp__");
    assert_eq!(exchange_path("a.d/../b"), "a.d/../b..__exchange_tmp__");
}

#[test]
fn link_targets_have_slashes() {
    assert_eq!(link_target("a\\b\\c"), b"a/b/c".to_vec());
    assert_eq!(link_target("a/b"), b"a/b".to_vec());
    let long = "\\".repeat(5000);
    assert_eq!(link_target(&long), vec![b'/'; 4096]);
    let cut = "\u{e9}".repeat(3000);
    assert_eq!(link_target(&cut).len(), 4096);
}

#[test]
fn utf16_is_decoded_with_replacements() {
    assert_eq!(from_utf16_lossy(&utf16("a\u{1f600}b")), "a\u{1f600}b");
    assert_eq!(from_utf16_lossy(&[0xd83d]), "\u{fffd}");
    assert_eq!(from_utf16_lossy(&[0xde00, 0x61]), "\u{fffd}a");
    assert_eq!(from_utf16_lossy(&[0xd83d, 0x61]), "\u{fffd}a");
    assert_eq!(from_utf16_lossy(&[0xd83d, 0xd83d, 0xde00]), "\u{fffd}\u{1f600}");
}

#[test]
fn numbers_are_read_in_their_radix() {
    assert_eq!(item_to_value(b"1000", 10), Some(1000));
    assert_eq!(item_to_value(b"0755", 8), Some(0o755));
    assert_eq!(item_to_value(b"+7", 10), Some(7));
    assert_eq!(item_to_value(b"4294967295", 10), Some(u32::MAX));
    assert_eq!(item_to_value(b"4294967296", 10), None);
    assert_eq!(item_to_value(b"", 10), None);
    assert_eq!(item_to_value(b"+", 10), None);
    assert_eq!(item_to_value(b"-1", 10), None);
    assert_eq!(item_to_value(b"9", 8), None);
    assert_eq!(item_to_value(b"\xff", 10), None);
    assert_eq!(item_to_value(b"x", 10), None);
}

#[test]
fn records_are_parsed_item_by_item() {
    let o = parse_override_stat(b"1000:100:0100644");
    assert_eq!(o, OverrideStat { uid: Some(1000), gid: Some(100), mode: Some(0o100644) });
    let o = parse_override_stat(b"x:100");
    assert_eq!(o, OverrideStat { uid: None, gid: Some(100), mode: None });
    let o = parse_override_stat(b"");
    assert_eq!(o, OverrideStat { uid: None, gid: None, mode: None });
    let o = parse_override_stat(b"1:2:07:rest");
    assert_eq!(o, OverrideStat { uid: Some(1), gid: Some(2), mode: Some(7) });
    let o = parse_override_stat(b"::");
    assert_eq!(o, OverrideStat { uid: None, gid: None, mode: None });
}

#[test]
fn records_read_back() {
    let full = OverrideStat { uid: Some(0), gid: Some(4294967295), mode: Some(0o104755) };
    assert_eq!(format_override_stat(&full), b"0:4294967295:0104755".to_vec());
    assert_eq!(parse_override_stat(&format_override_stat(&full)), full);
    let none = OverrideStat { uid: None, gid: None, mode: None };
    assert_eq!(format_override_stat(&none), b"x:x:x".to_vec());
    assert_eq!(parse_override_stat(&format_override_stat(&none)), none);
    let zero = OverrideStat { uid: Some(7), gid: None, mode: Some(0) };
    assert_eq!(format_override_stat(&zero), b"7:x:00".to_vec());
    assert_eq!(parse_override_stat(&format_override_stat(&zero)), zero);
}

#[test]
fn owners_below_the_limit_are_valid() {
    assert!(is_valid_owner(Some((0, 0))));
    assert!(is_valid_owner(Some((0xffff_fffd, 0xffff_fffd))));
    assert!(!is_valid_owner(Some((0xffff_fffe, 0))));
    assert!(!is_valid_owner(Some((0, 0xffff_ffff))));
    assert!(!is_valid_owner(None));
}

#[test]
fn changes_are_merged_into_the_record() {
    let before = OverrideStat { uid: Some(1), gid: Some(2), mode: Some(0o644) };
    assert_eq!(merge_override_stat(None, None, before), before);
    assert_eq!(
        merge_override_stat(Some((5, u32::MAX)), None, before),
        OverrideStat { uid: Some(5), gid: Some(2), mode: Some(0o644) }
    );
    assert_eq!(
        merge_override_stat(Some((5, 6)), Some(0o600), before),
        OverrideStat { uid: Some(5), gid: Some(6), mode: Some(0o600) }
    );
}

#[test]
fn set_id_bits_are_cleared() {
    assert_eq!(clear_suid_sgid(0o104755), 0o100755);
    assert_eq!(clear_suid_sgid(0o102755), 0o100755);
    assert_eq!(clear_suid_sgid(0o102745), 0o102745);
    assert_eq!(clear_suid_sgid(0o106711), 0o100711);
    assert_eq!(clear_suid_sgid(0o644), 0o644);
    assert_eq!(clear_suid_sgid(clear_suid_sgid(0o7777)), clear_suid_sgid(0o7777));
}

#[test]
fn host_times_become_guest_times() {
    assert_eq!(filetime_to_unix_secs(116_444_736_000_000_000), 0);
    assert_eq!(filetime_to_unix_nsec(116_444_736_000_000_000), 0);
    assert_eq!(filetime_to_unix_secs(116_444_736_012_345_678), 1);
    assert_eq!(filetime_to_unix_nsec(116_444_736_012_345_678), 234_567_800);
    assert_eq!(filetime_to_unix_secs(0), -11_644_473_600);
    assert_eq!(filetime_to_unix_secs(116_444_735_999_999_999), 0);
    assert_eq!(filetime_to_unix_nsec(116_444_735_999_999_999), 999_999_900);
    assert!(fits_unix_time(0));
    assert!(!fits_unix_time(0x8000_0000_0000_0000));
}

#[test]
fn guest_times_become_host_times() {
    assert_eq!(unix_to_filetime(0, 0), 116_444_736_000_000_000);
    assert_eq!(unix_to_filetime(1, 234_567_899), 116_444_736_012_345_678);
    assert_eq!(unix_to_filetime(-11_644_473_600, 0), 0);
    assert_eq!(unix_to_filetime(-11_644_473_601, 0), u64::MAX - 9_999_999);
    assert!(fits_filetime(0, 0));
    assert!(!fits_filetime(i64::MAX, 0));
    assert!(!fits_filetime(i64::MIN, 0));
}

#[test]
fn times_round_trip() {
    let ft = 132_537_600_123_456_700;
    let secs = filetime_to_unix_secs(ft);
    let nsec = filetime_to_unix_nsec(ft);
    assert_eq!(unix_to_filetime(secs, nsec), ft);
}

#[test]
fn open_flags_follow_the_access_mode() {
    let sync = win::FILE_SYNCHRONOUS_IO_NONALERT;
    let open = |flags| parse_linux_open_flags(flags, false);
    assert_eq!(
        open(0),
        OpenFlags { desired_access: win::GENERIC_READ, create_disposition: 1, create_options: sync }
    );
    assert_eq!(open(1).desired_access, win::GENERIC_WRITE);
    assert_eq!(open(2).desired_access, win::GENERIC_READ | win::GENERIC_WRITE);
    assert_eq!(open(3).desired_access, 0);
}

#[test]
fn open_flags_choose_the_disposition() {
    let disposition = |flags| parse_linux_open_flags(flags, false).create_disposition;
    assert_eq!(disposition(linux::LINUX_O_CREAT | linux::LINUX_O_EXCL), win::FILE_CREATE);
    assert_eq!(disposition(linux::LINUX_O_CREAT | linux::LINUX_O_TRUNC), win::FILE_OVERWRITE_IF);
    assert_eq!(disposition(linux::LINUX_O_CREAT), win::FILE_OPEN_IF);
    assert_eq!(disposition(linux::LINUX_O_TRUNC), win::FILE_OVERWRITE);
    assert_eq!(disposition(0), win::FILE_OPEN);
    let truncated = parse_linux_open_flags(linux::LINUX_O_TRUNC, false);
    assert_eq!(truncated.desired_access, win::GENERIC_READ | win::GENERIC_WRITE);
}

#[test]
fn open_flags_carry_the_rest() {
    let f = parse_linux_open_flags(1 | linux::LINUX_O_APPEND, false);
    assert_eq!(f.desired_access, win::GENERIC_WRITE | win::FILE_APPEND_DATA);
    let f = parse_linux_open_flags(linux::LINUX_O_NOFOLLOW | linux::LINUX_O_DIRECTORY, false);
    assert_eq!(
        f.create_options,
        win::FILE_SYNCHRONOUS_IO_NONALERT | win::FILE_OPEN_REPARSE_POINT | win::FILE_DIRECTORY_FILE
    );
}

#[test]
fn writeback_reads_and_never_appends() {
    let f = parse_linux_open_flags(1 | linux::LINUX_O_APPEND, true);
    assert_eq!(f.desired_access, win::GENERIC_READ | win::GENERIC_WRITE);
    let f = parse_linux_open_flags(0, true);
    assert_eq!(f.desired_access, win::GENERIC_READ);
}

#[test]
fn requests_name_paths_ids_children_and_streams() {
    let flags = OpenFlags { desired_access: 1, create_disposition: 2, create_options: 4 };
    let r = open_handle("C:\\a", &flags);
    assert_eq!(r.root_directory, 0);
    assert_eq!(r.name, utf16z("\\??\\C:\\a"));
    assert_eq!((r.length, r.maximum_length), (16, 18));
    assert_eq!(r.desired_access, 1 | win::SYNCHRONIZE);
    assert_eq!(r.attributes, 0);
    assert_eq!(r.file_attributes, win::FILE_ATTRIBUTE_NORMAL);
    assert_eq!(r.share_access, 7);
    assert_eq!((r.create_disposition, r.create_options), (2, 4));

    let r = open_by_id(9, 0x1122_3344_5566_7788, &flags);
    assert_eq!(r.root_directory, 9);
    assert_eq!(r.name, vec![0x7788, 0x5566, 0x3344, 0x1122]);
    assert_eq!((r.length, r.maximum_length), (8, 8));
    assert_eq!(r.create_options, 4 | win::FILE_OPEN_BY_FILE_ID);

    let r = open_relative(9, b"ab", &flags);
    assert_eq!(r.root_directory, 9);
    assert_eq!(r.attributes, 0);
    assert_eq!(r.name, utf16z("ab"));
    assert_eq!((r.length, r.maximum_length), (4, 6));

    let r = open_stream(9, ":s");
    assert_eq!(r.name, utf16z(":s"));
    assert_eq!(r.desired_access, win::GENERIC_WRITE | win::SYNCHRONIZE);
    assert_eq!(r.create_disposition, win::FILE_OVERWRITE_IF);
    assert_eq!(r.create_options, win::FILE_SYNCHRONOUS_IO_NONALERT);
}

fn meta() -> Metadata {
    Metadata {
        file_attributes: win::FILE_ATTRIBUTE_NORMAL,
        is_symlink: false,
        len: 513,
        creation_time: 116_444_736_000_000_000,
        last_access_time: 116_444_736_010_000_000,
        last_write_time: 116_444_736_025_000_000,
    }
}

fn nothing() -> OverrideStat {
    OverrideStat { uid: None, gid: None, mode: None }
}

#[test]
fn attributes_come_from_the_host() {
    let st = metadata_to_stat64(&meta(), 0, 42, 3, &nothing());
    assert_eq!(
        st,
        Stat64 {
            st_dev: 0,
            st_ino: 42,
            st_nlink: 3,
            st_mode: 0o100644,
            st_uid: 0,
            st_gid: 0,
            st_rdev: 0,
            st_size: 513,
            st_atime: 1,
            st_atime_nsec: 0,
            st_mtime: 2,
            st_mtime_nsec: 500_000_000,
            st_ctime: 0,
            st_ctime_nsec: 0,
            st_blksize: 4096,
            st_blocks: 2,
        }
    );
    assert!(meta().fits());
    assert!(!Metadata { len: i64::MAX as u64, ..meta() }.fits());
}

#[test]
fn attributes_follow_the_type() {
    let dir = Metadata { file_attributes: win::FILE_ATTRIBUTE_DIRECTORY, ..meta() };
    let st = metadata_to_stat64(&dir, 0, 1, 9, &nothing());
    assert_eq!((st.st_mode, st.st_nlink), (0o40755, 2));
    let link = Metadata {
        file_attributes: win::FILE_ATTRIBUTE_REPARSE_POINT | win::FILE_ATTRIBUTE_DIRECTORY,
        is_symlink: true,
        ..meta()
    };
    let st = metadata_to_stat64(&link, win::IO_REPARSE_TAG_SYMLINK, 1, 9, &nothing());
    assert_eq!((st.st_mode, st.st_nlink), (0o120777, 1));
    let st = metadata_to_stat64(&link, win::IO_REPARSE_TAG_MOUNT_POINT, 1, 9, &nothing());
    assert_eq!((st.st_mode, st.st_nlink), (0o40755, 2));
}

#[test]
fn attributes_follow_the_record() {
    let o = OverrideStat { uid: Some(5), gid: Some(6), mode: Some(0o600) };
    let st = metadata_to_stat64(&meta(), 0, 1, 1, &o);
    assert_eq!((st.st_uid, st.st_gid, st.st_mode), (5, 6, 0o100600));
    let o = OverrideStat { uid: None, gid: None, mode: Some(0o010600) };
    let st = metadata_to_stat64(&meta(), 0, 1, 1, &o);
    assert_eq!((st.st_uid, st.st_gid, st.st_mode), (0, 0, 0o010600));
}

#[test]
fn file_indexes_are_put_together() {
    let info = HandleInfo {
        file_attributes: 0,
        volume_serial: 7,
        number_of_links: 2,
        file_index_high: 0x1234,
        file_index_low: 0x89ab_cdef,
    };
    let i = info.file_info();
    assert_eq!(i.file_index, 0x1234_89ab_cdef);
    assert_eq!((i.volume_serial, i.n_number_of_links), (7, 2));
}

#[test]
fn volumes_are_counted_in_blocks() {
    let disk = DiskSpace { free_available: 4095, total: 40_961, total_free: 8192 };
    let st = disk_to_statvfs(&disk, 77);
    assert_eq!((st.f_bsize, st.f_frsize), (4096, 4096));
    assert_eq!((st.f_blocks, st.f_bfree, st.f_bavail), (10, 2, 0));
    assert_eq!((st.f_files, st.f_ffree, st.f_favail), (i64::MAX as u64, i64::MAX as u64, i64::MAX as u64));
    assert_eq!((st.f_fsid, st.f_flag, st.f_namemax), (77, 0, 255));
}

fn owned(uid: u32, gid: u32, mode: u32) -> Stat64 {
    let o = OverrideStat { uid: Some(uid), gid: Some(gid), mode: Some(mode) };
    metadata_to_stat64(&meta(), 0, 1, 1, &o)
}

#[test]
fn access_follows_the_three_classes() {
    let denied = Err(FsError::errno(EACCES));
    let st = owned(10, 20, 0o640);
    let owner = Context { uid: 10, gid: 99 };
    let group = Context { uid: 11, gid: 20 };
    let other = Context { uid: 11, gid: 21 };
    assert_eq!(check_access(owner, &st, linux::R_OK | linux::W_OK), Ok(()));
    assert_eq!(check_access(owner, &st, linux::X_OK), denied);
    assert_eq!(check_access(group, &st, linux::R_OK), Ok(()));
    assert_eq!(check_access(group, &st, linux::W_OK), denied);
    assert_eq!(check_access(other, &st, linux::R_OK), denied);
    assert_eq!(check_access(other, &st, linux::F_OK), Ok(()));
    assert_eq!(check_access(other, &st, 8), Ok(()));
}

#[test]
fn superuser_executes_only_what_somebody_may() {
    let root = Context { uid: 0, gid: 0 };
    assert_eq!(check_access(root, &owned(10, 20, 0), linux::R_OK | linux::W_OK), Ok(()));
    assert_eq!(check_access(root, &owned(10, 20, 0), linux::X_OK), Err(FsError::errno(EACCES)));
    assert_eq!(check_access(root, &owned(10, 20, 0o001), linux::X_OK), Ok(()));
    assert_eq!(check_access(root, &owned(10, 20, 0o100), linux::X_OK), Ok(()));
}

#[test]
fn missing_streams_are_missing_attributes() {
    for code in [2, 3] {
        let e = FsError::Os { code, translations: 0 };
        assert_eq!(e.stream_error(), FsError::errno(ENODATA));
    }
    let e = FsError::Os { code: 5, translations: 0 };
    assert_eq!(e.stream_error(), FsError::Os { code: 5, translations: 1 });
    assert_eq!(e.translated().translated(), FsError::Os { code: 5, translations: 2 });
    assert_eq!(FsError::ReparsePoint.translated(), FsError::ReparsePoint);
    let e = FsError::Uncoded { kind: 2, translations: 0 };
    assert_eq!(e.translated(), FsError::Uncoded { kind: 2, translations: 1 });
    assert_eq!(e.stream_error(), FsError::Uncoded { kind: 2, translations: 1 });
    let full = FsError::Uncoded { kind: 2, translations: 255 };
    assert_eq!(full.translated(), full);
}

#[test]
fn policies_are_named_in_three_ways() {
    for (name, policy) in [
        ("never", CachePolicy::Never),
        ("Never", CachePolicy::Never),
        ("NEVER", CachePolicy::Never),
        ("auto", CachePolicy::Auto),
        ("Auto", CachePolicy::Auto),
        ("AUTO", CachePolicy::Auto),
        ("always", CachePolicy::Always),
        ("Always", CachePolicy::Always),
        ("ALWAYS", CachePolicy::Always),
    ] {
        assert_eq!(CachePolicy::parse(name), Ok(policy));
        assert_eq!(name.parse::<CachePolicy>(), Ok(policy));
    }
    assert_eq!("nEVER".parse::<CachePolicy>(), Err("invalid cache policy"));
    assert_eq!("".parse::<CachePolicy>(), Err("invalid cache policy"));
    assert_eq!(CachePolicy::default(), CachePolicy::Auto);
}

#[test]
fn defaults_are_as_documented() {
    let cfg = Config::default();
    assert_eq!(cfg.entry_timeout, Timeout { secs: 5, nanos: 0 });
    assert_eq!(cfg.attr_timeout, Timeout { secs: 5, nanos: 0 });
    assert_eq!(cfg.cache_policy, CachePolicy::Auto);
    assert!(!cfg.writeback);
    assert_eq!(cfg.root_dir, "C:\\");
    assert!(!cfg.xattr);
    assert_eq!(cfg.export_fsid, 0);
    assert!(cfg.export_table.is_none());
    assert_eq!(cfg.clone().root_dir, cfg.root_dir);
}

#[test]
fn emulated_attributes_are_protected() {
    assert!(names_protected(b"user.containers.override_stat"));
    assert!(names_protected(b"security.capability"));
    assert!(!names_protected(b"security.capabilit"));
    assert!(!names_protected(b"user.x"));
    assert!(!names_protected(b""));
}

#[test]
fn stream_names_hold_attributes() {
    let mut buffer = utf16(":user.x:$DATA");
    buffer.resize(296, 0);
    assert_eq!(stream_attribute(&buffer), Some("user.x".to_string()));
    assert_eq!(stream_attribute(&utf16("::$DATA")), None);
    assert_eq!(stream_attribute(&utf16(":user.x")), None);
    assert_eq!(stream_attribute(&utf16("user.x:$DATA")), None);
    assert_eq!(stream_attribute(&utf16(":a:b:$DATA")), Some("a:b".to_string()));
    assert_eq!(stream_attribute(&utf16(":\u{e9}:$DATA")), Some("\u{e9}".to_string()));
    assert_eq!(stream_attribute(&[]), None);
}

#[test]
fn names_are_listed_without_the_protected_ones() {
    let names: Vec<String> = vec![
        "user.a".to_string(),
        "user.containers.override_stat".to_string(),
        "b".to_string(),
        "security.capability".to_string(),
    ];
    assert_eq!(list_names(&names), b"user.a\0b\0".to_vec());
    assert_eq!(list_names(&vec![]), Vec::<u8>::new());
}

#[test]
fn answers_fit_the_room() {
    let data = b"abc".to_vec();
    assert_eq!(sized_reply(0, data.clone()), Ok(XattrReply::Count(3)));
    assert_eq!(sized_reply(2, data.clone()), Err(FsError::errno(ERANGE)));
    assert_eq!(sized_reply(3, data.clone()), Ok(XattrReply::Data(data.clone())));
    assert_eq!(sized_reply(9, data.clone()), Ok(XattrReply::Data(data)));
    assert_eq!(sized_reply(0, Vec::new()), Ok(XattrReply::Count(0)));
}

fn record(next: u32, attributes: u32, ea: u32, id: u64, name: &str) -> Vec<u8> {
    let units = utf16(name);
    let mut b = vec![0u8; 104];
    b[0..4].copy_from_slice(&next.to_le_bytes());
    b[56..60].copy_from_slice(&attributes.to_le_bytes());
    b[60..64].copy_from_slice(&((units.len() * 2) as u32).to_le_bytes());
    b[64..68].copy_from_slice(&ea.to_le_bytes());
    b[96..104].copy_from_slice(&id.to_le_bytes());
    for u in units {
        b.extend_from_slice(&u.to_le_bytes());
    }
    b.resize((b.len() + 7) / 8 * 8, 0);
    b
}

fn chain(records: Vec<(u32, u32, u64, &str)>) -> Vec<u8> {
    let mut out = Vec::new();
    let n = records.len();
    for (i, (attributes, ea, id, name)) in records.into_iter().enumerate() {
        let size = record(0, attributes, ea, id, name).len() as u32;
        let next = if i + 1 == n { 0 } else { size };
        out.extend(record(next, attributes, ea, id, name));
    }
    out
}

#[test]
fn directory_records_are_read_in_order() {
    let b = chain(vec![
        (win::FILE_ATTRIBUTE_DIRECTORY, 0, 1, "."),
        (win::FILE_ATTRIBUTE_DIRECTORY, 0, 2, ".."),
        (win::FILE_ATTRIBUTE_NORMAL, 0, 3, "file"),
        (win::FILE_ATTRIBUTE_DIRECTORY, 0, 4, "dir\u{e9}"),
        (win::FILE_ATTRIBUTE_REPARSE_POINT, win::IO_REPARSE_TAG_SYMLINK, 5, "link"),
        (
            win::FILE_ATTRIBUTE_REPARSE_POINT | win::FILE_ATTRIBUTE_DIRECTORY,
            win::IO_REPARSE_TAG_MOUNT_POINT,
            6,
            "mount",
        ),
    ]);
    assert!(dir_buffer_fits(&b));
    let mut entries = start_listing(7, 8);
    read_dir_buffer(&b, &mut entries);
    let seen: Vec<(u64, Vec<u8>, u32)> =
        entries.into_iter().map(|e| (e.ino, e.name, e.type_)).collect();
    assert_eq!(
        seen,
        vec![
            (7, b".".to_vec(), linux::DT_DIR),
            (8, b"..".to_vec(), linux::DT_DIR),
            (3, b"file".to_vec(), linux::DT_REG),
            (4, "dir\u{e9}".as_bytes().to_vec(), linux::DT_DIR),
            (5, b"link".to_vec(), linux::DT_LNK),
            (6, b"mount".to_vec(), linux::DT_DIR),
        ]
    );
}

#[test]
fn cut_directory_records_do_not_fit() {
    let b = chain(vec![(0, 0, 3, "abcdefgh")]);
    assert!(dir_buffer_fits(&b));
    assert!(!dir_buffer_fits(&b[..110]));
    assert!(!dir_buffer_fits(&[]));
    let mut far = b.clone();
    far[0..4].copy_from_slice(&4096u32.to_le_bytes());
    assert!(!dir_buffer_fits(&far));
}
