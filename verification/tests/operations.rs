//! Operations, step by step, with answers that a host could give.

use passthrough_fs::config::{CachePolicy, Config, Timeout};
use passthrough_fs::errno::{EACCES, EBADF, EEXIST, EFBIG, EINVAL, ENODATA, ENOSYS, ERANGE, FsError};
use passthrough_fs::fs::{Entry, PassthroughFs, SecContext};
use passthrough_fs::host::{Action, Flow, Reply};
use passthrough_fs::inode::{InodeAllocator, InodeAltKey, InodeData};
use passthrough_fs::linux;
use passthrough_fs::nt::NtCreate;
use passthrough_fs::operation::Operation;
use passthrough_fs::ops::attrs::{access, setattr};
use passthrough_fs::ops::calls::call_for;
use passthrough_fs::ops::data::{fallocate, flush, fsync, lseek, read, removemapping};
use passthrough_fs::ops::data::{setupmapping, RemovemappingOne};
use passthrough_fs::ops::dirs::{fill_dir_cache, readdir, readdirplus};
use passthrough_fs::ops::links::{link, readlink, rename, symlink};
use passthrough_fs::ops::lookup::{do_getattr, do_lookup, reopen_inode, stat_path};
use passthrough_fs::ops::nodes::{create, mkdir, mknod, rmdir, unlink};
use passthrough_fs::ops::probe::{get_file_info, get_reparse_tag, is_handle_read_only, openat};
use passthrough_fs::ops::probe::set_file_times;
use passthrough_fs::ops::serve::serve;
use passthrough_fs::ops::session::{destroy, do_open, do_release, init, opendir, statfs};
use passthrough_fs::ops::streams::{ads_list_streams, kill_priv, read_override_stat};
use passthrough_fs::ops::streams::{remove_security_capability, write_ads_by_handle};
use passthrough_fs::ops::streams::{write_override_stat, write_secctx};
use passthrough_fs::ops::xattrs::{getxattr, listxattr, removexattr, setxattr};
use passthrough_fs::override_stat::OverrideStat;
use passthrough_fs::stat::{Context, DiskSpace, FileInfo, HandleInfo, Metadata, Stat64};
use passthrough_fs::win;
use passthrough_fs::xattr::XattrReply;

const DIR_TAG: u64 = 1 << 63;

fn utf16z(s: &str) -> Vec<u16> {
    s.encode_utf16().chain(std::iter::once(0)).collect()
}

fn os(code: i32) -> FsError {
    FsError::Os { code, translations: 0 }
}

fn once(code: i32) -> FsError {
    FsError::Os { code, translations: 1 }
}

/// Runs an operation to its end.
fn run<O: Operation>(mut op: O, fs: &mut PassthroughFs, replies: Vec<Reply>) -> (Vec<Action>, O::Output) {
    let mut actions = Vec::new();
    let mut flow = op.step(fs, Reply::Begin);
    for reply in replies {
        match flow {
            Flow::Do(action) => actions.push(action),
            Flow::Done(_) => panic!("the operation ended early"),
        }
        flow = op.step(fs, reply);
    }
    match flow {
        Flow::Do(action) => panic!("the operation asks for {:?}", action),
        Flow::Done(out) => (actions, out),
    }
}

/// A file system with a root directory and a file, inode 2, in it.
fn filesystem(cfg: Config) -> PassthroughFs {
    let mut fs = match PassthroughFs::new(cfg, InodeAllocator::new(10), Ok(0x40)) {
        Ok(fs) => fs,
        Err(e) => panic!("{:?}", e),
    };
    let root = InodeAltKey { file_index: 100, volume_serial: 1 };
    fs.inodes.insert(InodeData::new(1, 1, root, "root", 2));
    let file = InodeAltKey { file_index: 200, volume_serial: 1 };
    fs.inodes.insert(InodeData::new(2, 1, file, "root/file", 1));
    fs
}

fn plain() -> PassthroughFs {
    filesystem(Config::default())
}

fn with_xattr() -> PassthroughFs {
    filesystem(Config { xattr: true, ..Config::default() })
}

fn probe(path: &str) -> NtCreate {
    request(0, &format!("\\??\\{}", path), win::FILE_READ_ATTRIBUTES, win::FILE_OPEN, 0x0020_0020)
}

fn request(root: u64, name: &str, access: u32, disposition: u32, options: u32) -> NtCreate {
    let name = utf16z(name);
    let length = ((name.len() - 1) * 2) as u16;
    NtCreate {
        root_directory: root,
        name,
        length,
        maximum_length: length + 2,
        attributes: 0,
        desired_access: access | win::SYNCHRONIZE,
        file_attributes: win::FILE_ATTRIBUTE_NORMAL,
        share_access: 7,
        create_disposition: disposition,
        create_options: options,
    }
}

fn by_id(index: u16, access: u32, disposition: u32, options: u32) -> NtCreate {
    NtCreate {
        root_directory: 0x40,
        name: vec![index, 0, 0, 0],
        length: 8,
        maximum_length: 8,
        attributes: 0,
        desired_access: access | win::SYNCHRONIZE,
        file_attributes: win::FILE_ATTRIBUTE_NORMAL,
        share_access: 7,
        create_disposition: disposition,
        create_options: options | win::FILE_OPEN_BY_FILE_ID,
    }
}

fn handle_info(attributes: u32) -> HandleInfo {
    HandleInfo {
        file_attributes: attributes,
        volume_serial: 7,
        number_of_links: 3,
        file_index_high: 1,
        file_index_low: 2,
    }
}

fn meta() -> Metadata {
    Metadata {
        file_attributes: win::FILE_ATTRIBUTE_NORMAL,
        is_symlink: false,
        len: 100,
        creation_time: 116_444_736_000_000_000,
        last_access_time: 116_444_736_000_000_000,
        last_write_time: 116_444_736_000_000_000,
    }
}

fn stat(mode: u32) -> Stat64 {
    Stat64 {
        st_dev: 0,
        st_ino: 0,
        st_nlink: 1,
        st_mode: mode,
        st_uid: 0,
        st_gid: 0,
        st_rdev: 0,
        st_size: 0,
        st_atime: 0,
        st_atime_nsec: 0,
        st_mtime: 0,
        st_mtime_nsec: 0,
        st_ctime: 0,
        st_ctime_nsec: 0,
        st_blksize: 4096,
        st_blocks: 0,
    }
}

fn entry(inode: u64, mode: u32) -> Entry {
    Entry {
        inode,
        generation: 0,
        attr: stat(mode),
        attr_flags: 0,
        attr_timeout: Timeout { secs: 5, nanos: 0 },
        entry_timeout: Timeout { secs: 5, nanos: 0 },
    }
}

fn ov(uid: Option<u32>, gid: Option<u32>, mode: Option<u32>) -> OverrideStat {
    OverrideStat { uid, gid, mode }
}

fn text(s: &str) -> String {
    s.to_string()
}

fn joined(dir: &str, name: &str) -> String {
    std::path::Path::new(dir).join(name).to_string_lossy().into_owned()
}

#[test]
fn a_path_is_identified_and_closed() {
    let (actions, out) = run(
        get_file_info(text("p")),
        &mut plain(),
        vec![Reply::Handle(8), Reply::Info(handle_info(0)), Reply::Unit],
    );
    assert_eq!(
        actions,
        vec![
            Action::Open(probe("p")),
            Action::QueryInfo { handle: 8 },
            Action::Close { handle: 8 },
        ]
    );
    assert_eq!(
        out,
        Ok(FileInfo { file_index: 0x1_0000_0002, volume_serial: 7, n_number_of_links: 3 })
    );
    let (_, out) = run(get_file_info(text("p")), &mut plain(), vec![Reply::Failed(os(5))]);
    assert_eq!(out, Err(os(5)));
    let (actions, out) = run(
        get_file_info(text("p")),
        &mut plain(),
        vec![Reply::Handle(8), Reply::Failed(os(6)), Reply::Unit],
    );
    assert_eq!(actions[2], Action::Close { handle: 8 });
    assert_eq!(out, Err(os(6)));
}

#[test]
fn a_root_that_is_a_link_is_refused() {
    let (actions, out) =
        run(openat(text("p")), &mut plain(), vec![Reply::Handle(8), Reply::Info(handle_info(0x10))]);
    assert_eq!(actions, vec![Action::Open(probe("p")), Action::QueryInfo { handle: 8 }]);
    assert_eq!(out, Ok(8));
    let (actions, out) = run(
        openat(text("p")),
        &mut plain(),
        vec![Reply::Handle(8), Reply::Info(handle_info(0x400)), Reply::Unit],
    );
    assert_eq!(actions[2], Action::Close { handle: 8 });
    assert_eq!(out, Err(FsError::ReparsePoint));
    let (actions, out) =
        run(openat(text("p")), &mut plain(), vec![Reply::Handle(8), Reply::Failed(os(6)), Reply::Unit]);
    assert_eq!(actions[2], Action::Close { handle: 8 });
    assert_eq!(out, Err(os(6)));
    let (_, out) = run(openat(text("p")), &mut plain(), vec![Reply::Failed(os(2))]);
    assert_eq!(out, Err(os(2)));
}

#[test]
fn a_file_system_serves_the_root_of_its_configuration() {
    let cfg = || Config { root_dir: text("p"), export_fsid: 4, ..Config::default() };
    let run_serve = |replies| run(serve(cfg(), InodeAllocator::new(2)), &mut plain(), replies);
    let (actions, out) = run_serve(vec![Reply::Handle(8), Reply::Info(handle_info(0x10))]);
    assert_eq!(actions, vec![Action::Open(probe("p")), Action::QueryInfo { handle: 8 }]);
    let fs = out.ok().unwrap();
    assert_eq!((fs.root_handle, fs.next_handle, fs.inode_alloc.next_inode), (8, 1, 2));
    assert_eq!((fs.cfg.root_dir, fs.cfg.export_fsid), (text("p"), 4));
    let (actions, out) =
        run_serve(vec![Reply::Handle(8), Reply::Info(handle_info(0x410)), Reply::Unit]);
    assert_eq!(actions[2], Action::Close { handle: 8 });
    assert_eq!(out.err(), Some(FsError::ReparsePoint));
    let (_, out) = run_serve(vec![Reply::Failed(os(3))]);
    assert_eq!(out.err(), Some(os(3)));
}

#[test]
fn a_new_file_system_is_empty() {
    let fs = PassthroughFs::new(Config::default(), InodeAllocator::new(2), Ok(9)).ok().unwrap();
    assert!(fs.inodes.get(1).is_none());
    assert_eq!((fs.next_handle, fs.root_handle), (1, 9));
    assert!(!fs.writeback && !fs.announce_submounts);
    let failed = PassthroughFs::new(Config::default(), InodeAllocator::new(2), Err(os(3)));
    assert_eq!(failed.err(), Some(os(3)));
}

#[test]
fn handles_are_read_only_without_write_access() {
    let (actions, out) = run(is_handle_read_only(0), &mut plain(), vec![]);
    assert_eq!((actions, out), (vec![], true));
    let (_, out) = run(is_handle_read_only(DIR_TAG | 4), &mut plain(), vec![]);
    assert!(out);
    let ask = |reply| run(is_handle_read_only(8), &mut plain(), vec![reply]);
    let (actions, out) = ask(Reply::Word(0x0012_0089));
    assert_eq!((actions, out), (vec![Action::QueryAccess { handle: 8 }], true));
    assert!(!ask(Reply::Word(2)).1);
    assert!(!ask(Reply::Word(4)).1);
    assert!(!ask(Reply::Failed(os(6))).1);
}

#[test]
fn reparse_tags_belong_to_reparse_points() {
    let ask = |reply| run(get_reparse_tag(text("p")), &mut plain(), vec![reply]);
    let (actions, tag) = ask(Reply::Found { attributes: 0x410, reserved: 77 });
    assert_eq!((actions, tag), (vec![Action::FindFirst { path: utf16z("p") }], 77));
    assert_eq!(ask(Reply::Found { attributes: 0x10, reserved: 77 }).1, 0);
    assert_eq!(ask(Reply::Failed(os(2))).1, 0);
}

#[test]
fn times_are_set_through_a_handle() {
    let op = || set_file_times(text("p"), Some(0x1_0000_0002), None);
    let (actions, out) =
        run(op(), &mut plain(), vec![Reply::Handle(8), Reply::Unit, Reply::Unit]);
    assert_eq!(
        actions,
        vec![
            Action::Open(request(0, "\\??\\p", win::FILE_WRITE_ATTRIBUTES, win::FILE_OPEN, 0x20)),
            Action::SetTimes { handle: 8, atime: Some((2, 1)), mtime: None },
            Action::Close { handle: 8 },
        ]
    );
    assert_eq!(out, Ok(()));
    let (_, out) = run(op(), &mut plain(), vec![Reply::Failed(os(5))]);
    assert_eq!(out, Err(once(5)));
    let (_, out) =
        run(op(), &mut plain(), vec![Reply::Handle(8), Reply::Failed(os(5)), Reply::Unit]);
    assert_eq!(out, Err(once(5)));
}

#[test]
fn records_are_read_from_their_stream() {
    let ask = |reply| run(read_override_stat(text("p")), &mut plain(), vec![reply]);
    let (actions, out) = ask(Reply::Bytes(b"1:2:0644".to_vec()));
    assert_eq!(actions, vec![Action::ReadFile { path: text("p:user.containers.override_stat") }]);
    assert_eq!(out, ov(Some(1), Some(2), Some(0o644)));
    assert_eq!(ask(Reply::Failed(os(2))).1, ov(None, None, None));
}

#[test]
fn full_records_are_written_without_reading() {
    let op = write_override_stat(text("p"), Some((1, 2)), Some(0o600));
    let (actions, out) = run(op, &mut plain(), vec![Reply::Unit]);
    assert_eq!(
        actions,
        vec![Action::WriteFile {
            path: text("p:user.containers.override_stat"),
            data: b"1:2:0600".to_vec(),
        }]
    );
    assert_eq!(out, Ok(()));
    let op = write_override_stat(text("p"), Some((1, 2)), Some(0o600));
    let (_, out) = run(op, &mut plain(), vec![Reply::Failed(os(5))]);
    assert_eq!(out, Err(once(5)));
}

#[test]
fn partial_records_are_merged() {
    let op = write_override_stat(text("p"), None, Some(0o600));
    let replies = vec![Reply::Override(ov(Some(3), None, Some(0o644))), Reply::Unit];
    let (actions, _) = run(op, &mut plain(), replies);
    assert_eq!(actions[0], Action::ReadOverride { path: text("p") });
    assert_eq!(
        actions[1],
        Action::WriteFile {
            path: text("p:user.containers.override_stat"),
            data: b"3:x:0600".to_vec(),
        }
    );
}

#[test]
fn capabilities_are_deleted() {
    for reply in [Reply::Unit, Reply::Failed(os(2)), Reply::Failed(os(5))] {
        let (actions, _) = run(remove_security_capability(text("p")), &mut plain(), vec![reply]);
        assert_eq!(actions, vec![Action::DeleteFile { path: utf16z("p:security.capability") }]);
    }
}

#[test]
fn privileges_are_removed() {
    let (actions, _) = run(
        kill_priv(text("p")),
        &mut plain(),
        vec![
            Reply::Unit,
            Reply::Override(ov(Some(1), Some(2), Some(0o104755))),
            Reply::Failed(os(5)),
        ],
    );
    assert_eq!(
        actions,
        vec![
            Action::RemoveCapability { path: text("p") },
            Action::ReadOverride { path: text("p") },
            Action::WriteOverride { path: text("p"), owner: None, mode: Some(0o100755) },
        ]
    );
    let replies = vec![Reply::Unit, Reply::Override(ov(None, None, Some(0o755)))];
    let (actions, _) = run(kill_priv(text("p")), &mut plain(), replies);
    assert_eq!(actions.len(), 2);
}

#[test]
fn streams_are_written_by_handle() {
    let op = || write_ads_by_handle(8, text(":s"), b"data".to_vec());
    let (actions, out) =
        run(op(), &mut plain(), vec![Reply::Handle(16), Reply::Unit, Reply::Unit]);
    assert_eq!(
        actions,
        vec![
            Action::Open(request(8, ":s", win::GENERIC_WRITE, win::FILE_OVERWRITE_IF, 0x20)),
            Action::WriteHandle { handle: 16, data: b"data".to_vec(), length: 4 },
            Action::Close { handle: 16 },
        ]
    );
    assert_eq!(out, Ok(()));
    let (actions, out) =
        run(op(), &mut plain(), vec![Reply::Handle(16), Reply::Failed(os(5)), Reply::Unit]);
    assert_eq!(actions[2], Action::Close { handle: 16 });
    assert_eq!(out, Err(os(5)));
    let (_, out) = run(op(), &mut plain(), vec![Reply::Failed(os(5))]);
    assert_eq!(out, Err(os(5)));
}

#[test]
fn contexts_are_stored_next_to_the_file() {
    let op = |symlink| write_secctx(text("p"), b"security.selinux".to_vec(), b"ctx".to_vec(), symlink);
    let (actions, out) = run(op(false), &mut plain(), vec![Reply::Unit]);
    assert_eq!(
        actions,
        vec![Action::WriteFile { path: text("p:security.selinux"), data: b"ctx".to_vec() }]
    );
    assert_eq!(out, Ok(()));
    let (_, out) = run(op(false), &mut plain(), vec![Reply::Failed(os(5))]);
    assert_eq!(out, Err(once(5)));
    let (actions, out) =
        run(op(true), &mut plain(), vec![Reply::Handle(8), Reply::Failed(os(5)), Reply::Unit]);
    let name = "\\??\\p:security.selinux";
    assert_eq!(
        actions[0],
        Action::Open(request(0, name, win::GENERIC_WRITE, win::FILE_OVERWRITE_IF, 0x0020_0020))
    );
    assert_eq!(actions[2], Action::Close { handle: 8 });
    assert_eq!(out, Err(os(5)));
    let (_, out) = run(op(true), &mut plain(), vec![Reply::Failed(os(5))]);
    assert_eq!(out, Err(once(5)));
}

#[test]
fn streams_are_listed() {
    let (actions, out) = run(
        ads_list_streams(text("p")),
        &mut plain(),
        vec![
            Reply::Stream { search: 5, name: utf16z("::$DATA") },
            Reply::Units(utf16z(":user.a:$DATA")),
            Reply::Units(utf16z(":user.b:$DATA")),
            Reply::Failed(os(38)),
            Reply::Unit,
        ],
    );
    assert_eq!(actions[0], Action::FirstStream { path: utf16z("p") });
    assert_eq!(actions[3], Action::NextStream { search: 5 });
    assert_eq!(actions[4], Action::CloseSearch { search: 5 });
    assert_eq!(out, Ok(vec![text("user.a"), text("user.b")]));
    let (_, out) = run(ads_list_streams(text("p")), &mut plain(), vec![Reply::Failed(os(38))]);
    assert_eq!(out, Ok(vec![]));
    let (_, out) = run(ads_list_streams(text("p")), &mut plain(), vec![Reply::Failed(os(5))]);
    assert_eq!(out, Err(os(5)));
    let uncoded = FsError::Uncoded { kind: 4, translations: 0 };
    let (_, out) = run(ads_list_streams(text("p")), &mut plain(), vec![Reply::Failed(uncoded)]);
    assert_eq!(out, Err(uncoded));
}

#[test]
fn attributes_ask_for_the_tag_of_links() {
    let (actions, st) = run(
        stat_path(meta(), 9, text("p"), 4),
        &mut plain(),
        vec![Reply::Override(ov(Some(3), None, None))],
    );
    assert_eq!(actions, vec![Action::ReadOverride { path: text("p") }]);
    assert_eq!((st.st_ino, st.st_nlink, st.st_mode, st.st_uid), (9, 4, 0o100644, 3));
    let link = Metadata { file_attributes: 0x410, is_symlink: true, ..meta() };
    let (actions, st) = run(
        stat_path(link, 9, text("p"), 4),
        &mut plain(),
        vec![Reply::Word(win::IO_REPARSE_TAG_MOUNT_POINT), Reply::Override(ov(None, None, None))],
    );
    assert_eq!(actions[0], Action::GetReparseTag { path: text("p") });
    assert_eq!(st.st_mode, 0o040755);
}

#[test]
fn files_are_reopened() {
    let (actions, out) = run(reopen_inode(2, 8, 1), &mut plain(), vec![Reply::Handle(16)]);
    assert_eq!(actions, vec![Action::Duplicate { handle: 8 }]);
    assert_eq!(out, Ok(16));
    let (_, out) = run(reopen_inode(2, 8, 1), &mut plain(), vec![Reply::Failed(os(6))]);
    assert_eq!(out, Err(once(6)));
    let (actions, out) =
        run(reopen_inode(2, 0, 1), &mut plain(), vec![Reply::Failed(os(6)), Reply::Handle(16)]);
    assert_eq!(actions[0], Action::Open(by_id(200, 1, win::FILE_OPEN, 0x20)));
    assert_eq!(
        actions[1],
        Action::Open(request(0, "\\??\\root/file", 1, win::FILE_OPEN, 0x20))
    );
    assert_eq!(out, Ok(16));
    let (_, out) = run(
        reopen_inode(2, DIR_TAG, 1),
        &mut plain(),
        vec![Reply::Failed(os(6)), Reply::Failed(os(7))],
    );
    assert_eq!(out, Err(os(7)));
    let (_, out) = run(reopen_inode(99, 0, 1), &mut plain(), vec![]);
    assert_eq!(out, Err(os(EBADF)));
}

fn info(index: u64, serial: u32) -> FileInfo {
    FileInfo { file_index: index, volume_serial: serial, n_number_of_links: 6 }
}

#[test]
fn lookups_number_new_files() {
    let mut fs = plain();
    let child = joined("root", "new");
    let (actions, out) = run(
        do_lookup(1, b"new".to_vec()),
        &mut fs,
        vec![Reply::FileInfo(info(300, 1)), Reply::Meta(meta()), Reply::Stat(stat(0o100600))],
    );
    assert_eq!(
        actions,
        vec![
            Action::GetFileInfo { path: child.clone() },
            Action::Metadata { path: child.clone() },
            Action::Stat { meta: meta(), inode: 10, path: child.clone(), n_link: 6 },
        ]
    );
    assert_eq!(out, Ok(entry(10, 0o100600)));
    let data = fs.inodes.get(10).unwrap();
    assert_eq!((data.inode, data.parent_inode, data.file_index, data.refcount), (10, 1, 300, 1));
    assert_eq!(data.get_path(), &child);
    assert_eq!(data.get_wide_path(), &utf16z(&child));
    assert_eq!(fs.inode_alloc.next_inode, 11);
}

#[test]
fn lookups_of_known_files_count_and_follow_renames() {
    let mut fs = plain();
    let (_, out) = run(
        do_lookup(1, b"moved".to_vec()),
        &mut fs,
        vec![Reply::FileInfo(info(200, 1)), Reply::Meta(meta()), Reply::Stat(stat(0o100600))],
    );
    assert_eq!(out.unwrap().inode, 2);
    let data = fs.inodes.get(2).unwrap();
    assert_eq!(data.refcount, 2);
    assert_eq!(data.get_path(), &joined("root", "moved"));
    assert_eq!(data.get_wide_path(), &utf16z(&joined("root", "moved")));
    assert_eq!(fs.inode_alloc.next_inode, 10);
    fs.forget(2, 1);
    assert_eq!(fs.inodes.get(2).unwrap().refcount, 1);
    fs.forget(2, 1);
    assert!(fs.inodes.get(2).is_none());
}

#[test]
fn lookups_tell_volumes_apart() {
    let mut fs = plain();
    let replies = || vec![Reply::FileInfo(info(200, 2)), Reply::Meta(meta()), Reply::Stat(stat(0o040755))];
    let (_, out) = run(do_lookup(1, b"mnt".to_vec()), &mut fs, replies());
    assert_eq!(out.unwrap().attr_flags, 0);
    fs.announce_submounts = true;
    let mut with_parent = replies();
    with_parent.push(Reply::FileInfo(info(100, 1)));
    let (actions, out) = run(do_lookup(1, b"mnt".to_vec()), &mut fs, with_parent);
    assert_eq!(actions[3], Action::GetFileInfo { path: text("root") });
    assert_eq!(out.unwrap().attr_flags, linux::ATTR_SUBMOUNT);
    let mut same = replies();
    same.push(Reply::FileInfo(info(100, 2)));
    assert_eq!(run(do_lookup(1, b"mnt".to_vec()), &mut fs, same).1.unwrap().attr_flags, 0);
    let mut failed = replies();
    failed.push(Reply::Failed(os(2)));
    assert_eq!(run(do_lookup(1, b"mnt".to_vec()), &mut fs, failed).1.unwrap().attr_flags, 0);
}

#[test]
fn lookups_fail() {
    let (_, out) = run(do_lookup(99, b"x".to_vec()), &mut plain(), vec![]);
    assert_eq!(out, Err(os(EBADF)));
    let (_, out) = run(do_lookup(1, b"x".to_vec()), &mut plain(), vec![Reply::Failed(os(2))]);
    assert_eq!(out, Err(once(2)));
    let mut fs = plain();
    let replies = vec![Reply::FileInfo(info(200, 1)), Reply::Failed(os(5))];
    let (_, out) = run(do_lookup(1, b"x".to_vec()), &mut fs, replies);
    assert_eq!(out, Err(once(5)));
    assert_eq!(fs.inodes.get(2).unwrap().refcount, 2);
}

#[test]
fn attributes_come_through_the_handle() {
    let (actions, out) = run(
        do_getattr(2, Some(8)),
        &mut plain(),
        vec![
            Reply::Handle(16),
            Reply::Meta(meta()),
            Reply::Info(handle_info(0)),
            Reply::Stat(stat(0o100644)),
            Reply::Unit,
        ],
    );
    assert_eq!(
        actions,
        vec![
            Action::Reopen { inode: 2, handle: 8, desired_access: win::FILE_READ_ATTRIBUTES },
            Action::HandleMetadata { handle: 16 },
            Action::QueryInfo { handle: 16 },
            Action::Stat { meta: meta(), inode: 2, path: text("root/file"), n_link: 3 },
            Action::Close { handle: 16 },
        ]
    );
    assert_eq!(out, Ok((stat(0o100644), Timeout { secs: 5, nanos: 0 })));
}

#[test]
fn attributes_fall_back_to_the_path() {
    let by_path = || {
        vec![
            Reply::Meta(meta()),
            Reply::FileInfo(info(200, 1)),
            Reply::Stat(stat(0o100644)),
        ]
    };
    let (actions, out) = run(do_getattr(2, None), &mut plain(), by_path());
    assert_eq!(
        actions,
        vec![
            Action::Metadata { path: text("root/file") },
            Action::GetFileInfo { path: text("root/file") },
            Action::Stat { meta: meta(), inode: 2, path: text("root/file"), n_link: 6 },
        ]
    );
    assert!(out.is_ok());
    let mut replies = vec![Reply::Handle(16), Reply::Failed(os(5)), Reply::Unit];
    replies.extend(by_path());
    let (actions, out) = run(do_getattr(2, Some(8)), &mut plain(), replies);
    assert_eq!(actions[2], Action::Close { handle: 16 });
    assert!(out.is_ok());
    let mut replies = vec![Reply::Failed(os(6))];
    replies.extend(by_path());
    assert!(run(do_getattr(2, Some(8)), &mut plain(), replies).1.is_ok());
    let (actions, _) = run(do_getattr(2, Some(DIR_TAG | 3)), &mut plain(), by_path());
    assert_eq!(actions.len(), 3);
    let (_, out) = run(do_getattr(2, None), &mut plain(), vec![Reply::Failed(os(2))]);
    assert_eq!(out, Err(once(2)));
    let (_, out) =
        run(do_getattr(2, None), &mut plain(), vec![Reply::Meta(meta()), Reply::Failed(os(2))]);
    assert_eq!(out, Err(once(2)));
    assert_eq!(run(do_getattr(99, None), &mut plain(), vec![]).1, Err(os(EBADF)));
}

#[test]
fn links_default_to_one() {
    let replies = vec![
        Reply::Handle(16),
        Reply::Meta(meta()),
        Reply::Failed(os(5)),
        Reply::Stat(stat(0)),
        Reply::Unit,
    ];
    let (actions, _) = run(do_getattr(2, Some(8)), &mut plain(), replies);
    assert!(matches!(actions[3], Action::Stat { n_link: 1, .. }));
}

#[test]
fn sessions_agree_on_options() {
    let start = |cfg: Config, capable: u64| {
        let mut fs = PassthroughFs::new(cfg, InodeAllocator::new(2), Ok(0x40)).ok().unwrap();
        let (actions, out) = run(init(capable), &mut fs, vec![Reply::FileInfo(info(100, 1))]);
        (fs, actions, out)
    };
    let always = linux::FS_DO_READDIRPLUS | linux::FS_READDIRPLUS_AUTO;
    let (fs, actions, out) = start(Config::default(), u64::MAX);
    assert_eq!(actions, vec![Action::GetFileInfo { path: text("C:\\") }]);
    assert_eq!(out, Ok(always | linux::FS_SUBMOUNTS));
    assert!(fs.announce_submounts && !fs.writeback);
    let root = fs.inodes.get(1).unwrap();
    assert_eq!((root.inode, root.parent_inode, root.file_index, root.refcount), (1, 1, 100, 2));
    assert_eq!(root.get_path(), "C:\\");
    let writing = Config { writeback: true, ..Config::default() };
    let (fs, _, out) = start(writing.clone(), linux::FS_WRITEBACK_CACHE);
    assert_eq!(out, Ok(always | linux::FS_WRITEBACK_CACHE));
    assert!(fs.writeback && !fs.announce_submounts);
    let (fs, _, out) = start(writing, 0);
    assert_eq!(out, Ok(always));
    assert!(!fs.writeback);
    let mut fs = plain();
    assert_eq!(run(init(0), &mut fs, vec![Reply::Failed(os(2))]).1, Err(once(2)));
}

#[test]
fn the_root_stays_known_when_forgotten_once() {
    let mut fs = PassthroughFs::new(Config::default(), InodeAllocator::new(2), Ok(0x40)).ok().unwrap();
    run(init(0), &mut fs, vec![Reply::FileInfo(info(100, 1))]).1.unwrap();
    fs.forget(1, 1);
    assert!(fs.inodes.get(1).is_some());
    fs.batch_forget(&[(1, 1), (2, 5)]);
    assert!(fs.inodes.get(1).is_none());
}

#[test]
fn sessions_end_once() {
    let mut fs = plain();
    run(opendir(1, 0), &mut fs, vec![Reply::Unit]).1.unwrap();
    let (actions, _) = run(destroy(), &mut fs, vec![Reply::Unit]);
    assert_eq!(actions, vec![Action::Close { handle: 0x40 }]);
    assert!(fs.inodes.get(1).is_none());
    let (actions, _) = run(destroy(), &mut fs, vec![]);
    assert_eq!(actions, vec![]);
}

#[test]
fn volumes_are_resolved() {
    let disk = DiskSpace { free_available: 4096, total: 8192, total_free: 4096 };
    let (actions, out) = run(
        statfs(2),
        &mut filesystem(Config { export_fsid: 9, ..Config::default() }),
        vec![Reply::Units(utf16z("D:\\")), Reply::Disk(disk)],
    );
    assert_eq!(
        actions,
        vec![
            Action::VolumePath { path: utf16z("root/file"), extra: 1 },
            Action::DiskFree { path: utf16z("D:\\") },
        ]
    );
    let st = out.unwrap();
    assert_eq!((st.f_blocks, st.f_fsid), (2, 9));
    let (actions, out) =
        run(statfs(2), &mut plain(), vec![Reply::Failed(os(2)), Reply::Failed(os(3))]);
    assert_eq!(actions[1], Action::DiskFree { path: utf16z("C:\\") });
    assert_eq!(out, Err(once(3)));
    assert_eq!(run(statfs(99), &mut plain(), vec![]).1, Err(os(EBADF)));
}

#[test]
fn files_are_opened_by_index_then_by_path() {
    let (actions, out) = run(do_open(2, false, 2), &mut plain(), vec![Reply::Handle(16)]);
    assert_eq!(actions, vec![Action::Open(by_id(200, 0xc000_0000, win::FILE_OPEN, 0x20))]);
    assert_eq!(out, Ok((Some(16), 0)));
    let (actions, out) = run(
        do_open(2, true, 0),
        &mut filesystem(Config { cache_policy: CachePolicy::Always, ..Config::default() }),
        vec![Reply::Failed(os(5)), Reply::Handle(16), Reply::Unit],
    );
    assert_eq!(
        actions[1],
        Action::Open(request(0, "\\??\\root/file", win::GENERIC_READ, win::FILE_OPEN, 0x20))
    );
    assert_eq!(actions[2], Action::KillPriv { path: text("root/file") });
    assert_eq!(out, Ok((Some(16), linux::OPEN_KEEP_CACHE)));
    let mut never = filesystem(Config { cache_policy: CachePolicy::Never, ..Config::default() });
    let (_, out) = run(do_open(2, false, 0), &mut never, vec![Reply::Handle(16)]);
    assert_eq!(out, Ok((Some(16), linux::OPEN_DIRECT_IO)));
    let (_, out) =
        run(do_open(2, false, 0), &mut plain(), vec![Reply::Failed(os(5)), Reply::Failed(os(3))]);
    assert_eq!(out, Err(once(3)));
    assert_eq!(run(do_open(99, false, 0), &mut plain(), vec![]).1, Err(os(EBADF)));
}

#[test]
fn directories_get_tagged_handles() {
    let mut fs = filesystem(Config { cache_policy: CachePolicy::Always, ..Config::default() });
    let (actions, out) = run(opendir(1, 0), &mut fs, vec![Reply::Unit]);
    assert_eq!(actions, vec![Action::FillDirCache { inode: 1, handle: DIR_TAG | 1 }]);
    assert_eq!(out, Ok((Some(DIR_TAG | 1), linux::OPEN_CACHE_DIR)));
    let (_, out) = run(opendir(1, 0), &mut fs, vec![Reply::Unit]);
    assert_eq!(out, Ok((Some(DIR_TAG | 2), linux::OPEN_CACHE_DIR)));
    let (_, out) = run(opendir(1, 0), &mut plain(), vec![Reply::Unit]);
    assert_eq!(out, Ok((Some(DIR_TAG | 1), 0)));
    let (_, out) = run(opendir(1, 0), &mut plain(), vec![Reply::Failed(os(5))]);
    assert_eq!(out, Err(os(5)));
    let (actions, out) = run(do_open(1, false, linux::LINUX_O_DIRECTORY as u32), &mut plain(), vec![]);
    assert_eq!((actions, out), (vec![], Ok((Some(DIR_TAG | 1), 0))));
}

/// Answers what the operation asks for: calls by running them, the rest from the list.
fn run_all<O: Operation>(mut op: O, fs: &mut PassthroughFs, host: &mut Vec<Reply>) -> O::Output {
    let mut reply = Reply::Begin;
    loop {
        match op.step(fs, reply) {
            Flow::Done(out) => return out,
            Flow::Do(action) => {
                reply = match call_for(action) {
                    Ok(call) => run_all(call, fs, host),
                    Err(_) => host.remove(0),
                }
            }
        }
    }
}

#[test]
fn opened_directories_have_their_listing() {
    let mut fs = plain();
    let mut host = vec![
        Reply::Handle(16),
        Reply::Bytes(buffer(&vec![(".", 1), ("a", 5)])),
        Reply::Bytes(buffer(&vec![("b", 6)])),
        Reply::NoMore,
        Reply::Unit,
    ];
    let out = run_all(opendir(2, 0), &mut fs, &mut host);
    let handle = out.unwrap().0.unwrap();
    assert!(host.is_empty());
    let names: Vec<&[u8]> = fs.dir_caches[&handle].iter().map(|e| e.name.as_slice()).collect();
    assert_eq!(names, vec![&b"."[..], &b".."[..], &b"a"[..], &b"b"[..]]);
    let out = run_all(opendir(99, 0), &mut fs, &mut host);
    assert_eq!(out, Err(os(EBADF)));
}

#[test]
fn calls_end_with_replies() {
    let mut fs = plain();
    let mut host = vec![
        Reply::Meta(meta()),
        Reply::Handle(16),
        Reply::Info(handle_info(0)),
        Reply::Unit,
        Reply::Bytes(b"5:6:0600".to_vec()),
    ];
    let call = call_for(Action::Getattr { inode: 2, handle: None }).ok().unwrap();
    match run_all(call, &mut fs, &mut host) {
        Reply::Attr(st, timeout) => {
            assert_eq!((st.st_uid, st.st_gid, st.st_mode, st.st_nlink), (5, 6, 0o100600, 3));
            assert_eq!(timeout, Timeout { secs: 5, nanos: 0 });
        }
        other => panic!("{:?}", other),
    }
    let call = call_for(Action::Reopen { inode: 2, handle: 8, desired_access: 1 }).ok().unwrap();
    assert_eq!(run_all(call, &mut fs, &mut vec![Reply::Handle(24)]), Reply::Handle(24));
    let call = call_for(Action::IsReadOnly { handle: 0 }).ok().unwrap();
    assert_eq!(run_all(call, &mut fs, &mut vec![]), Reply::Flag(true));
    let call = call_for(Action::Lookup { parent: 99, name: b"x".to_vec() }).ok().unwrap();
    assert_eq!(run_all(call, &mut fs, &mut vec![]), Reply::Failed(os(EBADF)));
    assert_eq!(call_for(Action::Now).err(), Some(Action::Now));
}

#[test]
fn setting_attributes_ends_with_getting_them() {
    let mut fs = plain();
    let mut host = vec![
        Reply::Bytes(b"1:2:0100644".to_vec()),
        Reply::Unit,
        Reply::Meta(meta()),
        Reply::Handle(16),
        Reply::Info(handle_info(0)),
        Reply::Unit,
        Reply::Bytes(b"1:2:0100600".to_vec()),
    ];
    let attr = stat(0o100600);
    let out = run_all(setattr(2, attr, None, linux::SETATTR_MODE), &mut fs, &mut host);
    let st = out.unwrap().0;
    assert_eq!((st.st_uid, st.st_gid, st.st_mode), (1, 2, 0o100600));
    assert!(host.is_empty());
}

#[test]
fn handles_are_released() {
    let (actions, out) = run(do_release(8), &mut plain(), vec![Reply::Unit]);
    assert_eq!((actions, out), (vec![Action::Close { handle: 8 }], Ok(())));
    let (actions, _) = run(do_release(0), &mut plain(), vec![]);
    assert_eq!(actions, vec![]);
    let mut fs = plain();
    fill(&mut fs, DIR_TAG | 1, vec![("a", 5)]);
    assert!(fs.dir_caches.contains_key(&(DIR_TAG | 1)));
    let (actions, _) = run(do_release(DIR_TAG | 1), &mut fs, vec![]);
    assert_eq!(actions, vec![]);
    assert!(!fs.dir_caches.contains_key(&(DIR_TAG | 1)));
}

fn record(next: usize, id: u64, name: &str) -> Vec<u8> {
    let units: Vec<u16> = name.encode_utf16().collect();
    let mut b = vec![0u8; 104];
    b[60..64].copy_from_slice(&((units.len() * 2) as u32).to_le_bytes());
    b[56..60].copy_from_slice(&win::FILE_ATTRIBUTE_NORMAL.to_le_bytes());
    b[96..104].copy_from_slice(&id.to_le_bytes());
    for u in units {
        b.extend_from_slice(&u.to_le_bytes());
    }
    b.resize((b.len() + 7) / 8 * 8, 0);
    if next != 0 {
        let size = b.len() as u32;
        b[0..4].copy_from_slice(&size.to_le_bytes());
    }
    b
}

fn buffer(names: &Vec<(&str, u64)>) -> Vec<u8> {
    let mut out = Vec::new();
    for (i, (name, id)) in names.iter().enumerate() {
        out.extend(record(names.len() - 1 - i, *id, name));
    }
    out
}

fn fill(fs: &mut PassthroughFs, handle: u64, names: Vec<(&str, u64)>) -> Vec<Action> {
    let replies =
        vec![Reply::Handle(16), Reply::Bytes(buffer(&names)), Reply::NoMore, Reply::Unit];
    let (actions, out) = run(fill_dir_cache(2, handle), fs, replies);
    assert_eq!(out, Ok(()));
    actions
}

#[test]
fn directories_are_read_once() {
    let mut fs = plain();
    let actions = fill(&mut fs, DIR_TAG | 1, vec![(".", 1), ("..", 2), ("a", 5), ("b", 6)]);
    assert_eq!(
        actions,
        vec![
            Action::Open(by_id(200, win::GENERIC_READ, win::FILE_OPEN, 0x21)),
            Action::QueryDirectory { handle: 16, restart: true },
            Action::QueryDirectory { handle: 16, restart: false },
            Action::Close { handle: 16 },
        ]
    );
    let seen: Vec<(u64, &[u8])> =
        fs.dir_caches[&(DIR_TAG | 1)].iter().map(|e| (e.ino, e.name.as_slice())).collect();
    assert_eq!(seen, vec![(2, &b"."[..]), (1, &b".."[..]), (5, &b"a"[..]), (6, &b"b"[..])]);
    let (actions, out) = run(fill_dir_cache(2, DIR_TAG | 1), &mut fs, vec![]);
    assert_eq!((actions, out), (vec![], Ok(())));
}

#[test]
fn directories_that_cannot_be_read_are_closed() {
    let mut fs = plain();
    let replies = vec![
        Reply::Failed(os(5)),
        Reply::Handle(16),
        Reply::Failed(os(6)),
        Reply::Unit,
    ];
    let (actions, out) = run(fill_dir_cache(2, 7), &mut fs, replies);
    assert_eq!(
        actions[1],
        Action::Open(request(0, "\\??\\root/file", win::GENERIC_READ, win::FILE_OPEN, 0x21))
    );
    assert_eq!(actions[3], Action::Close { handle: 16 });
    assert_eq!(out, Err(os(6)));
    assert!(fs.dir_caches.is_empty());
    let (_, out) =
        run(fill_dir_cache(2, 7), &mut fs, vec![Reply::Failed(os(5)), Reply::Failed(os(6))]);
    assert_eq!(out, Err(once(6)));
    assert_eq!(run(fill_dir_cache(99, 7), &mut fs, vec![]).1, Err(os(EBADF)));
}

fn added(ino: u64, offset: u64, type_: u32, name: &str) -> Action {
    Action::AddEntry { ino, offset, type_, name: name.as_bytes().to_vec() }
}

#[test]
fn entries_are_handed_over_until_the_room_is_full() {
    let mut fs = plain();
    let h = DIR_TAG | 1;
    fill(&mut fs, h, vec![("a", 5), ("b", 6)]);
    let (actions, out) = run(
        readdir(2, h, 0),
        &mut fs,
        vec![Reply::Unit, Reply::Number(1), Reply::Number(1), Reply::Number(1), Reply::Number(1)],
    );
    assert_eq!(
        actions,
        vec![
            Action::FillDirCache { inode: 2, handle: h },
            added(2, 1, linux::DT_DIR, "."),
            added(1, 2, linux::DT_DIR, ".."),
            added(5, 3, linux::DT_REG, "a"),
            added(6, 4, linux::DT_REG, "b"),
        ]
    );
    assert_eq!(out, Ok(()));
    let replies = vec![Reply::Unit, Reply::Number(9), Reply::Number(0)];
    let (actions, out) = run(readdir(2, h, 1), &mut fs, replies);
    assert_eq!(actions[1], added(1, 2, linux::DT_DIR, ".."));
    assert_eq!(actions.len(), 3);
    assert_eq!(out, Ok(()));
    let (actions, out) = run(readdir(2, h, 2), &mut fs, vec![Reply::Unit, Reply::Failed(os(1))]);
    assert_eq!(actions[1], added(5, 3, linux::DT_REG, "a"));
    assert_eq!(out, Ok(()));
    let (actions, out) = run(readdir(2, h, 4), &mut fs, vec![Reply::Unit]);
    assert_eq!((actions.len(), out), (1, Ok(())));
    let (_, out) = run(readdir(2, h, u64::MAX), &mut fs, vec![Reply::Unit]);
    assert_eq!(out, Ok(()));
    assert_eq!(run(readdir(2, 3, 0), &mut fs, vec![Reply::Unit]).1, Err(os(EBADF)));
    assert_eq!(run(readdir(2, h, 0), &mut fs, vec![Reply::Failed(os(5))]).1, Err(os(5)));
}

#[test]
fn entries_are_handed_over_with_what_they_name() {
    let mut fs = plain();
    let h = DIR_TAG | 1;
    fill(&mut fs, h, vec![("a", 5), ("n\0l", 6), ("c", 7)]);
    let (actions, out) = run(
        readdirplus(2, h, 2),
        &mut fs,
        vec![
            Reply::Unit,
            Reply::Entry(entry(20, 0o100644)),
            Reply::Number(1),
            Reply::Entry(entry(21, 0o100644)),
            Reply::Number(1),
        ],
    );
    assert_eq!(actions[1], Action::Lookup { parent: 2, name: b"a".to_vec() });
    assert_eq!(
        actions[2],
        Action::AddEntryPlus {
            ino: 20,
            offset: 3,
            type_: linux::DT_REG,
            name: b"a".to_vec(),
            entry: entry(20, 0o100644),
        }
    );
    assert_eq!(actions[3], Action::Lookup { parent: 2, name: b"c".to_vec() });
    assert_eq!(out, Ok(()));
    let replies = vec![
        Reply::Unit,
        Reply::Failed(os(2)),
        Reply::Entry(entry(21, 0o100644)),
        Reply::Number(0),
    ];
    let (actions, out) = run(readdirplus(2, h, 2), &mut fs, replies);
    assert!(matches!(actions[3], Action::AddEntryPlus { offset: 5, .. }));
    assert_eq!(out, Ok(()));
    let replies = vec![Reply::Unit, Reply::Entry(entry(20, 0)), Reply::Failed(os(5))];
    assert_eq!(run(readdirplus(2, h, 2), &mut fs, replies).1, Err(os(5)));
    assert_eq!(run(readdirplus(2, 3, 0), &mut fs, vec![Reply::Unit]).1, Err(os(EBADF)));
    assert_eq!(run(readdirplus(2, h, 0), &mut fs, vec![Reply::Failed(os(5))]).1, Err(os(5)));
}

const ALICE: Context = Context { uid: 1000, gid: 100 };

fn context() -> Option<SecContext> {
    Some(SecContext { name: b"security.selinux".to_vec(), secctx: b"ctx".to_vec() })
}

#[test]
fn directories_are_made() {
    let (actions, out) = run(
        mkdir(ALICE, 1, b"d".to_vec(), 0o777, 0o022, context()),
        &mut plain(),
        vec![
            Reply::Handle(16),
            Reply::Handle(24),
            Reply::Unit,
            Reply::Unit,
            Reply::Entry(entry(20, 0o040755)),
            Reply::Unit,
            Reply::Unit,
        ],
    );
    assert_eq!(
        actions,
        vec![
            Action::Open(by_id(100, win::GENERIC_READ, win::FILE_OPEN, 0x21)),
            Action::Open(request(16, "d", 0xc000_0000, win::FILE_CREATE, 0x21)),
            Action::WriteAds {
                handle: 24,
                suffix: text(":security.selinux"),
                data: b"ctx".to_vec(),
            },
            Action::WriteAds {
                handle: 24,
                suffix: text(":user.containers.override_stat"),
                data: b"1000:100:0755".to_vec(),
            },
            Action::Lookup { parent: 1, name: b"d".to_vec() },
            Action::Close { handle: 24 },
            Action::Close { handle: 16 },
        ]
    );
    assert_eq!(out, Ok(entry(20, 0o040755)));
}

#[test]
fn nodes_are_made_with_their_type() {
    let (actions, _) = run(
        mknod(ALICE, 1, b"p".to_vec(), 0o010666, 0o022, None),
        &mut plain(),
        vec![
            Reply::Handle(16),
            Reply::Handle(24),
            Reply::Unit,
            Reply::Failed(os(2)),
            Reply::Unit,
            Reply::Unit,
        ],
    );
    assert_eq!(actions[1], Action::Open(request(16, "p", 0xc000_0000, win::FILE_CREATE, 0x20)));
    assert!(matches!(&actions[2], Action::WriteAds { data, .. } if data == b"1000:100:010644"));
}

#[test]
fn making_fails_and_closes_what_is_open() {
    let op = |secctx| mkdir(ALICE, 1, b"d".to_vec(), 0o777, 0, secctx);
    let (_, out) = run(mkdir(ALICE, 1, b"a:b".to_vec(), 0, 0, None), &mut plain(), vec![]);
    assert_eq!(out, Err(os(EINVAL)));
    let (_, out) = run(mkdir(ALICE, 99, b"d".to_vec(), 0, 0, None), &mut plain(), vec![]);
    assert_eq!(out, Err(os(EBADF)));
    let (_, out) = run(op(None), &mut plain(), vec![Reply::Failed(os(5))]);
    assert_eq!(out, Err(once(5)));
    let (actions, out) =
        run(op(None), &mut plain(), vec![Reply::Handle(16), Reply::Failed(os(80)), Reply::Unit]);
    assert_eq!(actions[2], Action::Close { handle: 16 });
    assert_eq!(out, Err(once(80)));
    for secctx in [None, context()] {
        let replies = vec![
            Reply::Handle(16),
            Reply::Handle(24),
            Reply::Failed(os(5)),
            Reply::Unit,
            Reply::Unit,
        ];
        let (actions, out) = run(op(secctx), &mut plain(), replies);
        assert_eq!(actions[3], Action::Close { handle: 24 });
        assert_eq!(actions[4], Action::Close { handle: 16 });
        assert_eq!(out, Err(os(5)));
    }
}

#[test]
fn entries_are_removed_on_close() {
    let replies = || {
        vec![Reply::Handle(16), Reply::Handle(24), Reply::Unit, Reply::Unit, Reply::Unit]
    };
    let (actions, out) = run(rmdir(1, b"d".to_vec()), &mut plain(), replies());
    assert_eq!(
        actions,
        vec![
            Action::Open(by_id(100, win::GENERIC_READ, win::FILE_OPEN, 0x21)),
            Action::Open(request(16, "d", win::DELETE, win::FILE_OPEN, 0x0020_0021)),
            Action::DeleteOnClose { handle: 24 },
            Action::Close { handle: 24 },
            Action::Close { handle: 16 },
        ]
    );
    assert_eq!(out, Ok(()));
    let (actions, _) = run(unlink(1, b"f".to_vec()), &mut plain(), replies());
    assert_eq!(
        actions[1],
        Action::Open(request(16, "f", win::DELETE, win::FILE_OPEN, 0x0020_0060))
    );
    let (_, out) = run(unlink(99, b"f".to_vec()), &mut plain(), vec![]);
    assert_eq!(out, Err(os(EBADF)));
    let (_, out) = run(unlink(1, b"f".to_vec()), &mut plain(), vec![Reply::Failed(os(5))]);
    assert_eq!(out, Err(once(5)));
    let replies = vec![Reply::Handle(16), Reply::Failed(os(2)), Reply::Unit];
    let (actions, out) = run(unlink(1, b"f".to_vec()), &mut plain(), replies);
    assert_eq!(actions[2], Action::Close { handle: 16 });
    assert_eq!(out, Err(once(2)));
    let replies = vec![
        Reply::Handle(16),
        Reply::Handle(24),
        Reply::Failed(os(145)),
        Reply::Unit,
        Reply::Unit,
    ];
    assert_eq!(run(rmdir(1, b"d".to_vec()), &mut plain(), replies).1, Err(once(145)));
}

#[test]
fn files_are_created_and_stay_open() {
    let child = joined("root", "f");
    let flags = (1 | linux::LINUX_O_TRUNC) as u32;
    let (actions, out) = run(
        create(ALICE, 1, b"f".to_vec(), 0o666, true, flags, 0o7027, context()),
        &mut plain(),
        vec![
            Reply::Handle(16),
            Reply::Unit,
            Reply::Unit,
            Reply::Unit,
            Reply::Entry(entry(20, 0o100640)),
        ],
    );
    assert_eq!(
        actions,
        vec![
            Action::Open(request(
                0,
                &format!("\\??\\{}", child),
                win::GENERIC_WRITE,
                win::FILE_OVERWRITE_IF,
                0x20
            )),
            Action::WriteAds {
                handle: 16,
                suffix: text(":security.selinux"),
                data: b"ctx".to_vec(),
            },
            Action::WriteAds {
                handle: 16,
                suffix: text(":user.containers.override_stat"),
                data: b"1000:100:0100640".to_vec(),
            },
            Action::RemoveCapability { path: child },
            Action::Lookup { parent: 1, name: b"f".to_vec() },
        ]
    );
    assert_eq!(out, Ok((entry(20, 0o100640), Some(16), 0)));
}

#[test]
fn creating_fails_and_closes_the_file() {
    let op = |name: &[u8], parent| create(ALICE, parent, name.to_vec(), 0o644, true, 1, 0, None);
    assert_eq!(run(op(b"a:b", 1), &mut plain(), vec![]).1, Err(os(EINVAL)));
    assert_eq!(run(op(b"f", 99), &mut plain(), vec![]).1, Err(os(EBADF)));
    assert_eq!(run(op(b"f", 1), &mut plain(), vec![Reply::Failed(os(5))]).1, Err(once(5)));
    let replies = vec![Reply::Handle(16), Reply::Failed(os(5)), Reply::Unit];
    let (actions, out) = run(op(b"f", 1), &mut plain(), replies);
    assert_eq!(actions[2], Action::Close { handle: 16 });
    assert_eq!(out, Err(os(5)));
    let replies = vec![Reply::Handle(16), Reply::Unit, Reply::Failed(os(5)), Reply::Unit];
    let (actions, out) = run(op(b"f", 1), &mut plain(), replies);
    assert_eq!(actions[2], Action::Lookup { parent: 1, name: b"f".to_vec() });
    assert_eq!(actions[3], Action::Close { handle: 16 });
    assert_eq!(out, Err(os(5)));
}

#[test]
fn link_targets_are_read() {
    let (actions, out) = run(readlink(2), &mut plain(), vec![Reply::Text(text("a\\b"))]);
    assert_eq!(actions, vec![Action::ReadLink { path: text("root/file") }]);
    assert_eq!(out, Ok(b"a/b".to_vec()));
    assert_eq!(run(readlink(2), &mut plain(), vec![Reply::Failed(os(5))]).1, Err(once(5)));
    assert_eq!(run(readlink(99), &mut plain(), vec![]).1, Err(os(EBADF)));
}

#[test]
fn symbolic_links_are_tried_as_file_and_directory() {
    let link_path = joined("root", "l");
    let op = |secctx| symlink(ALICE, b"target".to_vec(), 1, b"l".to_vec(), secctx);
    let (actions, out) = run(
        op(context()),
        &mut plain(),
        vec![
            Reply::Failed(os(1)),
            Reply::Unit,
            Reply::Unit,
            Reply::Unit,
            Reply::Entry(entry(20, 0o120777)),
        ],
    );
    assert_eq!(
        actions,
        vec![
            Action::SymlinkFile { target: text("target"), link: link_path.clone() },
            Action::SymlinkDir { target: text("target"), link: link_path.clone() },
            Action::WriteSecctx {
                path: link_path.clone(),
                name: b"security.selinux".to_vec(),
                data: b"ctx".to_vec(),
                symlink: true,
            },
            Action::WriteOverride {
                path: link_path,
                owner: Some((1000, 100)),
                mode: Some(0o120777),
            },
            Action::Lookup { parent: 1, name: b"l".to_vec() },
        ]
    );
    assert_eq!(out, Ok(entry(20, 0o120777)));
    let replies = vec![Reply::Failed(os(1)), Reply::Failed(os(2))];
    assert_eq!(run(op(None), &mut plain(), replies).1, Err(once(2)));
    let replies = vec![Reply::Unit, Reply::Failed(os(5))];
    assert_eq!(run(op(context()), &mut plain(), replies).1, Err(os(5)));
    let replies = vec![Reply::Unit, Reply::Failed(os(5))];
    assert_eq!(run(op(None), &mut plain(), replies).1, Err(os(5)));
    let replies = vec![Reply::Unit, Reply::Unit, Reply::Failed(os(5))];
    assert_eq!(run(op(None), &mut plain(), replies).1, Err(os(5)));
    let colon = symlink(ALICE, b"t".to_vec(), 1, b"a:b".to_vec(), None);
    assert_eq!(run(colon, &mut plain(), vec![]).1, Err(os(EINVAL)));
    let lost = symlink(ALICE, b"t".to_vec(), 99, b"l".to_vec(), None);
    assert_eq!(run(lost, &mut plain(), vec![]).1, Err(os(EBADF)));
}

#[test]
fn files_are_renamed() {
    let old = joined("root", "a");
    let new = joined("root", "b");
    let op = |flags| rename(1, b"a".to_vec(), 1, b"b".to_vec(), flags);
    let (actions, out) = run(op(0), &mut plain(), vec![Reply::Unit]);
    assert_eq!(actions, vec![Action::Rename { from: old.clone(), to: new.clone() }]);
    assert_eq!(out, Ok(()));
    let (actions, out) = run(op(1), &mut plain(), vec![Reply::Failed(os(183))]);
    assert_eq!(actions, vec![Action::MoveNoReplace { from: utf16z(&old), to: utf16z(&new) }]);
    assert_eq!(out, Err(once(183)));
    let lost = rename(99, b"a".to_vec(), 1, b"b".to_vec(), 0);
    assert_eq!(run(lost, &mut plain(), vec![]).1, Err(os(EBADF)));
    let lost = rename(1, b"a".to_vec(), 99, b"b".to_vec(), 0);
    assert_eq!(run(lost, &mut plain(), vec![]).1, Err(os(EBADF)));
}

#[test]
fn files_are_exchanged_and_failures_are_undone() {
    let old = joined("root", "a");
    let new = joined("root", "b");
    let tmp = format!("{}..__exchange_tmp__", new);
    let op = || rename(1, b"a".to_vec(), 1, b"b".to_vec(), 3);
    let park = Action::Rename { from: new.clone(), to: tmp.clone() };
    let (actions, out) =
        run(op(), &mut plain(), vec![Reply::Unit, Reply::Unit, Reply::Unit]);
    assert_eq!(
        actions,
        vec![
            Action::Rename { from: new.clone(), to: tmp.clone() },
            Action::Rename { from: old.clone(), to: new.clone() },
            Action::Rename { from: tmp.clone(), to: old },
        ]
    );
    assert_eq!(out, Ok(()));
    let (actions, out) =
        run(op(), &mut plain(), vec![Reply::Unit, Reply::Failed(os(5)), Reply::Failed(os(6))]);
    assert_eq!(actions[2], Action::Rename { from: tmp, to: new });
    assert_eq!(out, Err(once(5)));
    let (actions, out) = run(op(), &mut plain(), vec![Reply::Failed(os(2))]);
    assert_eq!(actions, vec![park]);
    assert_eq!(out, Err(once(2)));
    let replies = vec![Reply::Unit, Reply::Unit, Reply::Failed(os(5))];
    assert_eq!(run(op(), &mut plain(), replies).1, Err(once(5)));
}

#[test]
fn files_get_second_names() {
    let op = || link(2, 1, b"n".to_vec());
    let (actions, out) =
        run(op(), &mut plain(), vec![Reply::Unit, Reply::Entry(entry(2, 0o100644))]);
    assert_eq!(
        actions,
        vec![
            Action::HardLink { existing: text("root/file"), new: joined("root", "n") },
            Action::Lookup { parent: 1, name: b"n".to_vec() },
        ]
    );
    assert_eq!(out, Ok(entry(2, 0o100644)));
    assert_eq!(run(op(), &mut plain(), vec![Reply::Failed(os(183))]).1, Err(once(183)));
    assert_eq!(run(op(), &mut plain(), vec![Reply::Unit, Reply::Failed(os(2))]).1, Err(os(2)));
    assert_eq!(run(link(99, 1, b"n".to_vec()), &mut plain(), vec![]).1, Err(os(EBADF)));
    assert_eq!(run(link(2, 99, b"n".to_vec()), &mut plain(), vec![]).1, Err(os(EBADF)));
}

fn reopened(access: u32) -> Action {
    Action::Reopen { inode: 2, handle: 8, desired_access: access }
}

const RW: u32 = 0xc000_0000;

#[test]
fn contents_are_read() {
    let op = || read(2, 8, 512, 4096);
    let (actions, out) =
        run(op(), &mut plain(), vec![Reply::Handle(16), Reply::Number(77), Reply::Unit]);
    assert_eq!(
        actions,
        vec![
            reopened(win::GENERIC_READ),
            Action::ReadFrom { handle: 16, size: 512, offset: 4096 },
            Action::Close { handle: 16 },
        ]
    );
    assert_eq!(out, Ok(77));
    let replies = vec![Reply::Handle(16), Reply::Failed(os(5)), Reply::Unit];
    assert_eq!(run(op(), &mut plain(), replies).1, Err(os(5)));
    assert_eq!(run(op(), &mut plain(), vec![Reply::Failed(once(6))]).1, Err(once(6).translated()));
}

#[test]
fn contents_are_written() {
    let op = |kill| passthrough_fs::ops::data::write(2, 8, 512, 4096, kill);
    let replies = || {
        vec![Reply::Flag(false), Reply::Handle(16), Reply::Number(512), Reply::Unit]
    };
    let (actions, out) = run(op(false), &mut plain(), replies());
    assert_eq!(
        actions,
        vec![
            Action::IsReadOnly { handle: 8 },
            reopened(RW),
            Action::WriteTo { handle: 16, size: 512, offset: 4096 },
            Action::Close { handle: 16 },
        ]
    );
    assert_eq!(out, Ok(512));
    let mut killed = replies();
    killed.push(Reply::Unit);
    let (actions, out) = run(op(true), &mut plain(), killed);
    assert_eq!(actions[4], Action::KillPriv { path: text("root/file") });
    assert_eq!(out, Ok(512));
    let lost = passthrough_fs::ops::data::write(99, 8, 512, 4096, true);
    assert_eq!(run(lost, &mut plain(), replies()).1, Err(os(EBADF)));
    assert_eq!(run(op(true), &mut plain(), vec![Reply::Flag(true)]).1, Err(os(EBADF)));
    let replies = vec![Reply::Flag(false), Reply::Failed(os(6))];
    assert_eq!(run(op(true), &mut plain(), replies).1, Err(once(6)));
    let replies =
        vec![Reply::Flag(false), Reply::Handle(16), Reply::Failed(os(112)), Reply::Unit];
    assert_eq!(run(op(true), &mut plain(), replies).1, Err(os(112)));
}

#[test]
fn files_are_synced() {
    let done = || vec![Reply::Flag(false), Reply::Handle(16), Reply::Unit, Reply::Unit];
    let (actions, out) = run(flush(2, 8), &mut plain(), done());
    assert_eq!(
        actions,
        vec![
            Action::IsReadOnly { handle: 8 },
            reopened(RW),
            Action::SyncAll { handle: 16 },
            Action::Close { handle: 16 },
        ]
    );
    assert_eq!(out, Ok(()));
    let (actions, _) = run(fsync(2, true, 8), &mut plain(), done());
    assert_eq!(actions[2], Action::SyncData { handle: 16 });
    let (actions, _) = run(fsync(2, false, 8), &mut plain(), done());
    assert_eq!(actions[2], Action::SyncAll { handle: 16 });
    let read_only = || vec![Reply::Flag(true)];
    assert_eq!(run(flush(2, 8), &mut plain(), read_only()).1, Ok(()));
    assert_eq!(run(fsync(2, true, 8), &mut plain(), read_only()).1, Ok(()));
    let unopened = || vec![Reply::Flag(false), Reply::Failed(os(6))];
    assert_eq!(run(flush(2, 8), &mut plain(), unopened()).1, Err(os(6)));
    assert_eq!(run(fsync(2, true, 8), &mut plain(), unopened()).1, Err(once(6)));
    let failed = vec![Reply::Flag(false), Reply::Handle(16), Reply::Failed(os(5)), Reply::Unit];
    assert_eq!(run(flush(2, 8), &mut plain(), failed).1, Err(once(5)));
}

#[test]
fn accesses_are_checked() {
    let op = |mask| access(ALICE, 2, mask);
    let attr = |mode| vec![Reply::Attr(stat(mode), Timeout { secs: 5, nanos: 0 })];
    let (actions, out) = run(op(linux::R_OK), &mut plain(), attr(0o100644));
    assert_eq!(actions, vec![Action::Getattr { inode: 2, handle: None }]);
    assert_eq!(out, Ok(()));
    assert_eq!(run(op(linux::W_OK), &mut plain(), attr(0o100644)).1, Err(os(EACCES)));
    assert_eq!(run(op(0), &mut plain(), vec![Reply::Failed(os(2))]).1, Err(os(2)));
}

#[test]
fn rooms_are_reserved() {
    let op = |offset, length| fallocate(2, 8, offset, length);
    let (actions, out) = run(
        op(100, 50),
        &mut plain(),
        vec![Reply::Flag(false), Reply::Handle(16), Reply::Number(100), Reply::Unit, Reply::Unit],
    );
    assert_eq!(actions[2], Action::HandleLength { handle: 16 });
    assert_eq!(actions[3], Action::SetLength { handle: 16, length: 150 });
    assert_eq!(actions[4], Action::Close { handle: 16 });
    assert_eq!(out, Ok(()));
    let replies =
        || vec![Reply::Flag(false), Reply::Handle(16), Reply::Number(100), Reply::Unit];
    let (actions, out) = run(op(50, 50), &mut plain(), replies());
    assert_eq!(actions[3], Action::Close { handle: 16 });
    assert_eq!(out, Ok(()));
    let replies = vec![Reply::Flag(false), Reply::Handle(16), Reply::Unit];
    let (actions, out) = run(op(u64::MAX, 1), &mut plain(), replies);
    assert_eq!(actions[2], Action::Close { handle: 16 });
    assert_eq!(out, Err(os(EFBIG)));
    assert_eq!(run(op(0, 1), &mut plain(), vec![Reply::Flag(true)]).1, Err(os(EBADF)));
    let replies = vec![Reply::Flag(false), Reply::Failed(os(6))];
    assert_eq!(run(op(0, 1), &mut plain(), replies).1, Err(once(6)));
    let replies = vec![Reply::Flag(false), Reply::Handle(16), Reply::Failed(os(6)), Reply::Unit];
    assert_eq!(run(op(0, 1), &mut plain(), replies).1, Err(once(6)));
    let replies = vec![
        Reply::Flag(false),
        Reply::Handle(16),
        Reply::Number(100),
        Reply::Failed(os(112)),
        Reply::Unit,
    ];
    assert_eq!(run(op(100, 50), &mut plain(), replies).1, Err(once(112)));
}

#[test]
fn positions_are_found() {
    for whence in [0, 1, 3] {
        let (actions, out) = run(lseek(2, 8, 77, whence), &mut plain(), vec![]);
        assert_eq!((actions, out), (vec![], Ok(77)));
    }
    let replies = || vec![Reply::Handle(16), Reply::Number(100), Reply::Unit];
    let (actions, out) = run(lseek(2, 8, 7, linux::SEEK_END), &mut plain(), replies());
    assert_eq!(
        actions,
        vec![
            reopened(win::FILE_READ_ATTRIBUTES),
            Action::HandleLength { handle: 16 },
            Action::Close { handle: 16 },
        ]
    );
    assert_eq!(out, Ok(107));
    let back = (-30i64) as u64;
    assert_eq!(run(lseek(2, 8, back, 2), &mut plain(), replies()).1, Ok(70));
    assert_eq!(run(lseek(2, 8, 7, 4), &mut plain(), replies()).1, Ok(100));
    assert_eq!(run(lseek(2, 8, 7, 5), &mut plain(), vec![]).1, Err(os(EINVAL)));
    assert_eq!(run(lseek(2, 8, 7, 2), &mut plain(), vec![Reply::Failed(os(6))]).1, Err(once(6)));
    let replies = vec![Reply::Handle(16), Reply::Failed(os(6)), Reply::Unit];
    assert_eq!(run(lseek(2, 8, 7, 4), &mut plain(), replies).1, Err(once(6)));
}

#[test]
fn files_are_mapped() {
    let op = |foffset, flags, moffset| {
        setupmapping(2, 8, foffset, 0x1000, flags, moffset, 0x7000_0000, 0x10_0000)
    };
    let (actions, out) = run(
        op(0x3_0001_0000, 1, 0x2000),
        &mut plain(),
        vec![
            Reply::Word(0x1_0000),
            Reply::Handle(16),
            Reply::Handle(24),
            Reply::Unit,
            Reply::Unit,
            Reply::Unit,
        ],
    );
    assert_eq!(
        actions,
        vec![
            Action::Granularity,
            reopened(win::GENERIC_READ),
            Action::CreateMapping { handle: 16, page_flags: win::PAGE_READWRITE },
            Action::MapView {
                mapping: 24,
                map_flags: win::FILE_MAP_READ | win::FILE_MAP_WRITE,
                offset_high: 3,
                offset_low: 0x1_0000,
                length: 0x1000,
                address: 0x7000_2000,
            },
            Action::Close { handle: 24 },
            Action::Close { handle: 16 },
        ]
    );
    assert_eq!(out, Ok(()));
    let replies = vec![
        Reply::Word(0x1_0000),
        Reply::Handle(16),
        Reply::Handle(24),
        Reply::Failed(os(487)),
        Reply::Unit,
        Reply::Unit,
    ];
    let (actions, out) = run(op(0, 0, 0), &mut plain(), replies);
    assert_eq!(
        actions[2],
        Action::CreateMapping { handle: 16, page_flags: win::PAGE_READONLY }
    );
    assert!(matches!(actions[3], Action::MapView { map_flags: win::FILE_MAP_READ, .. }));
    assert_eq!(out, Err(os(487)));
}

#[test]
fn mappings_are_refused() {
    let op = |foffset, moffset| {
        setupmapping(2, 8, foffset, 0x1000, 0, moffset, 0x7000_0000, 0x10_0000)
    };
    let gran = || vec![Reply::Word(0x1_0000)];
    assert_eq!(run(op(1, 0), &mut plain(), gran()).1, Err(os(EINVAL)));
    assert_eq!(run(op(0, 0x10_0000), &mut plain(), gran()).1, Err(os(EINVAL)));
    assert_eq!(run(op(0, 0xffff_ffff_ffff_0000), &mut plain(), gran()).1, Err(os(EINVAL)));
    assert_eq!(run(op(0, u64::MAX), &mut plain(), gran()).1, Err(os(EINVAL)));
    let high = setupmapping(2, 8, 0, 0x1000, 0, 0x2000, u64::MAX - 0x1000, 0x10_0000);
    assert_eq!(run(high, &mut plain(), gran()).1, Err(os(EINVAL)));
    let edge = setupmapping(2, 8, 0, 0x1000, 0, 0xf_f000, 0x7000_0000, 0x10_0000);
    assert_eq!(run(edge, &mut plain(), vec![Reply::Word(1), Reply::Failed(os(6))]).1, Err(once(6)));
    let replies = vec![Reply::Word(0x1_0000), Reply::Failed(os(6))];
    assert_eq!(run(op(0, 0), &mut plain(), replies).1, Err(once(6)));
    let replies = vec![Reply::Word(1), Reply::Handle(16), Reply::Failed(os(5)), Reply::Unit];
    let (actions, out) = run(op(0, 0), &mut plain(), replies);
    assert_eq!(actions[3], Action::Close { handle: 16 });
    assert_eq!(out, Err(os(5)));
}

#[test]
fn mappings_are_removed_until_one_fails() {
    let one = |moffset, len| RemovemappingOne { moffset, len };
    let op = |requests| removemapping(requests, 0x7000_0000, 0x10_0000);
    let (actions, out) = run(
        op(vec![one(0, 0x1000), one(0x2000, 0x1000)]),
        &mut plain(),
        vec![Reply::Unit, Reply::Unit],
    );
    assert_eq!(
        actions,
        vec![Action::Unmap { address: 0x7000_0000 }, Action::Unmap { address: 0x7000_2000 }]
    );
    assert_eq!(out, Ok(()));
    let (actions, out) =
        run(op(vec![one(0, 1), one(0x10_0000, 1)]), &mut plain(), vec![Reply::Unit]);
    assert_eq!(actions.len(), 1);
    assert_eq!(out, Err(os(EINVAL)));
    let (_, out) = run(op(vec![one(0, 1), one(1, 1)]), &mut plain(), vec![Reply::Failed(os(487))]);
    assert_eq!(out, Err(os(487)));
    let (actions, out) =
        run(op(vec![one(0, 1), one(u64::MAX, 1)]), &mut plain(), vec![Reply::Unit]);
    assert_eq!((actions.len(), out), (1, Err(os(EINVAL))));
    assert_eq!(run(op(vec![]), &mut plain(), vec![]).1, Ok(()));
}

fn attr_reply() -> Reply {
    Reply::Attr(stat(0o100644), Timeout { secs: 5, nanos: 0 })
}

#[test]
fn owner_and_mode_are_recorded() {
    let attr = Stat64 { st_uid: 5, st_gid: 6, st_mode: 0o100600, ..stat(0) };
    let read = Action::ReadOverride { path: text("root/file") };
    let got = Action::Getattr { inode: 2, handle: None };
    let before = || Reply::Override(ov(Some(1), Some(2), Some(0o104755)));

    let (actions, out) = run(
        setattr(2, attr, None, linux::SETATTR_MODE),
        &mut plain(),
        vec![before(), Reply::Unit, attr_reply()],
    );
    assert_eq!(
        actions,
        vec![
            read,
            Action::WriteOverride {
                path: text("root/file"),
                owner: Some((1, 2)),
                mode: Some(0o100600),
            },
            got,
        ]
    );
    assert_eq!(out, Ok((stat(0o100644), Timeout { secs: 5, nanos: 0 })));

    let (actions, _) = run(
        setattr(2, attr, None, linux::SETATTR_UID),
        &mut plain(),
        vec![before(), Reply::Unit, Reply::Unit, attr_reply()],
    );
    assert_eq!(actions[1], Action::RemoveCapability { path: text("root/file") });
    assert_eq!(
        actions[2],
        Action::WriteOverride {
            path: text("root/file"),
            owner: Some((5, 2)),
            mode: Some(0o100755),
        }
    );

    let (actions, _) = run(
        setattr(2, attr, None, linux::SETATTR_GID | linux::SETATTR_MODE),
        &mut plain(),
        vec![Reply::Override(ov(None, None, None)), Reply::Unit, Reply::Unit, attr_reply()],
    );
    assert_eq!(
        actions[2],
        Action::WriteOverride { path: text("root/file"), owner: None, mode: Some(0o100600) }
    );
}

#[test]
fn sizes_are_set_and_privileges_removed() {
    let attr = Stat64 { st_size: 10, ..stat(0) };
    let (actions, _) = run(
        setattr(2, attr, None, linux::SETATTR_SIZE),
        &mut plain(),
        vec![
            Reply::Override(ov(Some(1), Some(2), Some(0o102755))),
            Reply::Handle(16),
            Reply::Unit,
            Reply::Unit,
            Reply::Unit,
            Reply::Unit,
            attr_reply(),
        ],
    );
    assert_eq!(actions[1], Action::OpenWrite { path: text("root/file") });
    assert_eq!(actions[2], Action::SetLength { handle: 16, length: 10 });
    assert_eq!(actions[3], Action::Close { handle: 16 });
    assert_eq!(actions[4], Action::RemoveCapability { path: text("root/file") });
    assert_eq!(
        actions[5],
        Action::WriteOverride {
            path: text("root/file"),
            owner: Some((1, 2)),
            mode: Some(0o100755),
        }
    );
    let (actions, _) = run(
        setattr(2, attr, Some(8), linux::SETATTR_SIZE),
        &mut plain(),
        vec![
            Reply::Override(ov(Some(1), Some(2), Some(0o755))),
            Reply::Flag(false),
            Reply::Handle(16),
            Reply::Unit,
            Reply::Unit,
            Reply::Unit,
            attr_reply(),
        ],
    );
    assert_eq!(actions[1], Action::IsReadOnly { handle: 8 });
    assert_eq!(actions[2], reopened(RW));
    assert_eq!(actions[6], Action::Getattr { inode: 2, handle: Some(8) });
}

#[test]
fn times_are_chosen() {
    let attr = Stat64 { st_atime: 1, st_atime_nsec: 100, st_mtime: 2, ..stat(0) };
    let now = || Reply::Time { secs: 3, nsec: 0 };
    let set = |valid| {
        let replies =
            vec![Reply::Override(ov(None, None, None)), now(), Reply::Unit, attr_reply()];
        let (mut actions, _) = run(setattr(2, attr, None, valid), &mut plain(), replies);
        assert_eq!(actions[1], Action::Now);
        actions.remove(2)
    };
    let epoch = 116_444_736_000_000_000;
    let times = |atime, mtime| Action::SetFileTimes { path: text("root/file"), atime, mtime };
    assert_eq!(
        set(linux::SETATTR_ATIME | linux::SETATTR_MTIME),
        times(Some(epoch + 10_000_001), Some(epoch + 20_000_000))
    );
    assert_eq!(
        set(linux::SETATTR_ATIME | linux::SETATTR_ATIME_NOW),
        times(Some(epoch + 30_000_000), None)
    );
    assert_eq!(set(linux::SETATTR_MTIME_NOW), times(None, Some(epoch + 30_000_000)));
}

#[test]
fn setting_attributes_fails() {
    let attr = stat(0o600);
    let none = || Reply::Override(ov(None, None, None));
    assert_eq!(run(setattr(99, attr, None, 0), &mut plain(), vec![]).1, Err(os(EBADF)));
    let replies = vec![none(), Reply::Failed(os(5))];
    assert_eq!(run(setattr(2, attr, None, 1), &mut plain(), replies).1, Err(os(5)));
    let replies = vec![none(), Reply::Flag(true)];
    assert_eq!(run(setattr(2, attr, Some(8), 8), &mut plain(), replies).1, Err(os(EBADF)));
    let replies = vec![none(), Reply::Failed(os(5))];
    assert_eq!(run(setattr(2, attr, None, 8), &mut plain(), replies).1, Err(once(5)));
    let replies = vec![none(), Reply::Handle(16), Reply::Failed(os(5)), Reply::Unit];
    let (actions, out) = run(setattr(2, attr, None, 8), &mut plain(), replies);
    assert_eq!(actions[3], Action::Close { handle: 16 });
    assert_eq!(out, Err(once(5)));
    let replies = vec![none(), Reply::Time { secs: 0, nsec: 0 }, Reply::Failed(once(5))];
    let (_, out) = run(setattr(2, attr, None, 0x100), &mut plain(), replies);
    assert_eq!(out, Err(once(5).translated()));
    let replies = vec![none(), Reply::Failed(os(2))];
    assert_eq!(run(setattr(2, attr, None, 0), &mut plain(), replies).1, Err(os(2)));
    let far = Stat64 { st_atime: i64::MAX, ..attr };
    let replies = vec![none(), Reply::Time { secs: 0, nsec: 0 }];
    let out = run(setattr(2, far, None, linux::SETATTR_ATIME), &mut plain(), replies).1;
    assert_eq!(out, Err(os(EINVAL)));
    let both = linux::SETATTR_ATIME | linux::SETATTR_SIZE;
    let out = run(setattr(2, far, Some(8), both), &mut plain(), vec![none(), Reply::Flag(true)]).1;
    assert_eq!(out, Err(os(EBADF)));
    assert_eq!(run(setattr(99, far, None, both), &mut plain(), vec![]).1, Err(os(EBADF)));
}

fn stream() -> String {
    text("root/file:user.x")
}

#[test]
fn extended_attributes_are_set() {
    let op = |flags| setxattr(2, b"user.x".to_vec(), b"v".to_vec(), flags);
    let written = Action::WriteFile { path: stream(), data: b"v".to_vec() };
    let (actions, out) = run(op(0), &mut with_xattr(), vec![Reply::Unit]);
    assert_eq!(actions, vec![written]);
    assert_eq!(out, Ok(()));
    let asked = Action::Exists { path: stream() };
    let (actions, out) = run(op(1), &mut with_xattr(), vec![Reply::Flag(true)]);
    assert_eq!(actions, vec![asked]);
    assert_eq!(out, Err(os(EEXIST)));
    let replies = vec![Reply::Flag(false), Reply::Unit];
    assert_eq!(run(op(1), &mut with_xattr(), replies).1, Ok(()));
    assert_eq!(run(op(2), &mut with_xattr(), vec![Reply::Flag(false)]).1, Err(os(ENODATA)));
    let replies = vec![Reply::Flag(true), Reply::Unit];
    assert_eq!(run(op(2), &mut with_xattr(), replies).1, Ok(()));
    let replies = vec![Reply::Flag(false), Reply::Flag(false)];
    assert_eq!(run(op(3), &mut with_xattr(), replies).1, Err(os(ENODATA)));
    assert_eq!(run(op(0), &mut with_xattr(), vec![Reply::Failed(os(5))]).1, Err(once(5)));
}

#[test]
fn extended_attributes_are_got() {
    let op = |size| getxattr(2, b"user.x".to_vec(), size);
    let bytes = || vec![Reply::Bytes(b"value".to_vec())];
    let (actions, out) = run(op(0), &mut with_xattr(), bytes());
    assert_eq!(actions, vec![Action::ReadFile { path: stream() }]);
    assert_eq!(out, Ok(XattrReply::Count(5)));
    assert_eq!(run(op(4), &mut with_xattr(), bytes()).1, Err(os(ERANGE)));
    assert_eq!(run(op(5), &mut with_xattr(), bytes()).1, Ok(XattrReply::Data(b"value".to_vec())));
    assert_eq!(run(op(5), &mut with_xattr(), vec![Reply::Failed(os(2))]).1, Err(os(ENODATA)));
    assert_eq!(run(op(5), &mut with_xattr(), vec![Reply::Failed(os(5))]).1, Err(once(5)));
}

#[test]
fn extended_attributes_are_removed() {
    let op = || removexattr(2, b"user.x".to_vec());
    let (actions, out) = run(op(), &mut with_xattr(), vec![Reply::Unit]);
    assert_eq!(actions, vec![Action::RemoveFile { path: stream() }]);
    assert_eq!(out, Ok(()));
    assert_eq!(run(op(), &mut with_xattr(), vec![Reply::Failed(os(3))]).1, Err(os(ENODATA)));
    assert_eq!(run(op(), &mut with_xattr(), vec![Reply::Failed(os(5))]).1, Err(once(5)));
}

#[test]
fn extended_attributes_are_listed() {
    let names = || {
        vec![Reply::Names(vec![text("user.x"), text("security.capability"), text("user.y")])]
    };
    let (actions, out) = run(listxattr(2, 0), &mut with_xattr(), names());
    assert_eq!(actions, vec![Action::ListStreams { path: text("root/file") }]);
    assert_eq!(out, Ok(XattrReply::Count(14)));
    let (_, out) = run(listxattr(2, 14), &mut with_xattr(), names());
    assert_eq!(out, Ok(XattrReply::Data(b"user.x\0user.y\0".to_vec())));
    assert_eq!(run(listxattr(2, 13), &mut with_xattr(), names()).1, Err(os(ERANGE)));
    let (_, out) = run(listxattr(2, 13), &mut with_xattr(), vec![Reply::Failed(os(5))]);
    assert_eq!(out, Ok(XattrReply::Data(vec![])));
    assert_eq!(run(listxattr(99, 0), &mut with_xattr(), vec![]).1, Err(os(EBADF)));
    assert_eq!(run(listxattr(2, 0), &mut plain(), vec![]).1, Err(os(ENOSYS)));
}

#[test]
fn protected_attributes_are_refused() {
    for name in [&b"user.containers.override_stat"[..], &b"security.capability"[..]] {
        let set = setxattr(2, name.to_vec(), vec![], 0);
        assert_eq!(run(set, &mut with_xattr(), vec![]).1, Err(os(EACCES)));
        let get = getxattr(2, name.to_vec(), 0);
        assert_eq!(run(get, &mut with_xattr(), vec![]).1, Err(os(EACCES)));
        let remove = removexattr(2, name.to_vec());
        assert_eq!(run(remove, &mut with_xattr(), vec![]).1, Err(os(EACCES)));
        let off = getxattr(2, name.to_vec(), 0);
        assert_eq!(run(off, &mut plain(), vec![]).1, Err(os(ENOSYS)));
    }
    let lost = getxattr(99, b"user.x".to_vec(), 0);
    assert_eq!(run(lost, &mut with_xattr(), vec![]).1, Err(os(EBADF)));
}

#[test]
fn attributes_and_records_read_back() {
    let (actions, _) =
        run(setxattr(2, b"user.x".to_vec(), b"v".to_vec(), 0), &mut with_xattr(), vec![Reply::Unit]);
    let (to, data) = match &actions[0] {
        Action::WriteFile { path, data } => (path.clone(), data.clone()),
        other => panic!("{:?}", other),
    };
    let (actions, out) =
        run(getxattr(2, b"user.x".to_vec(), 9), &mut with_xattr(), vec![Reply::Bytes(data)]);
    assert_eq!(actions, vec![Action::ReadFile { path: to }]);
    assert_eq!(out, Ok(XattrReply::Data(b"v".to_vec())));

    let before = ov(Some(1), Some(2), Some(0o644));
    let op = write_override_stat(text("p"), Some((9, u32::MAX)), None);
    let (actions, _) = run(op, &mut plain(), vec![Reply::Override(before), Reply::Unit]);
    let (to, data) = match &actions[1] {
        Action::WriteFile { path, data } => (path.clone(), data.clone()),
        other => panic!("{:?}", other),
    };
    let (actions, out) =
        run(read_override_stat(text("p")), &mut plain(), vec![Reply::Bytes(data)]);
    assert_eq!(actions, vec![Action::ReadFile { path: to }]);
    assert_eq!(out, ov(Some(9), Some(2), Some(0o644)));
}

/// How often handles are opened, less how often they are closed.
fn open_handles(actions: &[Action], replies: usize, handed: i32) -> i32 {
    let opened = actions
        .iter()
        .take(replies)
        .filter(|a| {
            matches!(
                a,
                Action::Open(_)
                    | Action::OpenWrite { .. }
                    | Action::Duplicate { .. }
                    | Action::CreateMapping { .. }
                    | Action::Reopen { .. }
            )
        })
        .count() as i32;
    let closed = actions.iter().filter(|a| matches!(a, Action::Close { .. })).count() as i32;
    opened - closed - handed
}

#[test]
fn operations_give_everything_back() {
    let replies = vec![
        Reply::Handle(16),
        Reply::Handle(24),
        Reply::Unit,
        Reply::Failed(os(2)),
        Reply::Unit,
        Reply::Unit,
    ];
    let op = mknod(ALICE, 1, b"p".to_vec(), 0o010666, 0o022, None);
    let (actions, _) = run(op, &mut plain(), replies);
    assert_eq!(open_handles(&actions, 6, 0), 0);
    let replies = vec![Reply::Handle(16), Reply::Unit, Reply::Entry(entry(20, 0o100644))];
    let op = create(ALICE, 1, b"f".to_vec(), 0o644, false, 1, 0, None);
    let (actions, out) = run(op, &mut plain(), replies);
    assert!(out.is_ok());
    assert_eq!(open_handles(&actions, 3, 1), 0);
}

#[test]
fn exchanged_names_keep_their_directory() {
    use_exchange("a/b.c/name", "a/b.c/name..__exchange_tmp__");
    use_exchange("a/.hidden", "a/.hidden..__exchange_tmp__");
    use_exchange("a/x.y.z", "a/x.y..__exchange_tmp__");
}

fn use_exchange(path: &str, parked: &str) {
    assert_eq!(passthrough_fs::path::exchange_path(path), parked);
}
