//! The files that the guest knows.

use passthrough_fs::inode::{forget_one, InodeAllocator, InodeAltKey, InodeData, InodeTable};

fn key(file_index: u64, volume_serial: u32) -> InodeAltKey {
    InodeAltKey { file_index, volume_serial }
}

fn data(inode: u64, k: InodeAltKey, refcount: u64) -> InodeData {
    InodeData::new(inode, 1, k, "p", refcount)
}

#[test]
fn files_are_found_by_number_and_identity() {
    let mut t = InodeTable::new();
    t.insert(data(1, key(10, 1), 1));
    t.insert(data(2, key(10, 2), 1));
    assert_eq!(t.get(1).unwrap().file_index, 10);
    assert_eq!(t.get_alt(key(10, 1)), Some(1));
    assert_eq!(t.get_alt(key(10, 2)), Some(2));
    assert_eq!(t.get_alt(key(11, 1)), None);
    assert!(t.get(3).is_none());
    t.remove(1);
    assert_eq!(t.get_alt(key(10, 1)), None);
    assert!(t.get(1).is_none());
    t.clear();
    assert_eq!(t.get_alt(key(10, 2)), None);
}

#[test]
fn inserting_replaces_number_and_identity() {
    let mut t = InodeTable::new();
    t.insert(data(1, key(10, 1), 1));
    t.insert(data(2, key(20, 1), 1));
    t.insert(data(1, key(20, 1), 5));
    assert_eq!(t.get(1).unwrap().refcount, 5);
    assert!(t.get(2).is_none());
    assert_eq!(t.get_alt(key(20, 1)), Some(1));
    assert_eq!(t.get_alt(key(10, 1)), None);
}

#[test]
fn references_are_counted() {
    let mut t = InodeTable::new();
    let mut alloc = InodeAllocator::new(5);
    assert_eq!(t.add_reference(key(1, 1), 1, "a", &mut alloc), 5);
    assert_eq!(t.add_reference(key(2, 1), 1, "b", &mut alloc), 6);
    assert_eq!(t.add_reference(key(1, 1), 9, "c", &mut alloc), 5);
    let d = t.get(5).unwrap();
    assert_eq!((d.refcount, d.parent_inode, d.get_path().as_str()), (2, 1, "c"));
    assert_eq!(alloc.next_inode, 7);
}

#[test]
fn numbers_wrap() {
    let mut alloc = InodeAllocator::new(u64::MAX);
    assert_eq!(alloc.next(), u64::MAX);
    assert_eq!(alloc.next(), 0);
    let mut t = InodeTable::new();
    t.insert(data(2, key(1, 1), u64::MAX));
    t.add_reference(key(1, 1), 1, "p", &mut alloc);
    assert_eq!(t.get(2).unwrap().refcount, 0);
}

#[test]
fn forgetting_does_not_underflow() {
    let mut t = InodeTable::new();
    t.insert(data(2, key(1, 1), 3));
    t.insert(data(3, key(2, 1), 3));
    forget_one(&mut t, 2, 1);
    assert_eq!(t.get(2).unwrap().refcount, 2);
    forget_one(&mut t, 2, u64::MAX);
    assert!(t.get(2).is_none());
    assert_eq!(t.get_alt(key(1, 1)), None);
    forget_one(&mut t, 2, 1);
    assert_eq!(t.get(3).unwrap().refcount, 3);
}

#[test]
fn forgetting_in_parts_is_forgetting_at_once() {
    let mut a = InodeTable::new();
    let mut b = InodeTable::new();
    a.insert(data(2, key(1, 1), 9));
    b.insert(data(2, key(1, 1), 9));
    forget_one(&mut a, 2, 3);
    forget_one(&mut a, 2, 4);
    forget_one(&mut b, 2, 7);
    assert_eq!(a.get(2).unwrap().refcount, b.get(2).unwrap().refcount);
}

#[test]
fn a_reference_that_is_forgotten_leaves_no_trace() {
    let mut t = InodeTable::new();
    let mut alloc = InodeAllocator::new(5);
    let inode = t.add_reference(key(1, 1), 1, "a", &mut alloc);
    forget_one(&mut t, inode, 1);
    assert!(t.get(inode).is_none());
    assert_eq!(t.get_alt(key(1, 1)), None);
}

#[test]
fn paths_are_brought_up_to_date() {
    let mut d = data(2, key(1, 1), 1);
    d.update_path_if_changed("a/b");
    assert_eq!(d.get_path(), "a/b");
    assert_eq!(d.get_wide_path(), &vec![0x61, 0x2f, 0x62, 0]);
    d.update_path_if_changed("a//b");
    assert_eq!(d.get_path(), "a/b");
    d.update_path_if_changed("c/b");
    assert_eq!(d.get_path(), "c/b");
    d.update_path_if_changed("a/b");
    d.update_path(false, "c");
    assert_eq!(d.get_path(), "a/b");
    d.update_path(true, "c");
    assert_eq!(d.get_path(), "c");
    assert_eq!(d.get_wide_path(), &vec![0x63, 0]);
}

#[test]
fn spellings_of_one_path_are_kept() {
    let mut d = data(2, key(1, 1), 1);
    for (kept, same) in [
        ("/srv/a", "/srv//a"),
        ("/srv/a", "/srv/a/"),
        ("/srv/a", "/srv/./a/."),
        ("C:/srv/a", "C:/srv//a"),
        ("C:\\srv/a", "C:\\srv/./a"),
        (".x/a", ".x//a"),
    ] {
        d.update_path(true, kept);
        d.update_path_if_changed(same);
        assert_eq!(d.get_path(), kept);
    }
    for (kept, other) in [("a", "/a"), ("./a", "a"), ("a", "A"), ("a/..", "a"), ("C:/a", "D:/a")] {
        d.update_path(true, kept);
        d.update_path_if_changed(other);
        assert_eq!(d.get_path(), other);
        d.update_path_if_changed(other);
        assert_eq!(d.get_path(), other);
    }
}
