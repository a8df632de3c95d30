//! The state of the file system.

use crate::config::{CachePolicy, Config, Timeout};
use crate::dir::CachedDirEntry;
use crate::errno::{EBADF, FsError};
use crate::inode::{all_forgotten, forget_one, forgotten, InodeAllocator, InodeData, InodeTable};
use crate::linux::{OPEN_CACHE_DIR, OPEN_DIRECT_IO, OPEN_KEEP_CACHE};
use crate::stat::Stat64;
use std::collections::BTreeMap;
use vstd::prelude::*;

verus! {

/// What the guest learns of a file when it looks it up.
#[derive(Clone, Copy, Debug, PartialEq, Eq, Structural)]
pub struct Entry {
    pub inode: u64,
    pub generation: u64,
    pub attr: Stat64,
    pub attr_flags: u32,
    pub attr_timeout: Timeout,
    pub entry_timeout: Timeout,
}

/// A security context that the guest gives a new file.
#[derive(Debug)]
pub struct SecContext {
    pub name: Vec<u8>,
    pub secctx: Vec<u8>,
}

/// The file system that is served to the guest.
pub struct PassthroughFs {
    pub inodes: InodeTable,
    pub inode_alloc: InodeAllocator,
    /// The number of the next directory handle.
    pub next_handle: u64,
    /// The listings of the open directories, by handle.
    pub dir_caches: BTreeMap<u64, Vec<CachedDirEntry>>,
    /// A handle to the root directory, which is kept open so that files can be opened by
    /// their index.
    pub root_handle: u64,
    pub writeback: bool,
    pub announce_submounts: bool,
    pub cfg: Config,
}

/// The bit that tells the handle of a directory from that of a file. A handle of the
/// host is an address in the lower half of the address space and has it clear.
pub const DIR_TAG: u64 = 0x8000_0000_0000_0000;

/// Whether a handle of the guest stands for a directory.
pub open spec fn is_dir_handle(handle: u64) -> bool {
    handle & DIR_TAG != 0
}

/// Whether a handle of the guest is a handle of the host.
pub open spec fn is_file_handle(handle: u64) -> bool {
    handle != 0 && !is_dir_handle(handle)
}

/// Whether a handle of the guest is a handle of the host.
pub fn names_file(handle: u64) -> (r: bool)
    ensures
        r == is_file_handle(handle),
{
    handle != 0 && (handle & DIR_TAG) == 0
}

/// The options with which a file is opened.
pub open spec fn file_options(policy: CachePolicy) -> u32 {
    match policy {
        CachePolicy::Never => OPEN_DIRECT_IO,
        CachePolicy::Always => OPEN_KEEP_CACHE,
        CachePolicy::Auto => 0,
    }
}

pub fn file_open_options(policy: CachePolicy) -> (r: u32)
    ensures
        r == file_options(policy),
{
    match policy {
        CachePolicy::Never => OPEN_DIRECT_IO,
        CachePolicy::Always => OPEN_KEEP_CACHE,
        CachePolicy::Auto => 0,
    }
}

/// The options with which a directory is opened.
pub open spec fn dir_options(policy: CachePolicy) -> u32 {
    match policy {
        CachePolicy::Always => OPEN_CACHE_DIR,
        _ => 0,
    }
}

pub fn dir_open_options(policy: CachePolicy) -> (r: u32)
    ensures
        r == dir_options(policy),
{
    match policy {
        CachePolicy::Always => OPEN_CACHE_DIR,
        _ => 0,
    }
}

impl PassthroughFs {
    pub open spec fn wf(self) -> bool {
        self.inodes.wf()
    }

    /// A file system that serves an open root directory.
    pub open spec fn is_fresh(self, cfg: Config, inode_alloc: InodeAllocator, root: u64) -> bool {
        &&& self.inodes@ == Map::<u64, InodeData>::empty()
        &&& self.inode_alloc == inode_alloc
        &&& self.next_handle == 1
        &&& self.dir_caches@ == Map::<u64, Vec<CachedDirEntry>>::empty()
        &&& self.root_handle == root
        &&& !self.writeback
        &&& !self.announce_submounts
        &&& self.cfg == cfg
    }

    /// What comes of the outcome of opening a root directory: a file system that serves it,
    /// or the error.
    pub open spec fn is_made(
        r: Result<PassthroughFs, FsError>,
        cfg: Config,
        inode_alloc: InodeAllocator,
        opened: Result<u64, FsError>,
    ) -> bool {
        match opened {
            Ok(root) => r matches Ok(fs) && fs.wf() && fs.is_fresh(cfg, inode_alloc, root),
            Err(e) => r matches Err(f) && f == e,
        }
    }

    /// Makes a file system from the outcome of opening its root directory.
    pub fn new(cfg: Config, inode_alloc: InodeAllocator, opened: Result<u64, FsError>) -> (r: Result<
        PassthroughFs,
        FsError,
    >)
        ensures
            PassthroughFs::is_made(r, cfg, inode_alloc, opened),
    {
        match opened {
            Ok(root_handle) => Ok(
                PassthroughFs {
                    inodes: InodeTable::new(),
                    inode_alloc,
                    next_handle: 1,
                    dir_caches: BTreeMap::new(),
                    root_handle,
                    writeback: false,
                    announce_submounts: false,
                    cfg,
                },
            ),
            Err(e) => Err(e),
        }
    }

    /// Whether the guest knows a file.
    pub open spec fn knows(self, inode: u64) -> bool {
        self.inodes@.contains_key(inode)
    }

    /// The path of a file that the guest knows.
    pub open spec fn path_of(self, inode: u64) -> Seq<char> {
        self.inodes@[inode].path@
    }

    /// The index of a file that the guest knows.
    pub open spec fn index_of(self, inode: u64) -> u64 {
        self.inodes@[inode].file_index
    }

    pub fn inode_data(&self, inode: u64) -> (r: Result<&InodeData, FsError>)
        requires
            self.wf(),
        ensures
            match r {
                Ok(d) => self.knows(inode) && *d == self.inodes@[inode] && d.wf(),
                Err(e) => !self.knows(inode) && e == FsError::linux(EBADF),
            },
    {
        match self.inodes.get(inode) {
            Some(d) => Ok(d),
            None => Err(FsError::errno(EBADF)),
        }
    }

    pub fn inode_path(&self, inode: u64) -> (r: Result<String, FsError>)
        requires
            self.wf(),
        ensures
            match r {
                Ok(p) => self.knows(inode) && p@ == self.path_of(inode),
                Err(e) => !self.knows(inode) && e == FsError::linux(EBADF),
            },
    {
        match self.inode_data(inode) {
            Ok(d) => Ok(d.get_path().clone()),
            Err(e) => Err(e),
        }
    }

    /// Forgets references of the guest to a file.
    pub fn forget(&mut self, inode: u64, count: u64)
        requires
            old(self).wf(),
        ensures
            final(self).wf(),
            final(self).inodes@ == forgotten(old(self).inodes@, inode, count),
            *final(self) == (PassthroughFs { inodes: final(self).inodes, ..*old(self) }),
    {
        forget_one(&mut self.inodes, inode, count);
    }

    /// Forgets references of the guest to several files, one after the other.
    pub fn batch_forget(&mut self, requests: &[(u64, u64)])
        requires
            old(self).wf(),
        ensures
            final(self).wf(),
            final(self).inodes@ == all_forgotten(old(self).inodes@, requests@),
            *final(self) == (PassthroughFs { inodes: final(self).inodes, ..*old(self) }),
    {
        let mut i: usize = 0;
        assert(requests@.take(0) =~= Seq::empty());
        while i < requests.len()
            invariant
                i <= requests.len(),
                self.wf(),
                self.inodes@ == all_forgotten(old(self).inodes@, requests@.take(i as int)),
                *self == (PassthroughFs { inodes: self.inodes, ..*old(self) }),
            decreases requests.len() - i,
        {
            let (inode, count): (u64, u64) = requests[i];
            forget_one(&mut self.inodes, inode, count);
            assert(requests@.take(i + 1).drop_last() =~= requests@.take(i as int));
            i += 1;
        }
        assert(requests@.take(i as int) =~= requests@);
    }
}

/// The handle of a directory is never that of a file.
pub proof fn law_dir_handles_are_no_file_handles(dir: u64, file: u64)
    requires
        is_dir_handle(dir),
        is_file_handle(file),
    ensures
        dir != file,
{
}

} // verus!
