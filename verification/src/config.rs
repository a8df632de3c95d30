//! Options that configure the behaviour of the file system.

use crate::text::str_eq;
use std::str::FromStr;
use vstd::prelude::*;

verus! {

/// How far the guest may cache what it reads.
#[derive(Clone, Copy, Debug, PartialEq, Eq, Structural)]
pub enum CachePolicy {
    /// The guest does not cache files.
    Never,
    /// The guest decides.
    Auto,
    /// The guest keeps what it has cached.
    Always,
}

impl Default for CachePolicy {
    fn default() -> (r: CachePolicy)
        ensures
            r == CachePolicy::Auto,
    {
        CachePolicy::Auto
    }
}

/// Why a text is no cache policy.
pub const INVALID_CACHE_POLICY: &'static str = "invalid cache policy";

/// The policy that a text names: the name in lower case, capitalised or in upper case.
pub open spec fn policy_named(s: Seq<char>) -> Option<CachePolicy> {
    if s == "never"@ || s == "Never"@ || s == "NEVER"@ {
        Some(CachePolicy::Never)
    } else if s == "auto"@ || s == "Auto"@ || s == "AUTO"@ {
        Some(CachePolicy::Auto)
    } else if s == "always"@ || s == "Always"@ || s == "ALWAYS"@ {
        Some(CachePolicy::Always)
    } else {
        None
    }
}

impl CachePolicy {
    /// Reads a policy from its name.
    pub fn parse(s: &str) -> (r: Result<CachePolicy, &'static str>)
        ensures
            match policy_named(s@) {
                Some(p) => r == Ok::<CachePolicy, &'static str>(p),
                None => r == Err::<CachePolicy, &'static str>(INVALID_CACHE_POLICY),
            },
    {
        if str_eq(s, "never") || str_eq(s, "Never") || str_eq(s, "NEVER") {
            Ok(CachePolicy::Never)
        } else if str_eq(s, "auto") || str_eq(s, "Auto") || str_eq(s, "AUTO") {
            Ok(CachePolicy::Auto)
        } else if str_eq(s, "always") || str_eq(s, "Always") || str_eq(s, "ALWAYS") {
            Ok(CachePolicy::Always)
        } else {
            Err(INVALID_CACHE_POLICY)
        }
    }
}

impl FromStr for CachePolicy {
    type Err = &'static str;

    fn from_str(s: &str) -> (r: Result<CachePolicy, &'static str>)
        ensures
            match policy_named(s@) {
                Some(p) => r == Ok::<CachePolicy, &'static str>(p),
                None => r == Err::<CachePolicy, &'static str>(INVALID_CACHE_POLICY),
            },
    {
        CachePolicy::parse(s)
    }
}

/// A span of time.
#[derive(Clone, Copy, Debug, PartialEq, Eq, Structural)]
pub struct Timeout {
    pub secs: u64,
    pub nanos: u32,
}

/// Handles of the host that are shared with other subsystems, each under the number of its
/// file system and a number of its own.
#[derive(Clone, Debug)]
pub struct ExportTable {
    pub handles: Vec<((u64, u64), u64)>,
}

/// Options that configure the behaviour of the file system.
#[derive(Clone, Debug)]
pub struct Config {
    /// How long the guest should consider directory entries to be valid. If the contents
    /// of a directory can only be modified by the guest, this should be a large value.
    ///
    /// The default is 5 seconds.
    pub entry_timeout: Timeout,
    /// How long the guest should consider file and directory attributes to be valid. If
    /// the attributes can only be modified by the guest, this should be a large value.
    ///
    /// The default is 5 seconds.
    pub attr_timeout: Timeout,
    /// The caching policy the file system should use.
    pub cache_policy: CachePolicy,
    /// Whether the guest may cache and coalesce writes before it sends them. It may then
    /// read files that it opened only for writing. This is safe only if nobody else
    /// changes the files and all of them can be read.
    ///
    /// The default is `false`.
    pub writeback: bool,
    /// The path of the root directory.
    ///
    /// The default is `C:\`.
    pub root_dir: String,
    /// Whether the file system supports extended attributes. This can slow writing down,
    /// because the guest asks for an attribute on each write.
    ///
    /// The default is `false`.
    pub xattr: bool,
    /// A number that tells this file system from others.
    pub export_fsid: u64,
    /// The handles that are shared with other subsystems.
    ///
    /// The default is `None`.
    pub export_table: Option<ExportTable>,
}

/// The root directory that is served if none is given.
pub const DEFAULT_ROOT_DIR: &'static str = "C:\\";

impl Default for Config {
    fn default() -> (r: Config)
        ensures
            r.entry_timeout == (Timeout { secs: 5, nanos: 0 }),
            r.attr_timeout == (Timeout { secs: 5, nanos: 0 }),
            r.cache_policy == CachePolicy::Auto,
            !r.writeback,
            r.root_dir@ == DEFAULT_ROOT_DIR@,
            !r.xattr,
            r.export_fsid == 0,
            r.export_table is None,
    {
        Config {
            entry_timeout: Timeout { secs: 5, nanos: 0 },
            attr_timeout: Timeout { secs: 5, nanos: 0 },
            cache_policy: CachePolicy::Auto,
            writeback: false,
            root_dir: DEFAULT_ROOT_DIR.to_owned(),
            xattr: false,
            export_fsid: 0,
            export_table: None,
        }
    }
}

} // verus!
