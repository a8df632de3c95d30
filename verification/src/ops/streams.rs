//! Reading and writing the streams that hold what the host has no place for.

use crate::errno::{ERROR_HANDLE_EOF, FsError};
use crate::fs::PassthroughFs;
use crate::host::{one, Action, Flow, Reply, Resource};
use crate::nt::{open_handle, open_stream, OpenFlags};
use crate::operation::{are_steps, lemma_fewer_steps, Operation, Step};
use crate::override_stat::{clear_suid_sgid, format_override_stat, is_valid_owner, merged};
use crate::override_stat::law_override_stat_reads_back;
use crate::override_stat::{merge_override_stat, names_owner, override_of, override_text};
use crate::override_stat::{parse_override_stat, without_suid_sgid, OverrideStat};
use crate::override_stat::{OVERRIDE_STAT_STREAM, SECURITY_CAPABILITY_STREAM};
use crate::path::{ads_stream_path, ads_xattr_path, path_to_wide, stream_suffix, wide};
use crate::text::copy_bytes;
use crate::win::{FILE_OPEN_REPARSE_POINT, FILE_OVERWRITE_IF, FILE_SYNCHRONOUS_IO_NONALERT};
use crate::win::GENERIC_WRITE;
use crate::xattr::{attribute_of, stream_attribute, stream_name, told_length};
use vstd::pervasive::unreached;
use vstd::prelude::*;

verus! {

/// How far reading the record has come.
#[derive(Clone, Copy)]
pub enum ReadOverridePhase {
    Start,
    Reading,
    Over,
}

/// Reads the recorded owner and mode of a path. Without a record nothing is known.
pub struct ReadOverrideStat {
    pub path: String,
    pub phase: ReadOverridePhase,
}

pub fn read_override_stat(path: String) -> (r: ReadOverrideStat)
    ensures
        r == (ReadOverrideStat { path, phase: ReadOverridePhase::Start }),
{
    ReadOverrideStat { path, phase: ReadOverridePhase::Start }
}

impl Operation for ReadOverrideStat {
    type Output = OverrideStat;

    open spec fn expects(&self, reply: Reply) -> bool {
        match self.phase {
            ReadOverridePhase::Start => reply is Begin,
            ReadOverridePhase::Reading => reply.bytes(),
            ReadOverridePhase::Over => false,
        }
    }

    open spec fn leads_to(
        &self,
        fs: PassthroughFs,
        reply: Reply,
        next: Self,
        next_fs: PassthroughFs,
        flow: Flow<Self::Output>,
    ) -> bool {
        &&& next_fs == fs
        &&& next.path == self.path
        &&& match self.phase {
            ReadOverridePhase::Start => {
                &&& next.phase == ReadOverridePhase::Reading
                &&& flow matches Flow::Do(Action::ReadFile { path })
                &&& path@ == self.path@ + OVERRIDE_STAT_STREAM@
            },
            ReadOverridePhase::Reading => match reply {
                Reply::Bytes(b) => next.phase is Over && flow.ends(override_of(b@)),
                Reply::Failed(_) => next.phase is Over && flow.ends(OverrideStat::nothing()),
                _ => false,
            },
            ReadOverridePhase::Over => false,
        }
    }

    open spec fn holds(&self, r: Resource) -> int {
        0
    }

    open spec fn hands_over(out: Self::Output, r: Resource) -> int {
        0
    }

    fn step(&mut self, fs: &mut PassthroughFs, reply: Reply) -> (flow: Flow<Self::Output>) {
        match self.phase {
            ReadOverridePhase::Start => {
                self.phase = ReadOverridePhase::Reading;
                let path = ads_stream_path(self.path.as_str(), OVERRIDE_STAT_STREAM);
                Flow::Do(Action::ReadFile { path })
            },
            ReadOverridePhase::Reading => {
                self.phase = ReadOverridePhase::Over;
                match reply {
                    Reply::Bytes(b) => Flow::Done(parse_override_stat(b.as_slice())),
                    Reply::Failed(_) => Flow::Done(OverrideStat::none()),
                    _ => unreached(),
                }
            },
            ReadOverridePhase::Over => unreached(),
        }
    }

    proof fn step_balances(
        &self,
        fs: PassthroughFs,
        reply: Reply,
        next: Self,
        next_fs: PassthroughFs,
        flow: Flow<Self::Output>,
        r: Resource,
    ) {
    }
}

/// How far writing the record has come.
#[derive(Clone, Copy)]
pub enum WriteOverridePhase {
    Start,
    Reading,
    Writing,
    Over,
}

/// Records an owner and a mode for a path. What is not given stays as it was; where all
/// is given, the old record is not read.
pub struct WriteOverrideStat {
    pub path: String,
    pub owner: Option<(u32, u32)>,
    pub mode: Option<u32>,
    pub phase: WriteOverridePhase,
}

pub fn write_override_stat(path: String, owner: Option<(u32, u32)>, mode: Option<u32>) -> (r:
    WriteOverrideStat)
    ensures
        r == (WriteOverrideStat { path, owner, mode, phase: WriteOverridePhase::Start }),
{
    WriteOverrideStat { path, owner, mode, phase: WriteOverridePhase::Start }
}

impl WriteOverrideStat {
    /// The record is written.
    pub open spec fn writes(self, flow: Flow<Result<(), FsError>>, before: OverrideStat) -> bool {
        &&& flow matches Flow::Do(Action::WriteFile { path, data })
        &&& path@ == self.path@ + OVERRIDE_STAT_STREAM@
        &&& data@ == override_text(merged(self.owner, self.mode, before))
    }

    fn record(&self, before: OverrideStat) -> (flow: Flow<Result<(), FsError>>)
        ensures
            self.writes(flow, before),
    {
        let o = merge_override_stat(self.owner, self.mode, before);
        let path = ads_stream_path(self.path.as_str(), OVERRIDE_STAT_STREAM);
        Flow::Do(Action::WriteFile { path, data: format_override_stat(&o) })
    }
}

impl Operation for WriteOverrideStat {
    type Output = Result<(), FsError>;

    open spec fn expects(&self, reply: Reply) -> bool {
        match self.phase {
            WriteOverridePhase::Start => reply is Begin,
            WriteOverridePhase::Reading => reply is Override,
            WriteOverridePhase::Writing => reply.done(),
            WriteOverridePhase::Over => false,
        }
    }

    open spec fn leads_to(
        &self,
        fs: PassthroughFs,
        reply: Reply,
        next: Self,
        next_fs: PassthroughFs,
        flow: Flow<Self::Output>,
    ) -> bool {
        &&& next_fs == fs
        &&& next == (WriteOverrideStat { phase: next.phase, ..*self })
        &&& match self.phase {
            WriteOverridePhase::Start => if names_owner(self.owner) && self.mode is Some {
                &&& next.phase == WriteOverridePhase::Writing
                &&& self.writes(flow, OverrideStat::nothing())
            } else {
                &&& next.phase == WriteOverridePhase::Reading
                &&& flow matches Flow::Do(Action::ReadOverride { path })
                &&& path@ == self.path@
            },
            WriteOverridePhase::Reading => match reply {
                Reply::Override(before) => {
                    &&& next.phase == WriteOverridePhase::Writing
                    &&& self.writes(flow, before)
                },
                _ => false,
            },
            WriteOverridePhase::Writing => match reply {
                Reply::Unit => next.phase is Over && flow.ends(Ok(())),
                Reply::Failed(e) => next.phase is Over && flow.ends(Err(e.once_more())),
                _ => false,
            },
            WriteOverridePhase::Over => false,
        }
    }

    open spec fn holds(&self, r: Resource) -> int {
        0
    }

    open spec fn hands_over(out: Self::Output, r: Resource) -> int {
        0
    }

    fn step(&mut self, fs: &mut PassthroughFs, reply: Reply) -> (flow: Flow<Self::Output>) {
        match self.phase {
            WriteOverridePhase::Start => {
                if is_valid_owner(self.owner) && self.mode.is_some() {
                    self.phase = WriteOverridePhase::Writing;
                    return self.record(OverrideStat::none());
                }
                self.phase = WriteOverridePhase::Reading;
                Flow::Do(Action::ReadOverride { path: self.path.clone() })
            },
            WriteOverridePhase::Reading => match reply {
                Reply::Override(before) => {
                    self.phase = WriteOverridePhase::Writing;
                    self.record(before)
                },
                _ => unreached(),
            },
            WriteOverridePhase::Writing => {
                self.phase = WriteOverridePhase::Over;
                match reply {
                    Reply::Unit => Flow::Done(Ok(())),
                    Reply::Failed(e) => Flow::Done(Err(e.translated())),
                    _ => unreached(),
                }
            },
            WriteOverridePhase::Over => unreached(),
        }
    }

    proof fn step_balances(
        &self,
        fs: PassthroughFs,
        reply: Reply,
        next: Self,
        next_fs: PassthroughFs,
        flow: Flow<Self::Output>,
        r: Resource,
    ) {
    }
}

/// A record that is written is read back: both use the same stream, and what is read is
/// the change over what was there before.
pub proof fn law_record_reads_back(
    fs: PassthroughFs,
    write: WriteOverrideStat,
    write_flow: Flow<Result<(), FsError>>,
    before: OverrideStat,
    read: ReadOverrideStat,
    read_next: ReadOverrideStat,
    read_flow: Flow<OverrideStat>,
    written: Vec<u8>,
    last: ReadOverrideStat,
    last_flow: Flow<OverrideStat>,
)
    requires
        write.writes(write_flow, before),
        read.path@ == write.path@,
        read.phase == ReadOverridePhase::Start,
        read.leads_to(fs, Reply::Begin, read_next, fs, read_flow),
        write_flow matches Flow::Do(Action::WriteFile { data, .. }) ==> written@ == data@,
        read_next.leads_to(fs, Reply::Bytes(written), last, fs, last_flow),
    ensures
        write_flow matches Flow::Do(Action::WriteFile { path: to, .. }) && (
        read_flow matches Flow::Do(Action::ReadFile { path: from }) && from@ == to@),
        last_flow.ends(merged(write.owner, write.mode, before)),
{
    law_override_stat_reads_back(merged(write.owner, write.mode, before));
}

/// How far removing capabilities has come.
#[derive(Clone, Copy)]
pub enum RemoveCapabilityPhase {
    Start,
    Deleting,
    Over,
}

/// Deletes the stream that emulates the capabilities of a file. It does not matter
/// whether there was one.
pub struct RemoveSecurityCapability {
    pub path: String,
    pub phase: RemoveCapabilityPhase,
}

pub fn remove_security_capability(path: String) -> (r: RemoveSecurityCapability)
    ensures
        r == (RemoveSecurityCapability { path, phase: RemoveCapabilityPhase::Start }),
{
    RemoveSecurityCapability { path, phase: RemoveCapabilityPhase::Start }
}

impl Operation for RemoveSecurityCapability {
    type Output = ();

    open spec fn expects(&self, reply: Reply) -> bool {
        match self.phase {
            RemoveCapabilityPhase::Start => reply is Begin,
            RemoveCapabilityPhase::Deleting => reply.done(),
            RemoveCapabilityPhase::Over => false,
        }
    }

    open spec fn leads_to(
        &self,
        fs: PassthroughFs,
        reply: Reply,
        next: Self,
        next_fs: PassthroughFs,
        flow: Flow<Self::Output>,
    ) -> bool {
        &&& next_fs == fs
        &&& next.path == self.path
        &&& match self.phase {
            RemoveCapabilityPhase::Start => {
                &&& next.phase == RemoveCapabilityPhase::Deleting
                &&& flow matches Flow::Do(Action::DeleteFile { path })
                &&& path@ == wide(self.path@ + SECURITY_CAPABILITY_STREAM@)
            },
            RemoveCapabilityPhase::Deleting => next.phase is Over && flow.ends(()),
            RemoveCapabilityPhase::Over => false,
        }
    }

    open spec fn holds(&self, r: Resource) -> int {
        0
    }

    open spec fn hands_over(out: Self::Output, r: Resource) -> int {
        0
    }

    fn step(&mut self, fs: &mut PassthroughFs, reply: Reply) -> (flow: Flow<Self::Output>) {
        match self.phase {
            RemoveCapabilityPhase::Start => {
                self.phase = RemoveCapabilityPhase::Deleting;
                let stream = ads_stream_path(self.path.as_str(), SECURITY_CAPABILITY_STREAM);
                Flow::Do(Action::DeleteFile { path: path_to_wide(stream.as_str()) })
            },
            RemoveCapabilityPhase::Deleting => {
                self.phase = RemoveCapabilityPhase::Over;
                Flow::Done(())
            },
            RemoveCapabilityPhase::Over => unreached(),
        }
    }

    proof fn step_balances(
        &self,
        fs: PassthroughFs,
        reply: Reply,
        next: Self,
        next_fs: PassthroughFs,
        flow: Flow<Self::Output>,
        r: Resource,
    ) {
    }
}

/// How far removing privileges has come.
#[derive(Clone, Copy)]
pub enum KillPrivPhase {
    Start,
    Removing,
    Reading,
    Writing,
    Over,
}

/// Removes what gives a file privileges: its capabilities, and the set-id bits of the
/// recorded mode. Failures do not matter.
pub struct KillPriv {
    pub path: String,
    pub phase: KillPrivPhase,
}

pub fn kill_priv(path: String) -> (r: KillPriv)
    ensures
        r == (KillPriv { path, phase: KillPrivPhase::Start }),
{
    KillPriv { path, phase: KillPrivPhase::Start }
}

impl Operation for KillPriv {
    type Output = ();

    open spec fn expects(&self, reply: Reply) -> bool {
        match self.phase {
            KillPrivPhase::Start => reply is Begin,
            KillPrivPhase::Removing => reply is Unit,
            KillPrivPhase::Reading => reply is Override,
            KillPrivPhase::Writing => reply.done(),
            KillPrivPhase::Over => false,
        }
    }

    open spec fn leads_to(
        &self,
        fs: PassthroughFs,
        reply: Reply,
        next: Self,
        next_fs: PassthroughFs,
        flow: Flow<Self::Output>,
    ) -> bool {
        &&& next_fs == fs
        &&& next.path == self.path
        &&& match self.phase {
            KillPrivPhase::Start => {
                &&& next.phase == KillPrivPhase::Removing
                &&& flow matches Flow::Do(Action::RemoveCapability { path })
                &&& path@ == self.path@
            },
            KillPrivPhase::Removing => {
                &&& next.phase == KillPrivPhase::Reading
                &&& flow matches Flow::Do(Action::ReadOverride { path })
                &&& path@ == self.path@
            },
            KillPrivPhase::Reading => match reply {
                Reply::Override(OverrideStat { mode: Some(m), .. }) if without_suid_sgid(m)
                    != m => {
                    &&& next.phase == KillPrivPhase::Writing
                    &&& flow matches Flow::Do(Action::WriteOverride { path, owner, mode })
                    &&& path@ == self.path@
                    &&& owner is None
                    &&& mode == Some(without_suid_sgid(m))
                },
                Reply::Override(_) => next.phase is Over && flow.ends(()),
                _ => false,
            },
            KillPrivPhase::Writing => next.phase is Over && flow.ends(()),
            KillPrivPhase::Over => false,
        }
    }

    open spec fn holds(&self, r: Resource) -> int {
        0
    }

    open spec fn hands_over(out: Self::Output, r: Resource) -> int {
        0
    }

    fn step(&mut self, fs: &mut PassthroughFs, reply: Reply) -> (flow: Flow<Self::Output>) {
        match self.phase {
            KillPrivPhase::Start => {
                self.phase = KillPrivPhase::Removing;
                Flow::Do(Action::RemoveCapability { path: self.path.clone() })
            },
            KillPrivPhase::Removing => {
                self.phase = KillPrivPhase::Reading;
                Flow::Do(Action::ReadOverride { path: self.path.clone() })
            },
            KillPrivPhase::Reading => match reply {
                Reply::Override(o) => {
                    if let Some(m) = o.mode {
                        let cleared: u32 = clear_suid_sgid(m);
                        if cleared != m {
                            self.phase = KillPrivPhase::Writing;
                            return Flow::Do(
                                Action::WriteOverride {
                                    path: self.path.clone(),
                                    owner: None,
                                    mode: Some(cleared),
                                },
                            );
                        }
                    }
                    self.phase = KillPrivPhase::Over;
                    Flow::Done(())
                },
                _ => unreached(),
            },
            KillPrivPhase::Writing => {
                self.phase = KillPrivPhase::Over;
                Flow::Done(())
            },
            KillPrivPhase::Over => unreached(),
        }
    }

    proof fn step_balances(
        &self,
        fs: PassthroughFs,
        reply: Reply,
        next: Self,
        next_fs: PassthroughFs,
        flow: Flow<Self::Output>,
        r: Resource,
    ) {
    }
}

/// The request writes data to an open file.
pub open spec fn writes_data<T>(flow: Flow<T>, handle: u64, data: Seq<u8>) -> bool {
    &&& flow matches Flow::Do(Action::WriteHandle { handle: h, data: d, length })
    &&& h == handle
    &&& d@ == data
    &&& length == told_length(data.len())
}

fn write_data(handle: u64, data: &Vec<u8>) -> (r: Action)
    ensures
        r matches Action::WriteHandle { handle: h, data: d, length } && h == handle && d@ == data@
            && length == told_length(data@.len()),
{
    // The host takes only the last thirty-two bits of the length.
    let length: u32 = (data.len() as u64 % 0x1_0000_0000) as u32;
    Action::WriteHandle { handle, data: copy_bytes(data.as_slice()), length }
}

/// How far writing a stream has come.
#[derive(Clone, Copy)]
pub enum WriteAdsPhase {
    Start,
    Opening,
    Writing { stream: u64 },
    Closing { out: Result<(), FsError> },
    Over,
}

/// Writes a stream of an open file or directory. The suffix starts with a colon.
pub struct WriteAds {
    pub handle: u64,
    pub suffix: String,
    pub data: Vec<u8>,
    pub phase: WriteAdsPhase,
}

pub fn write_ads_by_handle(handle: u64, suffix: String, data: Vec<u8>) -> (r: WriteAds)
    ensures
        r == (WriteAds { handle, suffix, data, phase: WriteAdsPhase::Start }),
{
    WriteAds { handle, suffix, data, phase: WriteAdsPhase::Start }
}

impl Operation for WriteAds {
    type Output = Result<(), FsError>;

    open spec fn expects(&self, reply: Reply) -> bool {
        match self.phase {
            WriteAdsPhase::Start => reply is Begin,
            WriteAdsPhase::Opening => reply.opened(),
            WriteAdsPhase::Writing { .. } => reply.done(),
            WriteAdsPhase::Closing { .. } => reply is Unit,
            WriteAdsPhase::Over => false,
        }
    }

    open spec fn leads_to(
        &self,
        fs: PassthroughFs,
        reply: Reply,
        next: Self,
        next_fs: PassthroughFs,
        flow: Flow<Self::Output>,
    ) -> bool {
        &&& next_fs == fs
        &&& next == (WriteAds { phase: next.phase, ..*self })
        &&& match self.phase {
            WriteAdsPhase::Start => {
                &&& next.phase == WriteAdsPhase::Opening
                &&& flow.opens_stream(self.handle, self.suffix@)
            },
            WriteAdsPhase::Opening => match reply {
                Reply::Handle(stream) => {
                    &&& next.phase == WriteAdsPhase::Writing { stream }
                    &&& writes_data(flow, stream, self.data@)
                },
                Reply::Failed(e) => next.phase is Over && flow.ends(Err(e)),
                _ => false,
            },
            WriteAdsPhase::Writing { stream } => {
                &&& flow.closes(stream)
                &&& match reply {
                    Reply::Unit => next.phase == (WriteAdsPhase::Closing { out: Ok(()) }),
                    Reply::Failed(e) => next.phase == (WriteAdsPhase::Closing { out: Err(e) }),
                    _ => false,
                }
            },
            WriteAdsPhase::Closing { out } => next.phase is Over && flow.ends(out),
            WriteAdsPhase::Over => false,
        }
    }

    open spec fn holds(&self, r: Resource) -> int {
        match self.phase {
            WriteAdsPhase::Writing { stream } => one(Resource::Handle(stream), r),
            _ => 0,
        }
    }

    open spec fn hands_over(out: Self::Output, r: Resource) -> int {
        0
    }

    fn step(&mut self, fs: &mut PassthroughFs, reply: Reply) -> (flow: Flow<Self::Output>) {
        match self.phase {
            WriteAdsPhase::Start => {
                self.phase = WriteAdsPhase::Opening;
                Flow::Do(Action::Open(open_stream(self.handle, self.suffix.as_str())))
            },
            WriteAdsPhase::Opening => match reply {
                Reply::Handle(stream) => {
                    self.phase = WriteAdsPhase::Writing { stream };
                    Flow::Do(write_data(stream, &self.data))
                },
                Reply::Failed(e) => {
                    self.phase = WriteAdsPhase::Over;
                    Flow::Done(Err(e))
                },
                _ => unreached(),
            },
            WriteAdsPhase::Writing { stream } => {
                let out = match reply {
                    Reply::Unit => Ok(()),
                    Reply::Failed(e) => Err(e),
                    _ => unreached(),
                };
                self.phase = WriteAdsPhase::Closing { out };
                Flow::Do(Action::Close { handle: stream })
            },
            WriteAdsPhase::Closing { out } => {
                self.phase = WriteAdsPhase::Over;
                Flow::Done(out)
            },
            WriteAdsPhase::Over => unreached(),
        }
    }

    proof fn step_balances(
        &self,
        fs: PassthroughFs,
        reply: Reply,
        next: Self,
        next_fs: PassthroughFs,
        flow: Flow<Self::Output>,
        r: Resource,
    ) {
    }
}

/// How the stream of a link is opened: the link itself, not what it leads to.
pub open spec fn link_stream_flags() -> OpenFlags {
    OpenFlags {
        desired_access: GENERIC_WRITE,
        create_disposition: FILE_OVERWRITE_IF,
        create_options: FILE_SYNCHRONOUS_IO_NONALERT | FILE_OPEN_REPARSE_POINT,
    }
}

/// How far recording a security context has come.
#[derive(Clone, Copy)]
pub enum WriteSecctxPhase {
    Start,
    Storing,
    Opening,
    Writing { stream: u64 },
    Closing { out: Result<(), FsError> },
    Over,
}

/// Records a security context in a stream named after it. For a symbolic link the stream
/// is placed on the link itself.
pub struct WriteSecctx {
    pub path: String,
    pub name: Vec<u8>,
    pub data: Vec<u8>,
    pub symlink: bool,
    pub phase: WriteSecctxPhase,
}

pub fn write_secctx(path: String, name: Vec<u8>, data: Vec<u8>, symlink: bool) -> (r: WriteSecctx)
    ensures
        r == (WriteSecctx { path, name, data, symlink, phase: WriteSecctxPhase::Start }),
{
    WriteSecctx { path, name, data, symlink, phase: WriteSecctxPhase::Start }
}

impl Operation for WriteSecctx {
    type Output = Result<(), FsError>;

    open spec fn expects(&self, reply: Reply) -> bool {
        match self.phase {
            WriteSecctxPhase::Start => reply is Begin,
            WriteSecctxPhase::Storing => reply.done(),
            WriteSecctxPhase::Opening => reply.opened(),
            WriteSecctxPhase::Writing { .. } => reply.done(),
            WriteSecctxPhase::Closing { .. } => reply is Unit,
            WriteSecctxPhase::Over => false,
        }
    }

    open spec fn leads_to(
        &self,
        fs: PassthroughFs,
        reply: Reply,
        next: Self,
        next_fs: PassthroughFs,
        flow: Flow<Self::Output>,
    ) -> bool {
        let stream_path = self.path@ + stream_suffix(self.name@);
        &&& next_fs == fs
        &&& next == (WriteSecctx { phase: next.phase, ..*self })
        &&& match self.phase {
            WriteSecctxPhase::Start => if self.symlink {
                &&& next.phase == WriteSecctxPhase::Opening
                &&& flow.opens_path(stream_path, link_stream_flags())
            } else {
                &&& next.phase == WriteSecctxPhase::Storing
                &&& flow matches Flow::Do(Action::WriteFile { path, data })
                &&& path@ == stream_path
                &&& data@ == self.data@
            },
            WriteSecctxPhase::Storing => match reply {
                Reply::Unit => next.phase is Over && flow.ends(Ok(())),
                Reply::Failed(e) => next.phase is Over && flow.ends(Err(e.once_more())),
                _ => false,
            },
            WriteSecctxPhase::Opening => match reply {
                Reply::Handle(stream) => {
                    &&& next.phase == WriteSecctxPhase::Writing { stream }
                    &&& writes_data(flow, stream, self.data@)
                },
                Reply::Failed(e) => next.phase is Over && flow.ends(Err(e.once_more())),
                _ => false,
            },
            WriteSecctxPhase::Writing { stream } => {
                &&& flow.closes(stream)
                &&& match reply {
                    Reply::Unit => next.phase == (WriteSecctxPhase::Closing { out: Ok(()) }),
                    Reply::Failed(e) => next.phase == (WriteSecctxPhase::Closing { out: Err(e) }),
                    _ => false,
                }
            },
            WriteSecctxPhase::Closing { out } => next.phase is Over && flow.ends(out),
            WriteSecctxPhase::Over => false,
        }
    }

    open spec fn holds(&self, r: Resource) -> int {
        match self.phase {
            WriteSecctxPhase::Writing { stream } => one(Resource::Handle(stream), r),
            _ => 0,
        }
    }

    open spec fn hands_over(out: Self::Output, r: Resource) -> int {
        0
    }

    fn step(&mut self, fs: &mut PassthroughFs, reply: Reply) -> (flow: Flow<Self::Output>) {
        match self.phase {
            WriteSecctxPhase::Start => {
                let path = ads_xattr_path(self.path.as_str(), self.name.as_slice());
                if !self.symlink {
                    self.phase = WriteSecctxPhase::Storing;
                    let data = copy_bytes(self.data.as_slice());
                    return Flow::Do(Action::WriteFile { path, data });
                }
                self.phase = WriteSecctxPhase::Opening;
                let flags = OpenFlags {
                    desired_access: GENERIC_WRITE,
                    create_disposition: FILE_OVERWRITE_IF,
                    create_options: FILE_SYNCHRONOUS_IO_NONALERT | FILE_OPEN_REPARSE_POINT,
                };
                Flow::Do(Action::Open(open_handle(path.as_str(), &flags)))
            },
            WriteSecctxPhase::Storing => {
                self.phase = WriteSecctxPhase::Over;
                match reply {
                    Reply::Unit => Flow::Done(Ok(())),
                    Reply::Failed(e) => Flow::Done(Err(e.translated())),
                    _ => unreached(),
                }
            },
            WriteSecctxPhase::Opening => match reply {
                Reply::Handle(stream) => {
                    self.phase = WriteSecctxPhase::Writing { stream };
                    Flow::Do(write_data(stream, &self.data))
                },
                Reply::Failed(e) => {
                    self.phase = WriteSecctxPhase::Over;
                    Flow::Done(Err(e.translated()))
                },
                _ => unreached(),
            },
            WriteSecctxPhase::Writing { stream } => {
                let out = match reply {
                    Reply::Unit => Ok(()),
                    Reply::Failed(e) => Err(e),
                    _ => unreached(),
                };
                self.phase = WriteSecctxPhase::Closing { out };
                Flow::Do(Action::Close { handle: stream })
            },
            WriteSecctxPhase::Closing { out } => {
                self.phase = WriteSecctxPhase::Over;
                Flow::Done(out)
            },
            WriteSecctxPhase::Over => unreached(),
        }
    }

    proof fn step_balances(
        &self,
        fs: PassthroughFs,
        reply: Reply,
        next: Self,
        next_fs: PassthroughFs,
        flow: Flow<Self::Output>,
        r: Resource,
    ) {
    }
}

/// How far listing streams has come.
#[derive(Clone, Copy)]
pub enum ListStreamsPhase {
    Start,
    First,
    Next { search: u64 },
    Closing,
    Over,
}

/// Lists the attributes of a path. A file system without streams has none.
pub struct ListStreams {
    pub path: String,
    pub found: Vec<String>,
    pub phase: ListStreamsPhase,
}

/// The attributes after a stream was found.
pub open spec fn noted(before: Seq<String>, buffer: Seq<u16>, after: Seq<String>) -> bool {
    match attribute_of(stream_name(buffer)) {
        Some(name) => {
            &&& after.len() == before.len() + 1
            &&& after.drop_last() == before
            &&& after.last()@ == name
        },
        None => after == before,
    }
}

pub fn ads_list_streams(path: String) -> (r: ListStreams)
    ensures
        r.path == path,
        r.found@ == Seq::<String>::empty(),
        r.phase == ListStreamsPhase::Start,
{
    ListStreams { path, found: Vec::new(), phase: ListStreamsPhase::Start }
}

impl ListStreams {
    fn note(&mut self, buffer: &Vec<u16>)
        ensures
            noted(old(self).found@, buffer@, final(self).found@),
            final(self).path == old(self).path,
            final(self).phase == old(self).phase,
    {
        let ghost before = self.found@;
        if let Some(name) = stream_attribute(buffer.as_slice()) {
            self.found.push(name);
            assert(self.found@.drop_last() =~= before);
        }
    }
}

impl Operation for ListStreams {
    type Output = Result<Vec<String>, FsError>;

    open spec fn expects(&self, reply: Reply) -> bool {
        match self.phase {
            ListStreamsPhase::Start => reply is Begin,
            ListStreamsPhase::First => reply is Stream || reply is Failed,
            ListStreamsPhase::Next { .. } => reply is Units || reply is Failed,
            ListStreamsPhase::Closing => reply is Unit,
            ListStreamsPhase::Over => false,
        }
    }

    open spec fn leads_to(
        &self,
        fs: PassthroughFs,
        reply: Reply,
        next: Self,
        next_fs: PassthroughFs,
        flow: Flow<Self::Output>,
    ) -> bool {
        &&& next_fs == fs
        &&& next.path == self.path
        &&& match self.phase {
            ListStreamsPhase::Start => {
                &&& next.found == self.found
                &&& next.phase == ListStreamsPhase::First
                &&& flow matches Flow::Do(Action::FirstStream { path })
                &&& path@ == wide(self.path@)
            },
            ListStreamsPhase::First => match reply {
                Reply::Stream { search, name } => {
                    &&& noted(self.found@, name@, next.found@)
                    &&& next.phase == ListStreamsPhase::Next { search }
                    &&& flow.does(Action::NextStream { search })
                },
                Reply::Failed(e) => {
                    &&& next.phase is Over
                    &&& match e {
                        FsError::Os { code, .. } if code == ERROR_HANDLE_EOF => {
                            flow matches Flow::Done(Ok(names)) && names@ == Seq::<String>::empty()
                        },
                        _ => flow.ends(Err(e)),
                    }
                },
                _ => false,
            },
            ListStreamsPhase::Next { search } => match reply {
                Reply::Units(name) => {
                    &&& noted(self.found@, name@, next.found@)
                    &&& next.phase == ListStreamsPhase::Next { search }
                    &&& flow.does(Action::NextStream { search })
                },
                Reply::Failed(_) => {
                    &&& next.found == self.found
                    &&& next.phase == ListStreamsPhase::Closing
                    &&& flow.does(Action::CloseSearch { search })
                },
                _ => false,
            },
            ListStreamsPhase::Closing => {
                &&& next.phase is Over
                &&& flow.ends(Ok(self.found))
            },
            ListStreamsPhase::Over => false,
        }
    }

    open spec fn holds(&self, r: Resource) -> int {
        match self.phase {
            ListStreamsPhase::Next { search } => one(Resource::Search(search), r),
            _ => 0,
        }
    }

    open spec fn hands_over(out: Self::Output, r: Resource) -> int {
        0
    }

    fn step(&mut self, fs: &mut PassthroughFs, reply: Reply) -> (flow: Flow<Self::Output>) {
        match self.phase {
            ListStreamsPhase::Start => {
                self.phase = ListStreamsPhase::First;
                Flow::Do(Action::FirstStream { path: path_to_wide(self.path.as_str()) })
            },
            ListStreamsPhase::First => match reply {
                Reply::Stream { search, name } => {
                    self.note(&name);
                    self.phase = ListStreamsPhase::Next { search };
                    Flow::Do(Action::NextStream { search })
                },
                Reply::Failed(e) => {
                    self.phase = ListStreamsPhase::Over;
                    match e {
                        FsError::Os { code, .. } => if code == ERROR_HANDLE_EOF {
                            Flow::Done(Ok(Vec::new()))
                        } else {
                            Flow::Done(Err(e))
                        },
                        _ => Flow::Done(Err(e)),
                    }
                },
                _ => unreached(),
            },
            ListStreamsPhase::Next { search } => match reply {
                Reply::Units(name) => {
                    self.note(&name);
                    Flow::Do(Action::NextStream { search })
                },
                Reply::Failed(_) => {
                    self.phase = ListStreamsPhase::Closing;
                    Flow::Do(Action::CloseSearch { search })
                },
                _ => unreached(),
            },
            ListStreamsPhase::Closing => {
                self.phase = ListStreamsPhase::Over;
                let mut names: Vec<String> = Vec::new();
                std::mem::swap(&mut names, &mut self.found);
                Flow::Done(Ok(names))
            },
            ListStreamsPhase::Over => unreached(),
        }
    }

    proof fn step_balances(
        &self,
        fs: PassthroughFs,
        reply: Reply,
        next: Self,
        next_fs: PassthroughFs,
        flow: Flow<Self::Output>,
        r: Resource,
    ) {
    }
}

/// The attribute that a stream holds, if it holds one.
pub open spec fn told_name(buffer: Seq<u16>) -> Seq<Seq<char>> {
    match attribute_of(stream_name(buffer)) {
        Some(name) => seq![name],
        None => seq![],
    }
}

/// The attributes that the host told in the steps of listing streams, in their order.
pub open spec fn told_names(steps: Seq<Step<ListStreams>>) -> Seq<Seq<char>>
    decreases steps.len(),
{
    if steps.len() == 0 {
        seq![]
    } else {
        let before = told_names(steps.drop_last());
        match steps.last().reply {
            Reply::Stream { name, .. } => before + told_name(name@),
            Reply::Units(name) => before + told_name(name@),
            _ => before,
        }
    }
}

/// Names as texts.
pub open spec fn texts(names: Seq<String>) -> Seq<Seq<char>> {
    names.map_values(|s: String| s@)
}

/// Where the steps of listing streams have come to.
spec fn has_listed(steps: Seq<Step<ListStreams>>) -> bool {
    let s = steps.last();
    match s.after.phase {
        ListStreamsPhase::Start => false,
        ListStreamsPhase::Over => {
            s.flow matches Flow::Done(Ok(names)) ==> texts(names@) == told_names(steps)
        },
        ListStreamsPhase::First => {
            s.after.found@.len() == 0 && told_names(steps) == Seq::<Seq<char>>::empty()
        },
        _ => texts(s.after.found@) == told_names(steps),
    }
}

proof fn lemma_noted(before: Seq<String>, buffer: Seq<u16>, after: Seq<String>)
    requires
        noted(before, buffer, after),
    ensures
        texts(after) == texts(before) + told_name(buffer),
{
    if let Some(name) = attribute_of(stream_name(buffer)) {
        assert(after =~= before.push(after.last()));
    }
    assert(texts(after) =~= texts(before) + told_name(buffer));
}

proof fn lemma_has_listed(steps: Seq<Step<ListStreams>>)
    requires
        steps.len() > 0,
        are_steps(steps),
        steps[0].before.phase == ListStreamsPhase::Start,
        steps[0].before.found@.len() == 0,
    ensures
        has_listed(steps),
    decreases steps.len(),
{
    lemma_fewer_steps(steps);
    let init = steps.drop_last();
    let s = steps.last();
    if init.len() == 0 {
        assert(told_names(init) == Seq::<Seq<char>>::empty());
    } else {
        lemma_has_listed(init);
        match s.reply {
            Reply::Stream { name, .. } => lemma_noted(s.before.found@, name@, s.after.found@),
            Reply::Units(name) => lemma_noted(s.before.found@, name@, s.after.found@),
            _ => {},
        }
        assert(s.before.found@.len() == 0 ==> texts(s.before.found@) =~= seq![]);
        if let Flow::Done(Ok(names)) = s.flow {
            assert(names@.len() == 0 ==> texts(names@) =~= seq![]);
        }
    }
}

/// The attributes of a file are listed in full: every one that the host told before it had no
/// more, in its order, and nothing else.
pub proof fn law_streams_are_listed_in_full(steps: Seq<Step<ListStreams>>, names: Vec<String>)
    requires
        steps.len() > 0,
        are_steps(steps),
        steps[0].before.phase == ListStreamsPhase::Start,
        steps[0].before.found@.len() == 0,
        steps.last().flow == Flow::<Result<Vec<String>, FsError>>::Done(Ok(names)),
    ensures
        texts(names@) == told_names(steps),
{
    lemma_has_listed(steps);
    lemma_fewer_steps(steps);
}

} // verus!
