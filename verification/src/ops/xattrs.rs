//! Extended attributes.

use crate::errno::{EACCES, EBADF, EEXIST, ENODATA, ENOSYS, FsError};
use crate::fs::PassthroughFs;
use crate::host::{Action, Flow, Reply, Resource};
use crate::linux::{XATTR_CREATE, XATTR_REPLACE};
use crate::operation::Operation;
use crate::path::{ads_xattr_path, stream_suffix};
use crate::text::copy_bytes;
use crate::xattr::{is_protected, list_names, names_buffer, names_protected, sized, sized_reply};
use crate::xattr::{told_length, XattrReply};
use vstd::pervasive::unreached;
use vstd::prelude::*;

verus! {

/// Why the guest is refused an attribute before the host is asked: there are no
/// attributes, the attribute belongs to the emulation, or the file is not known.
pub open spec fn refusal(fs: PassthroughFs, inode: u64, name: Seq<u8>) -> Option<FsError> {
    if !fs.cfg.xattr {
        Some(FsError::linux(ENOSYS))
    } else if is_protected(name) {
        Some(FsError::linux(EACCES))
    } else if !fs.knows(inode) {
        Some(FsError::linux(EBADF))
    } else {
        None
    }
}

/// The stream that holds an attribute.
pub open spec fn stream_of(fs: PassthroughFs, inode: u64, name: Seq<u8>) -> Seq<char> {
    fs.path_of(inode) + stream_suffix(name)
}

/// Finds the stream of an attribute, or refuses it.
pub fn find_stream(fs: &PassthroughFs, inode: u64, name: &[u8]) -> (r: Result<String, FsError>)
    requires
        fs.wf(),
    ensures
        match refusal(*fs, inode, name@) {
            Some(e) => r matches Err(f) && f == e,
            None => r matches Ok(s) && s@ == stream_of(*fs, inode, name@),
        },
{
    if !fs.cfg.xattr {
        return Err(FsError::errno(ENOSYS));
    }
    if names_protected(name) {
        return Err(FsError::errno(EACCES));
    }
    match fs.inode_data(inode) {
        Ok(data) => Ok(ads_xattr_path(data.get_path().as_str(), name)),
        Err(e) => Err(e),
    }
}

/// How far setting an attribute has come.
#[derive(Clone, Copy)]
pub enum SetxattrPhase {
    Start,
    CheckingAbsent,
    CheckingPresent,
    Writing,
    Over,
}

/// Sets an attribute: only if it is new, only if it is there, or in any case.
pub struct Setxattr {
    pub inode: u64,
    pub name: Vec<u8>,
    pub value: Vec<u8>,
    pub flags: u32,
    pub stream: String,
    pub phase: SetxattrPhase,
}

pub fn setxattr(inode: u64, name: Vec<u8>, value: Vec<u8>, flags: u32) -> (r: Setxattr)
    ensures
        r == (Setxattr {
            inode,
            name,
            value,
            flags,
            stream: r.stream,
            phase: SetxattrPhase::Start,
        }),
{
    Setxattr { inode, name, value, flags, stream: String::new(), phase: SetxattrPhase::Start }
}

impl Setxattr {
    /// Whether the stream exists is asked.
    pub open spec fn asks(self, flow: Flow<Result<(), FsError>>) -> bool {
        flow matches Flow::Do(Action::Exists { path }) && path@ == self.stream@
    }

    /// The stream is written, once it is known to exist if it has to.
    pub open spec fn replaces(
        self,
        phase: SetxattrPhase,
        flow: Flow<Result<(), FsError>>,
    ) -> bool {
        if self.flags & XATTR_REPLACE != 0 {
            phase == SetxattrPhase::CheckingPresent && self.asks(flow)
        } else {
            self.writes(phase, flow)
        }
    }

    /// The stream is written.
    pub open spec fn writes(self, phase: SetxattrPhase, flow: Flow<Result<(), FsError>>) -> bool {
        &&& phase == SetxattrPhase::Writing
        &&& flow matches Flow::Do(Action::WriteFile { path, data })
        &&& path@ == self.stream@
        &&& data@ == self.value@
    }

    fn write(&mut self) -> (flow: Flow<Result<(), FsError>>)
        ensures
            old(self).writes(final(self).phase, flow),
            *final(self) == (Setxattr { phase: final(self).phase, ..*old(self) }),
    {
        self.phase = SetxattrPhase::Writing;
        let data = copy_bytes(self.value.as_slice());
        Flow::Do(Action::WriteFile { path: self.stream.clone(), data })
    }

    fn replace(&mut self) -> (flow: Flow<Result<(), FsError>>)
        ensures
            old(self).replaces(final(self).phase, flow),
            *final(self) == (Setxattr { phase: final(self).phase, ..*old(self) }),
    {
        if (self.flags & XATTR_REPLACE) != 0 {
            self.phase = SetxattrPhase::CheckingPresent;
            return Flow::Do(Action::Exists { path: self.stream.clone() });
        }
        self.write()
    }
}

impl Operation for Setxattr {
    type Output = Result<(), FsError>;

    open spec fn expects(&self, reply: Reply) -> bool {
        match self.phase {
            SetxattrPhase::Start => reply is Begin,
            SetxattrPhase::CheckingAbsent => reply is Flag,
            SetxattrPhase::CheckingPresent => reply is Flag,
            SetxattrPhase::Writing => reply.done(),
            SetxattrPhase::Over => false,
        }
    }

    open spec fn leads_to(
        &self,
        fs: PassthroughFs,
        reply: Reply,
        next: Self,
        next_fs: PassthroughFs,
        flow: Flow<Self::Output>,
    ) -> bool {
        &&& next_fs == fs
        &&& next == (Setxattr { stream: next.stream, phase: next.phase, ..*self })
        &&& self.phase !is Start ==> next.stream == self.stream
        &&& match self.phase {
            SetxattrPhase::Start => match refusal(fs, self.inode, self.name@) {
                Some(e) => next.phase is Over && flow.ends(Err(e)),
                None => {
                    &&& next.stream@ == stream_of(fs, self.inode, self.name@)
                    &&& if self.flags & XATTR_CREATE != 0 {
                        next.phase == SetxattrPhase::CheckingAbsent && next.asks(flow)
                    } else {
                        next.replaces(next.phase, flow)
                    }
                },
            },
            SetxattrPhase::CheckingAbsent => match reply {
                Reply::Flag(exists) => if exists {
                    next.phase is Over && flow.ends(Err(FsError::linux(EEXIST)))
                } else {
                    self.replaces(next.phase, flow)
                },
                _ => false,
            },
            SetxattrPhase::CheckingPresent => match reply {
                Reply::Flag(exists) => if exists {
                    self.writes(next.phase, flow)
                } else {
                    next.phase is Over && flow.ends(Err(FsError::linux(ENODATA)))
                },
                _ => false,
            },
            SetxattrPhase::Writing => match reply {
                Reply::Unit => next.phase is Over && flow.ends(Ok(())),
                Reply::Failed(e) => next.phase is Over && flow.ends(Err(e.once_more())),
                _ => false,
            },
            SetxattrPhase::Over => false,
        }
    }

    open spec fn holds(&self, r: Resource) -> int {
        0
    }

    open spec fn hands_over(out: Self::Output, r: Resource) -> int {
        0
    }

    fn step(&mut self, fs: &mut PassthroughFs, reply: Reply) -> (flow: Flow<Self::Output>) {
        match self.phase {
            SetxattrPhase::Start => {
                match find_stream(fs, self.inode, self.name.as_slice()) {
                    Ok(stream) => {
                        self.stream = stream;
                    },
                    Err(e) => {
                        self.phase = SetxattrPhase::Over;
                        return Flow::Done(Err(e));
                    },
                }
                if (self.flags & XATTR_CREATE) != 0 {
                    self.phase = SetxattrPhase::CheckingAbsent;
                    return Flow::Do(Action::Exists { path: self.stream.clone() });
                }
                self.replace()
            },
            SetxattrPhase::CheckingAbsent => match reply {
                Reply::Flag(exists) => {
                    if exists {
                        self.phase = SetxattrPhase::Over;
                        return Flow::Done(Err(FsError::errno(EEXIST)));
                    }
                    self.replace()
                },
                _ => unreached(),
            },
            SetxattrPhase::CheckingPresent => match reply {
                Reply::Flag(exists) => {
                    if !exists {
                        self.phase = SetxattrPhase::Over;
                        return Flow::Done(Err(FsError::errno(ENODATA)));
                    }
                    self.write()
                },
                _ => unreached(),
            },
            SetxattrPhase::Writing => {
                self.phase = SetxattrPhase::Over;
                match reply {
                    Reply::Unit => Flow::Done(Ok(())),
                    Reply::Failed(e) => Flow::Done(Err(e.translated())),
                    _ => unreached(),
                }
            },
            SetxattrPhase::Over => unreached(),
        }
    }

    proof fn step_balances(
        &self,
        fs: PassthroughFs,
        reply: Reply,
        next: Self,
        next_fs: PassthroughFs,
        flow: Flow<Self::Output>,
        r: Resource,
    ) {
    }
}

/// How far getting or removing an attribute has come.
#[derive(Clone, Copy)]
pub enum XattrPhase {
    Start,
    Asking,
    Over,
}

/// Gets an attribute.
pub struct Getxattr {
    pub inode: u64,
    pub name: Vec<u8>,
    pub size: u32,
    pub phase: XattrPhase,
}

pub fn getxattr(inode: u64, name: Vec<u8>, size: u32) -> (r: Getxattr)
    ensures
        r == (Getxattr { inode, name, size, phase: XattrPhase::Start }),
{
    Getxattr { inode, name, size, phase: XattrPhase::Start }
}

impl Operation for Getxattr {
    type Output = Result<XattrReply, FsError>;

    open spec fn expects(&self, reply: Reply) -> bool {
        match self.phase {
            XattrPhase::Start => reply is Begin,
            XattrPhase::Asking => reply.bytes(),
            XattrPhase::Over => false,
        }
    }

    open spec fn leads_to(
        &self,
        fs: PassthroughFs,
        reply: Reply,
        next: Self,
        next_fs: PassthroughFs,
        flow: Flow<Self::Output>,
    ) -> bool {
        &&& next_fs == fs
        &&& next == (Getxattr { phase: next.phase, ..*self })
        &&& match self.phase {
            XattrPhase::Start => match refusal(fs, self.inode, self.name@) {
                Some(e) => next.phase is Over && flow.ends(Err(e)),
                None => {
                    &&& next.phase == XattrPhase::Asking
                    &&& flow matches Flow::Do(Action::ReadFile { path })
                    &&& path@ == stream_of(fs, self.inode, self.name@)
                },
            },
            XattrPhase::Asking => match reply {
                Reply::Bytes(data) => {
                    &&& next.phase is Over
                    &&& flow matches Flow::Done(out)
                    &&& sized(self.size, data@, out)
                },
                Reply::Failed(e) => next.phase is Over && flow.ends(Err(e.for_stream())),
                _ => false,
            },
            XattrPhase::Over => false,
        }
    }

    open spec fn holds(&self, r: Resource) -> int {
        0
    }

    open spec fn hands_over(out: Self::Output, r: Resource) -> int {
        0
    }

    fn step(&mut self, fs: &mut PassthroughFs, reply: Reply) -> (flow: Flow<Self::Output>) {
        match self.phase {
            XattrPhase::Start => match find_stream(fs, self.inode, self.name.as_slice()) {
                Ok(path) => {
                    self.phase = XattrPhase::Asking;
                    Flow::Do(Action::ReadFile { path })
                },
                Err(e) => {
                    self.phase = XattrPhase::Over;
                    Flow::Done(Err(e))
                },
            },
            XattrPhase::Asking => {
                self.phase = XattrPhase::Over;
                match reply {
                    Reply::Bytes(data) => Flow::Done(sized_reply(self.size, data)),
                    Reply::Failed(e) => Flow::Done(Err(e.stream_error())),
                    _ => unreached(),
                }
            },
            XattrPhase::Over => unreached(),
        }
    }

    proof fn step_balances(
        &self,
        fs: PassthroughFs,
        reply: Reply,
        next: Self,
        next_fs: PassthroughFs,
        flow: Flow<Self::Output>,
        r: Resource,
    ) {
    }
}

/// Removes an attribute.
pub struct Removexattr {
    pub inode: u64,
    pub name: Vec<u8>,
    pub phase: XattrPhase,
}

pub fn removexattr(inode: u64, name: Vec<u8>) -> (r: Removexattr)
    ensures
        r == (Removexattr { inode, name, phase: XattrPhase::Start }),
{
    Removexattr { inode, name, phase: XattrPhase::Start }
}

impl Operation for Removexattr {
    type Output = Result<(), FsError>;

    open spec fn expects(&self, reply: Reply) -> bool {
        match self.phase {
            XattrPhase::Start => reply is Begin,
            XattrPhase::Asking => reply.done(),
            XattrPhase::Over => false,
        }
    }

    open spec fn leads_to(
        &self,
        fs: PassthroughFs,
        reply: Reply,
        next: Self,
        next_fs: PassthroughFs,
        flow: Flow<Self::Output>,
    ) -> bool {
        &&& next_fs == fs
        &&& next == (Removexattr { phase: next.phase, ..*self })
        &&& match self.phase {
            XattrPhase::Start => match refusal(fs, self.inode, self.name@) {
                Some(e) => next.phase is Over && flow.ends(Err(e)),
                None => {
                    &&& next.phase == XattrPhase::Asking
                    &&& flow matches Flow::Do(Action::RemoveFile { path })
                    &&& path@ == stream_of(fs, self.inode, self.name@)
                },
            },
            XattrPhase::Asking => match reply {
                Reply::Unit => next.phase is Over && flow.ends(Ok(())),
                Reply::Failed(e) => next.phase is Over && flow.ends(Err(e.for_stream())),
                _ => false,
            },
            XattrPhase::Over => false,
        }
    }

    open spec fn holds(&self, r: Resource) -> int {
        0
    }

    open spec fn hands_over(out: Self::Output, r: Resource) -> int {
        0
    }

    fn step(&mut self, fs: &mut PassthroughFs, reply: Reply) -> (flow: Flow<Self::Output>) {
        match self.phase {
            XattrPhase::Start => match find_stream(fs, self.inode, self.name.as_slice()) {
                Ok(path) => {
                    self.phase = XattrPhase::Asking;
                    Flow::Do(Action::RemoveFile { path })
                },
                Err(e) => {
                    self.phase = XattrPhase::Over;
                    Flow::Done(Err(e))
                },
            },
            XattrPhase::Asking => {
                self.phase = XattrPhase::Over;
                match reply {
                    Reply::Unit => Flow::Done(Ok(())),
                    Reply::Failed(e) => Flow::Done(Err(e.stream_error())),
                    _ => unreached(),
                }
            },
            XattrPhase::Over => unreached(),
        }
    }

    proof fn step_balances(
        &self,
        fs: PassthroughFs,
        reply: Reply,
        next: Self,
        next_fs: PassthroughFs,
        flow: Flow<Self::Output>,
        r: Resource,
    ) {
    }
}

/// Lists the names of the attributes of a file. Where the host cannot list them there are
/// none.
pub struct Listxattr {
    pub inode: u64,
    pub size: u32,
    pub phase: XattrPhase,
}

pub fn listxattr(inode: u64, size: u32) -> (r: Listxattr)
    ensures
        r == (Listxattr { inode, size, phase: XattrPhase::Start }),
{
    Listxattr { inode, size, phase: XattrPhase::Start }
}

impl Operation for Listxattr {
    type Output = Result<XattrReply, FsError>;

    open spec fn expects(&self, reply: Reply) -> bool {
        match self.phase {
            XattrPhase::Start => reply is Begin,
            XattrPhase::Asking => reply is Names || reply is Failed,
            XattrPhase::Over => false,
        }
    }

    open spec fn leads_to(
        &self,
        fs: PassthroughFs,
        reply: Reply,
        next: Self,
        next_fs: PassthroughFs,
        flow: Flow<Self::Output>,
    ) -> bool {
        &&& next_fs == fs
        &&& next == (Listxattr { phase: next.phase, ..*self })
        &&& match self.phase {
            XattrPhase::Start => if !fs.cfg.xattr {
                next.phase is Over && flow.ends(Err(FsError::linux(ENOSYS)))
            } else if !fs.knows(self.inode) {
                next.phase is Over && flow.ends(Err(FsError::linux(EBADF)))
            } else {
                &&& next.phase == XattrPhase::Asking
                &&& flow matches Flow::Do(Action::ListStreams { path })
                &&& path@ == fs.path_of(self.inode)
            },
            XattrPhase::Asking => {
                &&& next.phase is Over
                &&& flow matches Flow::Done(out)
                &&& match reply {
                    Reply::Names(names) => sized(self.size, names_buffer(names@), out),
                    Reply::Failed(_) => sized(self.size, seq![], out),
                    _ => false,
                }
            },
            XattrPhase::Over => false,
        }
    }

    open spec fn holds(&self, r: Resource) -> int {
        0
    }

    open spec fn hands_over(out: Self::Output, r: Resource) -> int {
        0
    }

    fn step(&mut self, fs: &mut PassthroughFs, reply: Reply) -> (flow: Flow<Self::Output>) {
        match self.phase {
            XattrPhase::Start => {
                if !fs.cfg.xattr {
                    self.phase = XattrPhase::Over;
                    return Flow::Done(Err(FsError::errno(ENOSYS)));
                }
                match fs.inode_path(self.inode) {
                    Ok(path) => {
                        self.phase = XattrPhase::Asking;
                        Flow::Do(Action::ListStreams { path })
                    },
                    Err(e) => {
                        self.phase = XattrPhase::Over;
                        Flow::Done(Err(e))
                    },
                }
            },
            XattrPhase::Asking => {
                self.phase = XattrPhase::Over;
                let data: Vec<u8> = match reply {
                    Reply::Names(names) => list_names(&names),
                    Reply::Failed(_) => Vec::new(),
                    _ => unreached(),
                };
                Flow::Done(sized_reply(self.size, data))
            },
            XattrPhase::Over => unreached(),
        }
    }

    proof fn step_balances(
        &self,
        fs: PassthroughFs,
        reply: Reply,
        next: Self,
        next_fs: PassthroughFs,
        flow: Flow<Self::Output>,
        r: Resource,
    ) {
    }
}

/// An attribute that belongs to the emulation cannot be read, written or removed: the
/// guest is refused before the host is asked.
pub proof fn law_protected_attributes_are_refused(
    name: Seq<u8>,
    fs: PassthroughFs,
    reply: Reply,
    set: Setxattr,
    set_next: Setxattr,
    set_flow: Flow<Result<(), FsError>>,
    get: Getxattr,
    get_next: Getxattr,
    get_flow: Flow<Result<XattrReply, FsError>>,
    remove: Removexattr,
    remove_next: Removexattr,
    remove_flow: Flow<Result<(), FsError>>,
)
    requires
        fs.cfg.xattr,
        is_protected(name),
        set.name@ == name && set.phase == SetxattrPhase::Start,
        get.name@ == name && get.phase == XattrPhase::Start,
        remove.name@ == name && remove.phase == XattrPhase::Start,
        set.leads_to(fs, reply, set_next, fs, set_flow),
        get.leads_to(fs, reply, get_next, fs, get_flow),
        remove.leads_to(fs, reply, remove_next, fs, remove_flow),
    ensures
        set_flow.ends(Err(FsError::linux(EACCES))),
        get_flow.ends(Err(FsError::linux(EACCES))),
        remove_flow.ends(Err(FsError::linux(EACCES))),
{
}

/// An attribute that is set is got back: both use the same stream, and the guest gets what
/// it wrote if it has room.
pub proof fn law_attribute_reads_back(
    fs: PassthroughFs,
    set: Setxattr,
    set_next: Setxattr,
    set_flow: Flow<Result<(), FsError>>,
    get: Getxattr,
    get_next: Getxattr,
    get_flow: Flow<Result<XattrReply, FsError>>,
    written: Vec<u8>,
    last: Getxattr,
    last_flow: Flow<Result<XattrReply, FsError>>,
)
    requires
        refusal(fs, set.inode, set.name@) is None,
        set.phase == SetxattrPhase::Start,
        set.flags & XATTR_CREATE == 0,
        set.flags & XATTR_REPLACE == 0,
        set.leads_to(fs, Reply::Begin, set_next, fs, set_flow),
        get.inode == set.inode,
        get.name@ == set.name@,
        get.phase == XattrPhase::Start,
        get.leads_to(fs, Reply::Begin, get_next, fs, get_flow),
        set_flow matches Flow::Do(Action::WriteFile { data, .. }) ==> written@ == data@,
        get_next.leads_to(fs, Reply::Bytes(written), last, fs, last_flow),
        0 < get.size,
        told_length(set.value@.len()) <= get.size,
    ensures
        set_flow matches Flow::Do(Action::WriteFile { path: to, .. }) && (get_flow matches Flow::Do(
            Action::ReadFile { path: from },
        ) && from@ == to@),
        last_flow matches Flow::Done(Ok(XattrReply::Data(got))) && got@ == set.value@,
{
}

} // verus!
