//! Making a file system: its root directory is opened first.

use crate::config::Config;
use crate::errno::FsError;
use crate::fs::PassthroughFs;
use crate::host::{one, Action, Flow, Reply, Resource};
use crate::inode::InodeAllocator;
use crate::operation::{are_steps, is_step, Operation, Step};
use crate::ops::probe::{openat, probe_flags, Openat, OpenatPhase};
use vstd::prelude::*;

verus! {

/// Opens the root directory of a configuration and makes a file system that serves it.
pub struct Serve {
    pub cfg: Config,
    pub inode_alloc: InodeAllocator,
    pub opening: Openat,
}

pub fn serve(cfg: Config, inode_alloc: InodeAllocator) -> (r: Serve)
    ensures
        r.cfg == cfg,
        r.inode_alloc == inode_alloc,
        r.starts(),
{
    let opening = openat(cfg.root_dir.clone());
    Serve { cfg, inode_alloc, opening }
}

impl Serve {
    /// The root directory of the configuration is about to be opened.
    pub open spec fn starts(self) -> bool {
        self.opening.path@ == self.cfg.root_dir@ && self.opening.phase == OpenatPhase::Start
    }

    /// What comes of a step of opening the root directory.
    pub open spec fn makes(
        self,
        next: Serve,
        opening: Flow<Result<u64, FsError>>,
        flow: Flow<Result<PassthroughFs, FsError>>,
    ) -> bool {
        match opening {
            Flow::Do(action) => {
                &&& next.cfg == self.cfg
                &&& next.inode_alloc == self.inode_alloc
                &&& flow.does(action)
            },
            Flow::Done(opened) => flow matches Flow::Done(r) && PassthroughFs::is_made(
                r,
                self.cfg,
                self.inode_alloc,
                opened,
            ),
        }
    }
}

impl Operation for Serve {
    type Output = Result<PassthroughFs, FsError>;

    open spec fn expects(&self, reply: Reply) -> bool {
        self.opening.expects(reply)
    }

    open spec fn leads_to(
        &self,
        fs: PassthroughFs,
        reply: Reply,
        next: Self,
        next_fs: PassthroughFs,
        flow: Flow<Self::Output>,
    ) -> bool {
        exists|opening: Flow<Result<u64, FsError>>| #[trigger]
            self.opening.leads_to(fs, reply, next.opening, next_fs, opening) && self.makes(
                next,
                opening,
                flow,
            )
    }

    open spec fn holds(&self, r: Resource) -> int {
        self.opening.holds(r)
    }

    open spec fn hands_over(out: Self::Output, r: Resource) -> int {
        match out {
            Ok(fs) => one(Resource::Handle(fs.root_handle), r),
            Err(_) => 0,
        }
    }

    fn step(&mut self, fs: &mut PassthroughFs, reply: Reply) -> (flow: Flow<Self::Output>) {
        match self.opening.step(fs, reply) {
            Flow::Do(action) => Flow::Do(action),
            Flow::Done(opened) => {
                let mut cfg = Config::default();
                std::mem::swap(&mut cfg, &mut self.cfg);
                let inode_alloc = InodeAllocator::new(self.inode_alloc.next_inode);
                Flow::Done(PassthroughFs::new(cfg, inode_alloc, opened))
            },
        }
    }

    proof fn step_balances(
        &self,
        fs: PassthroughFs,
        reply: Reply,
        next: Self,
        next_fs: PassthroughFs,
        flow: Flow<Self::Output>,
        r: Resource,
    ) {
        let opening = choose|opening: Flow<Result<u64, FsError>>| #[trigger]
            self.opening.leads_to(fs, reply, next.opening, next_fs, opening) && self.makes(
                next,
                opening,
                flow,
            );
        self.opening.step_balances(fs, reply, next.opening, next_fs, opening, r);
    }
}

/// A file system serves the root directory of its configuration, and that is never a link or
/// a junction: the path was opened without following one, and the host said of the handle
/// that is kept that it is none.
pub proof fn law_served_root_is_no_reparse_point(steps: Seq<Step<Serve>>, fs: PassthroughFs)
    requires
        steps.len() > 0,
        are_steps(steps),
        steps[0].before.starts(),
        steps.last().flow == Flow::<Result<PassthroughFs, FsError>>::Done(Ok(fs)),
    ensures
        fs.wf(),
        fs.is_fresh(steps[0].before.cfg, steps[0].before.inode_alloc, fs.root_handle),
        steps.len() == 3,
        steps[0].flow.opens_path(fs.cfg.root_dir@, probe_flags()),
        steps[1].reply == Reply::Handle(fs.root_handle),
        steps[1].flow.does(Action::QueryInfo { handle: fs.root_handle }),
        steps[2].reply matches Reply::Info(i) && !i.is_reparse_point(),
{
    assert(is_step(steps[0]));
    if steps.len() > 1 {
        assert(is_step(steps[1]));
        assert(steps[1].before == steps[0].after);
    }
    if steps.len() > 2 {
        assert(is_step(steps[2]));
        assert(steps[2].before == steps[1].after);
    }
    if steps.len() > 3 {
        assert(is_step(steps[3]));
        assert(steps[3].before == steps[2].after);
    }
    if steps.len() > 4 {
        assert(is_step(steps[4]));
        assert(steps[4].before == steps[3].after);
    }
}

/// A root directory that the host says is a link or a junction is not served: its handle is
/// closed, and the error says why.
pub proof fn law_reparse_point_is_not_served(
    steps: Seq<Step<Serve>>,
    out: Result<PassthroughFs, FsError>,
)
    requires
        steps.len() > 2,
        are_steps(steps),
        steps[0].before.starts(),
        steps[1].reply is Handle,
        steps[2].reply matches Reply::Info(i) && i.is_reparse_point(),
        steps.last().flow == Flow::Done(out),
    ensures
        out == Err::<PassthroughFs, FsError>(FsError::ReparsePoint),
        steps[2].flow.closes(steps[1].reply->Handle_0),
{
    assert(is_step(steps[0]));
    assert(is_step(steps[1]));
    assert(is_step(steps[2]));
    assert(steps[1].before == steps[0].after);
    assert(steps[2].before == steps[1].after);
    if steps.len() > 3 {
        assert(is_step(steps[3]));
        assert(steps[3].before == steps[2].after);
    }
    if steps.len() > 4 {
        assert(is_step(steps[4]));
        assert(steps[4].before == steps[3].after);
    }
}

} // verus!
