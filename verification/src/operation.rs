//! Operations that run in steps: each step takes the answer of the host to the last one
//! and says what to do next.

use crate::fs::PassthroughFs;
use crate::host::{answers, can_be_asked, gained, given_back, one, Flow, Reply, Resource};
use crate::win::INVALID_HANDLE_VALUE;
use vstd::prelude::*;

verus! {

/// What the file system itself holds: the root directory.
pub open spec fn fs_holds(fs: PassthroughFs, r: Resource) -> int {
    if fs.root_handle != INVALID_HANDLE_VALUE {
        one(Resource::Handle(fs.root_handle), r)
    } else {
        0
    }
}

/// An operation that runs in steps.
pub trait Operation: Sized {
    /// What the operation ends with.
    type Output;

    /// Whether the operation waits for such a reply.
    spec fn expects(&self, reply: Reply) -> bool;

    /// How a step changes the operation and the file system, and what comes next.
    spec fn leads_to(
        &self,
        fs: PassthroughFs,
        reply: Reply,
        next: Self,
        next_fs: PassthroughFs,
        flow: Flow<Self::Output>,
    ) -> bool;

    /// What the operation holds and has to give back.
    spec fn holds(&self, r: Resource) -> int;

    /// What the outcome hands to the caller.
    spec fn hands_over(out: Self::Output, r: Resource) -> int;

    /// Takes the reply to the last action and says what to do next.
    fn step(&mut self, fs: &mut PassthroughFs, reply: Reply) -> (flow: Flow<Self::Output>)
        requires
            old(fs).wf(),
            old(self).expects(reply),
        ensures
            final(fs).wf(),
            old(self).leads_to(*old(fs), reply, *final(self), *final(fs), flow),
            flow matches Flow::Do(a) ==> can_be_asked(a) && forall|r: Reply| #[trigger]
                answers(r, a) ==> final(self).expects(r),
    ;

    /// No step loses or makes up anything that has to be given back, and nothing is held
    /// at the end.
    proof fn step_balances(
        &self,
        fs: PassthroughFs,
        reply: Reply,
        next: Self,
        next_fs: PassthroughFs,
        flow: Flow<Self::Output>,
        r: Resource,
    )
        requires
            self.expects(reply),
            self.leads_to(fs, reply, next, next_fs, flow),
        ensures
            self.holds(r) + fs_holds(fs, r) + gained(reply, r) == next.holds(r) + fs_holds(
                next_fs,
                r,
            ) + (match flow {
                Flow::Do(a) => given_back(a, r),
                Flow::Done(out) => Self::hands_over(out, r),
            }),
            flow is Done ==> next.holds(r) == 0,
    ;
}

/// One step of an operation.
pub struct Step<O: Operation> {
    pub before: O,
    pub fs_before: PassthroughFs,
    pub reply: Reply,
    pub after: O,
    pub fs_after: PassthroughFs,
    pub flow: Flow<O::Output>,
}

/// The step is one that the operation takes.
pub open spec fn is_step<O: Operation>(s: Step<O>) -> bool {
    &&& s.before.expects(s.reply)
    &&& s.before.leads_to(s.fs_before, s.reply, s.after, s.fs_after, s.flow)
}

/// The steps follow one another. Between two of them the file system may change.
pub open spec fn are_steps<O: Operation>(steps: Seq<Step<O>>) -> bool {
    &&& forall|i: int| 0 <= i < steps.len() ==> is_step(#[trigger] steps[i])
    &&& forall|i: int, j: int|
        0 <= i < steps.len() && j == i + 1 && j < steps.len() ==> (#[trigger] steps[j]).before == (
        #[trigger] steps[i]).after
}

/// The steps follow one another, and between two of them nothing else changes the file
/// system.
pub open spec fn are_undisturbed<O: Operation>(steps: Seq<Step<O>>) -> bool {
    &&& are_steps(steps)
    &&& forall|i: int, j: int|
        0 <= i < steps.len() && j == i + 1 && j < steps.len() ==> (
        #[trigger] steps[j]).fs_before == (#[trigger] steps[i]).fs_after
}

/// What is left without the last step are steps that follow one another.
pub proof fn lemma_fewer_steps<O: Operation>(steps: Seq<Step<O>>)
    requires
        steps.len() > 0,
        are_steps(steps),
    ensures
        are_steps(steps.drop_last()),
        are_undisturbed(steps) ==> are_undisturbed(steps.drop_last()),
        is_step(steps.last()),
        steps.len() > 1 ==> steps.last().before == steps.drop_last().last().after,
        steps.len() > 1 && are_undisturbed(steps) ==> steps.last().fs_before
            == steps.drop_last().last().fs_after,
        steps.len() > 1 ==> steps.drop_last()[0] == steps[0],
{
    let n = steps.len();
    let init = steps.drop_last();
    assert(is_step(steps[n - 1]));
    assert forall|i: int| 0 <= i < init.len() implies is_step(#[trigger] init[i]) by {
        assert(is_step(steps[i]));
    }
    assert forall|i: int, j: int| 0 <= i < init.len() && j == i + 1 && j < init.len() implies (
    #[trigger] init[j]).before == (#[trigger] init[i]).after by {
        assert(steps[j].before == steps[i].after);
    }
    if are_undisturbed(steps) {
        assert forall|i: int, j: int|
            0 <= i < init.len() && j == i + 1 && j < init.len() implies (
        #[trigger] init[j]).fs_before == (#[trigger] init[i]).fs_after by {
            assert(steps[j].fs_before == steps[i].fs_after);
        }
    }
    if n > 1 {
        assert(steps[n - 1].before == steps[n - 2].after);
        if are_undisturbed(steps) {
            assert(steps[n - 1].fs_before == steps[n - 2].fs_after);
        }
    }
}

/// What a step takes over: from the host, and from the file system.
pub open spec fn taken<O: Operation>(s: Step<O>, r: Resource) -> int {
    gained(s.reply, r) + fs_holds(s.fs_before, r) - fs_holds(s.fs_after, r)
}

/// What a step gives away: back to the host, or to the caller at the end.
pub open spec fn released<O: Operation>(s: Step<O>, r: Resource) -> int {
    match s.flow {
        Flow::Do(a) => given_back(a, r),
        Flow::Done(out) => O::hands_over(out, r),
    }
}

/// What steps take over.
pub open spec fn all_taken<O: Operation>(steps: Seq<Step<O>>, r: Resource) -> int
    decreases steps.len(),
{
    if steps.len() == 0 {
        0
    } else {
        all_taken(steps.drop_last(), r) + taken(steps.last(), r)
    }
}

/// What steps give away.
pub open spec fn all_released<O: Operation>(steps: Seq<Step<O>>, r: Resource) -> int
    decreases steps.len(),
{
    if steps.len() == 0 {
        0
    } else {
        all_released(steps.drop_last(), r) + released(steps.last(), r)
    }
}

proof fn lemma_steps_balance<O: Operation>(steps: Seq<Step<O>>, r: Resource)
    requires
        steps.len() > 0,
        are_steps(steps),
    ensures
        steps[0].before.holds(r) + all_taken(steps, r) == steps.last().after.holds(r)
            + all_released(steps, r),
    decreases steps.len(),
{
    let s = steps.last();
    lemma_fewer_steps(steps);
    s.before.step_balances(s.fs_before, s.reply, s.after, s.fs_after, s.flow, r);
    let init = steps.drop_last();
    if init.len() > 0 {
        lemma_steps_balance(init, r);
    } else {
        assert(all_taken(init, r) == 0);
        assert(all_released(init, r) == 0);
    }
}

/// Whatever the host answers, an operation that has ended has given every handle and
/// every search that it took over back to the host or to its caller: on every way out.
pub proof fn law_operations_give_everything_back<O: Operation>(steps: Seq<Step<O>>, r: Resource)
    requires
        steps.len() > 0,
        are_steps(steps),
        steps.last().flow is Done,
    ensures
        steps[0].before.holds(r) + all_taken(steps, r) == all_released(steps, r),
{
    lemma_steps_balance(steps, r);
    let s = steps.last();
    assert(is_step(steps[steps.len() - 1]));
    s.before.step_balances(s.fs_before, s.reply, s.after, s.fs_after, s.flow, r);
}

} // verus!
