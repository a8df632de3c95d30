//! Whole runs of operations.

use crate::errno::FsError;
use crate::host::{Action, Flow, Reply};
use crate::operation::{are_steps, is_step, Operation, Step};
use vstd::prelude::*;

verus! {

/// The steps are a whole run: they follow one another, and the last one ends the operation.
pub open spec fn is_run<O: Operation>(steps: Seq<Step<O>>, out: O::Output) -> bool {
    &&& steps.len() > 0
    &&& are_steps(steps)
    &&& steps[steps.len() - 1].flow == Flow::Done(out)
}

/// The `i`-th action that a run asks for.
pub open spec fn asked<O: Operation>(steps: Seq<Step<O>>, i: int) -> Option<Action> {
    if 0 <= i < steps.len() {
        match steps[i].flow {
            Flow::Do(a) => Some(a),
            Flow::Done(_) => None,
        }
    } else {
        None
    }
}

/// The answer to the `i`-th action.
pub open spec fn answer<O: Operation>(steps: Seq<Step<O>>, i: int) -> Reply {
    steps[i + 1].reply
}

/// The error that a Linux code stands for.
pub open spec fn linux_error(code: i32) -> FsError {
    FsError::Os { code, translations: 0 }
}

/// The error of the host with one pass through the table of codes to come.
pub open spec fn host_error(e: FsError) -> FsError {
    match e {
        FsError::Os { code, translations } if translations < u8::MAX => FsError::Os {
            code,
            translations: (translations + 1) as u8,
        },
        FsError::Uncoded { kind, translations } if translations < u8::MAX => FsError::Uncoded {
            kind,
            translations: (translations + 1) as u8,
        },
        _ => e,
    }
}

/// The first steps of a run, one by one.
pub proof fn lemma_steps<O: Operation>(steps: Seq<Step<O>>)
    requires
        are_steps(steps),
    ensures
        steps.len() > 0 ==> is_step(steps[0]),
        steps.len() > 1 ==> is_step(steps[1]) && steps[1].before == steps[0].after,
        steps.len() > 2 ==> is_step(steps[2]) && steps[2].before == steps[1].after,
        steps.len() > 3 ==> is_step(steps[3]) && steps[3].before == steps[2].after,
        steps.len() > 4 ==> is_step(steps[4]) && steps[4].before == steps[3].after,
        steps.len() > 5 ==> is_step(steps[5]) && steps[5].before == steps[4].after,
        steps.len() > 6 ==> is_step(steps[6]) && steps[6].before == steps[5].after,
        steps.len() > 7 ==> is_step(steps[7]) && steps[7].before == steps[6].after,
        steps.len() > 8 ==> is_step(steps[8]) && steps[8].before == steps[7].after,
        steps.len() > 9 ==> is_step(steps[9]) && steps[9].before == steps[8].after,
        steps.len() > 10 ==> is_step(steps[10]) && steps[10].before == steps[9].after,
{
}

/// Any step of a run.
pub proof fn lemma_step<O: Operation>(steps: Seq<Step<O>>, i: int)
    requires
        are_steps(steps),
        0 <= i < steps.len(),
    ensures
        is_step(steps[i]),
        i > 0 ==> steps[i].before == steps[i - 1].after,
{
    if i > 0 {
        assert(steps[i].before == steps[i - 1].after);
    }
}

} // verus!
