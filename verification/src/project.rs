use vstd::prelude::*;
use crate::effects::{CloseAnswer, EntityId, ProjectStep};

verus! {

/// The step after `workspace` answered the request to close so that a
/// project replaces it: the paths are opened only if it agreed; if it
/// declined, opening ends without opening anything; if the request failed,
/// opening ends with that failure and opens nothing.
pub fn step_after_close_request(workspace: EntityId, answer: CloseAnswer) -> (r: ProjectStep)
    ensures
        answer == CloseAnswer::Agreed ==> r == (ProjectStep::OpenPaths { workspace }),
        answer == CloseAnswer::Declined ==> r == ProjectStep::Done,
        answer == CloseAnswer::Failed ==> r == ProjectStep::Fail,
{
    match answer {
        CloseAnswer::Agreed => ProjectStep::OpenPaths { workspace },
        CloseAnswer::Declined => ProjectStep::Done,
        CloseAnswer::Failed => ProjectStep::Fail,
    }
}

} // verus!
