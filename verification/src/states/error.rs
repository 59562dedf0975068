//! The state of a pod that failed.

use vstd::prelude::*;
use crate::model::{ActionView, Stage};
use crate::states::{Action, PodLifecycleState, Transition};

use crate::status::{json_patch, status_patch, Phase, Status};

verus! {

/// The pod failed to run.
#[derive(Default, Debug, PartialEq, Eq)]
pub struct Error {
    pub message: String,
}

impl View for Error {
    type V = Stage;

    open spec fn view(&self) -> Stage {
        Stage::Error(self.message@)
    }
}

impl Error {
    /// A failed pod stays failed, with its message, and asks for nothing.
    pub fn next(self) -> (r: Transition)
        ensures
            r.state@ == self@,
            r.action@ == ActionView::Halt,
    {
        Transition { state: PodLifecycleState::Error(self), action: Action::Halt }
    }

    /// A failed pod is pending, and the failure is the reason.
    pub fn status(&self) -> (r: Status)
        ensures
            r@ == (Phase::Pending, self.message@),
    {
        Status { phase: Phase::Pending, reason: self.message.clone() }
    }

    /// The status as the text of a JSON patch.
    pub fn json_status(&self) -> (r: Result<String, String>)
        ensures
            json_patch(r) == status_patch(Phase::Pending, self.message@),
    {
        self.status().json()
    }
}

} // verus!
