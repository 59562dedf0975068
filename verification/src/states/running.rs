//! The state of a pod whose containers were started.

use vstd::prelude::*;
use crate::model::{poll_seconds, ActionView, EventView, Stage};
use crate::states::{
    Action, Event, PodLifecycleState, Terminated, Transition,
};
use crate::states::terminated::StopStep;
use crate::status::{json_patch, status_patch, Phase, Status};
use crate::text::owned;

verus! {

/// The agent is running the pod.
#[derive(Default, Debug, PartialEq, Eq)]
pub struct Running;

impl View for Running {
    type V = Stage;

    open spec fn view(&self) -> Stage {
        Stage::Running
    }
}

impl Running {
    /// A running pod keeps running, and waits, until it is marked for
    /// deletion. Then its teardown begins with a listing of the sandboxes.
    pub fn next(self, event: Event) -> (r: Transition)
        ensures
            event@ == EventView::DeletionRequested ==> r.state@ == Stage::TermRefresh && r.action@
                == ActionView::ListPodSandbox,
            event@ != EventView::DeletionRequested ==> r.state@ == Stage::Running && r.action@
                == (ActionView::Sleep { seconds: poll_seconds() }),
    {
        match event {
            Event::DeletionRequested => Transition {
                state: PodLifecycleState::Terminated(Terminated { step: StopStep::Refresh }),
                action: Action::ListPodSandbox,
            },
            _ => Transition {
                state: PodLifecycleState::Running(self),
                action: Action::Sleep { seconds: 10 },
            },
        }
    }

    /// A running pod is running.
    pub fn status(&self) -> (r: Status)
        ensures
            r@ == (Phase::Running, "Running"@),
    {
        Status { phase: Phase::Running, reason: owned("Running") }
    }

    /// The status as the text of a JSON patch.
    pub fn json_status(&self) -> (r: Result<String, String>)
        ensures
            json_patch(r) == status_patch(Phase::Running, "Running"@),
    {
        self.status().json()
    }
}

} // verus!
