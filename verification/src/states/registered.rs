//! The state in which a pod begins.

use vstd::prelude::*;
use crate::model::{ActionView, Stage};
use crate::pod::Pod;
use crate::states::{Action, ImagePull, PodLifecycleState, PodState, Transition};
use crate::states::image_pull::PullStep;
use crate::status::{json_patch, status_patch, Phase, Status};
use crate::text::owned;
use crate::translate::{sandbox_config, sandbox_config_of};

verus! {

/// The agent is aware of the pod.
#[derive(Default, Debug, PartialEq, Eq)]
pub struct Registered;

impl View for Registered {
    type V = Stage;

    open spec fn view(&self) -> Stage {
        Stage::Registered
    }
}

impl Registered {
    /// Builds the pod's sandbox configuration and goes on to pull images,
    /// whatever has happened: the image service is to be connected to.
    pub fn next(self, pod_state: &mut PodState, pod: &Pod) -> (r: Transition)
        ensures
            r.state@ == Stage::PullConnect,
            r.action@ == ActionView::ConnectImageService,
            final(pod_state).sandbox_config@ == sandbox_config_of(pod@),
    {
        pod_state.sandbox_config = sandbox_config(pod);
        Transition {
            state: PodLifecycleState::ImagePull(ImagePull { step: PullStep::Connect }),
            action: Action::ConnectImageService,
        }
    }

    /// A registered pod is pending.
    pub fn status(&self) -> (r: Status)
        ensures
            r@ == (Phase::Pending, "Registered"@),
    {
        Status { phase: Phase::Pending, reason: owned("Registered") }
    }

    /// The status as the text of a JSON patch.
    pub fn json_status(&self) -> (r: Result<String, String>)
        ensures
            json_patch(r) == status_patch(Phase::Pending, "Registered"@),
    {
        self.status().json()
    }
}

} // verus!
