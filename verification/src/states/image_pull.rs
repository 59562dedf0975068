//! The state in which a pod's images are pulled.

use vstd::prelude::*;
use crate::cri::PodSandboxView;
use crate::model::{kind, pull_from, step_image_pull, Kind, Stage};
use crate::pod::Pod;
use crate::policy::{should_pull, PullPolicy};
use crate::registry::Key;
use crate::states::{
    failure, protocol_failure, Action, Event, PodLifecycleState, PodState,
    SharedPodState, Starting, Transition,
};
use crate::states::starting::StartStep;
use crate::status::{json_patch, status_patch, Phase, Status};
use crate::text::owned;

verus! {

/// The call that the image pulling state awaits. Containers are numbered
/// from zero.
#[derive(Debug, PartialEq, Eq)]
pub enum PullStep {
    /// The connection to the image service.
    Connect,
    /// Whether the image of this container is present.
    Query(usize),
    /// The pull of the image of this container.
    Fetch(usize),
}

/// The agent is pulling container images.
#[derive(Debug, PartialEq, Eq)]
pub struct ImagePull {
    pub step: PullStep,
}

impl View for ImagePull {
    type V = Stage;

    open spec fn view(&self) -> Stage {
        match self.step {
            PullStep::Connect => Stage::PullConnect,
            PullStep::Query(i) => Stage::PullQuery(i as nat),
            PullStep::Fetch(i) => Stage::PullFetch(i as nat),
        }
    }
}

/// Goes on with the images from container `from` on.
fn pull_images_from(
    pod_state: &PodState,
    pod: &Pod,
    from: usize,
    Ghost(pods): Ghost<Map<Key, PodSandboxView>>,
) -> (r: Transition)
    ensures
        r.outcome(pods) == pull_from(pod@, pod_state.sandbox_config@, from as nat, pods),
{
    let mut i: usize = from;
    while i < pod.containers.len()
        invariant
            from <= i,
            pull_from(pod@, pod_state.sandbox_config@, i as nat, pods) == pull_from(
                pod@,
                pod_state.sandbox_config@,
                from as nat,
                pods,
            ),
        decreases pod.containers.len() - i,
    {
        assert(pod@.containers[i as int] == pod.containers[i as int]@);
        match pod.containers[i].pull_policy {
            PullPolicy::Always => {
                return Transition {
                    state: PodLifecycleState::ImagePull(ImagePull { step: PullStep::Fetch(i) }),
                    action: Action::PullImage {
                        image: pod.containers[i].image.clone(),
                        sandbox_config: pod_state.sandbox_config.clone(),
                    },
                };
            },
            PullPolicy::IfNotPresent => {
                return Transition {
                    state: PodLifecycleState::ImagePull(ImagePull { step: PullStep::Query(i) }),
                    action: Action::ImageStatus { image: pod.containers[i].image.clone() },
                };
            },
            PullPolicy::Never => {
                i += 1;
            },
        }
    }
    Transition {
        state: PodLifecycleState::Starting(Starting { step: StartStep::Refresh }),
        action: Action::ListPodSandbox,
    }
}

impl ImagePull {
    /// Every stage of this state is an image pulling stage.
    pub proof fn lemma_kind(&self)
        ensures
            kind(self@) == Kind::ImagePull,
    {
    }

    /// One step of pulling: once connected, each container in turn has its
    /// image pulled if its policy says so, and the image service is asked
    /// first where the policy depends on what is present. A call that
    /// failed fails the pod, and the cause is its message. When no
    /// container is left, the pod starts.
    pub fn next(self, pod_state: &PodState, shared: &SharedPodState, pod: &Pod, event: Event) -> (r:
        Transition)
        ensures
            r.outcome(shared.pods@) == step_image_pull(
                self@,
                shared.pods@,
                pod_state.sandbox_config@,
                pod@,
                event@,
            ),
    {
        let ghost pods = shared.pods@;
        match event {
            Event::Failed(cause) => match self.step {
                PullStep::Connect => {
                    let mut message = owned("Error creating image client: ");
                    message.append(cause.as_str());
                    failure(message)
                },
                _ => failure(cause),
            },
            Event::Done => match self.step {
                PullStep::Connect => pull_images_from(pod_state, pod, 0, Ghost(pods)),
                PullStep::Fetch(i) => {
                    if i < pod.containers.len() {
                        pull_images_from(pod_state, pod, i + 1, Ghost(pods))
                    } else {
                        pull_images_from(pod_state, pod, i, Ghost(pods))
                    }
                },
                _ => protocol_failure(),
            },
            Event::ImagePresent(present) => match self.step {
                PullStep::Query(i) => {
                    if i >= pod.containers.len() {
                        protocol_failure()
                    } else {
                        assert(pod@.containers[i as int] == pod.containers[i as int]@);
                        if should_pull(pod.containers[i].pull_policy, present) {
                            Transition {
                                state: PodLifecycleState::ImagePull(
                                    ImagePull { step: PullStep::Fetch(i) },
                                ),
                                action: Action::PullImage {
                                    image: pod.containers[i].image.clone(),
                                    sandbox_config: pod_state.sandbox_config.clone(),
                                },
                            }
                        } else {
                            pull_images_from(pod_state, pod, i + 1, Ghost(pods))
                        }
                    }
                },
                _ => protocol_failure(),
            },
            _ => protocol_failure(),
        }
    }

    /// A pod whose images are pulled is pending.
    pub fn status(&self) -> (r: Status)
        ensures
            r@ == (Phase::Pending, "ImagePull"@),
    {
        Status { phase: Phase::Pending, reason: owned("ImagePull") }
    }

    /// The status as the text of a JSON patch.
    pub fn json_status(&self) -> (r: Result<String, String>)
        ensures
            json_patch(r) == status_patch(Phase::Pending, "ImagePull"@),
    {
        self.status().json()
    }
}

} // verus!
