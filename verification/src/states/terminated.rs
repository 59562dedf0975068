//! The state in which a pod is torn down, and the teardown of a sandbox.

use vstd::prelude::*;
use crate::model::{delete_pod, kind, step_terminated, teardown_of, ActionView, Kind, Stage};
use crate::pod::Pod;
use crate::states::{
    Action, Event, PodLifecycleState, SharedPodState, Transition,
};
use crate::status::{json_patch, status_patch, Phase, Status};
use crate::text::owned;

verus! {

/// What tearing a pod's sandbox down takes.
#[derive(Debug, PartialEq, Eq)]
pub enum Teardown {
    /// No sandbox is known for the pod: it is gone already, and the
    /// teardown has succeeded without a call.
    NothingToDo,
    /// This sandbox is to be stopped and then removed.
    StopThenRemove { pod_sandbox_id: String },
}

impl View for Teardown {
    type V = Option<Seq<char>>;

    open spec fn view(&self) -> Option<Seq<char>> {
        match self {
            Teardown::NothingToDo => None,
            Teardown::StopThenRemove { pod_sandbox_id } => Some(pod_sandbox_id@),
        }
    }
}

/// Plans the teardown of a pod's sandbox from the cache as it is: the
/// sandbox cached under the pod's namespace and name is to be stopped and
/// then removed. Where none is cached nothing is to be done, which is no
/// failure.
pub fn stop_and_delete_pod_sandbox(shared: &SharedPodState, pod: &Pod) -> (r: Teardown)
    ensures
        r@ == teardown_of(shared.pods@, pod@),
        !shared.pods@.contains_key((pod@.namespace, pod@.name)) ==> r == Teardown::NothingToDo,
{
    match shared.pods.get(&pod.namespace, &pod.name) {
        Some(sandbox) => Teardown::StopThenRemove { pod_sandbox_id: sandbox.id.clone() },
        None => Teardown::NothingToDo,
    }
}

/// The call that the terminated state awaits.
#[derive(Debug, PartialEq, Eq)]
pub enum StopStep {
    /// The listing of the runtime's sandboxes.
    Refresh,
    /// The stop of this sandbox.
    Stop(String),
    /// The removal of this sandbox.
    Remove(String),
    /// The deletion of the pod's authoritative record.
    Delete,
    /// None: the lifecycle has ended.
    Done,
}

/// The pod was deleted.
#[derive(Debug, PartialEq, Eq)]
pub struct Terminated {
    pub step: StopStep,
}

impl View for Terminated {
    type V = Stage;

    open spec fn view(&self) -> Stage {
        match self.step {
            StopStep::Refresh => Stage::TermRefresh,
            StopStep::Stop(id) => Stage::TermStop(id@),
            StopStep::Remove(id) => Stage::TermRemove(id@),
            StopStep::Delete => Stage::TermDelete,
            StopStep::Done => Stage::TermDone,
        }
    }
}

/// The teardown has failed for this reason.
fn aborted(message: String) -> (r: Transition)
    ensures
        r.state@ == Stage::TermDone,
        r.action@ == (ActionView::Abort { message: message@ }),
{
    Transition {
        state: PodLifecycleState::Terminated(Terminated { step: StopStep::Done }),
        action: Action::Abort { message },
    }
}

/// The pod's authoritative record is to be deleted, at once.
fn deletion(pod: &Pod) -> (r: Transition)
    ensures
        r.state@ == Stage::TermDelete,
        r.action@ == delete_pod(pod@),
{
    Transition {
        state: PodLifecycleState::Terminated(Terminated { step: StopStep::Delete }),
        action: Action::DeletePod {
            namespace: pod.namespace.clone(),
            name: pod.name.clone(),
            grace_period_seconds: 0,
        },
    }
}

impl Terminated {
    /// The state as it is entered: the sandboxes are to be listed.
    pub fn new() -> (r: Self)
        ensures
            r@ == Stage::TermRefresh,
    {
        Terminated { step: StopStep::Refresh }
    }

    /// Every stage of this state is a terminated stage.
    pub proof fn lemma_kind(&self)
        ensures
            kind(self@) == Kind::Terminated,
    {
    }

    /// Whether the teardown is behind the pod.
    pub fn is_done(&self) -> (r: bool)
        ensures
            r == (self@ == Stage::TermDone),
    {
        match self.step {
            StopStep::Done => true,
            _ => false,
        }
    }

    /// One step of the teardown: the sandbox cache is replaced by the
    /// listing; the pod's sandbox, if the cache holds one, is stopped and
    /// then removed; then the pod's record is deleted with no grace
    /// period, and the lifecycle is complete. A call that failed ends the
    /// lifecycle with the cause.
    pub fn next(self, shared: &mut SharedPodState, pod: &Pod, event: Event) -> (r: Transition)
        ensures
            r.outcome(final(shared).pods@) == step_terminated(
                self@,
                old(shared).pods@,
                pod@,
                event@,
            ),
            final(shared).containers@ == old(shared).containers@,
            final(shared).socket_address == old(shared).socket_address,
    {
        match self.step {
            StopStep::Done => Transition {
                state: PodLifecycleState::Terminated(self),
                action: Action::Halt,
            },
            step => match event {
                Event::Failed(cause) => aborted(cause),
                Event::Sandboxes(items) => match step {
                    StopStep::Refresh => {
                        shared.refresh_pods(&items);
                        match stop_and_delete_pod_sandbox(shared, pod) {
                            Teardown::StopThenRemove { pod_sandbox_id } => Transition {
                                state: PodLifecycleState::Terminated(
                                    Terminated { step: StopStep::Stop(pod_sandbox_id.clone()) },
                                ),
                                action: Action::StopPodSandbox { pod_sandbox_id },
                            },
                            Teardown::NothingToDo => deletion(pod),
                        }
                    },
                    _ => aborted(owned("unexpected event")),
                },
                Event::Done => match step {
                    StopStep::Stop(id) => Transition {
                        state: PodLifecycleState::Terminated(
                            Terminated { step: StopStep::Remove(id.clone()) },
                        ),
                        action: Action::RemovePodSandbox { pod_sandbox_id: id },
                    },
                    StopStep::Remove(_) => deletion(pod),
                    StopStep::Delete => Transition {
                        state: PodLifecycleState::Terminated(Terminated { step: StopStep::Done }),
                        action: Action::Complete,
                    },
                    _ => aborted(owned("unexpected event")),
                },
                _ => aborted(owned("unexpected event")),
            },
        }
    }

    /// A pod that was torn down has succeeded.
    pub fn status(&self) -> (r: Status)
        ensures
            r@ == (Phase::Succeeded, "Terminated"@),
    {
        Status { phase: Phase::Succeeded, reason: owned("Terminated") }
    }

    /// The status as the text of a JSON patch.
    pub fn json_status(&self) -> (r: Result<String, String>)
        ensures
            json_patch(r) == status_patch(Phase::Succeeded, "Terminated"@),
    {
        self.status().json()
    }
}

} // verus!
