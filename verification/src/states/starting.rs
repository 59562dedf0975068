//! The state in which a pod's sandbox and containers are started.

use vstd::prelude::*;
use crate::cri::PodSandboxView;
use crate::model::{containers_from, kind, run_sandbox, step_starting, Kind, Stage};
use crate::pod::Pod;
use crate::registry::Key;
use crate::states::{
    failure, protocol_failure, Action, Event, PodLifecycleState, PodState, Running,
    SharedPodState, Transition,
};
use crate::states::terminated::{stop_and_delete_pod_sandbox, Teardown};
use crate::status::{json_patch, status_patch, Phase, Status};
use crate::text::owned;
use crate::translate::{container_config, make_container_log_directory};

verus! {

/// The call that the starting state awaits. Containers are numbered from
/// zero; a sandbox is named by its id.
#[derive(Debug, PartialEq, Eq)]
pub enum StartStep {
    /// The listing of the runtime's sandboxes.
    Refresh,
    /// The stop of a sandbox left over from an earlier run.
    StopStale(String),
    /// The removal of that sandbox.
    RemoveStale(String),
    /// The creation of the sandbox, first attempt.
    Run,
    /// The stop of what the failed attempt may have left.
    StopFailed(String),
    /// The removal of it.
    RemoveFailed(String),
    /// The creation of the sandbox, second and last attempt.
    Rerun,
    /// The creation of this container's log directory.
    LogDir(String, usize),
    /// The creation of this container.
    Create(String, usize),
    /// The start of this container.
    Launch(String, usize),
}

/// The agent is starting the pod.
#[derive(Debug, PartialEq, Eq)]
pub struct Starting {
    pub step: StartStep,
}

impl View for Starting {
    type V = Stage;

    open spec fn view(&self) -> Stage {
        match self.step {
            StartStep::Refresh => Stage::StartRefresh,
            StartStep::StopStale(id) => Stage::StartStopStale(id@),
            StartStep::RemoveStale(id) => Stage::StartRemoveStale(id@),
            StartStep::Run => Stage::StartRun,
            StartStep::StopFailed(id) => Stage::StartStopFailed(id@),
            StartStep::RemoveFailed(id) => Stage::StartRemoveFailed(id@),
            StartStep::Rerun => Stage::StartRerun,
            StartStep::LogDir(id, i) => Stage::StartLogDir(id@, i as nat),
            StartStep::Create(id, i) => Stage::StartCreate(id@, i as nat),
            StartStep::Launch(id, i) => Stage::StartLaunch(id@, i as nat),
        }
    }
}

/// The sandbox is to be created; `step` says which attempt this is.
fn run(pod_state: &PodState, step: StartStep) -> (r: Transition)
    requires
        step == StartStep::Run || step == StartStep::Rerun,
    ensures
        r.state@ == (Starting { step })@,
        r.action@ == run_sandbox(pod_state.sandbox_config@),
{
    Transition {
        state: PodLifecycleState::Starting(Starting { step }),
        action: Action::RunPodSandbox {
            config: pod_state.sandbox_config.clone(),
            runtime_handler: String::new(),
        },
    }
}

/// Goes on with the containers from container `from` on, in the sandbox
/// `id`.
fn start_containers_from(
    pod: &Pod,
    id: String,
    from: usize,
    Ghost(pods): Ghost<Map<Key, PodSandboxView>>,
) -> (r: Transition)
    ensures
        r.outcome(pods) == containers_from(pod@, id@, from as nat, pods),
{
    if from < pod.containers.len() {
        assert(pod@.containers[from as int] == pod.containers[from as int]@);
        Transition {
            state: PodLifecycleState::Starting(Starting { step: StartStep::LogDir(id, from) }),
            action: Action::CreateLogDirectory {
                path: make_container_log_directory(
                    &pod.namespace,
                    &pod.name,
                    &pod.containers[from].name,
                ),
            },
        }
    } else {
        Transition {
            state: PodLifecycleState::Running(Running),
            action: Action::Sleep { seconds: 10 },
        }
    }
}

impl Starting {
    /// Every stage of this state is a starting stage.
    pub proof fn lemma_kind(&self)
        ensures
            kind(self@) == Kind::Starting,
    {
    }

    /// One step of starting. The sandbox cache is replaced by the listing;
    /// a sandbox that it holds for the pod is stopped and removed. Then the
    /// sandbox is created. If that fails, what the cache holds for the pod
    /// is stopped and removed, and the creation is tried once more; if it
    /// fails again, the pod fails. With the sandbox's id in hand, each
    /// container in turn gets its log directory, is created in that
    /// sandbox and is started. Any other call that fails fails the pod,
    /// and the cause is its message. When no container is left, the pod
    /// runs.
    pub fn next(self, pod_state: &PodState, shared: &mut SharedPodState, pod: &Pod, event: Event) -> (r:
        Transition)
        ensures
            r.outcome(final(shared).pods@) == step_starting(
                self@,
                old(shared).pods@,
                pod_state.sandbox_config@,
                pod@,
                event@,
            ),
            final(shared).containers@ == old(shared).containers@,
            final(shared).socket_address == old(shared).socket_address,
    {
        let ghost pods = shared.pods@;
        match event {
            Event::Failed(cause) => match self.step {
                StartStep::Run => match stop_and_delete_pod_sandbox(shared, pod) {
                    Teardown::StopThenRemove { pod_sandbox_id } => Transition {
                        state: PodLifecycleState::Starting(
                            Starting { step: StartStep::StopFailed(pod_sandbox_id.clone()) },
                        ),
                        action: Action::StopPodSandbox { pod_sandbox_id },
                    },
                    Teardown::NothingToDo => run(pod_state, StartStep::Rerun),
                },
                _ => failure(cause),
            },
            Event::Sandboxes(items) => match self.step {
                StartStep::Refresh => {
                    shared.refresh_pods(&items);
                    match stop_and_delete_pod_sandbox(shared, pod) {
                        Teardown::StopThenRemove { pod_sandbox_id } => Transition {
                            state: PodLifecycleState::Starting(
                                Starting { step: StartStep::StopStale(pod_sandbox_id.clone()) },
                            ),
                            action: Action::StopPodSandbox { pod_sandbox_id },
                        },
                        Teardown::NothingToDo => run(pod_state, StartStep::Run),
                    }
                },
                _ => protocol_failure(),
            },
            Event::Done => match self.step {
                StartStep::StopStale(id) => Transition {
                    state: PodLifecycleState::Starting(
                        Starting { step: StartStep::RemoveStale(id.clone()) },
                    ),
                    action: Action::RemovePodSandbox { pod_sandbox_id: id },
                },
                StartStep::RemoveStale(_) => run(pod_state, StartStep::Run),
                StartStep::StopFailed(id) => Transition {
                    state: PodLifecycleState::Starting(
                        Starting { step: StartStep::RemoveFailed(id.clone()) },
                    ),
                    action: Action::RemovePodSandbox { pod_sandbox_id: id },
                },
                StartStep::RemoveFailed(_) => run(pod_state, StartStep::Rerun),
                StartStep::LogDir(id, i) => {
                    if i >= pod.containers.len() {
                        protocol_failure()
                    } else {
                        assert(pod@.containers[i as int] == pod.containers[i as int]@);
                        Transition {
                            state: PodLifecycleState::Starting(
                                Starting { step: StartStep::Create(id.clone(), i) },
                            ),
                            action: Action::CreateContainer {
                                pod_sandbox_id: id,
                                config: container_config(&pod.containers[i]),
                                sandbox_config: pod_state.sandbox_config.clone(),
                            },
                        }
                    }
                },
                StartStep::Launch(id, i) => {
                    if i < pod.containers.len() {
                        start_containers_from(pod, id, i + 1, Ghost(pods))
                    } else {
                        start_containers_from(pod, id, i, Ghost(pods))
                    }
                },
                _ => protocol_failure(),
            },
            Event::SandboxStarted(id) => match self.step {
                StartStep::Run => start_containers_from(pod, id, 0, Ghost(pods)),
                StartStep::Rerun => start_containers_from(pod, id, 0, Ghost(pods)),
                _ => protocol_failure(),
            },
            Event::ContainerCreated(container_id) => match self.step {
                StartStep::Create(id, i) => Transition {
                    state: PodLifecycleState::Starting(
                        Starting { step: StartStep::Launch(id, i) },
                    ),
                    action: Action::StartContainer { container_id },
                },
                _ => protocol_failure(),
            },
            _ => protocol_failure(),
        }
    }

    /// A pod that is being started is pending.
    pub fn status(&self) -> (r: Status)
        ensures
            r@ == (Phase::Pending, "Starting"@),
    {
        Status { phase: Phase::Pending, reason: owned("Starting") }
    }

    /// The status as the text of a JSON patch.
    pub fn json_status(&self) -> (r: Result<String, String>)
        ensures
            json_patch(r) == status_patch(Phase::Pending, "Starting"@),
    {
        self.status().json()
    }
}

} // verus!
