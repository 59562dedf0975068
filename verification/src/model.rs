//! The lifecycle of a pod as a mathematical state machine.
//!
//! A pod's controller is in one stage at a time. A stage names the
//! lifecycle state and, inside it, the runtime call whose outcome is
//! awaited. `step` maps a stage and the outcome of that call to the next
//! stage and the next call. The executable states of this library are
//! verified to compute exactly this function.

use vstd::prelude::*;
use crate::cri::{
    ContainerConfigView, ContainerView, PodSandboxConfigView, PodSandboxView,
};
use crate::pod::PodView;
use crate::policy::{spec_should_pull, PullPolicy};
use crate::registry::Key;
use crate::translate::{container_config_of, container_log_directory};

verus! {

/// The lifecycle states.
#[derive(Clone, Copy, Debug, PartialEq, Eq, Structural)]
pub enum Kind {
    Registered,
    ImagePull,
    Starting,
    Running,
    Terminated,
    Error,
}

/// Where a pod's controller stands: the lifecycle state and the call in
/// flight. Containers are numbered from zero in the order of the pod.
pub enum Stage {
    /// Known to the agent; nothing asked yet.
    Registered,
    /// Connecting to the image service.
    PullConnect,
    /// Asking whether the image of this container is present.
    PullQuery(nat),
    /// Pulling the image of this container.
    PullFetch(nat),
    /// Listing the runtime's sandboxes.
    StartRefresh,
    /// Stopping a sandbox left over from an earlier run.
    StartStopStale(Seq<char>),
    /// Removing that sandbox.
    StartRemoveStale(Seq<char>),
    /// Creating the sandbox, first attempt.
    StartRun,
    /// Stopping what the failed attempt may have left.
    StartStopFailed(Seq<char>),
    /// Removing it.
    StartRemoveFailed(Seq<char>),
    /// Creating the sandbox, second and last attempt.
    StartRerun,
    /// Creating the log directory of this container, in this sandbox.
    StartLogDir(Seq<char>, nat),
    /// Creating this container.
    StartCreate(Seq<char>, nat),
    /// Starting this container.
    StartLaunch(Seq<char>, nat),
    /// All containers were started.
    Running,
    /// Listing the runtime's sandboxes before teardown.
    TermRefresh,
    /// Stopping the pod's sandbox.
    TermStop(Seq<char>),
    /// Removing the pod's sandbox.
    TermRemove(Seq<char>),
    /// Deleting the pod's authoritative record.
    TermDelete,
    /// The lifecycle has ended.
    TermDone,
    /// The pod failed; the message says why.
    Error(Seq<char>),
}

/// The outcome of the call that was in flight.
pub enum EventView {
    /// Nothing was in flight.
    Entered,
    /// The call succeeded and returned nothing of interest.
    Done,
    /// The image service said whether the image is present.
    ImagePresent(bool),
    /// The runtime listed its sandboxes.
    Sandboxes(Seq<PodSandboxView>),
    /// The runtime created a sandbox with this id.
    SandboxStarted(Seq<char>),
    /// The runtime created a container with this id.
    ContainerCreated(Seq<char>),
    /// The pod was marked for deletion.
    DeletionRequested,
    /// The call failed for this reason.
    Failed(Seq<char>),
}

/// The call to make next.
pub enum ActionView {
    ConnectImageService,
    ImageStatus { image: Seq<char> },
    PullImage { image: Seq<char>, sandbox_config: PodSandboxConfigView },
    ListPodSandbox,
    StopPodSandbox { pod_sandbox_id: Seq<char> },
    RemovePodSandbox { pod_sandbox_id: Seq<char> },
    RunPodSandbox { config: PodSandboxConfigView, runtime_handler: Seq<char> },
    CreateLogDirectory { path: Seq<char> },
    CreateContainer {
        pod_sandbox_id: Seq<char>,
        config: ContainerConfigView,
        sandbox_config: PodSandboxConfigView,
    },
    StartContainer { container_id: Seq<char> },
    DeletePod { namespace: Seq<char>, name: Seq<char>, grace_period_seconds: u32 },
    /// Wait, then step again.
    Sleep { seconds: u64 },
    /// The lifecycle ended as it should.
    Complete,
    /// The teardown failed for this reason; the lifecycle ended.
    Abort { message: Seq<char> },
    /// Nothing is left to do.
    Halt,
}

/// The next stage, the next call, and the sandbox cache after the step.
pub struct Outcome {
    pub stage: Stage,
    pub action: ActionView,
    pub pods: Map<Key, PodSandboxView>,
}

/// The lifecycle state that a stage belongs to.
pub open spec fn kind(stage: Stage) -> Kind {
    match stage {
        Stage::Registered => Kind::Registered,
        Stage::PullConnect | Stage::PullQuery(_) | Stage::PullFetch(_) => Kind::ImagePull,
        Stage::StartRefresh
        | Stage::StartStopStale(_)
        | Stage::StartRemoveStale(_)
        | Stage::StartRun
        | Stage::StartStopFailed(_)
        | Stage::StartRemoveFailed(_)
        | Stage::StartRerun
        | Stage::StartLogDir(_, _)
        | Stage::StartCreate(_, _)
        | Stage::StartLaunch(_, _) => Kind::Starting,
        Stage::Running => Kind::Running,
        Stage::TermRefresh
        | Stage::TermStop(_)
        | Stage::TermRemove(_)
        | Stage::TermDelete
        | Stage::TermDone => Kind::Terminated,
        Stage::Error(_) => Kind::Error,
    }
}

/// The transition table: which lifecycle state may follow which. A state
/// may always last.
pub open spec fn allowed(from: Kind, to: Kind) -> bool {
    from == to || match from {
        Kind::Registered => to == Kind::ImagePull,
        Kind::ImagePull => to == Kind::Starting || to == Kind::Error,
        Kind::Starting => to == Kind::Running || to == Kind::Error,
        Kind::Running => to == Kind::Terminated,
        Kind::Terminated => false,
        Kind::Error => false,
    }
}

/// The place of a lifecycle state in the forward order.
pub open spec fn rank(k: Kind) -> nat {
    match k {
        Kind::Registered => 0,
        Kind::ImagePull => 1,
        Kind::Starting => 2,
        Kind::Running => 3,
        Kind::Terminated => 4,
        Kind::Error => 5,
    }
}

/// The cache that a listing of sandboxes gives: each sandbox that carries
/// metadata, under its namespace and name. What the listing does not hold
/// is not in the cache.
pub open spec fn sandbox_map(items: Seq<PodSandboxView>) -> Map<Key, PodSandboxView>
    decreases items.len(),
{
    if items.len() == 0 {
        Map::empty()
    } else {
        let front = sandbox_map(items.drop_last());
        match items.last().metadata {
            Some(meta) => front.insert((meta.namespace, meta.name), items.last()),
            None => front,
        }
    }
}

/// The cache that a listing of containers gives: each container that
/// carries metadata, under its sandbox's id and its name.
pub open spec fn container_map(items: Seq<ContainerView>) -> Map<Key, ContainerView>
    decreases items.len(),
{
    if items.len() == 0 {
        Map::empty()
    } else {
        let front = container_map(items.drop_last());
        match items.last().metadata {
            Some(meta) => front.insert((items.last().pod_sandbox_id, meta.name), items.last()),
            None => front,
        }
    }
}

/// The sandbox to stop and remove for a pod: the one cached under its
/// namespace and name. With none cached there is nothing to tear down.
pub open spec fn teardown_of(pods: Map<Key, PodSandboxView>, pod: PodView) -> Option<Seq<char>> {
    if pods.contains_key((pod.namespace, pod.name)) {
        Some(pods[(pod.namespace, pod.name)].id)
    } else {
        None
    }
}

/// What an outcome that no call in flight can have had is answered with.
pub open spec fn unexpected() -> Seq<char> {
    "unexpected event"@
}

/// What precedes the cause when the image service cannot be reached.
pub open spec fn image_client_failure() -> Seq<char> {
    "Error creating image client: "@
}

/// How long a running pod waits between two looks, in seconds.
pub open spec fn poll_seconds() -> u64 {
    10
}

/// The pod has failed.
pub open spec fn fail(message: Seq<char>, pods: Map<Key, PodSandboxView>) -> Outcome {
    Outcome { stage: Stage::Error(message), action: ActionView::Halt, pods }
}

/// The teardown has failed.
pub open spec fn abort(message: Seq<char>, pods: Map<Key, PodSandboxView>) -> Outcome {
    Outcome { stage: Stage::TermDone, action: ActionView::Abort { message }, pods }
}

pub open spec fn run_sandbox(config: PodSandboxConfigView) -> ActionView {
    ActionView::RunPodSandbox { config, runtime_handler: Seq::empty() }
}

pub open spec fn delete_pod(pod: PodView) -> ActionView {
    ActionView::DeletePod { namespace: pod.namespace, name: pod.name, grace_period_seconds: 0 }
}

/// Image pulling from container `from` on: the first container whose
/// policy asks for a call decides it; when none is left, the pod starts.
pub open spec fn pull_from(
    pod: PodView,
    config: PodSandboxConfigView,
    from: nat,
    pods: Map<Key, PodSandboxView>,
) -> Outcome
    decreases pod.containers.len() - from,
{
    if from >= pod.containers.len() {
        Outcome { stage: Stage::StartRefresh, action: ActionView::ListPodSandbox, pods }
    } else {
        let c = pod.containers[from as int];
        match c.pull_policy {
            PullPolicy::Always => Outcome {
                stage: Stage::PullFetch(from),
                action: ActionView::PullImage { image: c.image, sandbox_config: config },
                pods,
            },
            PullPolicy::IfNotPresent => Outcome {
                stage: Stage::PullQuery(from),
                action: ActionView::ImageStatus { image: c.image },
                pods,
            },
            PullPolicy::Never => pull_from(pod, config, from + 1, pods),
        }
    }
}

/// Container creation from container `from` on, in the sandbox `id`.
pub open spec fn containers_from(
    pod: PodView,
    id: Seq<char>,
    from: nat,
    pods: Map<Key, PodSandboxView>,
) -> Outcome {
    if from >= pod.containers.len() {
        Outcome {
            stage: Stage::Running,
            action: ActionView::Sleep { seconds: poll_seconds() },
            pods,
        }
    } else {
        Outcome {
            stage: Stage::StartLogDir(id, from),
            action: ActionView::CreateLogDirectory {
                path: container_log_directory(
                    pod.namespace,
                    pod.name,
                    pod.containers[from as int].name,
                ),
            },
            pods,
        }
    }
}

/// One step of the image pulling state.
pub open spec fn step_image_pull(
    stage: Stage,
    pods: Map<Key, PodSandboxView>,
    config: PodSandboxConfigView,
    pod: PodView,
    event: EventView,
) -> Outcome {
    match (stage, event) {
        (_, EventView::Failed(cause)) => match stage {
            Stage::PullConnect => fail(image_client_failure() + cause, pods),
            _ => fail(cause, pods),
        },
        (Stage::PullConnect, EventView::Done) => pull_from(pod, config, 0, pods),
        (Stage::PullQuery(i), EventView::ImagePresent(present)) => {
            if i >= pod.containers.len() {
                fail(unexpected(), pods)
            } else if spec_should_pull(pod.containers[i as int].pull_policy, present) {
                Outcome {
                    stage: Stage::PullFetch(i),
                    action: ActionView::PullImage {
                        image: pod.containers[i as int].image,
                        sandbox_config: config,
                    },
                    pods,
                }
            } else {
                pull_from(pod, config, i + 1, pods)
            }
        },
        (Stage::PullFetch(i), EventView::Done) => pull_from(pod, config, i + 1, pods),
        _ => fail(unexpected(), pods),
    }
}

/// One step of the starting state.
pub open spec fn step_starting(
    stage: Stage,
    pods: Map<Key, PodSandboxView>,
    config: PodSandboxConfigView,
    pod: PodView,
    event: EventView,
) -> Outcome {
    match (stage, event) {
        (Stage::StartRun, EventView::Failed(_)) => match teardown_of(pods, pod) {
            Some(id) => Outcome {
                stage: Stage::StartStopFailed(id),
                action: ActionView::StopPodSandbox { pod_sandbox_id: id },
                pods,
            },
            None => Outcome { stage: Stage::StartRerun, action: run_sandbox(config), pods },
        },
        (_, EventView::Failed(cause)) => fail(cause, pods),
        (Stage::StartRefresh, EventView::Sandboxes(items)) => {
            let listed = sandbox_map(items);
            match teardown_of(listed, pod) {
                Some(id) => Outcome {
                    stage: Stage::StartStopStale(id),
                    action: ActionView::StopPodSandbox { pod_sandbox_id: id },
                    pods: listed,
                },
                None => Outcome {
                    stage: Stage::StartRun,
                    action: run_sandbox(config),
                    pods: listed,
                },
            }
        },
        (Stage::StartStopStale(id), EventView::Done) => Outcome {
            stage: Stage::StartRemoveStale(id),
            action: ActionView::RemovePodSandbox { pod_sandbox_id: id },
            pods,
        },
        (Stage::StartRemoveStale(_), EventView::Done) => Outcome {
            stage: Stage::StartRun,
            action: run_sandbox(config),
            pods,
        },
        (Stage::StartRun, EventView::SandboxStarted(id)) => containers_from(pod, id, 0, pods),
        (Stage::StartStopFailed(id), EventView::Done) => Outcome {
            stage: Stage::StartRemoveFailed(id),
            action: ActionView::RemovePodSandbox { pod_sandbox_id: id },
            pods,
        },
        (Stage::StartRemoveFailed(_), EventView::Done) => Outcome {
            stage: Stage::StartRerun,
            action: run_sandbox(config),
            pods,
        },
        (Stage::StartRerun, EventView::SandboxStarted(id)) => containers_from(pod, id, 0, pods),
        (Stage::StartLogDir(id, i), EventView::Done) => {
            if i >= pod.containers.len() {
                fail(unexpected(), pods)
            } else {
                Outcome {
                    stage: Stage::StartCreate(id, i),
                    action: ActionView::CreateContainer {
                        pod_sandbox_id: id,
                        config: container_config_of(pod.containers[i as int]),
                        sandbox_config: config,
                    },
                    pods,
                }
            }
        },
        (Stage::StartCreate(id, i), EventView::ContainerCreated(container_id)) => Outcome {
            stage: Stage::StartLaunch(id, i),
            action: ActionView::StartContainer { container_id },
            pods,
        },
        (Stage::StartLaunch(id, i), EventView::Done) => containers_from(pod, id, i + 1, pods),
        _ => fail(unexpected(), pods),
    }
}

/// One step of the terminated state.
pub open spec fn step_terminated(
    stage: Stage,
    pods: Map<Key, PodSandboxView>,
    pod: PodView,
    event: EventView,
) -> Outcome {
    match (stage, event) {
        (Stage::TermDone, _) => Outcome { stage: Stage::TermDone, action: ActionView::Halt, pods },
        (_, EventView::Failed(cause)) => abort(cause, pods),
        (Stage::TermRefresh, EventView::Sandboxes(items)) => {
            let listed = sandbox_map(items);
            match teardown_of(listed, pod) {
                Some(id) => Outcome {
                    stage: Stage::TermStop(id),
                    action: ActionView::StopPodSandbox { pod_sandbox_id: id },
                    pods: listed,
                },
                None => Outcome { stage: Stage::TermDelete, action: delete_pod(pod), pods: listed },
            }
        },
        (Stage::TermStop(id), EventView::Done) => Outcome {
            stage: Stage::TermRemove(id),
            action: ActionView::RemovePodSandbox { pod_sandbox_id: id },
            pods,
        },
        (Stage::TermRemove(_), EventView::Done) => Outcome {
            stage: Stage::TermDelete,
            action: delete_pod(pod),
            pods,
        },
        (Stage::TermDelete, EventView::Done) => Outcome {
            stage: Stage::TermDone,
            action: ActionView::Complete,
            pods,
        },
        _ => abort(unexpected(), pods),
    }
}

/// One step of a pod's controller.
pub open spec fn step(
    stage: Stage,
    pods: Map<Key, PodSandboxView>,
    config: PodSandboxConfigView,
    pod: PodView,
    event: EventView,
) -> Outcome {
    match kind(stage) {
        Kind::Registered => Outcome {
            stage: Stage::PullConnect,
            action: ActionView::ConnectImageService,
            pods,
        },
        Kind::ImagePull => step_image_pull(stage, pods, config, pod, event),
        Kind::Starting => step_starting(stage, pods, config, pod, event),
        Kind::Running => match event {
            EventView::DeletionRequested => Outcome {
                stage: Stage::TermRefresh,
                action: ActionView::ListPodSandbox,
                pods,
            },
            _ => Outcome {
                stage: Stage::Running,
                action: ActionView::Sleep { seconds: poll_seconds() },
                pods,
            },
        },
        Kind::Terminated => step_terminated(stage, pods, pod, event),
        Kind::Error => Outcome { stage, action: ActionView::Halt, pods },
    }
}

} // verus!
