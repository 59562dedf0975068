//! The lifecycle states of a pod, and what they share.
//!
//! A state does not call the runtime. It is handed the outcome of the last
//! call as an `Event` and answers with a `Transition`: the state that the
//! pod is in now, and the call to make next. Whoever drives a pod makes the
//! call and hands its outcome to the next step. The sandbox cache is passed
//! to every step and is held only for its duration.

use vstd::prelude::*;
use crate::cri::{
    Container, ContainerConfig, ContainerView, PodSandbox, PodSandboxConfig, PodSandboxView,
};
use crate::model::{
    allowed, container_map, kind, sandbox_map, step, unexpected, ActionView, EventView, Kind,
    Outcome, Stage,
};
use crate::pod::Pod;
use crate::registry::{Key, Table};
use crate::status::{json_patch, status_of, status_patch, Status};
use crate::text::owned;
use crate::laws::lemma_step_allowed;
use crate::translate::sandbox_config_of;

pub mod error;
pub mod image_pull;
pub mod registered;
pub mod running;
pub mod starting;
pub mod terminated;

pub use error::Error;
pub use image_pull::ImagePull;
pub use registered::Registered;
pub use running::Running;
pub use starting::Starting;
pub use terminated::{stop_and_delete_pod_sandbox, Terminated};

verus! {

/// The outcome of the call that a state asked for.
#[derive(Debug, PartialEq, Eq)]
pub enum Event {
    /// Nothing was asked for yet.
    Entered,
    /// The call succeeded and returned nothing of interest.
    Done,
    /// The image service said whether the image is present.
    ImagePresent(bool),
    /// The runtime listed its sandboxes.
    Sandboxes(Vec<PodSandbox>),
    /// The runtime created a sandbox with this id.
    SandboxStarted(String),
    /// The runtime created a container with this id.
    ContainerCreated(String),
    /// The pod was marked for deletion.
    DeletionRequested,
    /// The call failed for this reason.
    Failed(String),
}

impl View for Event {
    type V = EventView;

    open spec fn view(&self) -> EventView {
        match self {
            Event::Entered => EventView::Entered,
            Event::Done => EventView::Done,
            Event::ImagePresent(present) => EventView::ImagePresent(*present),
            Event::Sandboxes(items) => EventView::Sandboxes(items.deep_view()),
            Event::SandboxStarted(id) => EventView::SandboxStarted(id@),
            Event::ContainerCreated(id) => EventView::ContainerCreated(id@),
            Event::DeletionRequested => EventView::DeletionRequested,
            Event::Failed(cause) => EventView::Failed(cause@),
        }
    }
}

/// The call that a state asks for.
#[derive(Debug, PartialEq, Eq)]
pub enum Action {
    /// Connect to the image service.
    ConnectImageService,
    /// Ask the image service whether the image is present.
    ImageStatus { image: String },
    /// Pull the image, with the sandbox configuration as context.
    PullImage { image: String, sandbox_config: PodSandboxConfig },
    /// List all sandboxes, unfiltered.
    ListPodSandbox,
    StopPodSandbox { pod_sandbox_id: String },
    RemovePodSandbox { pod_sandbox_id: String },
    RunPodSandbox { config: PodSandboxConfig, runtime_handler: String },
    /// Create the directory, and what is missing above it.
    CreateLogDirectory { path: String },
    CreateContainer {
        pod_sandbox_id: String,
        config: ContainerConfig,
        sandbox_config: PodSandboxConfig,
    },
    StartContainer { container_id: String },
    /// Delete the pod's authoritative record.
    DeletePod { namespace: String, name: String, grace_period_seconds: u32 },
    /// Wait, then step again.
    Sleep { seconds: u64 },
    /// The lifecycle ended as it should.
    Complete,
    /// The teardown failed for this reason; the lifecycle ended.
    Abort { message: String },
    /// Nothing is left to do.
    Halt,
}

impl View for Action {
    type V = ActionView;

    open spec fn view(&self) -> ActionView {
        match self {
            Action::ConnectImageService => ActionView::ConnectImageService,
            Action::ImageStatus { image } => ActionView::ImageStatus { image: image@ },
            Action::PullImage { image, sandbox_config } => ActionView::PullImage {
                image: image@,
                sandbox_config: sandbox_config@,
            },
            Action::ListPodSandbox => ActionView::ListPodSandbox,
            Action::StopPodSandbox { pod_sandbox_id } => ActionView::StopPodSandbox {
                pod_sandbox_id: pod_sandbox_id@,
            },
            Action::RemovePodSandbox { pod_sandbox_id } => ActionView::RemovePodSandbox {
                pod_sandbox_id: pod_sandbox_id@,
            },
            Action::RunPodSandbox { config, runtime_handler } => ActionView::RunPodSandbox {
                config: config@,
                runtime_handler: runtime_handler@,
            },
            Action::CreateLogDirectory { path } => ActionView::CreateLogDirectory { path: path@ },
            Action::CreateContainer {
                pod_sandbox_id,
                config,
                sandbox_config,
            } => ActionView::CreateContainer {
                pod_sandbox_id: pod_sandbox_id@,
                config: config@,
                sandbox_config: sandbox_config@,
            },
            Action::StartContainer { container_id } => ActionView::StartContainer {
                container_id: container_id@,
            },
            Action::DeletePod { namespace, name, grace_period_seconds } => ActionView::DeletePod {
                namespace: namespace@,
                name: name@,
                grace_period_seconds: *grace_period_seconds,
            },
            Action::Sleep { seconds } => ActionView::Sleep { seconds: *seconds },
            Action::Complete => ActionView::Complete,
            Action::Abort { message } => ActionView::Abort { message: message@ },
            Action::Halt => ActionView::Halt,
        }
    }
}

/// The name of the operation that a call performs, as the runtime
/// interface and the cluster name it. The three that make no call have the
/// empty name.
pub open spec fn operation_of(action: ActionView) -> Seq<char> {
    match action {
        ActionView::ConnectImageService => "Connect"@,
        ActionView::ImageStatus { .. } => "ImageStatus"@,
        ActionView::PullImage { .. } => "PullImage"@,
        ActionView::ListPodSandbox => "ListPodSandbox"@,
        ActionView::StopPodSandbox { .. } => "StopPodSandbox"@,
        ActionView::RemovePodSandbox { .. } => "RemovePodSandbox"@,
        ActionView::RunPodSandbox { .. } => "RunPodSandbox"@,
        ActionView::CreateLogDirectory { .. } => "CreateLogDirectory"@,
        ActionView::CreateContainer { .. } => "CreateContainer"@,
        ActionView::StartContainer { .. } => "StartContainer"@,
        ActionView::DeletePod { .. } => "DeletePod"@,
        ActionView::Sleep { .. } => "Sleep"@,
        ActionView::Complete | ActionView::Abort { .. } | ActionView::Halt => Seq::empty(),
    }
}

impl Action {
    /// The name of the operation that this call performs.
    pub fn operation(&self) -> (r: String)
        ensures
            r@ == operation_of(self@),
    {
        match self {
            Action::ConnectImageService => owned("Connect"),
            Action::ImageStatus { .. } => owned("ImageStatus"),
            Action::PullImage { .. } => owned("PullImage"),
            Action::ListPodSandbox => owned("ListPodSandbox"),
            Action::StopPodSandbox { .. } => owned("StopPodSandbox"),
            Action::RemovePodSandbox { .. } => owned("RemovePodSandbox"),
            Action::RunPodSandbox { .. } => owned("RunPodSandbox"),
            Action::CreateLogDirectory { .. } => owned("CreateLogDirectory"),
            Action::CreateContainer { .. } => owned("CreateContainer"),
            Action::StartContainer { .. } => owned("StartContainer"),
            Action::DeletePod { .. } => owned("DeletePod"),
            Action::Sleep { .. } => owned("Sleep"),
            _ => String::new(),
        }
    }

    /// The event that reports this call as failed: its cause is the name
    /// of the operation, a colon and a space, and the underlying cause.
    pub fn failed(&self, cause: &str) -> (r: Event)
        ensures
            r@ == EventView::Failed(operation_of(self@) + ": "@ + cause@),
    {
        let mut message = self.operation();
        message.append(": ");
        message.append(cause);
        Event::Failed(message)
    }
}

/// Whether the transition table lets the lifecycle state `to` follow
/// `from`.
pub fn transition_allowed(from: Kind, to: Kind) -> (r: bool)
    ensures
        r == allowed(from, to),
{
    if from == to {
        return true;
    }
    match from {
        Kind::Registered => to == Kind::ImagePull,
        Kind::ImagePull => to == Kind::Starting || to == Kind::Error,
        Kind::Starting => to == Kind::Running || to == Kind::Error,
        Kind::Running => to == Kind::Terminated,
        Kind::Terminated => false,
        Kind::Error => false,
    }
}

/// The answer to a lookup in a cache.
#[derive(Debug, PartialEq, Eq)]
pub enum Lookup<T> {
    /// The cache holds the record.
    Found(T),
    /// The cache does not hold it and was not refreshed for this lookup
    /// yet: refresh it and look again.
    Refresh,
    /// The cache does not hold it though it was refreshed.
    NotFound,
}

/// What a lookup answers, given the cache, the key, and whether the cache
/// was refreshed for this lookup already.
pub open spec fn lookup_of<T>(cache: Map<Key, T>, key: Key, refreshed: bool) -> Lookup<T> {
    if cache.contains_key(key) {
        Lookup::Found(cache[key])
    } else if refreshed {
        Lookup::NotFound
    } else {
        Lookup::Refresh
    }
}

/// What all pods of a node share: the caches of the runtime's sandboxes and
/// containers, and the address of the runtime's socket.
#[derive(Debug)]
pub struct SharedPodState {
    pub pods: Table<PodSandbox>,
    pub containers: Table<Container>,
    pub socket_address: String,
}

impl SharedPodState {
    /// Empty caches, for the runtime at this address.
    pub fn new(socket_address: String) -> (r: Self)
        ensures
            r.pods@ == Map::<Key, PodSandboxView>::empty(),
            r.containers@ == Map::<Key, ContainerView>::empty(),
            r.socket_address@ == socket_address@,
    {
        SharedPodState { pods: Table::new(), containers: Table::new(), socket_address }
    }

    /// Replaces the container cache by what the runtime has listed.
    pub fn refresh_containers(&mut self, containers: &Vec<Container>)
        ensures
            final(self).containers@ == container_map(containers.deep_view()),
            final(self).pods@ == old(self).pods@,
            final(self).socket_address == old(self).socket_address,
    {
        self.containers.clear();
        let mut i: usize = 0;
        assert(containers.deep_view().take(0) =~= Seq::empty());
        while i < containers.len()
            invariant
                i <= containers.len(),
                self.containers@ == container_map(containers.deep_view().take(i as int)),
                self.pods@ == old(self).pods@,
                self.socket_address == old(self).socket_address,
            decreases containers.len() - i,
        {
            proof {
                assert(containers.deep_view().take(i + 1).drop_last()
                    =~= containers.deep_view().take(i as int));
                assert(containers.deep_view().take(i + 1).last() == containers[i as int]@);
            }
            let container = &containers[i];
            match &container.metadata {
                Some(meta) => {
                    self.containers.insert(
                        container.pod_sandbox_id.clone(),
                        meta.name.clone(),
                        container.clone(),
                    );
                },
                None => {},
            }
            i += 1;
        }
        assert(containers.deep_view().take(i as int) =~= containers.deep_view());
    }

    /// Replaces the sandbox cache by what the runtime has listed.
    pub fn refresh_pods(&mut self, items: &Vec<PodSandbox>)
        ensures
            final(self).pods@ == sandbox_map(items.deep_view()),
            final(self).containers@ == old(self).containers@,
            final(self).socket_address == old(self).socket_address,
    {
        self.pods.clear();
        let mut i: usize = 0;
        assert(items.deep_view().take(0) =~= Seq::empty());
        while i < items.len()
            invariant
                i <= items.len(),
                self.pods@ == sandbox_map(items.deep_view().take(i as int)),
                self.containers@ == old(self).containers@,
                self.socket_address == old(self).socket_address,
            decreases items.len() - i,
        {
            proof {
                assert(items.deep_view().take(i + 1).drop_last() =~= items.deep_view().take(
                    i as int,
                ));
                assert(items.deep_view().take(i + 1).last() == items[i as int]@);
            }
            let pod = &items[i];
            match &pod.metadata {
                Some(meta) => {
                    self.pods.insert(meta.namespace.clone(), meta.name.clone(), pod.clone());
                },
                None => {},
            }
            i += 1;
        }
        assert(items.deep_view().take(i as int) =~= items.deep_view());
    }

    /// Looks a pod's sandbox up by namespace and name. `refreshed` says
    /// whether the cache was refreshed for this lookup already.
    pub fn lookup_pod(&self, namespace: &String, name: &String, refreshed: bool) -> (r: Lookup<
        PodSandbox,
    >)
        ensures
            match r {
                Lookup::Found(record) => Lookup::Found(record@),
                Lookup::Refresh => Lookup::Refresh,
                Lookup::NotFound => Lookup::NotFound,
            } == lookup_of(self.pods@, (namespace@, name@), refreshed),
    {
        match self.pods.get(namespace, name) {
            Some(record) => Lookup::Found(record.clone()),
            None => if refreshed {
                Lookup::NotFound
            } else {
                Lookup::Refresh
            },
        }
    }

    /// Looks a container up by the id of its sandbox and its name.
    /// `refreshed` says whether the cache was refreshed for this lookup
    /// already.
    pub fn lookup_container(&self, pod_sandbox_id: &String, name: &String, refreshed: bool) -> (r:
        Lookup<Container>)
        ensures
            match r {
                Lookup::Found(record) => Lookup::Found(record@),
                Lookup::Refresh => Lookup::Refresh,
                Lookup::NotFound => Lookup::NotFound,
            } == lookup_of(self.containers@, (pod_sandbox_id@, name@), refreshed),
    {
        match self.containers.get(pod_sandbox_id, name) {
            Some(record) => Lookup::Found(record.clone()),
            None => if refreshed {
                Lookup::NotFound
            } else {
                Lookup::Refresh
            },
        }
    }

    /// Drops a pod's sandbox from the cache, whatever the runtime holds.
    pub fn remove(&mut self, namespace: &String, name: &String)
        ensures
            final(self).pods@ == old(self).pods@.remove((namespace@, name@)),
            final(self).containers@ == old(self).containers@,
            final(self).socket_address == old(self).socket_address,
    {
        self.pods.remove(namespace, name);
    }
}

/// What one pod's controller carries through its states.
#[derive(Debug, PartialEq, Eq)]
pub struct PodState {
    pub sandbox_config: PodSandboxConfig,
}

impl PodState {
    /// The pod's name, as the sandbox configuration has it.
    pub fn pod_name(&self) -> (r: String)
        ensures
            r@ == self.sandbox_config@.metadata.name,
    {
        self.sandbox_config.metadata.name.clone()
    }

    /// The pod's namespace, as the sandbox configuration has it.
    pub fn pod_namespace(&self) -> (r: String)
        ensures
            r@ == self.sandbox_config@.metadata.namespace,
    {
        self.sandbox_config.metadata.namespace.clone()
    }

    /// Ends the controller's hold on the pod: its sandbox leaves the cache,
    /// whether or not the runtime has removed it.
    pub fn async_drop(self, shared: &mut SharedPodState)
        ensures
            final(shared).pods@ == old(shared).pods@.remove(
                (self.sandbox_config@.metadata.namespace, self.sandbox_config@.metadata.name),
            ),
            final(shared).containers@ == old(shared).containers@,
            final(shared).socket_address == old(shared).socket_address,
    {
        let namespace = self.pod_namespace();
        let name = self.pod_name();
        shared.remove(&namespace, &name);
    }
}

/// The lifecycle state of a pod: exactly one of the six.
#[derive(Debug, PartialEq, Eq)]
pub enum PodLifecycleState {
    Registered(Registered),
    ImagePull(ImagePull),
    Starting(Starting),
    Running(Running),
    Terminated(Terminated),
    Error(Error),
}

impl View for PodLifecycleState {
    type V = Stage;

    open spec fn view(&self) -> Stage {
        match self {
            PodLifecycleState::Registered(s) => s@,
            PodLifecycleState::ImagePull(s) => s@,
            PodLifecycleState::Starting(s) => s@,
            PodLifecycleState::Running(s) => s@,
            PodLifecycleState::Terminated(s) => s@,
            PodLifecycleState::Error(s) => s@,
        }
    }
}

/// The state after a step, and the call to make next.
#[derive(Debug, PartialEq, Eq)]
pub struct Transition {
    pub state: PodLifecycleState,
    pub action: Action,
}

impl Transition {
    /// The step's result as the model states it, beside a sandbox cache.
    pub open spec fn outcome(self, pods: Map<Key, PodSandboxView>) -> Outcome {
        Outcome { stage: self.state@, action: self.action@, pods }
    }
}

/// The pod has failed for this reason.
pub(crate) fn failure(message: String) -> (r: Transition)
    ensures
        r.state@ == Stage::Error(message@),
        r.action@ == ActionView::Halt,
{
    Transition { state: PodLifecycleState::Error(Error { message }), action: Action::Halt }
}

/// The pod has failed because of an outcome that no call in flight can
/// have had.
pub(crate) fn protocol_failure() -> (r: Transition)
    ensures
        r.state@ == Stage::Error(unexpected()),
        r.action@ == ActionView::Halt,
{
    failure(owned("unexpected event"))
}

impl PodLifecycleState {
    /// The state in which every pod begins.
    pub fn new() -> (r: Self)
        ensures
            r@ == Stage::Registered,
    {
        PodLifecycleState::Registered(Registered)
    }

    /// Which of the six states this is.
    pub fn kind(&self) -> (r: Kind)
        ensures
            r == kind(self@),
    {
        match self {
            PodLifecycleState::Registered(_) => Kind::Registered,
            PodLifecycleState::ImagePull(s) => {
                proof {
                    s.lemma_kind();
                }
                Kind::ImagePull
            },
            PodLifecycleState::Starting(s) => {
                proof {
                    s.lemma_kind();
                }
                Kind::Starting
            },
            PodLifecycleState::Running(_) => Kind::Running,
            PodLifecycleState::Terminated(s) => {
                proof {
                    s.lemma_kind();
                }
                Kind::Terminated
            },
            PodLifecycleState::Error(_) => Kind::Error,
        }
    }

    /// Whether the lifecycle has ended: in failure, or with the teardown
    /// behind it.
    pub fn is_terminal(&self) -> (r: bool)
        ensures
            r == (kind(self@) == Kind::Error || self@ == Stage::TermDone),
    {
        match self {
            PodLifecycleState::Error(_) => true,
            PodLifecycleState::Terminated(s) => {
                proof {
                    s.lemma_kind();
                }
                s.is_done()
            },
            PodLifecycleState::ImagePull(s) => {
                proof {
                    s.lemma_kind();
                }
                false
            },
            PodLifecycleState::Starting(s) => {
                proof {
                    s.lemma_kind();
                }
                false
            },
            _ => false,
        }
    }

    /// One step: takes the outcome of the call that the last step asked
    /// for, and gives the state that the pod is in now and the call to make
    /// next. In `Registered` the sandbox configuration is built from the
    /// pod; in no other state is it touched. The step that leaves one
    /// lifecycle state enters a state that the transition table lets follow
    /// it.
    pub fn next(self, pod_state: &mut PodState, shared: &mut SharedPodState, pod: &Pod, event: Event) -> (r:
        Transition)
        ensures
            r.outcome(final(shared).pods@) == step(
                self@,
                old(shared).pods@,
                final(pod_state).sandbox_config@,
                pod@,
                event@,
            ),
            final(pod_state).sandbox_config@ == if kind(self@) == Kind::Registered {
                sandbox_config_of(pod@)
            } else {
                old(pod_state).sandbox_config@
            },
            allowed(kind(self@), kind(r.state@)),
            final(shared).containers@ == old(shared).containers@,
            final(shared).socket_address == old(shared).socket_address,
    {
        let r = match self {
            PodLifecycleState::Registered(s) => s.next(pod_state, pod),
            PodLifecycleState::ImagePull(s) => {
                proof {
                    s.lemma_kind();
                }
                s.next(pod_state, shared, pod, event)
            },
            PodLifecycleState::Starting(s) => {
                proof {
                    s.lemma_kind();
                }
                s.next(pod_state, shared, pod, event)
            },
            PodLifecycleState::Running(s) => s.next(event),
            PodLifecycleState::Terminated(s) => {
                proof {
                    s.lemma_kind();
                }
                s.next(shared, pod, event)
            },
            PodLifecycleState::Error(s) => s.next(),
        };
        proof {
            lemma_step_allowed(
                self@,
                old(shared).pods@,
                pod_state.sandbox_config@,
                pod@,
                event@,
            );
        }
        r
    }

    /// What to publish of the pod in this state.
    pub fn status(&self) -> (r: Status)
        ensures
            r@ == status_of(self@),
    {
        match self {
            PodLifecycleState::Registered(s) => s.status(),
            PodLifecycleState::ImagePull(s) => {
                proof {
                    s.lemma_kind();
                }
                s.status()
            },
            PodLifecycleState::Starting(s) => {
                proof {
                    s.lemma_kind();
                }
                s.status()
            },
            PodLifecycleState::Running(s) => s.status(),
            PodLifecycleState::Terminated(s) => {
                proof {
                    s.lemma_kind();
                }
                s.status()
            },
            PodLifecycleState::Error(s) => s.status(),
        }
    }

    /// The status of the pod in this state as the text of a JSON patch.
    pub fn json_status(&self) -> (r: Result<String, String>)
        ensures
            json_patch(r) == status_patch(status_of(self@).0, status_of(self@).1),
    {
        self.status().json()
    }
}

} // verus!
