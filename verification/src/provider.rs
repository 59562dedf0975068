//! The node's provider: what the agent's host asks of it.

use vstd::prelude::*;
use crate::cri::{ContainerView, PodSandboxView};
use crate::pod::Pod;
use crate::registry::Key;
use crate::states::{lookup_of, Lookup, PodState, SharedPodState};
use crate::text::owned;
use crate::translate::{sandbox_config, sandbox_config_of};

verus! {

/// Why a request to the provider was not served.
#[derive(Debug, PartialEq, Eq)]
pub enum ProviderError {
    /// No sandbox was found for the pod, though the cache was refreshed.
    PodNotFound { pod_name: String },
    /// The pod's sandbox holds no such container, though the cache was
    /// refreshed.
    ContainerNotFound { pod_name: String, container_name: String },
    /// The provider does not offer the operation.
    NotImplemented,
}

pub enum ProviderErrorView {
    PodNotFound { pod_name: Seq<char> },
    ContainerNotFound { pod_name: Seq<char>, container_name: Seq<char> },
    NotImplemented,
}

impl View for ProviderError {
    type V = ProviderErrorView;

    open spec fn view(&self) -> ProviderErrorView {
        match self {
            ProviderError::PodNotFound { pod_name } => ProviderErrorView::PodNotFound {
                pod_name: pod_name@,
            },
            ProviderError::ContainerNotFound {
                pod_name,
                container_name,
            } => ProviderErrorView::ContainerNotFound {
                pod_name: pod_name@,
                container_name: container_name@,
            },
            ProviderError::NotImplemented => ProviderErrorView::NotImplemented,
        }
    }
}

/// What to do next to find a container's log.
#[derive(Debug, PartialEq, Eq)]
pub enum LogsStep {
    /// List the sandboxes, refresh the cache and ask again.
    RefreshPods,
    /// List the containers, refresh the cache and ask again.
    RefreshContainers,
    /// Ask the runtime for the status of this container, without
    /// verbosity: it names the log file.
    ContainerStatus { container_id: String },
    /// The log cannot be found.
    Failed(ProviderError),
}

pub enum LogsStepView {
    RefreshPods,
    RefreshContainers,
    ContainerStatus { container_id: Seq<char> },
    Failed(ProviderErrorView),
}

impl View for LogsStep {
    type V = LogsStepView;

    open spec fn view(&self) -> LogsStepView {
        match self {
            LogsStep::RefreshPods => LogsStepView::RefreshPods,
            LogsStep::RefreshContainers => LogsStepView::RefreshContainers,
            LogsStep::ContainerStatus { container_id } => LogsStepView::ContainerStatus {
                container_id: container_id@,
            },
            LogsStep::Failed(e) => LogsStepView::Failed(e@),
        }
    }
}

/// The way to a container's log: first the pod's sandbox is looked up, by
/// namespace and name, then the container, by the sandbox's id and its
/// name. Each cache is refreshed at most once for it.
pub open spec fn logs_step_of(
    pods: Map<Key, PodSandboxView>,
    containers: Map<Key, ContainerView>,
    namespace: Seq<char>,
    pod: Seq<char>,
    container: Seq<char>,
    pods_refreshed: bool,
    containers_refreshed: bool,
) -> LogsStepView {
    match lookup_of(pods, (namespace, pod), pods_refreshed) {
        Lookup::Refresh => LogsStepView::RefreshPods,
        Lookup::NotFound => LogsStepView::Failed(ProviderErrorView::PodNotFound { pod_name: pod }),
        Lookup::Found(sandbox) => match lookup_of(
            containers,
            (sandbox.id, container),
            containers_refreshed,
        ) {
            Lookup::Refresh => LogsStepView::RefreshContainers,
            Lookup::NotFound => LogsStepView::Failed(
                ProviderErrorView::ContainerNotFound { pod_name: pod, container_name: container },
            ),
            Lookup::Found(record) => LogsStepView::ContainerStatus { container_id: record.id },
        },
    }
}

/// What the node advertises of its container runtime.
#[derive(Debug, PartialEq, Eq)]
pub struct NodeSettings {
    pub container_runtime_version: String,
    pub annotation_key: String,
    pub annotation_value: String,
    pub architecture: String,
}

/// The provider of a node.
#[derive(Debug)]
pub struct Provider {
    pub shared: SharedPodState,
}

impl Provider {
    /// A provider for the runtime whose socket is at this address, with
    /// empty caches.
    pub fn new_from_socket_address(socket_address: &str) -> (r: Self)
        ensures
            r.shared.socket_address@ == socket_address@,
            r.shared.pods@ == Map::<Key, PodSandboxView>::empty(),
            r.shared.containers@ == Map::<Key, ContainerView>::empty(),
    {
        Provider { shared: SharedPodState::new(owned(socket_address)) }
    }

    /// What a pod's controller starts with: the pod's sandbox
    /// configuration.
    pub fn initialize_pod_state(&self, pod: &Pod) -> (r: PodState)
        ensures
            r.sandbox_config@ == sandbox_config_of(pod@),
    {
        PodState { sandbox_config: sandbox_config(pod) }
    }

    /// The version of the runtime interface that the provider asks the
    /// runtime for.
    pub fn runtime_api_version() -> (r: String)
        ensures
            r@ == "v1alpha2"@,
    {
        owned("v1alpha2")
    }

    /// What the node advertises, given the name and version that the
    /// runtime reported: the two joined by `://`, the runtime's socket as
    /// an annotation, and the architecture.
    pub fn node(&self, runtime_name: &String, runtime_version: &String) -> (r: NodeSettings)
        ensures
            r.container_runtime_version@ == runtime_name@ + "://"@ + runtime_version@,
            r.annotation_key@ == "kubeadm.alpha.kubernetes.io/cri-socket"@,
            r.annotation_value@ == self.shared.socket_address@,
            r.architecture@ == "amd64"@,
    {
        let mut version = runtime_name.clone();
        version.append("://");
        version.append(runtime_version.as_str());
        NodeSettings {
            container_runtime_version: version,
            annotation_key: owned("kubeadm.alpha.kubernetes.io/cri-socket"),
            annotation_value: self.shared.socket_address.clone(),
            architecture: owned("amd64"),
        }
    }

    /// The next thing to do to find the log of a container of a pod. The
    /// two flags say which cache was refreshed for this request already.
    pub fn logs(
        &self,
        namespace: &String,
        pod: &String,
        container: &String,
        pods_refreshed: bool,
        containers_refreshed: bool,
    ) -> (r: LogsStep)
        ensures
            r@ == logs_step_of(
                self.shared.pods@,
                self.shared.containers@,
                namespace@,
                pod@,
                container@,
                pods_refreshed,
                containers_refreshed,
            ),
    {
        match self.shared.lookup_pod(namespace, pod, pods_refreshed) {
            Lookup::Refresh => LogsStep::RefreshPods,
            Lookup::NotFound => LogsStep::Failed(
                ProviderError::PodNotFound { pod_name: pod.clone() },
            ),
            Lookup::Found(sandbox) => match self.shared.lookup_container(
                &sandbox.id,
                container,
                containers_refreshed,
            ) {
                Lookup::Refresh => LogsStep::RefreshContainers,
                Lookup::NotFound => LogsStep::Failed(
                    ProviderError::ContainerNotFound {
                        pod_name: pod.clone(),
                        container_name: container.clone(),
                    },
                ),
                Lookup::Found(record) => LogsStep::ContainerStatus { container_id: record.id },
            },
        }
    }

    /// Running a command in a pod is not offered: this fails at once,
    /// whatever the pod and the command.
    pub fn exec(&self, pod: &Pod, command: String) -> (r: Result<Vec<String>, ProviderError>)
        ensures
            r == Err::<Vec<String>, ProviderError>(ProviderError::NotImplemented),
    {
        Err(ProviderError::NotImplemented)
    }
}

} // verus!
