//! The pod descriptor that the agent is handed, as plain values.

use vstd::prelude::*;
use crate::cri::{KeyValue, KeyValueView};
use crate::policy::PullPolicy;
use crate::text::opt_view;

verus! {

/// An environment variable of a container. The value is absent where the
/// descriptor derives it from elsewhere.
#[derive(Debug, PartialEq, Eq)]
pub struct EnvVar {
    pub name: String,
    pub value: Option<String>,
}

pub struct EnvVarView {
    pub name: Seq<char>,
    pub value: Option<Seq<char>>,
}

impl View for EnvVar {
    type V = EnvVarView;

    open spec fn view(&self) -> EnvVarView {
        EnvVarView { name: self.name@, value: opt_view(self.value) }
    }
}

impl DeepView for EnvVar {
    type V = EnvVarView;

    open spec fn deep_view(&self) -> EnvVarView {
        self@
    }
}

/// The view of an optional list of strings.
pub open spec fn opt_strings_view(v: Option<Vec<String>>) -> Option<Seq<Seq<char>>> {
    match v {
        Some(l) => Some(l.deep_view()),
        None => None,
    }
}

/// One container of a pod.
#[derive(Debug, PartialEq, Eq)]
pub struct ContainerSpec {
    pub name: String,
    pub image: String,
    pub pull_policy: PullPolicy,
    pub command: Option<Vec<String>>,
    pub args: Option<Vec<String>>,
    pub working_dir: Option<String>,
    pub env: Option<Vec<EnvVar>>,
}

pub struct ContainerSpecView {
    pub name: Seq<char>,
    pub image: Seq<char>,
    pub pull_policy: PullPolicy,
    pub command: Option<Seq<Seq<char>>>,
    pub args: Option<Seq<Seq<char>>>,
    pub working_dir: Option<Seq<char>>,
    pub env: Option<Seq<EnvVarView>>,
}

impl View for ContainerSpec {
    type V = ContainerSpecView;

    open spec fn view(&self) -> ContainerSpecView {
        ContainerSpecView {
            name: self.name@,
            image: self.image@,
            pull_policy: self.pull_policy,
            command: opt_strings_view(self.command),
            args: opt_strings_view(self.args),
            working_dir: opt_view(self.working_dir),
            env: match self.env {
                Some(l) => Some(l.deep_view()),
                None => None,
            },
        }
    }
}

impl DeepView for ContainerSpec {
    type V = ContainerSpecView;

    open spec fn deep_view(&self) -> ContainerSpecView {
        self@
    }
}

/// The pull policy in effect for a container, as
/// `kubelet::container::Container::effective_pull_policy` finds it from the
/// container's image reference and the policy that it declares, if any; or
/// the reason why it finds none, in words.
pub uninterp spec fn effective_policy(image: Seq<char>, declared: Option<Seq<char>>) -> Result<
    PullPolicy,
    Seq<char>,
>;

/// The view of a policy or of the reason in its place.
pub open spec fn policy_view(r: Result<PullPolicy, String>) -> Result<PullPolicy, Seq<char>> {
    match r {
        Ok(policy) => Ok(policy),
        Err(reason) => Err(reason@),
    }
}

/// Calls `kubelet::container::Container::effective_pull_policy` on a
/// container that has this image and this declared policy and nothing
/// else. The contract claims only that the policy, or the error in words,
/// is a function of the two.
#[verifier::external_body]
fn effective_pull_policy(image: &String, declared: &Option<String>) -> (r: Result<
    PullPolicy,
    String,
>)
    ensures
        policy_view(r) == effective_policy(image@, opt_view(*declared)),
{
    let described = k8s_openapi::api::core::v1::Container {
        image: Some(image.clone()),
        image_pull_policy: declared.clone(),
        ..Default::default()
    };
    match kubelet::container::Container::new(&described).effective_pull_policy() {
        Ok(kubelet::container::PullPolicy::Always) => Ok(PullPolicy::Always),
        Ok(kubelet::container::PullPolicy::IfNotPresent) => Ok(PullPolicy::IfNotPresent),
        Ok(kubelet::container::PullPolicy::Never) => Ok(PullPolicy::Never),
        Err(e) => Err(e.to_string()),
    }
}

/// What a container is described by before its pull policy is settled.
#[derive(Debug, PartialEq, Eq)]
pub struct ContainerDescription {
    pub name: String,
    pub image: String,
    pub image_pull_policy: Option<String>,
    pub command: Option<Vec<String>>,
    pub args: Option<Vec<String>>,
    pub working_dir: Option<String>,
    pub env: Option<Vec<EnvVar>>,
}

/// The container that a description settles to under a policy.
pub open spec fn settled(d: ContainerDescription, pull_policy: PullPolicy) -> ContainerSpecView {
    ContainerSpecView {
        name: d.name@,
        image: d.image@,
        pull_policy,
        command: opt_strings_view(d.command),
        args: opt_strings_view(d.args),
        working_dir: opt_view(d.working_dir),
        env: match d.env {
            Some(l) => Some(l.deep_view()),
            None => None,
        },
    }
}

impl ContainerSpec {
    /// Settles a description: the container gets the pull policy in effect
    /// for its image and its declared policy, and all else as described.
    /// Where no policy is found, the reason is returned.
    pub fn describe(d: ContainerDescription) -> (r: Result<ContainerSpec, String>)
        ensures
            match effective_policy(d.image@, opt_view(d.image_pull_policy)) {
                Ok(policy) => r.is_ok() && r.unwrap()@ == settled(d, policy),
                Err(reason) => r.is_err() && r.unwrap_err()@ == reason,
            },
    {
        match effective_pull_policy(&d.image, &d.image_pull_policy) {
            Ok(pull_policy) => Ok(
                ContainerSpec {
                    name: d.name,
                    image: d.image,
                    pull_policy,
                    command: d.command,
                    args: d.args,
                    working_dir: d.working_dir,
                    env: d.env,
                },
            ),
            Err(reason) => Err(reason),
        }
    }
}

/// A pod: its identity, what it is labelled with and its containers in the
/// order in which they were declared.
#[derive(Debug, PartialEq, Eq)]
pub struct Pod {
    pub namespace: String,
    pub name: String,
    pub uid: String,
    pub hostname: Option<String>,
    pub labels: Vec<KeyValue>,
    pub annotations: Vec<KeyValue>,
    pub deletion_timestamp: Option<String>,
    pub containers: Vec<ContainerSpec>,
}

pub struct PodView {
    pub namespace: Seq<char>,
    pub name: Seq<char>,
    pub uid: Seq<char>,
    pub hostname: Option<Seq<char>>,
    pub labels: Seq<KeyValueView>,
    pub annotations: Seq<KeyValueView>,
    pub deletion_timestamp: Option<Seq<char>>,
    pub containers: Seq<ContainerSpecView>,
}

impl View for Pod {
    type V = PodView;

    open spec fn view(&self) -> PodView {
        PodView {
            namespace: self.namespace@,
            name: self.name@,
            uid: self.uid@,
            hostname: opt_view(self.hostname),
            labels: self.labels.deep_view(),
            annotations: self.annotations.deep_view(),
            deletion_timestamp: opt_view(self.deletion_timestamp),
            containers: self.containers.deep_view(),
        }
    }
}

impl Pod {
    /// Whether the pod is marked for deletion.
    pub fn deletion_requested(&self) -> (r: bool)
        ensures
            r == self@.deletion_timestamp.is_some(),
    {
        self.deletion_timestamp.is_some()
    }
}

} // verus!
