//! From a pod descriptor to the runtime's configuration messages.

use vstd::prelude::*;
use crate::cri::{
    clone_key_values, ContainerConfig, ContainerConfigView, ContainerMetadata,
    ContainerMetadataView, Device, DnsConfig, DnsConfigView, KeyValue, KeyValueView, Mount,
    PodSandboxConfig, PodSandboxConfigView, PodSandboxMetadata, PodSandboxMetadataView,
    PortMapping,
};
use crate::pod::{ContainerSpec, ContainerSpecView, EnvVar, EnvVarView, Pod, PodView};
use crate::text::{clone_strings, no_strings, owned};

verus! {

/// The directory under which every pod's logs are kept.
pub open spec fn log_root() -> Seq<char> {
    "/var/log/pods/"@
}

/// A pod's log directory: the root, the namespace and the pod's name, each
/// followed by a slash.
pub open spec fn pod_log_directory(namespace: Seq<char>, name: Seq<char>) -> Seq<char> {
    log_root() + namespace + "/"@ + name + "/"@
}

/// A container's log directory, inside that of its pod.
pub open spec fn container_log_directory(
    namespace: Seq<char>,
    name: Seq<char>,
    container: Seq<char>,
) -> Seq<char> {
    log_root() + namespace + "/"@ + name + "/"@ + container
}

/// A container's log file, relative to the pod's log directory.
pub open spec fn container_log_path(container: Seq<char>) -> Seq<char> {
    container + "/log"@
}

/// A container's log file, as a full path.
pub open spec fn container_log_file(
    namespace: Seq<char>,
    name: Seq<char>,
    container: Seq<char>,
) -> Seq<char> {
    container_log_directory(namespace, name, container) + "/log"@
}

/// The sandbox configuration of a pod: its name and namespace with an empty
/// uid and attempt zero, its hostname or the empty string, its log
/// directory, no name servers, no port mappings, and its labels and
/// annotations as they are.
pub open spec fn sandbox_config_of(pod: PodView) -> PodSandboxConfigView {
    PodSandboxConfigView {
        metadata: PodSandboxMetadataView {
            name: pod.name,
            uid: Seq::empty(),
            namespace: pod.namespace,
            attempt: 0,
        },
        hostname: match pod.hostname {
            Some(h) => h,
            None => Seq::empty(),
        },
        log_directory: pod_log_directory(pod.namespace, pod.name),
        dns_config: DnsConfigView::empty(),
        port_mappings: Seq::empty(),
        labels: pod.labels,
        annotations: pod.annotations,
    }
}

/// The variables that carry a value, in order, as key-value pairs. Those
/// without one are left out.
pub open spec fn resolved_envs(env: Seq<EnvVarView>) -> Seq<KeyValueView>
    decreases env.len(),
{
    if env.len() == 0 {
        Seq::empty()
    } else {
        let front = resolved_envs(env.drop_last());
        match env.last().value {
            Some(value) => front.push(KeyValueView { key: env.last().name, value }),
            None => front,
        }
    }
}

/// The configuration of a container: its name with attempt zero, its
/// image, command and arguments (empty where none are given), its working
/// directory (the root where none is given), the variables that carry a
/// value, and its log file below the pod's log directory. No mounts,
/// devices, labels or annotations, and no terminal.
pub open spec fn container_config_of(c: ContainerSpecView) -> ContainerConfigView {
    ContainerConfigView {
        metadata: ContainerMetadataView { name: c.name, attempt: 0 },
        image: c.image,
        command: match c.command {
            Some(l) => l,
            None => Seq::empty(),
        },
        args: match c.args {
            Some(l) => l,
            None => Seq::empty(),
        },
        working_dir: match c.working_dir {
            Some(d) => d,
            None => "/"@,
        },
        envs: match c.env {
            Some(l) => resolved_envs(l),
            None => Seq::empty(),
        },
        mounts: Seq::empty(),
        devices: Seq::empty(),
        labels: Seq::empty(),
        annotations: Seq::empty(),
        log_path: container_log_path(c.name),
        stdin: false,
        stdin_once: false,
        tty: false,
    }
}

/// Builds the path of a pod's log directory.
pub fn make_pod_log_directory(namespace: &String, name: &String) -> (r: String)
    ensures
        r@ == pod_log_directory(namespace@, name@),
{
    let mut r = owned("/var/log/pods/");
    r.append(namespace.as_str());
    r.append("/");
    r.append(name.as_str());
    r.append("/");
    r
}

/// Builds the path of a container's log directory.
pub fn make_container_log_directory(namespace: &String, name: &String, container: &String) -> (r:
    String)
    ensures
        r@ == container_log_directory(namespace@, name@, container@),
{
    let mut r = make_pod_log_directory(namespace, name);
    r.append(container.as_str());
    r
}

/// Builds the full path of a container's log file.
pub fn make_container_log_file(namespace: &String, name: &String, container: &String) -> (r:
    String)
    ensures
        r@ == container_log_file(namespace@, name@, container@),
{
    let mut r = make_container_log_directory(namespace, name, container);
    r.append("/log");
    r
}

/// Builds the sandbox configuration of a pod.
pub fn sandbox_config(pod: &Pod) -> (r: PodSandboxConfig)
    ensures
        r@ == sandbox_config_of(pod@),
{
    let hostname = match &pod.hostname {
        Some(h) => h.clone(),
        None => String::new(),
    };
    let port_mappings: Vec<PortMapping> = Vec::new();
    let r = PodSandboxConfig {
        metadata: PodSandboxMetadata {
            name: pod.name.clone(),
            uid: String::new(),
            namespace: pod.namespace.clone(),
            attempt: 0,
        },
        hostname,
        log_directory: make_pod_log_directory(&pod.namespace, &pod.name),
        dns_config: DnsConfig {
            servers: no_strings(),
            searches: no_strings(),
            options: no_strings(),
        },
        port_mappings,
        labels: clone_key_values(&pod.labels),
        annotations: clone_key_values(&pod.annotations),
    };
    assert(r@.port_mappings =~= Seq::empty());
    r
}

/// Keeps the variables that carry a value.
pub fn resolve_envs(env: &Vec<EnvVar>) -> (r: Vec<KeyValue>)
    ensures
        r.deep_view() == resolved_envs(env.deep_view()),
{
    let mut r: Vec<KeyValue> = Vec::new();
    let mut i: usize = 0;
    assert(env.deep_view().take(0) =~= Seq::empty());
    assert(r.deep_view() =~= Seq::empty());
    while i < env.len()
        invariant
            i <= env.len(),
            r.deep_view() == resolved_envs(env.deep_view().take(i as int)),
        decreases env.len() - i,
    {
        let ghost before = r.deep_view();
        proof {
            assert(env.deep_view().take(i + 1).drop_last() =~= env.deep_view().take(i as int));
            assert(env.deep_view().take(i + 1).last() == env[i as int]@);
        }
        match &env[i].value {
            Some(value) => {
                r.push(KeyValue { key: env[i].name.clone(), value: value.clone() });
                assert(r.deep_view() =~= before.push(
                    KeyValueView { key: env[i as int].name@, value: value@ },
                ));
            },
            None => {},
        }
        i += 1;
    }
    assert(env.deep_view().take(i as int) =~= env.deep_view());
    r
}

/// No key-value pairs.
fn no_key_values() -> (r: Vec<KeyValue>)
    ensures
        r.deep_view() == Seq::<KeyValueView>::empty(),
{
    let r: Vec<KeyValue> = Vec::new();
    assert(r.deep_view() =~= Seq::<KeyValueView>::empty());
    r
}

/// Builds the configuration of a container.
pub fn container_config(container: &ContainerSpec) -> (r: ContainerConfig)
    ensures
        r@ == container_config_of(container@),
{
    let command = match &container.command {
        Some(l) => clone_strings(l),
        None => no_strings(),
    };
    let args = match &container.args {
        Some(l) => clone_strings(l),
        None => no_strings(),
    };
    let working_dir = match &container.working_dir {
        Some(d) => d.clone(),
        None => owned("/"),
    };
    let envs = match &container.env {
        Some(l) => resolve_envs(l),
        None => no_key_values(),
    };
    let mut log_path = container.name.clone();
    log_path.append("/log");
    let mounts: Vec<Mount> = Vec::new();
    let devices: Vec<Device> = Vec::new();
    let r = ContainerConfig {
        metadata: ContainerMetadata { name: container.name.clone(), attempt: 0 },
        image: container.image.clone(),
        command,
        args,
        working_dir,
        envs,
        mounts,
        devices,
        labels: no_key_values(),
        annotations: no_key_values(),
        log_path,
        stdin: false,
        stdin_once: false,
        tty: false,
    };
    assert(r@.mounts =~= Seq::empty());
    assert(r@.devices =~= Seq::empty());
    r
}

} // verus!
