//! The runtime interface's messages, as plain values.
//!
//! Each type carries the fields that the runtime protocol defines, and a view
//! that the contracts of this library speak of.

use vstd::prelude::*;
use crate::text::clone_strings;

verus! {

/// A key and its value: a label, an annotation or an environment variable.
#[derive(Debug, PartialEq, Eq)]
pub struct KeyValue {
    pub key: String,
    pub value: String,
}

pub struct KeyValueView {
    pub key: Seq<char>,
    pub value: Seq<char>,
}

impl View for KeyValue {
    type V = KeyValueView;

    open spec fn view(&self) -> KeyValueView {
        KeyValueView { key: self.key@, value: self.value@ }
    }
}

impl DeepView for KeyValue {
    type V = KeyValueView;

    open spec fn deep_view(&self) -> KeyValueView {
        self@
    }
}

impl Clone for KeyValue {
    fn clone(&self) -> (r: Self)
        ensures
            r@ == self@,
    {
        KeyValue { key: self.key.clone(), value: self.value.clone() }
    }
}

/// Copies a list of key-value pairs.
pub fn clone_key_values(v: &Vec<KeyValue>) -> (r: Vec<KeyValue>)
    ensures
        r.deep_view() == v.deep_view(),
{
    let mut r: Vec<KeyValue> = Vec::new();
    let mut i: usize = 0;
    while i < v.len()
        invariant
            i <= v.len(),
            r.len() == i,
            forall|j: int| 0 <= j < i ==> r[j]@ == v[j]@,
        decreases v.len() - i,
    {
        r.push(v[i].clone());
        i += 1;
    }
    assert(r.deep_view() =~= v.deep_view());
    r
}

/// Identity of a sandbox: the pod's name, uid and namespace, and how often
/// it was attempted.
#[derive(Debug, PartialEq, Eq)]
pub struct PodSandboxMetadata {
    pub name: String,
    pub uid: String,
    pub namespace: String,
    pub attempt: u32,
}

pub struct PodSandboxMetadataView {
    pub name: Seq<char>,
    pub uid: Seq<char>,
    pub namespace: Seq<char>,
    pub attempt: u32,
}

impl View for PodSandboxMetadata {
    type V = PodSandboxMetadataView;

    open spec fn view(&self) -> PodSandboxMetadataView {
        PodSandboxMetadataView {
            name: self.name@,
            uid: self.uid@,
            namespace: self.namespace@,
            attempt: self.attempt,
        }
    }
}

impl Clone for PodSandboxMetadata {
    fn clone(&self) -> (r: Self)
        ensures
            r@ == self@,
    {
        PodSandboxMetadata {
            name: self.name.clone(),
            uid: self.uid.clone(),
            namespace: self.namespace.clone(),
            attempt: self.attempt,
        }
    }
}

/// Name servers, search domains and resolver options of a sandbox.
#[derive(Debug, PartialEq, Eq)]
pub struct DnsConfig {
    pub servers: Vec<String>,
    pub searches: Vec<String>,
    pub options: Vec<String>,
}

pub struct DnsConfigView {
    pub servers: Seq<Seq<char>>,
    pub searches: Seq<Seq<char>>,
    pub options: Seq<Seq<char>>,
}

impl DnsConfigView {
    /// No servers, no search domains, no options.
    pub open spec fn empty() -> DnsConfigView {
        DnsConfigView { servers: Seq::empty(), searches: Seq::empty(), options: Seq::empty() }
    }
}

impl View for DnsConfig {
    type V = DnsConfigView;

    open spec fn view(&self) -> DnsConfigView {
        DnsConfigView {
            servers: self.servers.deep_view(),
            searches: self.searches.deep_view(),
            options: self.options.deep_view(),
        }
    }
}

impl Clone for DnsConfig {
    fn clone(&self) -> (r: Self)
        ensures
            r@ == self@,
    {
        DnsConfig {
            servers: clone_strings(&self.servers),
            searches: clone_strings(&self.searches),
            options: clone_strings(&self.options),
        }
    }
}

/// A port of a container that is published on the host.
#[derive(Clone, Copy, Debug, PartialEq, Eq)]
pub struct PortMapping {
    pub protocol: i32,
    pub container_port: i32,
    pub host_port: i32,
}

/// Configuration of one pod's sandbox.
#[derive(Debug, PartialEq, Eq)]
pub struct PodSandboxConfig {
    pub metadata: PodSandboxMetadata,
    pub hostname: String,
    pub log_directory: String,
    pub dns_config: DnsConfig,
    pub port_mappings: Vec<PortMapping>,
    pub labels: Vec<KeyValue>,
    pub annotations: Vec<KeyValue>,
}

pub struct PodSandboxConfigView {
    pub metadata: PodSandboxMetadataView,
    pub hostname: Seq<char>,
    pub log_directory: Seq<char>,
    pub dns_config: DnsConfigView,
    pub port_mappings: Seq<PortMapping>,
    pub labels: Seq<KeyValueView>,
    pub annotations: Seq<KeyValueView>,
}

impl View for PodSandboxConfig {
    type V = PodSandboxConfigView;

    open spec fn view(&self) -> PodSandboxConfigView {
        PodSandboxConfigView {
            metadata: self.metadata@,
            hostname: self.hostname@,
            log_directory: self.log_directory@,
            dns_config: self.dns_config@,
            port_mappings: self.port_mappings@,
            labels: self.labels.deep_view(),
            annotations: self.annotations.deep_view(),
        }
    }
}

impl Clone for PodSandboxConfig {
    fn clone(&self) -> (r: Self)
        ensures
            r@ == self@,
    {
        let mut port_mappings: Vec<PortMapping> = Vec::new();
        let mut i: usize = 0;
        while i < self.port_mappings.len()
            invariant
                i <= self.port_mappings.len(),
                port_mappings@ == self.port_mappings@.take(i as int),
            decreases self.port_mappings.len() - i,
        {
            port_mappings.push(self.port_mappings[i]);
            assert(self.port_mappings@.take(i + 1) =~= self.port_mappings@.take(i as int).push(
                self.port_mappings[i as int],
            ));
            i += 1;
        }
        assert(self.port_mappings@.take(i as int) =~= self.port_mappings@);
        PodSandboxConfig {
            metadata: self.metadata.clone(),
            hostname: self.hostname.clone(),
            log_directory: self.log_directory.clone(),
            dns_config: self.dns_config.clone(),
            port_mappings,
            labels: clone_key_values(&self.labels),
            annotations: clone_key_values(&self.annotations),
        }
    }
}

/// Identity of a container inside its sandbox.
#[derive(Debug, PartialEq, Eq)]
pub struct ContainerMetadata {
    pub name: String,
    pub attempt: u32,
}

pub struct ContainerMetadataView {
    pub name: Seq<char>,
    pub attempt: u32,
}

impl View for ContainerMetadata {
    type V = ContainerMetadataView;

    open spec fn view(&self) -> ContainerMetadataView {
        ContainerMetadataView { name: self.name@, attempt: self.attempt }
    }
}

impl Clone for ContainerMetadata {
    fn clone(&self) -> (r: Self)
        ensures
            r@ == self@,
    {
        ContainerMetadata { name: self.name.clone(), attempt: self.attempt }
    }
}

/// A host path made visible inside a container.
#[derive(Debug, PartialEq, Eq)]
pub struct Mount {
    pub container_path: String,
    pub host_path: String,
    pub readonly: bool,
}

/// A host device made visible inside a container.
#[derive(Debug, PartialEq, Eq)]
pub struct Device {
    pub container_path: String,
    pub host_path: String,
    pub permissions: String,
}

/// Configuration of one container.
#[derive(Debug, PartialEq, Eq)]
pub struct ContainerConfig {
    pub metadata: ContainerMetadata,
    pub image: String,
    pub command: Vec<String>,
    pub args: Vec<String>,
    pub working_dir: String,
    pub envs: Vec<KeyValue>,
    pub mounts: Vec<Mount>,
    pub devices: Vec<Device>,
    pub labels: Vec<KeyValue>,
    pub annotations: Vec<KeyValue>,
    pub log_path: String,
    pub stdin: bool,
    pub stdin_once: bool,
    pub tty: bool,
}

pub struct ContainerConfigView {
    pub metadata: ContainerMetadataView,
    pub image: Seq<char>,
    pub command: Seq<Seq<char>>,
    pub args: Seq<Seq<char>>,
    pub working_dir: Seq<char>,
    pub envs: Seq<KeyValueView>,
    pub mounts: Seq<Mount>,
    pub devices: Seq<Device>,
    pub labels: Seq<KeyValueView>,
    pub annotations: Seq<KeyValueView>,
    pub log_path: Seq<char>,
    pub stdin: bool,
    pub stdin_once: bool,
    pub tty: bool,
}

impl View for ContainerConfig {
    type V = ContainerConfigView;

    open spec fn view(&self) -> ContainerConfigView {
        ContainerConfigView {
            metadata: self.metadata@,
            image: self.image@,
            command: self.command.deep_view(),
            args: self.args.deep_view(),
            working_dir: self.working_dir@,
            envs: self.envs.deep_view(),
            mounts: self.mounts@,
            devices: self.devices@,
            labels: self.labels.deep_view(),
            annotations: self.annotations.deep_view(),
            log_path: self.log_path@,
            stdin: self.stdin,
            stdin_once: self.stdin_once,
            tty: self.tty,
        }
    }
}

/// A sandbox as the runtime lists it.
#[derive(Debug, PartialEq, Eq)]
pub struct PodSandbox {
    pub id: String,
    pub metadata: Option<PodSandboxMetadata>,
}

pub struct PodSandboxView {
    pub id: Seq<char>,
    pub metadata: Option<PodSandboxMetadataView>,
}

impl View for PodSandbox {
    type V = PodSandboxView;

    open spec fn view(&self) -> PodSandboxView {
        PodSandboxView {
            id: self.id@,
            metadata: match self.metadata {
                Some(m) => Some(m@),
                None => None,
            },
        }
    }
}

impl DeepView for PodSandbox {
    type V = PodSandboxView;

    open spec fn deep_view(&self) -> PodSandboxView {
        self@
    }
}

impl Clone for PodSandbox {
    fn clone(&self) -> (r: Self)
        ensures
            r@ == self@,
    {
        PodSandbox {
            id: self.id.clone(),
            metadata: match &self.metadata {
                Some(m) => Some(m.clone()),
                None => None,
            },
        }
    }
}

/// A container as the runtime lists it.
#[derive(Debug, PartialEq, Eq)]
pub struct Container {
    pub id: String,
    pub pod_sandbox_id: String,
    pub metadata: Option<ContainerMetadata>,
}

pub struct ContainerView {
    pub id: Seq<char>,
    pub pod_sandbox_id: Seq<char>,
    pub metadata: Option<ContainerMetadataView>,
}

impl View for Container {
    type V = ContainerView;

    open spec fn view(&self) -> ContainerView {
        ContainerView {
            id: self.id@,
            pod_sandbox_id: self.pod_sandbox_id@,
            metadata: match self.metadata {
                Some(m) => Some(m@),
                None => None,
            },
        }
    }
}

impl DeepView for Container {
    type V = ContainerView;

    open spec fn deep_view(&self) -> ContainerView {
        self@
    }
}

impl Clone for Container {
    fn clone(&self) -> (r: Self)
        ensures
            r@ == self@,
    {
        Container {
            id: self.id.clone(),
            pod_sandbox_id: self.pod_sandbox_id.clone(),
            metadata: match &self.metadata {
                Some(m) => Some(m.clone()),
                None => None,
            },
        }
    }
}

} // verus!
