use krustlet_cri::cri::{
    ContainerConfig, ContainerMetadata, DnsConfig, KeyValue, PodSandboxConfig, PodSandboxMetadata,
};
use krustlet_cri::glue::{convert_metadata, ConvertError, ObjectMeta};
use krustlet_cri::pod::{ContainerDescription, ContainerSpec, EnvVar, Pod};
use krustlet_cri::policy::{should_pull, PullPolicy};
use krustlet_cri::translate::{
    container_config, make_container_log_directory, make_container_log_file,
    make_pod_log_directory, resolve_envs, sandbox_config,
};

fn s(text: &str) -> String {
    text.to_string()
}

fn kv(key: &str, value: &str) -> KeyValue {
    KeyValue { key: s(key), value: s(value) }
}

#[test]
fn pull_policy_table() {
    assert!(should_pull(PullPolicy::Always, true));
    assert!(should_pull(PullPolicy::Always, false));
    assert!(!should_pull(PullPolicy::IfNotPresent, true));
    assert!(should_pull(PullPolicy::IfNotPresent, false));
    assert!(!should_pull(PullPolicy::Never, true));
    assert!(!should_pull(PullPolicy::Never, false));
}

#[test]
fn sandbox_config_of_a_pod() {
    let pod = Pod {
        namespace: s("default"),
        name: s("web"),
        uid: s("1234"),
        hostname: Some(s("web-0")),
        labels: vec![kv("app", "web"), kv("tier", "front")],
        annotations: vec![kv("note", "x")],
        deletion_timestamp: None,
        containers: vec![],
    };
    let expected = PodSandboxConfig {
        metadata: PodSandboxMetadata {
            name: s("web"),
            uid: s(""),
            namespace: s("default"),
            attempt: 0,
        },
        hostname: s("web-0"),
        log_directory: s("/var/log/pods/default/web/"),
        dns_config: DnsConfig { servers: vec![], searches: vec![], options: vec![] },
        port_mappings: vec![],
        labels: vec![kv("app", "web"), kv("tier", "front")],
        annotations: vec![kv("note", "x")],
    };
    assert_eq!(sandbox_config(&pod), expected);
    assert_eq!(sandbox_config(&pod).clone(), expected);
}

#[test]
fn sandbox_config_defaults_the_hostname_to_empty() {
    let pod = Pod {
        namespace: s("ns"),
        name: s("p"),
        uid: s(""),
        hostname: None,
        labels: vec![],
        annotations: vec![],
        deletion_timestamp: Some(s("2020-09-01T00:00:00Z")),
        containers: vec![],
    };
    let config = sandbox_config(&pod);
    assert_eq!(config.hostname, "");
    assert_eq!(config.log_directory, "/var/log/pods/ns/p/");
    assert!(pod.deletion_requested());
}

#[test]
fn container_config_defaults() {
    let spec = ContainerSpec {
        name: s("nginx"),
        image: s("nginx:latest"),
        pull_policy: PullPolicy::IfNotPresent,
        command: None,
        args: None,
        working_dir: None,
        env: None,
    };
    let expected = ContainerConfig {
        metadata: ContainerMetadata { name: s("nginx"), attempt: 0 },
        image: s("nginx:latest"),
        command: vec![],
        args: vec![],
        working_dir: s("/"),
        envs: vec![],
        mounts: vec![],
        devices: vec![],
        labels: vec![],
        annotations: vec![],
        log_path: s("nginx/log"),
        stdin: false,
        stdin_once: false,
        tty: false,
    };
    assert_eq!(container_config(&spec), expected);
}

#[test]
fn container_config_keeps_what_is_given_and_drops_unresolved_variables() {
    let spec = ContainerSpec {
        name: s("job"),
        image: s("busybox:1.32"),
        pull_policy: PullPolicy::Never,
        command: Some(vec![s("/bin/sh"), s("-c")]),
        args: Some(vec![s("echo hi")]),
        working_dir: Some(s("/work")),
        env: Some(vec![
            EnvVar { name: s("A"), value: Some(s("1")) },
            EnvVar { name: s("SECRET"), value: None },
            EnvVar { name: s("B"), value: Some(s("")) },
        ]),
    };
    let config = container_config(&spec);
    assert_eq!(config.command, vec![s("/bin/sh"), s("-c")]);
    assert_eq!(config.args, vec![s("echo hi")]);
    assert_eq!(config.working_dir, "/work");
    assert_eq!(config.envs, vec![kv("A", "1"), kv("B", "")]);
    assert_eq!(config.log_path, "job/log");
    assert_eq!(config.image, "busybox:1.32");
}

#[test]
fn resolve_envs_keeps_order() {
    assert_eq!(resolve_envs(&vec![]), vec![]);
    let env = vec![
        EnvVar { name: s("X"), value: None },
        EnvVar { name: s("Z"), value: Some(s("26")) },
        EnvVar { name: s("Y"), value: Some(s("25")) },
        EnvVar { name: s("W"), value: None },
    ];
    assert_eq!(resolve_envs(&env), vec![kv("Z", "26"), kv("Y", "25")]);
}

#[test]
fn log_paths_follow_the_convention() {
    assert_eq!(make_pod_log_directory(&s("default"), &s("web")), "/var/log/pods/default/web/");
    assert_eq!(
        make_container_log_directory(&s("default"), &s("web"), &s("nginx")),
        "/var/log/pods/default/web/nginx"
    );
    assert_eq!(
        make_container_log_file(&s("default"), &s("web"), &s("nginx")),
        "/var/log/pods/default/web/nginx/log"
    );
    assert_eq!(make_pod_log_directory(&s(""), &s("")), "/var/log/pods///");
}

#[test]
fn convert_metadata_needs_name_and_uid() {
    let full = ObjectMeta {
        name: Some(s("web")),
        namespace: Some(s("prod")),
        uid: Some(s("abc")),
        generation: Some(3),
    };
    assert_eq!(
        convert_metadata(full),
        Ok(PodSandboxMetadata { name: s("web"), uid: s("abc"), namespace: s("prod"), attempt: 3 })
    );
    let bare = ObjectMeta { name: Some(s("web")), namespace: None, uid: Some(s("abc")), generation: None };
    assert_eq!(
        convert_metadata(bare),
        Ok(PodSandboxMetadata { name: s("web"), uid: s("abc"), namespace: s("default"), attempt: 0 })
    );
    let no_name = ObjectMeta { name: None, namespace: None, uid: None, generation: None };
    assert_eq!(convert_metadata(no_name), Err(ConvertError::MissingField(s("name"))));
    let no_uid = ObjectMeta { name: Some(s("web")), namespace: None, uid: None, generation: Some(1) };
    assert_eq!(convert_metadata(no_uid), Err(ConvertError::MissingField(s("uid"))));
}

#[test]
fn convert_metadata_keeps_the_low_bits_of_the_generation() {
    let big = ObjectMeta {
        name: Some(s("n")),
        namespace: None,
        uid: Some(s("u")),
        generation: Some(4294967296 + 7),
    };
    assert_eq!(convert_metadata(big).map(|m| m.attempt), Ok(7));
    let negative =
        ObjectMeta { name: Some(s("n")), namespace: None, uid: Some(s("u")), generation: Some(-1) };
    assert_eq!(convert_metadata(negative).map(|m| m.attempt), Ok(4294967295));
}

#[test]
fn convert_error_message() {
    assert_eq!(
        ConvertError::MissingField(s("uid")).message(),
        "Missing field during conversion: uid"
    );
}

fn description(image: &str, declared: Option<&str>) -> ContainerDescription {
    ContainerDescription {
        name: s("main"),
        image: s(image),
        image_pull_policy: declared.map(s),
        command: Some(vec![s("run")]),
        args: None,
        working_dir: Some(s("/srv")),
        env: Some(vec![EnvVar { name: s("A"), value: None }]),
    }
}

fn policy_of(image: &str, declared: Option<&str>) -> Result<PullPolicy, String> {
    ContainerSpec::describe(description(image, declared)).map(|c| c.pull_policy)
}

#[test]
fn describe_settles_the_declared_policy() {
    assert_eq!(policy_of("registry.example/nginx:1.19", Some("Always")), Ok(PullPolicy::Always));
    assert_eq!(
        policy_of("registry.example/nginx:1.19", Some("IfNotPresent")),
        Ok(PullPolicy::IfNotPresent)
    );
    assert_eq!(policy_of("registry.example/nginx:latest", Some("Never")), Ok(PullPolicy::Never));
}

#[test]
fn describe_defaults_the_policy_by_the_tag() {
    assert_eq!(policy_of("registry.example/nginx:latest", None), Ok(PullPolicy::Always));
    assert_eq!(policy_of("registry.example/nginx", None), Ok(PullPolicy::Always));
    assert_eq!(policy_of("registry.example/nginx:1.19", None), Ok(PullPolicy::IfNotPresent));
}

#[test]
fn describe_reports_what_it_cannot_read() {
    assert_eq!(
        policy_of("registry.example/nginx:1.19", Some("Sometimes")),
        Err(s("unrecognized pull policy Sometimes"))
    );
    assert!(policy_of("nginx", Some("Always")).is_err());
    assert!(policy_of("", None).is_err());
}

#[test]
fn describe_keeps_all_else() {
    let settled = ContainerSpec::describe(description("registry.example/job:2", Some("Never")));
    assert_eq!(
        settled,
        Ok(ContainerSpec {
            name: s("main"),
            image: s("registry.example/job:2"),
            pull_policy: PullPolicy::Never,
            command: Some(vec![s("run")]),
            args: None,
            working_dir: Some(s("/srv")),
            env: Some(vec![EnvVar { name: s("A"), value: None }]),
        })
    );
}
