use krustlet_cri::cri::{PodSandbox, PodSandboxMetadata};
use krustlet_cri::model::Kind;
use krustlet_cri::pod::{ContainerSpec, Pod};
use krustlet_cri::policy::PullPolicy;
use krustlet_cri::provider::Provider;
use krustlet_cri::states::image_pull::PullStep;
use krustlet_cri::states::starting::StartStep;
use krustlet_cri::states::terminated::StopStep;
use krustlet_cri::states::{
    transition_allowed, Action, Error, Event, ImagePull, PodLifecycleState, PodState, Registered,
    Running, SharedPodState, Starting, Terminated, Transition,
};
use krustlet_cri::status::{Phase, Status};
use krustlet_cri::translate::{container_config, sandbox_config};

fn container(name: &str, image: &str, pull_policy: PullPolicy) -> ContainerSpec {
    ContainerSpec {
        name: name.to_string(),
        image: image.to_string(),
        pull_policy,
        command: None,
        args: None,
        working_dir: None,
        env: None,
    }
}

fn pod(namespace: &str, name: &str, containers: Vec<ContainerSpec>) -> Pod {
    Pod {
        namespace: namespace.to_string(),
        name: name.to_string(),
        uid: "uid-1".to_string(),
        hostname: None,
        labels: vec![],
        annotations: vec![],
        deletion_timestamp: None,
        containers,
    }
}

fn web() -> Pod {
    pod("default", "web", vec![container("nginx", "nginx:latest", PullPolicy::IfNotPresent)])
}

fn sandbox(id: &str, namespace: &str, name: &str) -> PodSandbox {
    PodSandbox {
        id: id.to_string(),
        metadata: Some(PodSandboxMetadata {
            name: name.to_string(),
            uid: "".to_string(),
            namespace: namespace.to_string(),
            attempt: 0,
        }),
    }
}

fn failed(cause: &str) -> Event {
    Event::Failed(cause.to_string())
}

fn rank(kind: Kind) -> u8 {
    match kind {
        Kind::Registered => 0,
        Kind::ImagePull => 1,
        Kind::Starting => 2,
        Kind::Running => 3,
        Kind::Terminated => 4,
        Kind::Error => 5,
    }
}

/// Steps through the events and collects the calls asked for and the
/// lifecycle states passed.
fn drive(
    mut state: PodLifecycleState,
    pod_state: &mut PodState,
    shared: &mut SharedPodState,
    pod: &Pod,
    events: Vec<Event>,
) -> (PodLifecycleState, Vec<Action>, Vec<Kind>) {
    let mut actions = Vec::new();
    let mut kinds = vec![state.kind()];
    for event in events {
        let Transition { state: next, action } = state.next(pod_state, shared, pod, event);
        state = next;
        kinds.push(state.kind());
        actions.push(action);
    }
    (state, actions, kinds)
}

fn fresh(pod: &Pod) -> (PodLifecycleState, PodState, SharedPodState) {
    let provider = Provider::new_from_socket_address("/run/containerd/containerd.sock");
    let pod_state = provider.initialize_pod_state(pod);
    (PodLifecycleState::new(), pod_state, provider.shared)
}

fn count(actions: &[Action], pick: fn(&Action) -> bool) -> usize {
    actions.iter().filter(|a| pick(a)).count()
}

#[test]
fn absent_image_is_pulled_once_and_the_pod_runs() {
    let pod = web();
    let (state, mut pod_state, mut shared) = fresh(&pod);
    let events = vec![
        Event::Entered,
        Event::Done,
        Event::ImagePresent(false),
        Event::Done,
        Event::Sandboxes(vec![]),
        Event::SandboxStarted("sb-1".to_string()),
        Event::Done,
        Event::ContainerCreated("c-1".to_string()),
        Event::Done,
    ];
    let (state, actions, _) = drive(state, &mut pod_state, &mut shared, &pod, events);
    let config = sandbox_config(&pod);
    let expected = vec![
        Action::ConnectImageService,
        Action::ImageStatus { image: "nginx:latest".to_string() },
        Action::PullImage { image: "nginx:latest".to_string(), sandbox_config: sandbox_config(&pod) },
        Action::ListPodSandbox,
        Action::RunPodSandbox { config: sandbox_config(&pod), runtime_handler: "".to_string() },
        Action::CreateLogDirectory { path: "/var/log/pods/default/web/nginx".to_string() },
        Action::CreateContainer {
            pod_sandbox_id: "sb-1".to_string(),
            config: container_config(&pod.containers[0]),
            sandbox_config: sandbox_config(&pod),
        },
        Action::StartContainer { container_id: "c-1".to_string() },
        Action::Sleep { seconds: 10 },
    ];
    assert_eq!(actions, expected);
    assert_eq!(state, PodLifecycleState::Running(Running));
    assert_eq!(pod_state.sandbox_config, config);
    assert_eq!(count(&actions, |a| matches!(a, Action::PullImage { .. })), 1);
    assert_eq!(count(&actions, |a| matches!(a, Action::RunPodSandbox { .. })), 1);
    assert_eq!(count(&actions, |a| matches!(a, Action::CreateContainer { .. })), 1);
    assert_eq!(count(&actions, |a| matches!(a, Action::StartContainer { .. })), 1);
}

#[test]
fn present_image_is_not_pulled() {
    let pod = web();
    let (state, mut pod_state, mut shared) = fresh(&pod);
    let events = vec![Event::Entered, Event::Done, Event::ImagePresent(true)];
    let (state, actions, _) = drive(state, &mut pod_state, &mut shared, &pod, events);
    assert_eq!(actions[2], Action::ListPodSandbox);
    assert_eq!(state, PodLifecycleState::Starting(Starting { step: StartStep::Refresh }));
}

#[test]
fn always_pulls_without_asking_and_never_does_nothing() {
    let pod = pod(
        "ns",
        "p",
        vec![
            container("a", "img-a", PullPolicy::Never),
            container("b", "img-b", PullPolicy::Always),
            container("c", "img-c", PullPolicy::Never),
        ],
    );
    let (state, mut pod_state, mut shared) = fresh(&pod);
    let events = vec![Event::Entered, Event::Done, Event::Done];
    let (state, actions, _) = drive(state, &mut pod_state, &mut shared, &pod, events);
    assert_eq!(
        actions[1],
        Action::PullImage { image: "img-b".to_string(), sandbox_config: sandbox_config(&pod) }
    );
    assert_eq!(actions[2], Action::ListPodSandbox);
    assert_eq!(state.kind(), Kind::Starting);
}

#[test]
fn pod_without_containers_runs_after_its_sandbox() {
    let pod = pod("ns", "empty", vec![]);
    let (state, mut pod_state, mut shared) = fresh(&pod);
    let events = vec![
        Event::Entered,
        Event::Done,
        Event::Sandboxes(vec![]),
        Event::SandboxStarted("sb".to_string()),
    ];
    let (state, actions, _) = drive(state, &mut pod_state, &mut shared, &pod, events);
    assert_eq!(actions[1], Action::ListPodSandbox);
    assert_eq!(actions[3], Action::Sleep { seconds: 10 });
    assert_eq!(state, PodLifecycleState::Running(Running));
}

#[test]
fn image_client_failure_fails_the_pod_with_the_cause() {
    let pod = web();
    let (state, mut pod_state, mut shared) = fresh(&pod);
    let events = vec![Event::Entered, failed("no socket")];
    let (state, actions, _) = drive(state, &mut pod_state, &mut shared, &pod, events);
    assert_eq!(actions[1], Action::Halt);
    assert_eq!(
        state,
        PodLifecycleState::Error(Error {
            message: "Error creating image client: no socket".to_string()
        })
    );
    let status = state.status();
    assert_eq!(status.phase, Phase::Pending);
    assert_eq!(status.reason, "Error creating image client: no socket");
}

#[test]
fn pull_failure_fails_the_pod() {
    let pod = web();
    let (state, mut pod_state, mut shared) = fresh(&pod);
    let events =
        vec![Event::Entered, Event::Done, Event::ImagePresent(false), failed("registry down")];
    let (state, actions, _) = drive(state, &mut pod_state, &mut shared, &pod, events);
    assert_eq!(actions[3], Action::Halt);
    assert_eq!(state, PodLifecycleState::Error(Error { message: "registry down".to_string() }));
}

#[test]
fn terminated_on_unknown_sandbox_skips_stop_and_remove() {
    let pod = web();
    let (_, mut pod_state, mut shared) = fresh(&pod);
    let state = PodLifecycleState::Terminated(Terminated::new());
    let events = vec![Event::Sandboxes(vec![sandbox("sb-9", "default", "other")]), Event::Done];
    let (state, actions, _) = drive(state, &mut pod_state, &mut shared, &pod, events);
    assert_eq!(
        actions,
        vec![
            Action::DeletePod {
                namespace: "default".to_string(),
                name: "web".to_string(),
                grace_period_seconds: 0
            },
            Action::Complete,
        ]
    );
    assert_eq!(state, PodLifecycleState::Terminated(Terminated { step: StopStep::Done }));
    assert!(state.is_terminal());
    assert_eq!(state.status().phase, Phase::Succeeded);
}

#[test]
fn terminated_stops_then_removes_then_deletes() {
    let pod = web();
    let (_, mut pod_state, mut shared) = fresh(&pod);
    let state = PodLifecycleState::Terminated(Terminated::new());
    let events = vec![
        Event::Sandboxes(vec![sandbox("sb-1", "default", "web")]),
        Event::Done,
        Event::Done,
        Event::Done,
        Event::Done,
    ];
    let (state, actions, _) = drive(state, &mut pod_state, &mut shared, &pod, events);
    assert_eq!(
        actions,
        vec![
            Action::StopPodSandbox { pod_sandbox_id: "sb-1".to_string() },
            Action::RemovePodSandbox { pod_sandbox_id: "sb-1".to_string() },
            Action::DeletePod {
                namespace: "default".to_string(),
                name: "web".to_string(),
                grace_period_seconds: 0
            },
            Action::Complete,
            Action::Halt,
        ]
    );
    assert_eq!(state.kind(), Kind::Terminated);
}

#[test]
fn terminated_failure_is_reported_and_ends_the_lifecycle() {
    let pod = web();
    let (_, mut pod_state, mut shared) = fresh(&pod);
    let state = PodLifecycleState::Terminated(Terminated::new());
    let events = vec![Event::Sandboxes(vec![sandbox("sb-1", "default", "web")]), failed("busy")];
    let (state, actions, _) = drive(state, &mut pod_state, &mut shared, &pod, events);
    assert_eq!(actions[1], Action::Abort { message: "busy".to_string() });
    assert_eq!(state, PodLifecycleState::Terminated(Terminated { step: StopStep::Done }));
}

#[test]
fn two_sandbox_failures_fail_the_pod_before_any_container() {
    let pod = web();
    let (state, mut pod_state, mut shared) = fresh(&pod);
    let events = vec![
        Event::Entered,
        Event::Done,
        Event::ImagePresent(true),
        Event::Sandboxes(vec![]),
        failed("name is reserved"),
        failed("name is still reserved"),
        Event::Done,
    ];
    let (state, actions, _) = drive(state, &mut pod_state, &mut shared, &pod, events);
    assert_eq!(
        state,
        PodLifecycleState::Error(Error { message: "name is still reserved".to_string() })
    );
    assert_eq!(count(&actions, |a| matches!(a, Action::RunPodSandbox { .. })), 2);
    assert_eq!(count(&actions, |a| matches!(a, Action::CreateContainer { .. })), 0);
    assert_eq!(actions[5], Action::Halt);
    assert_eq!(actions[6], Action::Halt);
    assert!(state.status().reason.contains("name is still reserved"));
    assert_eq!(state.status().phase, Phase::Pending);
}

#[test]
fn failed_sandbox_is_repaired_and_tried_once_more() {
    let pod = web();
    let (state, mut pod_state, mut shared) = fresh(&pod);
    let events = vec![
        Event::Entered,
        Event::Done,
        Event::ImagePresent(true),
        Event::Sandboxes(vec![sandbox("old", "default", "web")]),
        Event::Done,
        Event::Done,
        failed("conflict"),
        Event::Done,
        Event::Done,
        Event::SandboxStarted("new".to_string()),
    ];
    let (state, actions, _) = drive(state, &mut pod_state, &mut shared, &pod, events);
    let run = Action::RunPodSandbox { config: sandbox_config(&pod), runtime_handler: "".to_string() };
    assert_eq!(actions[3], Action::StopPodSandbox { pod_sandbox_id: "old".to_string() });
    assert_eq!(actions[4], Action::RemovePodSandbox { pod_sandbox_id: "old".to_string() });
    assert_eq!(actions[5], run);
    assert_eq!(actions[6], Action::StopPodSandbox { pod_sandbox_id: "old".to_string() });
    assert_eq!(actions[7], Action::RemovePodSandbox { pod_sandbox_id: "old".to_string() });
    assert_eq!(actions[8], run);
    assert_eq!(
        actions[9],
        Action::CreateLogDirectory { path: "/var/log/pods/default/web/nginx".to_string() }
    );
    assert_eq!(
        state,
        PodLifecycleState::Starting(Starting { step: StartStep::LogDir("new".to_string(), 0) })
    );
    assert_eq!(count(&actions, |a| matches!(a, Action::RunPodSandbox { .. })), 2);
}

#[test]
fn failed_repair_fails_the_pod() {
    let pod = web();
    let (_, mut pod_state, mut shared) = fresh(&pod);
    shared.refresh_pods(&vec![sandbox("old", "default", "web")]);
    let state = PodLifecycleState::Starting(Starting { step: StartStep::Run });
    let events = vec![failed("conflict"), failed("cannot stop")];
    let (state, actions, _) = drive(state, &mut pod_state, &mut shared, &pod, events);
    assert_eq!(actions[0], Action::StopPodSandbox { pod_sandbox_id: "old".to_string() });
    assert_eq!(state, PodLifecycleState::Error(Error { message: "cannot stop".to_string() }));
}

#[test]
fn containers_start_in_declared_order_in_the_new_sandbox() {
    let pod = pod(
        "prod",
        "app",
        vec![
            container("one", "img-1", PullPolicy::Never),
            container("two", "img-2", PullPolicy::Never),
        ],
    );
    let (_, mut pod_state, mut shared) = fresh(&pod);
    let state = PodLifecycleState::Starting(Starting { step: StartStep::Run });
    let events = vec![
        Event::SandboxStarted("sb-7".to_string()),
        Event::Done,
        Event::ContainerCreated("c-one".to_string()),
        Event::Done,
        Event::Done,
        Event::ContainerCreated("c-two".to_string()),
        Event::Done,
    ];
    let (state, actions, _) = drive(state, &mut pod_state, &mut shared, &pod, events);
    assert_eq!(
        actions[0],
        Action::CreateLogDirectory { path: "/var/log/pods/prod/app/one".to_string() }
    );
    assert_eq!(
        actions[1],
        Action::CreateContainer {
            pod_sandbox_id: "sb-7".to_string(),
            config: container_config(&pod.containers[0]),
            sandbox_config: sandbox_config(&pod),
        }
    );
    assert_eq!(actions[2], Action::StartContainer { container_id: "c-one".to_string() });
    assert_eq!(
        actions[3],
        Action::CreateLogDirectory { path: "/var/log/pods/prod/app/two".to_string() }
    );
    assert_eq!(
        actions[4],
        Action::CreateContainer {
            pod_sandbox_id: "sb-7".to_string(),
            config: container_config(&pod.containers[1]),
            sandbox_config: sandbox_config(&pod),
        }
    );
    assert_eq!(actions[5], Action::StartContainer { container_id: "c-two".to_string() });
    assert_eq!(actions[6], Action::Sleep { seconds: 10 });
    assert_eq!(state, PodLifecycleState::Running(Running));
}

#[test]
fn container_failure_fails_the_pod_without_rollback() {
    let pod = web();
    let (_, mut pod_state, mut shared) = fresh(&pod);
    let state = PodLifecycleState::Starting(Starting {
        step: StartStep::Create("sb".to_string(), 0),
    });
    let (state, actions, _) =
        drive(state, &mut pod_state, &mut shared, &pod, vec![failed("no such image")]);
    assert_eq!(actions, vec![Action::Halt]);
    assert_eq!(state, PodLifecycleState::Error(Error { message: "no such image".to_string() }));
}

#[test]
fn states_come_in_forward_order() {
    let pod = web();
    let (state, mut pod_state, mut shared) = fresh(&pod);
    let events = vec![
        Event::Entered,
        Event::Done,
        Event::ImagePresent(false),
        Event::Done,
        Event::Sandboxes(vec![]),
        Event::SandboxStarted("sb-1".to_string()),
        Event::Done,
        Event::ContainerCreated("c-1".to_string()),
        Event::Done,
        Event::Done,
        Event::DeletionRequested,
        Event::Sandboxes(vec![sandbox("sb-1", "default", "web")]),
        Event::Done,
        Event::Done,
        Event::Done,
        Event::Entered,
        failed("late"),
    ];
    let (state, _, kinds) = drive(state, &mut pod_state, &mut shared, &pod, events);
    for pair in kinds.windows(2) {
        assert!(rank(pair[0]) <= rank(pair[1]));
    }
    assert_eq!(kinds[0], Kind::Registered);
    assert_eq!(kinds[1], Kind::ImagePull);
    assert_eq!(kinds[9], Kind::Running);
    assert_eq!(kinds[10], Kind::Running);
    assert_eq!(kinds[11], Kind::Terminated);
    assert_eq!(state, PodLifecycleState::Terminated(Terminated { step: StopStep::Done }));
}

#[test]
fn error_and_terminated_are_never_left() {
    let pod = web();
    let (_, mut pod_state, mut shared) = fresh(&pod);
    let all = || {
        vec![
            Event::Entered,
            Event::Done,
            Event::ImagePresent(true),
            Event::Sandboxes(vec![]),
            Event::SandboxStarted("x".to_string()),
            Event::ContainerCreated("y".to_string()),
            Event::DeletionRequested,
            Event::Failed("z".to_string()),
        ]
    };
    let state = PodLifecycleState::Error(Error { message: "boom".to_string() });
    let (state, actions, _) = drive(state, &mut pod_state, &mut shared, &pod, all());
    assert_eq!(state, PodLifecycleState::Error(Error { message: "boom".to_string() }));
    assert!(actions.iter().all(|a| *a == Action::Halt));
    assert!(state.is_terminal());

    let state = PodLifecycleState::Terminated(Terminated { step: StopStep::Done });
    let (state, actions, _) = drive(state, &mut pod_state, &mut shared, &pod, all());
    assert_eq!(state, PodLifecycleState::Terminated(Terminated { step: StopStep::Done }));
    assert!(actions.iter().all(|a| *a == Action::Halt));
}

#[test]
fn running_waits_until_deletion() {
    let pod = web();
    let (_, mut pod_state, mut shared) = fresh(&pod);
    let state = PodLifecycleState::Running(Running);
    let events = vec![Event::Done, Event::Failed("x".to_string()), Event::DeletionRequested];
    let (state, actions, _) = drive(state, &mut pod_state, &mut shared, &pod, events);
    assert_eq!(
        actions,
        vec![Action::Sleep { seconds: 10 }, Action::Sleep { seconds: 10 }, Action::ListPodSandbox]
    );
    assert_eq!(state, PodLifecycleState::Terminated(Terminated { step: StopStep::Refresh }));
}

#[test]
fn unexpected_outcome_fails_the_pod() {
    let pod = web();
    let (_, mut pod_state, mut shared) = fresh(&pod);
    let state = PodLifecycleState::ImagePull(ImagePull { step: PullStep::Connect });
    let (state, _, _) =
        drive(state, &mut pod_state, &mut shared, &pod, vec![Event::ImagePresent(true)]);
    assert_eq!(state, PodLifecycleState::Error(Error { message: "unexpected event".to_string() }));

    let state = PodLifecycleState::Starting(Starting {
        step: StartStep::LogDir("sb".to_string(), 5),
    });
    let (state, _, _) = drive(state, &mut pod_state, &mut shared, &pod, vec![Event::Done]);
    assert_eq!(state, PodLifecycleState::Error(Error { message: "unexpected event".to_string() }));

    let state = PodLifecycleState::Terminated(Terminated { step: StopStep::Delete });
    let (state, actions, _) =
        drive(state, &mut pod_state, &mut shared, &pod, vec![Event::ImagePresent(true)]);
    assert_eq!(actions, vec![Action::Abort { message: "unexpected event".to_string() }]);
    assert_eq!(state, PodLifecycleState::Terminated(Terminated { step: StopStep::Done }));
}

#[test]
fn registered_builds_the_sandbox_configuration() {
    let pod = web();
    let other = pod_other();
    let provider = Provider::new_from_socket_address("/run/x.sock");
    let mut pod_state = provider.initialize_pod_state(&other);
    let Transition { state, action } = Registered.next(&mut pod_state, &pod);
    assert_eq!(action, Action::ConnectImageService);
    assert_eq!(state, PodLifecycleState::ImagePull(ImagePull { step: PullStep::Connect }));
    assert_eq!(pod_state.sandbox_config, sandbox_config(&pod));
    assert_eq!(pod_state.pod_name(), "web");
    assert_eq!(pod_state.pod_namespace(), "default");
}

fn pod_other() -> Pod {
    pod("kube-system", "dns", vec![])
}

#[test]
fn status_of_each_state() {
    let cases = vec![
        (PodLifecycleState::Registered(Registered), Phase::Pending, "Registered"),
        (
            PodLifecycleState::ImagePull(ImagePull { step: PullStep::Query(0) }),
            Phase::Pending,
            "ImagePull",
        ),
        (PodLifecycleState::Starting(Starting { step: StartStep::Rerun }), Phase::Pending, "Starting"),
        (PodLifecycleState::Running(Running), Phase::Running, "Running"),
        (PodLifecycleState::Terminated(Terminated::new()), Phase::Succeeded, "Terminated"),
        (
            PodLifecycleState::Error(Error { message: "it broke".to_string() }),
            Phase::Pending,
            "it broke",
        ),
    ];
    for (state, phase, reason) in cases {
        let status = state.status();
        assert_eq!(status.phase, phase);
        assert_eq!(status.reason, reason);
    }
}

#[test]
fn json_status_is_the_status_patch() {
    let pending = r#"{"metadata":{"resourceVersion":""},"status":{"phase":"Pending","reason":"Registered"}}"#;
    assert_eq!(Registered.json_status(), Ok(pending.to_string()));
    assert_eq!(PodLifecycleState::new().json_status(), Ok(pending.to_string()));
    let running = r#"{"metadata":{"resourceVersion":""},"status":{"phase":"Running","reason":"Running"}}"#;
    assert_eq!(Running.json_status(), Ok(running.to_string()));
    let done = r#"{"metadata":{"resourceVersion":""},"status":{"phase":"Succeeded","reason":"Terminated"}}"#;
    assert_eq!(Terminated::new().json_status(), Ok(done.to_string()));
    let pulling = r#"{"metadata":{"resourceVersion":""},"status":{"phase":"Pending","reason":"ImagePull"}}"#;
    assert_eq!(ImagePull { step: PullStep::Connect }.json_status(), Ok(pulling.to_string()));
    let starting = r#"{"metadata":{"resourceVersion":""},"status":{"phase":"Pending","reason":"Starting"}}"#;
    assert_eq!(Starting { step: StartStep::Refresh }.json_status(), Ok(starting.to_string()));
    let failed = r#"{"metadata":{"resourceVersion":""},"status":{"phase":"Pending","reason":"no \"socket\""}}"#;
    let error = Error { message: "no \"socket\"".to_string() };
    assert_eq!(error.json_status(), Ok(failed.to_string()));
    let status = Status { phase: Phase::Succeeded, reason: "x".to_string() };
    let parsed: serde_json::Value = serde_json::from_str(&status.json().unwrap()).unwrap();
    assert_eq!(parsed["status"]["phase"], "Succeeded");
    assert_eq!(parsed["status"]["reason"], "x");
    assert_eq!(parsed["metadata"]["resourceVersion"], "");
}

#[test]
fn transition_table() {
    let kinds = [
        Kind::Registered,
        Kind::ImagePull,
        Kind::Starting,
        Kind::Running,
        Kind::Terminated,
        Kind::Error,
    ];
    let edges = [
        (Kind::Registered, Kind::ImagePull),
        (Kind::ImagePull, Kind::Starting),
        (Kind::ImagePull, Kind::Error),
        (Kind::Starting, Kind::Running),
        (Kind::Starting, Kind::Error),
        (Kind::Running, Kind::Terminated),
    ];
    for from in kinds {
        for to in kinds {
            let expected = from == to || edges.contains(&(from, to));
            assert_eq!(transition_allowed(from, to), expected);
        }
    }
    assert!(!transition_allowed(Kind::Terminated, Kind::Error));
    assert!(!transition_allowed(Kind::Error, Kind::Registered));
    assert!(!transition_allowed(Kind::Running, Kind::Error));
}

#[test]
fn failed_call_names_the_operation_and_the_cause() {
    let run = Action::RunPodSandbox {
        config: sandbox_config(&web()),
        runtime_handler: "".to_string(),
    };
    assert_eq!(run.operation(), "RunPodSandbox");
    assert_eq!(run.failed("status: AlreadyExists"), failed("RunPodSandbox: status: AlreadyExists"));
    assert_eq!(Action::ListPodSandbox.failed(""), failed("ListPodSandbox: "));
    assert_eq!(Action::ConnectImageService.operation(), "Connect");
    assert_eq!(Action::ImageStatus { image: "i".to_string() }.operation(), "ImageStatus");
    assert_eq!(
        Action::StopPodSandbox { pod_sandbox_id: "s".to_string() }.operation(),
        "StopPodSandbox"
    );
    assert_eq!(
        Action::RemovePodSandbox { pod_sandbox_id: "s".to_string() }.operation(),
        "RemovePodSandbox"
    );
    assert_eq!(Action::StartContainer { container_id: "c".to_string() }.operation(), "StartContainer");
    assert_eq!(Action::CreateLogDirectory { path: "/p".to_string() }.operation(), "CreateLogDirectory");
    assert_eq!(Action::Sleep { seconds: 1 }.operation(), "Sleep");
    assert_eq!(Action::Halt.operation(), "");
    assert_eq!(Action::Complete.operation(), "");
}

#[test]
fn work_is_bounded_however_the_calls_turn_out() {
    let pod = web();
    let scripts: Vec<fn(usize) -> Event> = vec![
        |_| Event::Failed("down".to_string()),
        |_| Event::Done,
        |k| if k % 2 == 0 { Event::Done } else { Event::ImagePresent(false) },
        |k| match k % 4 {
            0 => Event::Done,
            1 => Event::Sandboxes(vec![]),
            2 => Event::Failed("busy".to_string()),
            _ => Event::SandboxStarted("sb".to_string()),
        },
    ];
    for script in scripts {
        let (mut state, mut pod_state, mut shared) = fresh(&pod);
        let mut changes = 0;
        for k in 0..200 {
            let before = format!("{:?}", state);
            let step = state.next(&mut pod_state, &mut shared, &pod, script(k));
            state = step.state;
            if format!("{:?}", state) != before {
                changes += 1;
            }
        }
        assert!(changes <= 19 + 5 * pod.containers.len());
    }
}
