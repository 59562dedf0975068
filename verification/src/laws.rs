//! What holds of every run of a pod's controller.
//!
//! A run starts at a point, a stage beside a sandbox cache, and takes one
//! step of the model for each event of a sequence. The laws below hold for
//! every pod, every sandbox configuration and every sequence of events.

use vstd::prelude::*;
use crate::cri::{ContainerView, PodSandboxConfigView, PodSandboxView};
use crate::model::{
    allowed, container_map, delete_pod, kind, pull_from, rank, sandbox_map, step, teardown_of,
    ActionView, EventView, Kind, Stage,
};
use crate::pod::PodView;
use crate::registry::Key;
use crate::policy::{spec_should_pull, PullPolicy};
use crate::states::{lookup_of, Lookup};
use crate::status::{status_of, Phase};

verus! {

/// A point of a run: the stage and the sandbox cache.
pub struct Point {
    pub stage: Stage,
    pub pods: Map<Key, PodSandboxView>,
}

/// Where a run stands after its first `n` events.
pub open spec fn after(
    start: Point,
    config: PodSandboxConfigView,
    pod: PodView,
    events: Seq<EventView>,
    n: nat,
) -> Point
    decreases n,
{
    if n == 0 {
        start
    } else {
        let before = after(start, config, pod, events, (n - 1) as nat);
        let o = step(before.stage, before.pods, config, pod, events[n - 1]);
        Point { stage: o.stage, pods: o.pods }
    }
}

/// The call that a run asks for in answer to event `n`.
pub open spec fn action_at(
    start: Point,
    config: PodSandboxConfigView,
    pod: PodView,
    events: Seq<EventView>,
    n: nat,
) -> ActionView {
    let before = after(start, config, pod, events, n);
    step(before.stage, before.pods, config, pod, events[n as int]).action
}

/// How many of the calls asked for in answer to the first `n` events
/// create the sandbox.
pub open spec fn sandbox_runs(
    start: Point,
    config: PodSandboxConfigView,
    pod: PodView,
    events: Seq<EventView>,
    n: nat,
) -> nat
    decreases n,
{
    if n == 0 {
        0
    } else {
        let earlier = sandbox_runs(start, config, pod, events, (n - 1) as nat);
        if action_at(start, config, pod, events, (n - 1) as nat) is RunPodSandbox {
            earlier + 1
        } else {
            earlier
        }
    }
}

/// How many attempts to create the sandbox a stage has left.
pub open spec fn attempts_left(stage: Stage) -> nat {
    match stage {
        Stage::Registered
        | Stage::PullConnect
        | Stage::PullQuery(_)
        | Stage::PullFetch(_)
        | Stage::StartRefresh
        | Stage::StartStopStale(_)
        | Stage::StartRemoveStale(_) => 2,
        Stage::StartRun | Stage::StartStopFailed(_) | Stage::StartRemoveFailed(_) => 1,
        _ => 0,
    }
}

/// The sandbox in which a stage creates and starts containers.
pub open spec fn sandbox_in_hand(stage: Stage) -> Option<Seq<char>> {
    match stage {
        Stage::StartLogDir(id, _) | Stage::StartCreate(id, _) | Stage::StartLaunch(id, _) => Some(
            id,
        ),
        _ => None,
    }
}

/// Whether the call in flight at a stage creates the sandbox.
pub open spec fn awaits_sandbox(stage: Stage) -> bool {
    stage == Stage::StartRun || stage == Stage::StartRerun
}

/// Pulling images from any container on asks the image service or goes on
/// to list the sandboxes: it stays in the image pulling state or enters the
/// starting state, and leaves the sandbox cache as it is.
pub proof fn lemma_pull_from(
    pod: PodView,
    config: PodSandboxConfigView,
    from: nat,
    pods: Map<Key, PodSandboxView>,
)
    ensures
        ({
            let o = pull_from(pod, config, from, pods);
            &&& o.pods == pods
            &&& o.stage is PullQuery || o.stage is PullFetch || o.stage == Stage::StartRefresh
            &&& o.action is ImageStatus || o.action is PullImage || o.action
                == ActionView::ListPodSandbox
        }),
    decreases pod.containers.len() - from,
{
    if from < pod.containers.len() {
        lemma_pull_from(pod, config, from + 1, pods);
    }
}

/// What one step does to the three measures that the laws rest on: it
/// follows the transition table; it uses up an attempt exactly when it asks
/// for the sandbox to be created; and a sandbox comes into hand only as
/// the outcome of that call.
pub proof fn lemma_step(
    stage: Stage,
    pods: Map<Key, PodSandboxView>,
    config: PodSandboxConfigView,
    pod: PodView,
    event: EventView,
)
    ensures
        ({
            let o = step(stage, pods, config, pod, event);
            &&& allowed(kind(stage), kind(o.stage))
            &&& rank(kind(stage)) <= rank(kind(o.stage))
            &&& kind(stage) == Kind::Error ==> o.stage == stage
            &&& if o.action is RunPodSandbox {
                attempts_left(o.stage) + 1 == attempts_left(stage)
            } else {
                attempts_left(o.stage) <= attempts_left(stage)
            }
            &&& match sandbox_in_hand(o.stage) {
                Some(id) => sandbox_in_hand(stage) == Some(id) || (awaits_sandbox(stage) && event
                    == EventView::SandboxStarted(id)),
                None => true,
            }
            &&& match o.action {
                ActionView::CreateContainer { pod_sandbox_id, .. } => sandbox_in_hand(stage)
                    == Some(pod_sandbox_id),
                _ => true,
            }
        }),
{
    match stage {
        Stage::PullConnect => {
            lemma_pull_from(pod, config, 0, pods);
        },
        Stage::PullQuery(i) => {
            lemma_pull_from(pod, config, i + 1, pods);
        },
        Stage::PullFetch(i) => {
            lemma_pull_from(pod, config, i + 1, pods);
        },
        _ => {},
    }
}

/// Every step follows the transition table: the lifecycle state after it
/// is the one before it, or one that the table lets follow it.
pub proof fn lemma_step_allowed(
    stage: Stage,
    pods: Map<Key, PodSandboxView>,
    config: PodSandboxConfigView,
    pod: PodView,
    event: EventView,
)
    ensures
        allowed(kind(stage), kind(step(stage, pods, config, pod, event).stage)),
{
    lemma_step(stage, pods, config, pod, event);
}

/// Transitions go forward only. In every run the lifecycle states come in
/// their order: a later point is never in an earlier state. A failed pod
/// stays as it is, message and all, and a terminated pod stays terminated.
pub proof fn lemma_forward_only(
    start: Point,
    config: PodSandboxConfigView,
    pod: PodView,
    events: Seq<EventView>,
    i: nat,
    j: nat,
)
    requires
        i <= j <= events.len(),
    ensures
        rank(kind(after(start, config, pod, events, i).stage)) <= rank(
            kind(after(start, config, pod, events, j).stage),
        ),
        kind(after(start, config, pod, events, i).stage) == Kind::Error ==> after(
            start,
            config,
            pod,
            events,
            j,
        ).stage == after(start, config, pod, events, i).stage,
        kind(after(start, config, pod, events, i).stage) == Kind::Terminated ==> kind(
            after(start, config, pod, events, j).stage,
        ) == Kind::Terminated,
    decreases j,
{
    if i < j {
        lemma_forward_only(start, config, pod, events, i, (j - 1) as nat);
        let before = after(start, config, pod, events, (j - 1) as nat);
        lemma_step(before.stage, before.pods, config, pod, events[j - 1]);
    }
}

/// No lifecycle state is come back to. If a run is in one state at two
/// points, it is in that state at every point between them.
pub proof fn lemma_no_state_revisited(
    start: Point,
    config: PodSandboxConfigView,
    pod: PodView,
    events: Seq<EventView>,
    i: nat,
    k: nat,
    j: nat,
)
    requires
        i <= k <= j <= events.len(),
        kind(after(start, config, pod, events, i).stage) == kind(
            after(start, config, pod, events, j).stage,
        ),
    ensures
        kind(after(start, config, pod, events, k).stage) == kind(
            after(start, config, pod, events, i).stage,
        ),
{
    lemma_forward_only(start, config, pod, events, i, k);
    lemma_forward_only(start, config, pod, events, k, j);
}

/// The sandbox comes before its containers. When a run that starts with no
/// sandbox in hand asks for a container to be created in a sandbox, an
/// earlier event of the run is the creation of that very sandbox, as the
/// outcome of the call that asked for it.
pub proof fn lemma_sandbox_before_container(
    start: Point,
    config: PodSandboxConfigView,
    pod: PodView,
    events: Seq<EventView>,
    n: nat,
)
    requires
        n < events.len(),
        sandbox_in_hand(start.stage).is_none(),
        action_at(start, config, pod, events, n) is CreateContainer,
    ensures
        exists|j: nat|
            j < n && awaits_sandbox(#[trigger] after(start, config, pod, events, j).stage)
                && events[j as int] == EventView::SandboxStarted(
                action_at(start, config, pod, events, n)->CreateContainer_pod_sandbox_id,
            ),
{
    let before = after(start, config, pod, events, n);
    lemma_step(before.stage, before.pods, config, pod, events[n as int]);
    let id = action_at(start, config, pod, events, n)->CreateContainer_pod_sandbox_id;
    lemma_sandbox_origin(start, config, pod, events, n, id);
}

/// A sandbox that a run has in hand was created earlier in that run.
proof fn lemma_sandbox_origin(
    start: Point,
    config: PodSandboxConfigView,
    pod: PodView,
    events: Seq<EventView>,
    n: nat,
    id: Seq<char>,
)
    requires
        n <= events.len(),
        sandbox_in_hand(start.stage).is_none(),
        sandbox_in_hand(after(start, config, pod, events, n).stage) == Some(id),
    ensures
        exists|j: nat|
            j < n && awaits_sandbox(#[trigger] after(start, config, pod, events, j).stage)
                && events[j as int] == EventView::SandboxStarted(id),
    decreases n,
{
    if n > 0 {
        let m = (n - 1) as nat;
        let before = after(start, config, pod, events, m);
        lemma_step(before.stage, before.pods, config, pod, events[m as int]);
        if sandbox_in_hand(before.stage) == Some(id) {
            lemma_sandbox_origin(start, config, pod, events, m, id);
            let j = choose|j: nat|
                j < m && awaits_sandbox(#[trigger] after(start, config, pod, events, j).stage)
                    && events[j as int] == EventView::SandboxStarted(id);
            assert(j < n);
        } else {
            assert(awaits_sandbox(after(start, config, pod, events, m).stage));
        }
    }
}

/// The retry bound. However a run goes, it asks for the sandbox to be
/// created at most as often as its first stage has attempts left, and no
/// stage has more than two.
pub proof fn lemma_retry_bound(
    start: Point,
    config: PodSandboxConfigView,
    pod: PodView,
    events: Seq<EventView>,
    n: nat,
)
    requires
        n <= events.len(),
    ensures
        sandbox_runs(start, config, pod, events, n) + attempts_left(
            after(start, config, pod, events, n).stage,
        ) <= attempts_left(start.stage),
        sandbox_runs(start, config, pod, events, n) <= 2,
    decreases n,
{
    if n > 0 {
        let m = (n - 1) as nat;
        lemma_retry_bound(start, config, pod, events, m);
        let before = after(start, config, pod, events, m);
        lemma_step(before.stage, before.pods, config, pod, events[m as int]);
    }
}

/// The first failure to create the sandbox is answered with a repair and
/// one more attempt; the second fails the pod for good, with the cause as
/// its message, and asks for nothing more.
pub proof fn lemma_second_failure_is_fatal(
    pods: Map<Key, PodSandboxView>,
    config: PodSandboxConfigView,
    pod: PodView,
    cause: Seq<char>,
)
    ensures
        ({
            let first = step(Stage::StartRun, pods, config, pod, EventView::Failed(cause));
            &&& first.stage is StartStopFailed || first.stage == Stage::StartRerun
            &&& first.stage is StartStopFailed <==> pods.contains_key((pod.namespace, pod.name))
        }),
        ({
            let second = step(Stage::StartRerun, pods, config, pod, EventView::Failed(cause));
            &&& second.stage == Stage::Error(cause)
            &&& second.action == ActionView::Halt
        }),
{
}

/// A terminal phase is never taken back. Once a run reports a pod as
/// succeeded, it reports it so at every later point.
pub proof fn lemma_phase_never_downgraded(
    start: Point,
    config: PodSandboxConfigView,
    pod: PodView,
    events: Seq<EventView>,
    i: nat,
    j: nat,
)
    requires
        i <= j <= events.len(),
        status_of(after(start, config, pod, events, i).stage).0 == Phase::Succeeded,
    ensures
        status_of(after(start, config, pod, events, j).stage).0 == Phase::Succeeded,
{
    lemma_forward_only(start, config, pod, events, i, j);
}

/// Pulling follows the policy of each container. With `Always` the image
/// is pulled without a question; with `Never` the container is passed
/// over; with `IfNotPresent` the image service is asked, and the image is
/// pulled exactly if it is absent.
pub proof fn lemma_pull_follows_policy(
    pod: PodView,
    config: PodSandboxConfigView,
    pods: Map<Key, PodSandboxView>,
    i: nat,
    present: bool,
)
    requires
        i < pod.containers.len(),
    ensures
        ({
            let c = pod.containers[i as int];
            let pull = ActionView::PullImage { image: c.image, sandbox_config: config };
            let asked = step(Stage::PullQuery(i), pods, config, pod, EventView::ImagePresent(present));
            &&& c.pull_policy == PullPolicy::Always ==> pull_from(pod, config, i, pods).action
                == pull
            &&& c.pull_policy == PullPolicy::Never ==> pull_from(pod, config, i, pods)
                == pull_from(pod, config, i + 1, pods)
            &&& c.pull_policy == PullPolicy::IfNotPresent ==> pull_from(pod, config, i, pods).action
                == (ActionView::ImageStatus { image: c.image })
            &&& spec_should_pull(c.pull_policy, present) ==> asked.action == pull
            &&& !spec_should_pull(c.pull_policy, present) ==> asked == pull_from(
                pod,
                config,
                i + 1,
                pods,
            ) && !(asked.action is PullImage && asked.stage == Stage::PullFetch(i))
        }),
{
    lemma_pull_from(pod, config, i + 1, pods);
    lemma_pull_stage_after(pod, config, i + 1, pods);
}

/// Pulling from container `from` on never turns back to an earlier
/// container.
proof fn lemma_pull_stage_after(
    pod: PodView,
    config: PodSandboxConfigView,
    from: nat,
    pods: Map<Key, PodSandboxView>,
)
    ensures
        match pull_from(pod, config, from, pods).stage {
            Stage::PullQuery(k) => k >= from,
            Stage::PullFetch(k) => k >= from,
            _ => true,
        },
    decreases pod.containers.len() - from,
{
    if from < pod.containers.len() {
        lemma_pull_stage_after(pod, config, from + 1, pods);
    }
}

/// A lookup refreshes its cache at most once. A first lookup finds what is
/// cached and asks for a refresh of what is not. After the refresh,
/// whatever was listed, the lookup finds the record or reports that there
/// is none: it never asks for a second refresh.
pub proof fn lemma_lookup_refreshes_once<T>(
    cache: Map<Key, T>,
    listed: Map<Key, T>,
    key: Key,
)
    ensures
        lookup_of(cache, key, false) == if cache.contains_key(key) {
            Lookup::Found(cache[key])
        } else {
            Lookup::Refresh
        },
        lookup_of(listed, key, true) == if listed.contains_key(key) {
            Lookup::Found(listed[key])
        } else {
            Lookup::NotFound
        },
        !(lookup_of(listed, key, true) is Refresh),
{
}

/// Tearing down a pod that the cache does not know is a success without a
/// call: nothing is to be stopped or removed. In the terminated state the
/// pod's record is then deleted at once.
pub proof fn lemma_teardown_of_unknown_pod(
    pods: Map<Key, PodSandboxView>,
    items: Seq<PodSandboxView>,
    config: PodSandboxConfigView,
    pod: PodView,
)
    ensures
        !pods.contains_key((pod.namespace, pod.name)) ==> teardown_of(pods, pod).is_none(),
        !sandbox_map(items).contains_key((pod.namespace, pod.name)) ==> step(
            Stage::TermRefresh,
            pods,
            config,
            pod,
            EventView::Sandboxes(items),
        ).action == delete_pod(pod),
{
}

/// A refresh replaces the cache; it does not merge. After it the cache
/// holds a key exactly if the listing holds a sandbox with metadata of
/// that namespace and name, and what it holds under a key is such a
/// sandbox.
pub proof fn lemma_refresh_replaces(items: Seq<PodSandboxView>, key: Key)
    ensures
        sandbox_map(items).contains_key(key) <==> exists|i: int|
            0 <= i < items.len() && (#[trigger] items[i]).metadata.is_some() && (
                items[i].metadata.unwrap().namespace,
                items[i].metadata.unwrap().name,
            ) == key,
        sandbox_map(items).contains_key(key) ==> exists|i: int|
            0 <= i < items.len() && sandbox_map(items)[key] == #[trigger] items[i]
                && items[i].metadata.is_some() && (
                items[i].metadata.unwrap().namespace,
                items[i].metadata.unwrap().name,
            ) == key,
    decreases items.len(),
{
    if items.len() > 0 {
        let front = items.drop_last();
        lemma_refresh_replaces(front, key);
        let last = items.last();
        let hit = last.metadata.is_some() && (
            last.metadata.unwrap().namespace,
            last.metadata.unwrap().name,
        ) == key;
        if hit {
            assert(items[items.len() - 1] == last);
        } else if sandbox_map(front).contains_key(key) {
            let i = choose|i: int|
                0 <= i < front.len() && sandbox_map(front)[key] == #[trigger] front[i]
                    && front[i].metadata.is_some() && (
                    front[i].metadata.unwrap().namespace,
                    front[i].metadata.unwrap().name,
                ) == key;
            assert(items[i] == front[i]);
        }
        if sandbox_map(items).contains_key(key) {
        } else {
            assert forall|i: int| 0 <= i < items.len() && (#[trigger] items[i]).metadata.is_some()
                implies (items[i].metadata.unwrap().namespace, items[i].metadata.unwrap().name)
                != key by {
                if i < items.len() - 1 {
                    assert(front[i] == items[i]);
                }
            }
        }
    }
}

/// How many containers of `n` are left from container `i` on.
pub open spec fn left(n: nat, i: nat) -> nat {
    if i < n {
        (n - i) as nat
    } else {
        0
    }
}

/// How many more times the stage of a pod with `n` containers can change,
/// at most.
pub open spec fn steps_left(stage: Stage, n: nat) -> nat {
    match stage {
        Stage::Registered => 19 + 5 * n,
        Stage::PullConnect => 18 + 5 * n,
        Stage::PullQuery(i) => 17 + 3 * n + 2 * left(n, i),
        Stage::PullFetch(i) => 16 + 3 * n + 2 * left(n, i),
        Stage::StartRefresh => 15 + 3 * n,
        Stage::StartStopStale(_) => 14 + 3 * n,
        Stage::StartRemoveStale(_) => 13 + 3 * n,
        Stage::StartRun => 12 + 3 * n,
        Stage::StartStopFailed(_) => 11 + 3 * n,
        Stage::StartRemoveFailed(_) => 10 + 3 * n,
        Stage::StartRerun => 9 + 3 * n,
        Stage::StartLogDir(_, i) => 8 + 3 * left(n, i),
        Stage::StartCreate(_, i) => 7 + 3 * left(n, i),
        Stage::StartLaunch(_, i) => 6 + 3 * left(n, i),
        Stage::Running => 5,
        Stage::TermRefresh => 4,
        Stage::TermStop(_) => 3,
        Stage::TermRemove(_) => 2,
        Stage::TermDelete => 1,
        Stage::TermDone => 0,
        Stage::Error(_) => 0,
    }
}

/// How often the stage changes in the first `n` steps of a run.
pub open spec fn stage_changes(
    start: Point,
    config: PodSandboxConfigView,
    pod: PodView,
    events: Seq<EventView>,
    n: nat,
) -> nat
    decreases n,
{
    if n == 0 {
        0
    } else {
        let earlier = stage_changes(start, config, pod, events, (n - 1) as nat);
        if after(start, config, pod, events, n).stage != after(
            start,
            config,
            pod,
            events,
            (n - 1) as nat,
        ).stage {
            earlier + 1
        } else {
            earlier
        }
    }
}

proof fn lemma_pull_from_steps_left(
    pod: PodView,
    config: PodSandboxConfigView,
    from: nat,
    pods: Map<Key, PodSandboxView>,
)
    ensures
        steps_left(pull_from(pod, config, from, pods).stage, pod.containers.len()) <= 17 + 3
            * pod.containers.len() + 2 * left(pod.containers.len(), from),
    decreases pod.containers.len() - from,
{
    if from < pod.containers.len() {
        lemma_pull_from_steps_left(pod, config, from + 1, pods);
        lemma_pull_stage_after(pod, config, from + 1, pods);
    }
}

/// Every step that changes the stage brings the end nearer: a pod waits
/// only while it runs, and nothing is tried without end.
pub proof fn lemma_step_progress(
    stage: Stage,
    pods: Map<Key, PodSandboxView>,
    config: PodSandboxConfigView,
    pod: PodView,
    event: EventView,
)
    ensures
        ({
            let o = step(stage, pods, config, pod, event);
            let n = pod.containers.len();
            if o.stage == stage {
                stage == Stage::Running || stage == Stage::TermDone || stage is Error
            } else {
                steps_left(o.stage, n) < steps_left(stage, n)
            }
        }),
{
    match stage {
        Stage::PullConnect => {
            lemma_pull_from_steps_left(pod, config, 0, pods);
        },
        Stage::PullQuery(i) => {
            lemma_pull_from_steps_left(pod, config, i + 1, pods);
        },
        Stage::PullFetch(i) => {
            lemma_pull_from_steps_left(pod, config, i + 1, pods);
        },
        _ => {},
    }
}

/// No run works without end. The stage of a pod with `n` containers
/// changes at most `19 + 5 * n` times from registration to the end of its
/// lifecycle, however the calls turn out.
pub proof fn lemma_bounded_work(
    start: Point,
    config: PodSandboxConfigView,
    pod: PodView,
    events: Seq<EventView>,
    n: nat,
)
    requires
        n <= events.len(),
    ensures
        stage_changes(start, config, pod, events, n) + steps_left(
            after(start, config, pod, events, n).stage,
            pod.containers.len(),
        ) <= steps_left(start.stage, pod.containers.len()),
        stage_changes(start, config, pod, events, n) <= 19 + 5 * pod.containers.len(),
    decreases n,
{
    if n > 0 {
        let m = (n - 1) as nat;
        lemma_bounded_work(start, config, pod, events, m);
        let before = after(start, config, pod, events, m);
        lemma_step_progress(before.stage, before.pods, config, pod, events[m as int]);
    }
}

/// A refresh of the container cache replaces it too. After it the cache
/// holds a key exactly if the listing holds a container with metadata of
/// that sandbox and name.
pub proof fn lemma_container_refresh_replaces(items: Seq<ContainerView>, key: Key)
    ensures
        container_map(items).contains_key(key) <==> exists|i: int|
            0 <= i < items.len() && (#[trigger] items[i]).metadata.is_some() && (
                items[i].pod_sandbox_id,
                items[i].metadata.unwrap().name,
            ) == key,
    decreases items.len(),
{
    if items.len() > 0 {
        let front = items.drop_last();
        lemma_container_refresh_replaces(front, key);
        let last = items.last();
        let hit = last.metadata.is_some() && (last.pod_sandbox_id, last.metadata.unwrap().name)
            == key;
        if hit {
            assert(items[items.len() - 1] == last);
        } else if container_map(front).contains_key(key) {
            let i = choose|i: int|
                0 <= i < front.len() && (#[trigger] front[i]).metadata.is_some() && (
                    front[i].pod_sandbox_id,
                    front[i].metadata.unwrap().name,
                ) == key;
            assert(items[i] == front[i]);
        }
        if !container_map(items).contains_key(key) {
            assert forall|i: int| 0 <= i < items.len() && (#[trigger] items[i]).metadata.is_some()
                implies (items[i].pod_sandbox_id, items[i].metadata.unwrap().name) != key by {
                if i < items.len() - 1 {
                    assert(front[i] == items[i]);
                }
            }
        }
    }
}

} // verus!
