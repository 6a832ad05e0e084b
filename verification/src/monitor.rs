//! The pod health monitor as a state machine: each answer of the cluster is an
//! event, each request to the cluster an action. The caller performs the action
//! and hands back what came of it.

use vstd::prelude::*;
use vstd::string::*;
use crate::config::Krunch;
use crate::health::{is_healthy, Pod};

verus! {

/// One item of the watch stream.
#[derive(Clone, Debug, PartialEq, Eq)]
pub enum WatchEvent {
    Added(Pod),
    Modified(Pod),
    Deleted(Pod),
    /// A bookmark or an error record: it carries no pod.
    Other,
}

/// Why waiting for the pod failed.
#[derive(Clone, Debug, PartialEq, Eq)]
pub enum WaitError {
    /// The watch ended before a healthy pod was seen.
    Timeout,
    /// A request to the cluster failed; the text is the client's.
    Client(String),
    /// An event arrived that answers no request of the monitor.
    OutOfTurn,
}

/// Where the wait for the pod stands.
#[derive(Clone, Debug, PartialEq, Eq)]
pub enum MonitorState {
    /// The pods that carry the label have been asked for.
    Resolving,
    /// The resolved pod has been asked for.
    Fetching,
    /// The watch has been asked for.
    Opening,
    /// The next item of the watch stream has been asked for.
    Watching,
    /// A healthy pod was seen.
    Succeeded,
    /// Waiting failed.
    Failed(WaitError),
}

/// What the cluster answered to the last action.
#[derive(Clone, Debug, PartialEq, Eq)]
pub enum MonitorEvent {
    Listed(Vec<Pod>),
    Fetched(Pod),
    WatchOpened,
    Watch(WatchEvent),
    StreamEnded,
    ClientFailed(String),
}

/// What the caller has to do next.
#[derive(Clone, Debug, PartialEq, Eq)]
pub enum MonitorAction {
    /// List the pods that carry the label.
    ListPods,
    /// Fetch the pod of this name.
    GetPod(String),
    /// Open the bounded watch.
    OpenWatch,
    /// Take the next item of the watch stream.
    NextEvent,
    /// Nothing: the monitor has finished.
    Stop,
}

/// What is shown to the operator where waiting failed.
pub open spec fn wait_error_text(e: WaitError) -> Seq<char> {
    match e {
        WaitError::Timeout => "timeout waiting for pod to be ready"@,
        WaitError::Client(reason) => reason@,
        WaitError::OutOfTurn => "unexpected answer from the cluster"@,
    }
}

impl WaitError {
    /// What is shown to the operator.
    pub fn message(&self) -> (s: String)
        ensures
            s@ == wait_error_text(*self),
    {
        match self {
            WaitError::Timeout => String::from_str("timeout waiting for pod to be ready"),
            WaitError::Client(reason) => reason.clone(),
            WaitError::OutOfTurn => String::from_str("unexpected answer from the cluster"),
        }
    }
}

/// The pod that a listing resolves to: the name of its first entry.
pub open spec fn resolved_name(pods: Seq<Pod>) -> Option<String> {
    if pods.len() == 0 {
        None
    } else {
        pods[0].name
    }
}

/// Whether a watch item shows a healthy pod: only additions and modifications
/// are looked at.
pub open spec fn shows_healthy(e: WatchEvent) -> bool {
    match e {
        WatchEvent::Added(p) => is_healthy(p),
        WatchEvent::Modified(p) => is_healthy(p),
        _ => false,
    }
}

/// The transition relation of the monitor.
pub open spec fn monitor_next(state: MonitorState, event: MonitorEvent) -> (
    MonitorState,
    MonitorAction,
) {
    match (state, event) {
        (MonitorState::Succeeded, _) => (MonitorState::Succeeded, MonitorAction::Stop),
        (MonitorState::Failed(e), _) => (MonitorState::Failed(e), MonitorAction::Stop),
        (_, MonitorEvent::ClientFailed(reason)) => (
            MonitorState::Failed(WaitError::Client(reason)),
            MonitorAction::Stop,
        ),
        (MonitorState::Resolving, MonitorEvent::Listed(pods)) => match resolved_name(pods@) {
            Some(name) => (MonitorState::Fetching, MonitorAction::GetPod(name)),
            None => (MonitorState::Opening, MonitorAction::OpenWatch),
        },
        (MonitorState::Fetching, MonitorEvent::Fetched(pod)) => if is_healthy(pod) {
            (MonitorState::Succeeded, MonitorAction::Stop)
        } else {
            (MonitorState::Opening, MonitorAction::OpenWatch)
        },
        (MonitorState::Opening, MonitorEvent::WatchOpened) => (
            MonitorState::Watching,
            MonitorAction::NextEvent,
        ),
        (MonitorState::Watching, MonitorEvent::Watch(e)) => if shows_healthy(e) {
            (MonitorState::Succeeded, MonitorAction::Stop)
        } else {
            (MonitorState::Watching, MonitorAction::NextEvent)
        },
        (MonitorState::Watching, MonitorEvent::StreamEnded) => (
            MonitorState::Failed(WaitError::Timeout),
            MonitorAction::Stop,
        ),
        _ => (MonitorState::Failed(WaitError::OutOfTurn), MonitorAction::Stop),
    }
}

/// The monitor's first state and first action.
pub fn monitor_start() -> (r: (MonitorState, MonitorAction))
    ensures
        r == (MonitorState::Resolving, MonitorAction::ListPods),
{
    (MonitorState::Resolving, MonitorAction::ListPods)
}

/// The name of the pod that a listing resolves to.
pub fn resolve_pod(pods: &Vec<Pod>) -> (r: Option<String>)
    ensures
        r == resolved_name(pods@),
{
    if pods.len() == 0 {
        None
    } else {
        match &pods[0].name {
            Some(name) => Some(name.clone()),
            None => None,
        }
    }
}

/// Whether a watch item shows a healthy pod.
pub fn event_shows_healthy(e: &WatchEvent) -> (r: bool)
    ensures
        r == shows_healthy(*e),
{
    match e {
        WatchEvent::Added(p) => Krunch::is_pod_healthy(p),
        WatchEvent::Modified(p) => Krunch::is_pod_healthy(p),
        _ => false,
    }
}

/// One step of the monitor: the state after `event`, and what to do next.
pub fn monitor_step(state: MonitorState, event: &MonitorEvent) -> (r: (
    MonitorState,
    MonitorAction,
))
    ensures
        r == monitor_next(state, *event),
{
    match state {
        MonitorState::Succeeded => (MonitorState::Succeeded, MonitorAction::Stop),
        MonitorState::Failed(e) => (MonitorState::Failed(e), MonitorAction::Stop),
        MonitorState::Resolving => match event {
            MonitorEvent::ClientFailed(reason) => failed(reason),
            MonitorEvent::Listed(pods) => match resolve_pod(pods) {
                Some(name) => (MonitorState::Fetching, MonitorAction::GetPod(name)),
                None => (MonitorState::Opening, MonitorAction::OpenWatch),
            },
            _ => out_of_turn(),
        },
        MonitorState::Fetching => match event {
            MonitorEvent::ClientFailed(reason) => failed(reason),
            MonitorEvent::Fetched(pod) => if Krunch::is_pod_healthy(pod) {
                (MonitorState::Succeeded, MonitorAction::Stop)
            } else {
                (MonitorState::Opening, MonitorAction::OpenWatch)
            },
            _ => out_of_turn(),
        },
        MonitorState::Opening => match event {
            MonitorEvent::ClientFailed(reason) => failed(reason),
            MonitorEvent::WatchOpened => (MonitorState::Watching, MonitorAction::NextEvent),
            _ => out_of_turn(),
        },
        MonitorState::Watching => match event {
            MonitorEvent::ClientFailed(reason) => failed(reason),
            MonitorEvent::Watch(e) => if event_shows_healthy(e) {
                (MonitorState::Succeeded, MonitorAction::Stop)
            } else {
                (MonitorState::Watching, MonitorAction::NextEvent)
            },
            MonitorEvent::StreamEnded => (
                MonitorState::Failed(WaitError::Timeout),
                MonitorAction::Stop,
            ),
            _ => out_of_turn(),
        },
    }
}

fn failed(reason: &String) -> (r: (MonitorState, MonitorAction))
    ensures
        r == (MonitorState::Failed(WaitError::Client(*reason)), MonitorAction::Stop),
{
    (MonitorState::Failed(WaitError::Client(reason.clone())), MonitorAction::Stop)
}

fn out_of_turn() -> (r: (MonitorState, MonitorAction))
    ensures
        r == (MonitorState::Failed(WaitError::OutOfTurn), MonitorAction::Stop),
{
    (MonitorState::Failed(WaitError::OutOfTurn), MonitorAction::Stop)
}

/// The state of the monitor after it was fed `events` in order, from `state`.
pub open spec fn monitor_run(state: MonitorState, events: Seq<MonitorEvent>) -> MonitorState
    decreases events.len(),
{
    if events.len() == 0 {
        state
    } else {
        monitor_next(monitor_run(state, events.drop_last()), events.last()).0
    }
}

/// The action that the monitor asks for in answer to event `i` of `events`.
pub open spec fn monitor_action_at(
    state: MonitorState,
    events: Seq<MonitorEvent>,
    i: int,
) -> MonitorAction {
    monitor_next(monitor_run(state, events.take(i)), events[i]).1
}

/// Whether the monitor has finished.
pub open spec fn is_final(state: MonitorState) -> bool {
    state is Succeeded || state is Failed
}

impl Krunch {
    /// Waits for the pod over a scripted sequence of answers of the cluster.
    /// Returns the state reached and every action asked for: the first one, then
    /// one for each answer.
    pub fn wait_for_pod_to_be_healthy(events: &Vec<MonitorEvent>) -> (r: (
        MonitorState,
        Vec<MonitorAction>,
    ))
        ensures
            r.0 == monitor_run(MonitorState::Resolving, events@),
            r.1@.len() == events@.len() + 1,
            r.1@[0] == MonitorAction::ListPods,
            forall|i: int|
                0 <= i < events@.len() ==> #[trigger] r.1@[i + 1] == monitor_action_at(
                    MonitorState::Resolving,
                    events@,
                    i,
                ),
    {
        let (mut state, first) = monitor_start();
        let mut actions: Vec<MonitorAction> = Vec::new();
        actions.push(first);
        let mut i: usize = 0;
        while i < events.len()
            invariant
                i <= events.len(),
                state == monitor_run(MonitorState::Resolving, events@.take(i as int)),
                actions@.len() == i + 1,
                actions@[0] == MonitorAction::ListPods,
                forall|j: int|
                    0 <= j < i ==> #[trigger] actions@[j + 1] == monitor_action_at(
                        MonitorState::Resolving,
                        events@,
                        j,
                    ),
            decreases events.len() - i,
        {
            proof {
                let next = events@.take(i + 1);
                assert(next.drop_last() == events@.take(i as int));
            }
            let (s, a) = monitor_step(state, &events[i]);
            state = s;
            actions.push(a);
            i = i + 1;
        }
        proof {
            assert(events@.take(i as int) == events@);
        }
        (state, actions)
    }
}

/// Once the monitor has finished it stays where it is and asks for nothing.
pub proof fn lemma_final_state_is_kept(state: MonitorState, events: Seq<MonitorEvent>)
    requires
        is_final(state),
    ensures
        monitor_run(state, events) == state,
        forall|i: int|
            0 <= i < events.len() ==> #[trigger] monitor_action_at(state, events, i)
                == MonitorAction::Stop,
    decreases events.len(),
{
    if events.len() > 0 {
        lemma_final_state_is_kept(state, events.drop_last());
        assert forall|i: int| 0 <= i < events.len() implies #[trigger] monitor_action_at(
            state,
            events,
            i,
        ) == MonitorAction::Stop by {
            lemma_final_state_is_kept(state, events.take(i));
        }
    }
}

/// Feeding two sequences one after the other is feeding their concatenation.
pub proof fn lemma_run_concat(state: MonitorState, a: Seq<MonitorEvent>, b: Seq<MonitorEvent>)
    ensures
        monitor_run(state, a + b) == monitor_run(monitor_run(state, a), b),
    decreases b.len(),
{
    if b.len() == 0 {
        assert(a + b == a);
    } else {
        lemma_run_concat(state, a, b.drop_last());
        assert((a + b).drop_last() == a + b.drop_last());
        assert((a + b).last() == b.last());
    }
}

/// When the first lookup finds the pod healthy, the monitor succeeds at once and
/// never asks for a watch, whatever is fed to it afterwards.
pub proof fn lemma_healthy_lookup_opens_no_watch(
    pods: Vec<Pod>,
    pod: Pod,
    events: Seq<MonitorEvent>,
    i: int,
)
    requires
        events.len() >= 2,
        events[0] == MonitorEvent::Listed(pods),
        resolved_name(pods@) is Some,
        events[1] == MonitorEvent::Fetched(pod),
        is_healthy(pod),
        0 <= i < events.len(),
    ensures
        monitor_run(MonitorState::Resolving, events) == MonitorState::Succeeded,
        monitor_action_at(MonitorState::Resolving, events, i) != MonitorAction::OpenWatch,
        monitor_action_at(MonitorState::Resolving, events, i) != MonitorAction::NextEvent,
{
    let start = MonitorState::Resolving;
    let head = events.take(2);
    assert(head.drop_last() == seq![events[0]]);
    assert(seq![events[0]].drop_last() == Seq::<MonitorEvent>::empty());
    assert(monitor_run(start, Seq::<MonitorEvent>::empty()) == start);
    assert(monitor_run(start, seq![events[0]]) == MonitorState::Fetching);
    assert(monitor_run(start, head) == MonitorState::Succeeded);
    let rest = events.skip(2);
    assert(events == head + rest);
    lemma_run_concat(start, head, rest);
    lemma_final_state_is_kept(MonitorState::Succeeded, rest);
    if i == 0 {
        assert(events.take(0) == Seq::<MonitorEvent>::empty());
    } else if i == 1 {
        assert(events.take(1) == seq![events[0]]);
    } else {
        let before = rest.take(i - 2);
        assert(events.take(i) == head + before);
        lemma_run_concat(start, head, before);
        lemma_final_state_is_kept(MonitorState::Succeeded, before);
    }
}

/// The watch stream as the monitor sees it: one event for each item, then the
/// end of the stream.
pub open spec fn whole_stream(items: Seq<WatchEvent>) -> Seq<MonitorEvent> {
    Seq::new(items.len(), |i: int| MonitorEvent::Watch(items[i])).push(MonitorEvent::StreamEnded)
}

/// A watch that ends without an item that shows a healthy pod makes the monitor
/// fail with a timeout: it does not go on waiting.
pub proof fn lemma_watch_without_healthy_times_out(items: Seq<WatchEvent>)
    requires
        forall|i: int| 0 <= i < items.len() ==> !shows_healthy(#[trigger] items[i]),
    ensures
        monitor_run(MonitorState::Watching, whole_stream(items)) == MonitorState::Failed(
            WaitError::Timeout,
        ),
{
    let watched = Seq::new(items.len(), |i: int| MonitorEvent::Watch(items[i]));
    lemma_unhealthy_items_keep_watching(items);
    assert(whole_stream(items).drop_last() == watched);
}

/// While no item shows a healthy pod the monitor keeps watching.
proof fn lemma_unhealthy_items_keep_watching(items: Seq<WatchEvent>)
    requires
        forall|i: int| 0 <= i < items.len() ==> !shows_healthy(#[trigger] items[i]),
    ensures
        monitor_run(
            MonitorState::Watching,
            Seq::new(items.len(), |i: int| MonitorEvent::Watch(items[i])),
        ) == MonitorState::Watching,
    decreases items.len(),
{
    let watched = Seq::new(items.len(), |i: int| MonitorEvent::Watch(items[i]));
    if items.len() > 0 {
        let fewer = items.drop_last();
        lemma_unhealthy_items_keep_watching(fewer);
        assert(watched.drop_last() == Seq::new(fewer.len(), |i: int| MonitorEvent::Watch(fewer[i])));
        assert(watched.last() == MonitorEvent::Watch(items.last()));
    }
}

/// The first item that shows a healthy pod makes the monitor succeed.
pub proof fn lemma_healthy_item_succeeds(items: Seq<WatchEvent>, k: int)
    requires
        0 <= k < items.len(),
        shows_healthy(items[k]),
    ensures
        monitor_run(MonitorState::Watching, whole_stream(items)) == MonitorState::Succeeded,
{
    let stream = whole_stream(items);
    let first = lemma_first_healthy_item(items, k);
    let before = items.take(first);
    let head = Seq::new(before.len(), |i: int| MonitorEvent::Watch(before[i]));
    lemma_unhealthy_items_keep_watching(before);
    let upto = head.push(MonitorEvent::Watch(items[first]));
    assert(upto.drop_last() == head);
    assert(monitor_run(MonitorState::Watching, upto) == MonitorState::Succeeded);
    let rest = stream.skip(first + 1);
    assert(stream == upto + rest);
    lemma_run_concat(MonitorState::Watching, upto, rest);
    lemma_final_state_is_kept(MonitorState::Succeeded, rest);
}

/// The index of the first item that shows a healthy pod, given that item `k` does.
proof fn lemma_first_healthy_item(items: Seq<WatchEvent>, k: int) -> (first: int)
    requires
        0 <= k < items.len(),
        shows_healthy(items[k]),
    ensures
        0 <= first <= k,
        shows_healthy(items[first]),
        forall|j: int| 0 <= j < first ==> !shows_healthy(#[trigger] items[j]),
    decreases k,
{
    if exists|j: int| 0 <= j < k && shows_healthy(items[j]) {
        let j = choose|j: int| 0 <= j < k && shows_healthy(items[j]);
        lemma_first_healthy_item(items, j)
    } else {
        k
    }
}

/// What the cluster answers before the watch delivers: the listing, the pod where
/// the listing resolves to one, and that the watch is open.
pub open spec fn before_watch(pods: Vec<Pod>, pod: Pod) -> Seq<MonitorEvent> {
    if resolved_name(pods@) is Some {
        seq![MonitorEvent::Listed(pods), MonitorEvent::Fetched(pod), MonitorEvent::WatchOpened]
    } else {
        seq![MonitorEvent::Listed(pods), MonitorEvent::WatchOpened]
    }
}

/// Some item of the watch shows a healthy pod.
pub open spec fn some_item_healthy(items: Seq<WatchEvent>) -> bool {
    exists|k: int| 0 <= k < items.len() && shows_healthy(#[trigger] items[k])
}

/// Where the first lookup finds no healthy pod, the wait succeeds exactly when
/// some addition or modification on the watch shows a healthy pod, and fails
/// with a timeout when the watch ends without one.
pub proof fn lemma_slow_path_outcome(pods: Vec<Pod>, pod: Pod, items: Seq<WatchEvent>)
    requires
        resolved_name(pods@) is Some ==> !is_healthy(pod),
    ensures
        monitor_run(MonitorState::Resolving, before_watch(pods, pod) + whole_stream(items)) == if some_item_healthy(
            items,
        ) {
            MonitorState::Succeeded
        } else {
            MonitorState::Failed(WaitError::Timeout)
        },
{
    let start = MonitorState::Resolving;
    let head = before_watch(pods, pod);
    let none = Seq::<MonitorEvent>::empty();
    assert(monitor_run(start, none) == start);
    let listed = seq![MonitorEvent::Listed(pods)];
    assert(listed.drop_last() == none);
    assert(listed.last() == MonitorEvent::Listed(pods));
    if resolved_name(pods@) is Some {
        assert(monitor_run(start, listed) == MonitorState::Fetching);
        let fetched = listed.push(MonitorEvent::Fetched(pod));
        assert(fetched.drop_last() == listed);
        assert(fetched.last() == MonitorEvent::Fetched(pod));
        assert(monitor_run(start, fetched) == MonitorState::Opening);
        assert(head.drop_last() == fetched);
    } else {
        assert(monitor_run(start, listed) == MonitorState::Opening);
        assert(head.drop_last() == listed);
    }
    assert(head.last() == MonitorEvent::WatchOpened);
    assert(monitor_run(start, head) == MonitorState::Watching);
    lemma_run_concat(start, head, whole_stream(items));
    if some_item_healthy(items) {
        let k = choose|k: int| 0 <= k < items.len() && shows_healthy(#[trigger] items[k]);
        lemma_healthy_item_succeeds(items, k);
    } else {
        lemma_watch_without_healthy_times_out(items);
    }
}

} // verus!
