//! The bootstrap as a fixed sequence of steps. The caller announces a step, runs
//! it, and hands back what came of it; the orchestrator says what to show and
//! which step is next.

use vstd::prelude::*;
use vstd::string::*;
use crate::cluster::{after_create, creatable, holds, key_of, ObjectKey};
use crate::config::{ClusterConfig, Krunch};
use crate::monitor::WaitError;
use crate::resource::{
    is_cluster_role_binding_spec, is_deployment_spec, is_namespace_spec, is_service_account_spec,
    outcome_of, CreateReply, CreationOutcome, ResourceKind, ResourceSpec,
};

verus! {

/// The steps of the bootstrap, in the order in which they run.
#[derive(Clone, Copy, Debug, PartialEq, Eq, Structural)]
pub enum Step {
    Namespace,
    ServiceAccount,
    ClusterRoleBinding,
    Deployment,
    PodHealthWait,
    DownloadTools,
    AddToPath,
    PointDockerAtCluster,
    EnableIngress,
    InstallTls,
}

/// What came of the step that was run.
#[derive(Clone, Debug, PartialEq, Eq)]
pub enum StepEvent {
    /// The cluster's answer to the request of a step that creates an object.
    Created(CreateReply),
    /// The pod was seen healthy.
    PodHealthy,
    /// Waiting for the pod failed.
    WaitFailed(WaitError),
    /// A step outside the cluster did its work.
    Succeeded,
    /// A step outside the cluster found its work done already.
    AlreadyDone,
    /// A step outside the cluster failed.
    Failed(String),
}

/// What is shown to the operator once a step has run.
#[derive(Clone, Debug, PartialEq, Eq)]
pub enum Report {
    Done,
    AlreadyExists,
    /// The step failed; the text is the reason.
    Failed(String),
    /// The pod did not get healthy in time.
    TimedOut,
    /// The event does not belong to the step that was run.
    OutOfTurn,
}

/// Where the bootstrap stands.
#[derive(Clone, Copy, Debug, PartialEq, Eq, Structural)]
pub enum BootstrapState {
    /// This step has been asked for.
    Running(Step),
    /// Every step has run.
    Finished,
    /// The run was given up.
    Aborted,
}

/// What the caller has to do next.
#[derive(Clone, Copy, Debug, PartialEq, Eq, Structural)]
pub enum BootstrapAction {
    /// Announce this step, then run it.
    Run(Step),
    /// Nothing: the bootstrap is over.
    Stop,
}

/// The number of steps.
pub open spec fn step_count() -> nat {
    10
}

/// The place of a step in the sequence.
pub open spec fn step_index(s: Step) -> nat {
    match s {
        Step::Namespace => 0,
        Step::ServiceAccount => 1,
        Step::ClusterRoleBinding => 2,
        Step::Deployment => 3,
        Step::PodHealthWait => 4,
        Step::DownloadTools => 5,
        Step::AddToPath => 6,
        Step::PointDockerAtCluster => 7,
        Step::EnableIngress => 8,
        Step::InstallTls => 9,
    }
}

/// The step that follows `s`, if `s` is not the last one.
pub open spec fn step_after(s: Step) -> Option<Step> {
    match s {
        Step::Namespace => Some(Step::ServiceAccount),
        Step::ServiceAccount => Some(Step::ClusterRoleBinding),
        Step::ClusterRoleBinding => Some(Step::Deployment),
        Step::Deployment => Some(Step::PodHealthWait),
        Step::PodHealthWait => Some(Step::DownloadTools),
        Step::DownloadTools => Some(Step::AddToPath),
        Step::AddToPath => Some(Step::PointDockerAtCluster),
        Step::PointDockerAtCluster => Some(Step::EnableIngress),
        Step::EnableIngress => Some(Step::InstallTls),
        Step::InstallTls => None,
    }
}

/// Whether the step creates an object in the cluster.
pub open spec fn creates_object(s: Step) -> bool {
    s is Namespace || s is ServiceAccount || s is ClusterRoleBinding || s is Deployment
}

/// The text that announces a step.
pub open spec fn step_label(s: Step) -> Seq<char> {
    match s {
        Step::Namespace => "creating namespace"@,
        Step::ServiceAccount => "creating service account"@,
        Step::ClusterRoleBinding => "creating cluster role binding"@,
        Step::Deployment => "creating deployment"@,
        Step::PodHealthWait => "verifying pod is healthy"@,
        Step::DownloadTools => "downloading tools"@,
        Step::AddToPath => "adding tools to PATH"@,
        Step::PointDockerAtCluster => "point docker cli to minikube"@,
        Step::EnableIngress => "enabling ingress addon"@,
        Step::InstallTls => "creating CA and TLS secret"@,
    }
}

/// Whether `event` is an answer to step `s`.
pub open spec fn answers_step(s: Step, event: StepEvent) -> bool {
    if creates_object(s) {
        event is Created
    } else if s is PodHealthWait {
        event is PodHealthy || event is WaitFailed
    } else {
        event is Succeeded || event is AlreadyDone || event is Failed
    }
}

/// What is shown for an event that answers the step.
pub open spec fn report_of(event: StepEvent) -> Report {
    match event {
        StepEvent::Created(reply) => match outcome_of(reply) {
            CreationOutcome::Created => Report::Done,
            CreationOutcome::AlreadyExists => Report::AlreadyExists,
            CreationOutcome::Failed(reason) => Report::Failed(reason),
        },
        StepEvent::PodHealthy => Report::Done,
        StepEvent::WaitFailed(WaitError::Timeout) => Report::TimedOut,
        StepEvent::WaitFailed(WaitError::Client(reason)) => Report::Failed(reason),
        StepEvent::WaitFailed(WaitError::OutOfTurn) => Report::OutOfTurn,
        StepEvent::Succeeded => Report::Done,
        StepEvent::AlreadyDone => Report::AlreadyExists,
        StepEvent::Failed(reason) => Report::Failed(reason),
    }
}

/// Whether the run ends with this event: only a failed wait for the pod, or an
/// event that answers another step, ends it.
pub open spec fn is_fatal(s: Step, event: StepEvent) -> bool {
    !answers_step(s, event) || event is WaitFailed
}

/// The state and the action after the step `s` has been answered by an event
/// that does not end the run.
pub open spec fn advance(s: Step) -> (BootstrapState, BootstrapAction) {
    match step_after(s) {
        Some(next) => (BootstrapState::Running(next), BootstrapAction::Run(next)),
        None => (BootstrapState::Finished, BootstrapAction::Stop),
    }
}

/// The transition relation of the bootstrap: the next state, what to show, if
/// anything, and what to do.
pub open spec fn bootstrap_next(state: BootstrapState, event: StepEvent) -> (
    BootstrapState,
    Option<Report>,
    BootstrapAction,
) {
    match state {
        BootstrapState::Running(s) => if !answers_step(s, event) {
            (BootstrapState::Aborted, Some(Report::OutOfTurn), BootstrapAction::Stop)
        } else if event is WaitFailed {
            (BootstrapState::Aborted, Some(report_of(event)), BootstrapAction::Stop)
        } else {
            (advance(s).0, Some(report_of(event)), advance(s).1)
        },
        _ => (state, None, BootstrapAction::Stop),
    }
}

impl Step {
    /// The step that follows this one.
    pub fn next(self) -> (r: Option<Step>)
        ensures
            r == step_after(self),
            r matches Some(n) ==> step_index(n) == step_index(self) + 1,
            r is None <==> step_index(self) + 1 == step_count(),
    {
        match self {
            Step::Namespace => Some(Step::ServiceAccount),
            Step::ServiceAccount => Some(Step::ClusterRoleBinding),
            Step::ClusterRoleBinding => Some(Step::Deployment),
            Step::Deployment => Some(Step::PodHealthWait),
            Step::PodHealthWait => Some(Step::DownloadTools),
            Step::DownloadTools => Some(Step::AddToPath),
            Step::AddToPath => Some(Step::PointDockerAtCluster),
            Step::PointDockerAtCluster => Some(Step::EnableIngress),
            Step::EnableIngress => Some(Step::InstallTls),
            Step::InstallTls => None,
        }
    }

    /// The text that announces the step.
    pub fn label(self) -> (s: String)
        ensures
            s@ == step_label(self),
    {
        match self {
            Step::Namespace => String::from_str("creating namespace"),
            Step::ServiceAccount => String::from_str("creating service account"),
            Step::ClusterRoleBinding => String::from_str("creating cluster role binding"),
            Step::Deployment => String::from_str("creating deployment"),
            Step::PodHealthWait => String::from_str("verifying pod is healthy"),
            Step::DownloadTools => String::from_str("downloading tools"),
            Step::AddToPath => String::from_str("adding tools to PATH"),
            Step::PointDockerAtCluster => String::from_str("point docker cli to minikube"),
            Step::EnableIngress => String::from_str("enabling ingress addon"),
            Step::InstallTls => String::from_str("creating CA and TLS secret"),
        }
    }
}

/// What is shown for a report.
pub open spec fn report_text(r: Report) -> Seq<char> {
    match r {
        Report::Done => "done"@,
        Report::AlreadyExists => "already exists"@,
        Report::Failed(reason) => "failure: "@ + reason@,
        Report::TimedOut => "timeout waiting for pod to be ready"@,
        Report::OutOfTurn => "failure: unexpected answer"@,
    }
}

impl Report {
    /// The text that is shown to the operator.
    pub fn message(&self) -> (s: String)
        ensures
            s@ == report_text(*self),
    {
        match self {
            Report::Done => String::from_str("done"),
            Report::AlreadyExists => String::from_str("already exists"),
            Report::Failed(reason) => String::from_str("failure: ").concat(reason.as_str()),
            Report::TimedOut => String::from_str("timeout waiting for pod to be ready"),
            Report::OutOfTurn => String::from_str("failure: unexpected answer"),
        }
    }
}

impl Krunch {
    /// The object that a step creates; `None` for a step that creates none.
    pub fn resource_for(&self, step: Step) -> (r: Option<ResourceSpec>)
        ensures
            r is Some <==> creates_object(step),
            step is Namespace ==> r is Some && is_namespace_spec(r->0, self.config),
            step is ServiceAccount ==> r is Some && is_service_account_spec(r->0, self.config),
            step is ClusterRoleBinding ==> r is Some && is_cluster_role_binding_spec(
                r->0,
                self.config,
            ),
            step is Deployment ==> r is Some && is_deployment_spec(r->0, self.config),
    {
        match step {
            Step::Namespace => Some(self.create_namespace()),
            Step::ServiceAccount => Some(self.create_service_account()),
            Step::ClusterRoleBinding => Some(self.create_cluster_role_binding()),
            Step::Deployment => Some(self.create_deployment()),
            _ => None,
        }
    }

    /// The first state of the bootstrap and its first action.
    pub fn init() -> (r: (BootstrapState, BootstrapAction))
        ensures
            r == (BootstrapState::Running(Step::Namespace), BootstrapAction::Run(Step::Namespace)),
    {
        (BootstrapState::Running(Step::Namespace), BootstrapAction::Run(Step::Namespace))
    }

    /// One step of the bootstrap: `event` is what came of the step that was
    /// asked for. A step that fails is reported and the run goes on; only a
    /// failed wait for the pod ends it.
    pub fn init_step(state: BootstrapState, event: StepEvent) -> (r: (
        BootstrapState,
        Option<Report>,
        BootstrapAction,
    ))
        ensures
            r == bootstrap_next(state, event),
    {
        let step = match state {
            BootstrapState::Running(step) => step,
            _ => {
                return (state, None, BootstrapAction::Stop);
            },
        };
        let creates = match step {
            Step::Namespace | Step::ServiceAccount | Step::ClusterRoleBinding | Step::Deployment => true,
            _ => false,
        };
        let waits = match step {
            Step::PodHealthWait => true,
            _ => false,
        };
        let report = match event {
            StepEvent::Created(reply) => {
                if !creates {
                    return (BootstrapState::Aborted, Some(Report::OutOfTurn), BootstrapAction::Stop);
                }
                match Krunch::handle_resource_creation_result(reply) {
                    CreationOutcome::Created => Report::Done,
                    CreationOutcome::AlreadyExists => Report::AlreadyExists,
                    CreationOutcome::Failed(reason) => Report::Failed(reason),
                }
            },
            StepEvent::PodHealthy => {
                if !waits {
                    return (BootstrapState::Aborted, Some(Report::OutOfTurn), BootstrapAction::Stop);
                }
                Report::Done
            },
            StepEvent::WaitFailed(e) => {
                if !waits {
                    return (BootstrapState::Aborted, Some(Report::OutOfTurn), BootstrapAction::Stop);
                }
                let report = match e {
                    WaitError::Timeout => Report::TimedOut,
                    WaitError::Client(reason) => Report::Failed(reason),
                    WaitError::OutOfTurn => Report::OutOfTurn,
                };
                return (BootstrapState::Aborted, Some(report), BootstrapAction::Stop);
            },
            StepEvent::Succeeded => {
                if creates || waits {
                    return (BootstrapState::Aborted, Some(Report::OutOfTurn), BootstrapAction::Stop);
                }
                Report::Done
            },
            StepEvent::AlreadyDone => {
                if creates || waits {
                    return (BootstrapState::Aborted, Some(Report::OutOfTurn), BootstrapAction::Stop);
                }
                Report::AlreadyExists
            },
            StepEvent::Failed(reason) => {
                if creates || waits {
                    return (BootstrapState::Aborted, Some(Report::OutOfTurn), BootstrapAction::Stop);
                }
                Report::Failed(reason)
            },
        };
        match step.next() {
            Some(next) => (BootstrapState::Running(next), Some(report), BootstrapAction::Run(next)),
            None => (BootstrapState::Finished, Some(report), BootstrapAction::Stop),
        }
    }
}

/// The state of the bootstrap after it was fed `events` in order, from `state`.
pub open spec fn bootstrap_run(state: BootstrapState, events: Seq<StepEvent>) -> BootstrapState
    decreases events.len(),
{
    if events.len() == 0 {
        state
    } else {
        bootstrap_next(bootstrap_run(state, events.drop_last()), events.last()).0
    }
}

/// The step with the given place in the sequence.
pub open spec fn step_at(i: int) -> Step {
    if i == 0 {
        Step::Namespace
    } else if i == 1 {
        Step::ServiceAccount
    } else if i == 2 {
        Step::ClusterRoleBinding
    } else if i == 3 {
        Step::Deployment
    } else if i == 4 {
        Step::PodHealthWait
    } else if i == 5 {
        Step::DownloadTools
    } else if i == 6 {
        Step::AddToPath
    } else if i == 7 {
        Step::PointDockerAtCluster
    } else if i == 8 {
        Step::EnableIngress
    } else {
        Step::InstallTls
    }
}

/// The state in which `n` steps have been answered.
pub open spec fn state_after(n: int) -> BootstrapState {
    if n < step_count() {
        BootstrapState::Running(step_at(n))
    } else {
        BootstrapState::Finished
    }
}

/// The steps run strictly one after the other, whether they succeed or fail: as
/// long as each event answers its step and the wait for the pod does not fail,
/// the bootstrap stands at the step whose place is the number of events.
pub proof fn lemma_steps_run_in_order(events: Seq<StepEvent>)
    requires
        events.len() <= step_count(),
        forall|i: int|
            0 <= i < events.len() ==> answers_step(step_at(i), #[trigger] events[i])
                && !(events[i] is WaitFailed),
    ensures
        bootstrap_run(BootstrapState::Running(Step::Namespace), events) == state_after(
            events.len() as int,
        ),
    decreases events.len(),
{
    if events.len() > 0 {
        let before = events.drop_last();
        assert forall|i: int| 0 <= i < before.len() implies answers_step(
            step_at(i),
            #[trigger] before[i],
        ) && !(before[i] is WaitFailed) by {
            assert(before[i] == events[i]);
        }
        lemma_steps_run_in_order(before);
        let n = before.len() as int;
        assert(answers_step(step_at(n), events[n]));
        assert(step_index(step_at(n)) == n);
    }
}

/// A wait for the pod that fails ends the run: no later step is asked for.
pub proof fn lemma_failed_wait_is_fatal(e: WaitError)
    ensures
        bootstrap_next(BootstrapState::Running(Step::PodHealthWait), StepEvent::WaitFailed(e)).0
            == BootstrapState::Aborted,
        bootstrap_next(BootstrapState::Running(Step::PodHealthWait), StepEvent::WaitFailed(e)).2
            == BootstrapAction::Stop,
{
}

/// A step other than the wait for the pod that fails does not end the run: the
/// failure is shown and the next step is asked for.
pub proof fn lemma_failed_step_goes_on(s: Step, event: StepEvent)
    requires
        answers_step(s, event),
        !(event is WaitFailed),
    ensures
        bootstrap_next(BootstrapState::Running(s), event).0 == advance(s).0,
        bootstrap_next(BootstrapState::Running(s), event).1 == Some(report_of(event)),
        bootstrap_next(BootstrapState::Running(s), event).2 == advance(s).1,
        !(advance(s).0 is Aborted),
{
}

/// On a cluster that holds none of the four objects, asking for them in the
/// order of the steps creates every one of them: each finds its namespace there.
pub proof fn lemma_order_creates_all(
    c: ClusterConfig,
    before: Seq<ResourceSpec>,
    namespace: ResourceSpec,
    account: ResourceSpec,
    binding: ResourceSpec,
    deployment: ResourceSpec,
)
    requires
        is_namespace_spec(namespace, c),
        is_service_account_spec(account, c),
        is_cluster_role_binding_spec(binding, c),
        is_deployment_spec(deployment, c),
        !holds(before, key_of(namespace)),
        !holds(before, key_of(account)),
        !holds(before, key_of(binding)),
        !holds(before, key_of(deployment)),
    ensures
        ({
            let s1 = after_create(before, namespace);
            let s2 = after_create(s1, account);
            let s3 = after_create(s2, binding);
            &&& creatable(before, namespace)
            &&& creatable(s1, account)
            &&& creatable(s2, binding)
            &&& creatable(s3, deployment)
        }),
{
    let s1 = after_create(before, namespace);
    assert(s1 == before.push(namespace));
    let ns_key = ObjectKey { kind: ResourceKind::Namespace, namespace: None, name: c.namespace@ };
    assert(key_of(s1[before.len() as int]) == ns_key);
    assert(holds(s1, ns_key));
    lemma_not_held_after(before, namespace, key_of(account));
    assert(creatable(s1, account));
    let s2 = after_create(s1, account);
    assert(s2 == s1.push(account));
    lemma_not_held_after(before, namespace, key_of(binding));
    lemma_not_held_after(s1, account, key_of(binding));
    assert(creatable(s2, binding));
    let s3 = after_create(s2, binding);
    assert(s3 == s2.push(binding));
    lemma_not_held_after(before, namespace, key_of(deployment));
    lemma_not_held_after(s1, account, key_of(deployment));
    lemma_not_held_after(s2, binding, key_of(deployment));
    assert(key_of(s2[before.len() as int]) == ns_key);
    assert(key_of(s3[before.len() as int]) == ns_key);
    assert(holds(s3, ns_key));
}

/// Creating an object brings no object of another key.
proof fn lemma_not_held_after(objects: Seq<ResourceSpec>, r: ResourceSpec, key: ObjectKey)
    requires
        !holds(objects, key),
        key_of(r) != key,
    ensures
        !holds(after_create(objects, r), key),
{
    let after = after_create(objects, r);
    if holds(after, key) {
        let i = choose|i: int| 0 <= i < after.len() && key_of(#[trigger] after[i]) == key;
        if i < objects.len() {
            assert(key_of(objects[i]) == key);
        }
    }
}

} // verus!
