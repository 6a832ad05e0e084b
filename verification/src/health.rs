//! The health of the target pod, judged from one observation of it.

use vstd::prelude::*;
use crate::config::Krunch;
use crate::text::same_text;

verus! {

/// What a container status reports of the container's state: which of the three
/// state records is present.
#[derive(Clone, Copy, Debug, PartialEq, Eq)]
pub struct ContainerState {
    pub running: bool,
    pub waiting: bool,
    pub terminated: bool,
}

/// One entry of a pod's container statuses. `state` is `None` where the entry
/// carries no state at all.
#[derive(Clone, Copy, Debug, PartialEq, Eq)]
pub struct ContainerStatus {
    pub state: Option<ContainerState>,
}

/// The status block of a pod.
#[derive(Clone, Debug, PartialEq, Eq)]
pub struct PodStatus {
    pub phase: Option<String>,
    pub container_statuses: Option<Vec<ContainerStatus>>,
}

/// One observation of a pod, as far as the health check reads it.
#[derive(Clone, Debug, PartialEq, Eq)]
pub struct Pod {
    pub name: Option<String>,
    pub status: Option<PodStatus>,
}

/// Why a pod that exists does not count as healthy.
#[derive(Clone, Copy, Debug, PartialEq, Eq)]
pub enum UnhealthyReason {
    /// The pod has no status block.
    NoStatus,
    /// The status names no phase.
    NoPhase,
    /// The status lists no container statuses.
    NoContainerStatuses,
    /// The phase is not "Running".
    NotRunning,
    /// The container status at this index has no state.
    StateMissing(usize),
    /// The container at this index is waiting.
    Waiting(usize),
    /// The container at this index has terminated.
    Terminated(usize),
}

/// The verdict on one observation.
#[derive(Clone, Copy, Debug, PartialEq, Eq)]
pub enum PodHealth {
    Healthy,
    Unhealthy(UnhealthyReason),
    NotFound,
}

/// A container status is fine when its state is present and is neither waiting
/// nor terminated.
pub open spec fn container_ok(c: ContainerStatus) -> bool {
    c.state matches Some(s) && !s.waiting && !s.terminated
}

/// Every entry of `cs` is fine.
pub open spec fn all_containers_ok(cs: Seq<ContainerStatus>) -> bool {
    forall|i: int| 0 <= i < cs.len() ==> container_ok(#[trigger] cs[i])
}

/// The health predicate: the phase is "Running", the container statuses are
/// listed, and every one of them is fine.
pub open spec fn is_healthy(pod: Pod) -> bool {
    &&& pod.status matches Some(st)
    &&& st.phase matches Some(phase)
    &&& phase@ == "Running"@
    &&& st.container_statuses matches Some(cs)
    &&& all_containers_ok(cs@)
}

/// Why one container status is not fine.
pub open spec fn container_fault(c: ContainerStatus, index: usize) -> UnhealthyReason {
    match c.state {
        None => UnhealthyReason::StateMissing(index),
        Some(s) => if s.waiting {
            UnhealthyReason::Waiting(index)
        } else {
            UnhealthyReason::Terminated(index)
        },
    }
}

/// `i` is the first entry of `cs` that is not fine.
pub open spec fn first_fault_at(cs: Seq<ContainerStatus>, i: int) -> bool {
    &&& 0 <= i < cs.len()
    &&& !container_ok(cs[i])
    &&& forall|j: int| 0 <= j < i ==> container_ok(#[trigger] cs[j])
}

/// The verdict on a pod that exists: the first check that fails names the reason.
pub open spec fn health_of(pod: Pod) -> PodHealth {
    match pod.status {
        None => PodHealth::Unhealthy(UnhealthyReason::NoStatus),
        Some(st) => match st.phase {
            None => PodHealth::Unhealthy(UnhealthyReason::NoPhase),
            Some(phase) => match st.container_statuses {
                None => PodHealth::Unhealthy(UnhealthyReason::NoContainerStatuses),
                Some(cs) => if phase@ != "Running"@ {
                    PodHealth::Unhealthy(UnhealthyReason::NotRunning)
                } else if all_containers_ok(cs@) {
                    PodHealth::Healthy
                } else {
                    let i = choose|i: int| first_fault_at(cs@, i);
                    PodHealth::Unhealthy(container_fault(cs@[i], i as usize))
                },
            },
        },
    }
}

/// The verdict on a lookup that may have found no pod.
pub open spec fn health_of_lookup(pod: Option<Pod>) -> PodHealth {
    match pod {
        None => PodHealth::NotFound,
        Some(p) => health_of(p),
    }
}

/// The index of the first container status that is not fine, if there is one.
pub fn first_container_fault(cs: &Vec<ContainerStatus>) -> (r: Option<usize>)
    ensures
        r is None <==> all_containers_ok(cs@),
        r matches Some(i) ==> first_fault_at(cs@, i as int),
{
    let mut i: usize = 0;
    while i < cs.len()
        invariant
            i <= cs.len(),
            forall|j: int| 0 <= j < i ==> container_ok(#[trigger] cs@[j]),
        decreases cs.len() - i,
    {
        let ok = match cs[i].state {
            None => false,
            Some(s) => !s.waiting && !s.terminated,
        };
        if !ok {
            return Some(i);
        }
        i = i + 1;
    }
    None
}

/// Judges one observation of a pod.
pub fn pod_health(pod: &Pod) -> (h: PodHealth)
    ensures
        h == health_of(*pod),
        h is Healthy <==> is_healthy(*pod),
        !(h is NotFound),
{
    let st = match &pod.status {
        None => return PodHealth::Unhealthy(UnhealthyReason::NoStatus),
        Some(st) => st,
    };
    let phase = match &st.phase {
        None => return PodHealth::Unhealthy(UnhealthyReason::NoPhase),
        Some(phase) => phase,
    };
    let cs = match &st.container_statuses {
        None => return PodHealth::Unhealthy(UnhealthyReason::NoContainerStatuses),
        Some(cs) => cs,
    };
    if !same_text(phase.as_str(), "Running") {
        return PodHealth::Unhealthy(UnhealthyReason::NotRunning);
    }
    match first_container_fault(cs) {
        None => PodHealth::Healthy,
        Some(i) => {
            proof {
                // there is only one first fault: the one that was found
                let k = choose|k: int| first_fault_at(cs@, k);
                assert(k == i) by {
                    if k < i {
                        assert(container_ok(cs@[k]));
                    } else if i < k {
                        assert(container_ok(cs@[i as int]));
                    }
                }
            }
            let fault = match cs[i].state {
                None => UnhealthyReason::StateMissing(i),
                Some(s) => if s.waiting {
                    UnhealthyReason::Waiting(i)
                } else {
                    UnhealthyReason::Terminated(i)
                },
            };
            PodHealth::Unhealthy(fault)
        },
    }
}

/// Judges a lookup that may have found no pod.
pub fn lookup_health(pod: Option<&Pod>) -> (h: PodHealth)
    ensures
        h == health_of_lookup(
            match pod {
                Some(p) => Some(*p),
                None => None,
            },
        ),
{
    match pod {
        Some(p) => pod_health(p),
        None => PodHealth::NotFound,
    }
}

impl Krunch {
    /// Whether the pod counts as healthy.
    pub fn is_pod_healthy(pod: &Pod) -> (r: bool)
        ensures
            r == is_healthy(*pod),
    {
        match pod_health(pod) {
            PodHealth::Healthy => true,
            _ => false,
        }
    }
}

/// A pod is judged healthy exactly when its phase is "Running" and every
/// container status has a state that is neither waiting nor terminated.
pub proof fn lemma_healthy_iff_predicate(pod: Pod)
    ensures
        health_of(pod) is Healthy <==> is_healthy(pod),
        health_of_lookup(Some(pod)) is Healthy <==> is_healthy(pod),
        !(health_of_lookup(None) is Healthy),
{
}

/// One container status without a state makes the pod unhealthy, whatever else
/// the pod reports.
pub proof fn lemma_missing_state_is_unhealthy(pod: Pod, index: int)
    requires
        pod.status matches Some(st) && st.container_statuses matches Some(cs) && 0 <= index
            < cs@.len() && cs@[index].state is None,
    ensures
        health_of(pod) is Unhealthy,
        !is_healthy(pod),
{
    let cs = pod.status->0.container_statuses->0;
    assert(!container_ok(cs@[index]));
}

} // verus!
