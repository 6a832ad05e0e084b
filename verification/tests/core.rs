use krunch::cluster::Cluster;
use krunch::config::{ClusterConfig, Krunch};
use krunch::health::{
    lookup_health, pod_health, ContainerState, ContainerStatus, Pod, PodHealth, PodStatus, UnhealthyReason,
};
use krunch::monitor::{
    monitor_step, MonitorAction, MonitorEvent, MonitorState, WaitError, WatchEvent,
};
use krunch::resource::{Body, CreateReply, CreationOutcome, ResourceKind};

fn running() -> ContainerStatus {
    ContainerStatus { state: Some(ContainerState { running: true, waiting: false, terminated: false }) }
}

fn waiting() -> ContainerStatus {
    ContainerStatus { state: Some(ContainerState { running: false, waiting: true, terminated: false }) }
}

fn terminated() -> ContainerStatus {
    ContainerStatus { state: Some(ContainerState { running: false, waiting: false, terminated: true }) }
}

fn pod(phase: &str, containers: Vec<ContainerStatus>) -> Pod {
    Pod {
        name: Some("krunch-686fb9db55-mxd8m".to_string()),
        status: Some(PodStatus {
            phase: Some(phase.to_string()),
            container_statuses: Some(containers),
        }),
    }
}

#[test]
fn running_pod_with_running_containers_is_healthy() {
    let p = pod("Running", vec![running(), running()]);
    assert_eq!(pod_health(&p), PodHealth::Healthy);
    assert!(Krunch::is_pod_healthy(&p));
}

#[test]
fn pending_pod_is_unhealthy() {
    let p = pod("Pending", vec![running()]);
    assert_eq!(pod_health(&p), PodHealth::Unhealthy(UnhealthyReason::NotRunning));
    assert!(!Krunch::is_pod_healthy(&p));
}

#[test]
fn waiting_container_makes_pod_unhealthy() {
    let p = pod("Running", vec![running(), waiting()]);
    assert_eq!(pod_health(&p), PodHealth::Unhealthy(UnhealthyReason::Waiting(1)));
}

#[test]
fn terminated_container_makes_pod_unhealthy() {
    let p = pod("Running", vec![terminated(), waiting()]);
    assert_eq!(pod_health(&p), PodHealth::Unhealthy(UnhealthyReason::Terminated(0)));
}

#[test]
fn container_without_state_makes_pod_unhealthy() {
    let p = pod("Running", vec![running(), ContainerStatus { state: None }]);
    assert_eq!(pod_health(&p), PodHealth::Unhealthy(UnhealthyReason::StateMissing(1)));
    assert!(!Krunch::is_pod_healthy(&p));
}

#[test]
fn pod_without_status_phase_or_containers_is_unhealthy() {
    let no_status = Pod { name: None, status: None };
    assert_eq!(pod_health(&no_status), PodHealth::Unhealthy(UnhealthyReason::NoStatus));
    let no_phase = Pod {
        name: None,
        status: Some(PodStatus { phase: None, container_statuses: Some(vec![running()]) }),
    };
    assert_eq!(pod_health(&no_phase), PodHealth::Unhealthy(UnhealthyReason::NoPhase));
    let no_containers = Pod {
        name: None,
        status: Some(PodStatus { phase: Some("Running".to_string()), container_statuses: None }),
    };
    assert_eq!(
        pod_health(&no_containers),
        PodHealth::Unhealthy(UnhealthyReason::NoContainerStatuses)
    );
}

#[test]
fn running_pod_without_containers_listed_empty_is_healthy() {
    let p = pod("Running", vec![]);
    assert_eq!(pod_health(&p), PodHealth::Healthy);
}

#[test]
fn healthy_lookup_never_opens_a_watch() {
    let p = pod("Running", vec![running()]);
    let events = vec![MonitorEvent::Listed(vec![p.clone()]), MonitorEvent::Fetched(p)];
    let (state, actions) = Krunch::wait_for_pod_to_be_healthy(&events);
    assert_eq!(state, MonitorState::Succeeded);
    assert_eq!(
        actions,
        vec![
            MonitorAction::ListPods,
            MonitorAction::GetPod("krunch-686fb9db55-mxd8m".to_string()),
            MonitorAction::Stop,
        ]
    );
    assert!(!actions.contains(&MonitorAction::OpenWatch));
}

#[test]
fn watch_that_never_shows_a_healthy_pod_times_out() {
    let p = pod("Pending", vec![waiting()]);
    let events = vec![
        MonitorEvent::Listed(vec![p.clone()]),
        MonitorEvent::Fetched(p.clone()),
        MonitorEvent::WatchOpened,
        MonitorEvent::Watch(WatchEvent::Added(p.clone())),
        MonitorEvent::Watch(WatchEvent::Modified(p.clone())),
        MonitorEvent::Watch(WatchEvent::Other),
        MonitorEvent::StreamEnded,
    ];
    let (state, actions) = Krunch::wait_for_pod_to_be_healthy(&events);
    assert_eq!(state, MonitorState::Failed(WaitError::Timeout));
    assert_eq!(actions.last(), Some(&MonitorAction::Stop));
    assert_eq!(actions[2], MonitorAction::OpenWatch);
}

#[test]
fn deleted_healthy_pod_does_not_count() {
    let healthy = pod("Running", vec![running()]);
    let events = vec![
        MonitorEvent::Listed(vec![]),
        MonitorEvent::WatchOpened,
        MonitorEvent::Watch(WatchEvent::Deleted(healthy)),
        MonitorEvent::StreamEnded,
    ];
    let (state, actions) = Krunch::wait_for_pod_to_be_healthy(&events);
    assert_eq!(state, MonitorState::Failed(WaitError::Timeout));
    assert_eq!(actions[1], MonitorAction::OpenWatch);
}

#[test]
fn client_failure_ends_the_wait() {
    let (state, action) =
        monitor_step(MonitorState::Fetching, &MonitorEvent::ClientFailed("boom".to_string()));
    assert_eq!(state, MonitorState::Failed(WaitError::Client("boom".to_string())));
    assert_eq!(action, MonitorAction::Stop);
}

#[test]
fn event_out_of_turn_ends_the_wait() {
    let (state, action) = monitor_step(MonitorState::Resolving, &MonitorEvent::StreamEnded);
    assert_eq!(state, MonitorState::Failed(WaitError::OutOfTurn));
    assert_eq!(action, MonitorAction::Stop);
}

#[test]
fn default_configuration_has_the_fixed_names() {
    let c = ClusterConfig::krunch();
    assert_eq!(c.namespace, "krunch");
    assert_eq!(c.service_account, "krunch");
    assert_eq!(c.cluster_role_binding, "krunch-gets-cluster-admin");
    assert_eq!(c.deployment, "krunch");
    assert_eq!(c.image, "timowuttke/krunch:v1");
    assert_eq!(c.watch_timeout, 20);
    assert_eq!(c.label_selector(), "app=krunch");
    assert_eq!(c.field_selector(), "metadata.namespace=krunch");
}

#[test]
fn deployment_refers_to_namespace_and_service_account() {
    let k = Krunch::new(ClusterConfig::krunch());
    let d = k.create_deployment();
    assert_eq!(d.kind(), ResourceKind::Deployment);
    assert_eq!(d.api_version, "apps/v1");
    assert_eq!(d.metadata.name, "krunch");
    assert_eq!(d.metadata.namespace, Some("krunch".to_string()));
    assert_eq!(d.metadata.labels, vec![("app".to_string(), "krunch".to_string())]);
    match d.body {
        Body::Deployment { replicas, match_labels, template } => {
            assert_eq!(replicas, 1);
            assert_eq!(match_labels, vec![("app".to_string(), "krunch".to_string())]);
            assert_eq!(template.labels, vec![("app".to_string(), "krunch".to_string())]);
            assert_eq!(template.termination_grace_period_seconds, 0);
            assert_eq!(template.service_account_name, "krunch");
            assert_eq!(template.containers.len(), 1);
            assert_eq!(template.containers[0].name, "krunch");
            assert_eq!(template.containers[0].image, "timowuttke/krunch:v1");
            assert_eq!(template.containers[0].volume_mounts[0].mount_path, "/var/run");
            assert_eq!(template.containers[0].volume_mounts[0].name, "docker-sock");
            assert_eq!(template.containers[0].volume_mounts[1].mount_path, "/krunch");
            assert_eq!(template.containers[0].volume_mounts[1].name, "krunch");
            assert_eq!(template.volumes[0].name, "docker-sock");
            assert_eq!(template.volumes[0].path, "/var/run");
            assert_eq!(template.volumes[1].name, "krunch");
            assert_eq!(template.volumes[1].path, "/krunch");
        }
        _ => panic!("not a deployment"),
    }
}

#[test]
fn namespace_account_and_binding_have_their_fields() {
    let k = Krunch::new(ClusterConfig::krunch());
    let n = k.create_namespace();
    assert_eq!(n.api_version, "v1");
    assert_eq!(n.metadata.name, "krunch");
    assert_eq!(n.metadata.namespace, None);
    assert_eq!(
        n.metadata.labels,
        vec![("kubernetes.io/metadata.name".to_string(), "krunch".to_string())]
    );
    assert_eq!(
        n.body,
        Body::Namespace { finalizers: vec!["kubernetes".to_string()], phase: "Active".to_string() }
    );
    let a = k.create_service_account();
    assert_eq!(a.metadata.name, "krunch");
    assert_eq!(a.metadata.namespace, Some("krunch".to_string()));
    assert_eq!(a.body, Body::ServiceAccount);
    let b = k.create_cluster_role_binding();
    assert_eq!(b.api_version, "rbac.authorization.k8s.io/v1");
    assert_eq!(b.metadata.name, "krunch-gets-cluster-admin");
    match b.body {
        Body::ClusterRoleBinding { subjects, role_ref } => {
            assert_eq!(subjects.len(), 1);
            assert_eq!(subjects[0].kind, "ServiceAccount");
            assert_eq!(subjects[0].name, "krunch");
            assert_eq!(subjects[0].namespace, "krunch");
            assert_eq!(role_ref.kind, "ClusterRole");
            assert_eq!(role_ref.name, "cluster-admin");
            assert_eq!(role_ref.api_group, "rbac.authorization.k8s.io");
        }
        _ => panic!("not a binding"),
    }
}

#[test]
fn creation_answers_are_classified() {
    assert_eq!(
        Krunch::handle_resource_creation_result(CreateReply::Created),
        CreationOutcome::Created
    );
    assert_eq!(
        Krunch::handle_resource_creation_result(CreateReply::Api {
            reason: "AlreadyExists".to_string(),
            code: 409
        }),
        CreationOutcome::AlreadyExists
    );
    assert_eq!(
        Krunch::handle_resource_creation_result(CreateReply::Api {
            reason: "Forbidden".to_string(),
            code: 403
        }),
        CreationOutcome::Failed("Forbidden".to_string())
    );
    assert_eq!(
        Krunch::handle_resource_creation_result(CreateReply::Transport("no route".to_string())),
        CreationOutcome::Failed("no route".to_string())
    );
    assert_eq!(CreationOutcome::Created.message(), "done");
    assert_eq!(CreationOutcome::AlreadyExists.message(), "already exists");
    assert_eq!(CreationOutcome::Failed("x".to_string()).message(), "failure");
    assert!(CreationOutcome::AlreadyExists.is_success());
    assert!(!CreationOutcome::Failed("x".to_string()).is_success());
}

#[test]
fn ensuring_twice_creates_then_finds() {
    let k = Krunch::new(ClusterConfig::krunch());
    let mut cluster = Cluster::new();
    assert_eq!(cluster.ensure(k.create_namespace()), CreationOutcome::Created);
    assert_eq!(cluster.len(), 1);
    let first = cluster.get(0).clone();
    assert_eq!(cluster.ensure(k.create_namespace()), CreationOutcome::AlreadyExists);
    assert_eq!(cluster.len(), 1);
    assert_eq!(cluster.get(0), &first);
}

#[test]
fn namespaced_object_needs_its_namespace() {
    let k = Krunch::new(ClusterConfig::krunch());
    let mut cluster = Cluster::new();
    assert_eq!(
        cluster.ensure(k.create_deployment()),
        CreationOutcome::Failed("NotFound".to_string())
    );
    assert_eq!(cluster.len(), 0);
    assert!(!cluster.contains(&k.create_deployment()));
    assert!(cluster.contains_namespace("default"));
    assert!(!cluster.contains_namespace("krunch"));
}

#[test]
fn bootstrap_on_empty_cluster_then_again_then_wait() {
    let k = Krunch::new(ClusterConfig::krunch());
    let mut cluster = Cluster::new();
    let first = vec![
        cluster.ensure(k.create_namespace()),
        cluster.ensure(k.create_service_account()),
        cluster.ensure(k.create_cluster_role_binding()),
        cluster.ensure(k.create_deployment()),
    ];
    assert_eq!(first, vec![CreationOutcome::Created; 4]);
    let second = vec![
        cluster.ensure(k.create_namespace()),
        cluster.ensure(k.create_service_account()),
        cluster.ensure(k.create_cluster_role_binding()),
        cluster.ensure(k.create_deployment()),
    ];
    assert_eq!(second, vec![CreationOutcome::AlreadyExists; 4]);
    assert_eq!(cluster.len(), 4);

    let pending = pod("Pending", vec![waiting()]);
    let healthy = pod("Running", vec![running()]);
    let events = vec![
        MonitorEvent::Listed(vec![pending.clone()]),
        MonitorEvent::Fetched(pending.clone()),
        MonitorEvent::WatchOpened,
        MonitorEvent::Watch(WatchEvent::Modified(pending)),
        MonitorEvent::Watch(WatchEvent::Modified(healthy)),
    ];
    let (state, actions) = Krunch::wait_for_pod_to_be_healthy(&events);
    assert_eq!(state, MonitorState::Succeeded);
    assert_eq!(
        actions,
        vec![
            MonitorAction::ListPods,
            MonitorAction::GetPod("krunch-686fb9db55-mxd8m".to_string()),
            MonitorAction::OpenWatch,
            MonitorAction::NextEvent,
            MonitorAction::NextEvent,
            MonitorAction::Stop,
        ]
    );
}

#[test]
fn lookup_without_pod_is_not_found() {
    assert_eq!(lookup_health(None), PodHealth::NotFound);
    let p = pod("Running", vec![running()]);
    assert_eq!(lookup_health(Some(&p)), PodHealth::Healthy);
    let q = pod("Failed", vec![running()]);
    assert_eq!(lookup_health(Some(&q)), PodHealth::Unhealthy(UnhealthyReason::NotRunning));
}

#[test]
fn queries_name_namespace_selectors_and_timeout() {
    let k = Krunch::new(ClusterConfig::krunch());
    let listing = k.pod_query();
    assert_eq!(listing.namespace, "krunch");
    assert_eq!(listing.label_selector, "app=krunch");
    let watch = k.watch_query();
    assert_eq!(watch.namespace, "krunch");
    assert_eq!(watch.field_selector, "metadata.namespace=krunch");
    assert_eq!(watch.timeout, 20);
    let mut other = ClusterConfig::krunch();
    other.namespace = "dev".to_string();
    other.deployment = "worker".to_string();
    other.watch_timeout = 5;
    let k = Krunch::new(other);
    assert_eq!(k.pod_query().label_selector, "app=worker");
    assert_eq!(k.watch_query().field_selector, "metadata.namespace=dev");
    assert_eq!(k.watch_query().timeout, 5);
    assert_eq!(k.create_deployment().metadata.namespace, Some("dev".to_string()));
}
