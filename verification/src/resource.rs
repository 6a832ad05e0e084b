//! The cluster objects that the bootstrap creates, and the verdict on each
//! attempt to create one.

use vstd::prelude::*;
use vstd::string::*;
use crate::config::{ClusterConfig, Krunch};
use crate::text::same_text;

verus! {

/// The kinds of objects that the environment consists of.
#[derive(Clone, Copy, Debug, PartialEq, Eq, Structural)]
pub enum ResourceKind {
    Namespace,
    ServiceAccount,
    ClusterRoleBinding,
    Deployment,
    Secret,
}

/// What names an object.
#[derive(Clone, Debug, PartialEq, Eq)]
pub struct Metadata {
    pub name: String,
    /// `None` for an object that lives in no namespace.
    pub namespace: Option<String>,
    pub labels: Vec<(String, String)>,
}

/// Whom a role binding gives a role to.
#[derive(Clone, Debug, PartialEq, Eq)]
pub struct Subject {
    pub kind: String,
    pub name: String,
    pub namespace: String,
}

/// The role that a role binding gives.
#[derive(Clone, Debug, PartialEq, Eq)]
pub struct RoleRef {
    pub kind: String,
    pub name: String,
    pub api_group: String,
}

/// Where a container sees a volume.
#[derive(Clone, Debug, PartialEq, Eq)]
pub struct VolumeMount {
    pub mount_path: String,
    pub name: String,
}

/// A volume that maps a path of the node into the pod.
#[derive(Clone, Debug, PartialEq, Eq)]
pub struct HostPathVolume {
    pub name: String,
    pub path: String,
}

/// One container of a pod.
#[derive(Clone, Debug, PartialEq, Eq)]
pub struct Container {
    pub name: String,
    pub image: String,
    pub volume_mounts: Vec<VolumeMount>,
}

/// The pods that a deployment starts.
#[derive(Clone, Debug, PartialEq, Eq)]
pub struct PodTemplate {
    pub labels: Vec<(String, String)>,
    pub termination_grace_period_seconds: i64,
    pub service_account_name: String,
    pub containers: Vec<Container>,
    pub volumes: Vec<HostPathVolume>,
}

/// What an object holds besides its metadata.
#[derive(Clone, Debug, PartialEq, Eq)]
pub enum Body {
    Namespace { finalizers: Vec<String>, phase: String },
    ServiceAccount,
    ClusterRoleBinding { subjects: Vec<Subject>, role_ref: RoleRef },
    Deployment { replicas: i32, match_labels: Vec<(String, String)>, template: PodTemplate },
    Secret { secret_type: String, data: Vec<(String, String)> },
}

/// The definition of one cluster object.
#[derive(Clone, Debug, PartialEq, Eq)]
pub struct ResourceSpec {
    pub api_version: String,
    pub metadata: Metadata,
    pub body: Body,
}

/// A pair of strings reads as key `k` and value `v`.
pub open spec fn is_pair(p: (String, String), k: Seq<char>, v: Seq<char>) -> bool {
    p.0@ == k && p.1@ == v
}

/// A list of pairs holds exactly one pair, key `k` and value `v`.
pub open spec fn is_single_pair(ps: Seq<(String, String)>, k: Seq<char>, v: Seq<char>) -> bool {
    ps.len() == 1 && is_pair(ps[0], k, v)
}

/// The mount shows the volume `name` at `path`.
pub open spec fn is_mount(m: VolumeMount, path: Seq<char>, name: Seq<char>) -> bool {
    m.mount_path@ == path && m.name@ == name
}

/// The volume `name` maps the path `path` of the node.
pub open spec fn is_host_path(v: HostPathVolume, name: Seq<char>, path: Seq<char>) -> bool {
    v.name@ == name && v.path@ == path
}

impl ResourceSpec {
    /// The kind of the object.
    pub open spec fn kind_of(self) -> ResourceKind {
        match self.body {
            Body::Namespace { .. } => ResourceKind::Namespace,
            Body::ServiceAccount => ResourceKind::ServiceAccount,
            Body::ClusterRoleBinding { .. } => ResourceKind::ClusterRoleBinding,
            Body::Deployment { .. } => ResourceKind::Deployment,
            Body::Secret { .. } => ResourceKind::Secret,
        }
    }

    /// The kind of the object.
    pub fn kind(&self) -> (k: ResourceKind)
        ensures
            k == self.kind_of(),
    {
        match &self.body {
            Body::Namespace { .. } => ResourceKind::Namespace,
            Body::ServiceAccount => ResourceKind::ServiceAccount,
            Body::ClusterRoleBinding { .. } => ResourceKind::ClusterRoleBinding,
            Body::Deployment { .. } => ResourceKind::Deployment,
            Body::Secret { .. } => ResourceKind::Secret,
        }
    }
}

/// The namespace object for `c`.
pub open spec fn is_namespace_spec(r: ResourceSpec, c: ClusterConfig) -> bool {
    &&& r.api_version@ == "v1"@
    &&& r.metadata.name@ == c.namespace@
    &&& r.metadata.namespace is None
    &&& is_single_pair(r.metadata.labels@, "kubernetes.io/metadata.name"@, c.namespace@)
    &&& r.body matches Body::Namespace { finalizers, phase }
    &&& finalizers@.len() == 1
    &&& finalizers@[0]@ == "kubernetes"@
    &&& phase@ == "Active"@
}

/// The service account object for `c`: it lives in the namespace of `c`.
pub open spec fn is_service_account_spec(r: ResourceSpec, c: ClusterConfig) -> bool {
    &&& r.api_version@ == "v1"@
    &&& r.metadata.name@ == c.service_account@
    &&& r.metadata.namespace matches Some(ns)
    &&& ns@ == c.namespace@
    &&& r.metadata.labels@.len() == 0
    &&& r.body is ServiceAccount
}

/// The cluster role binding for `c`: it gives the service account of `c` the
/// role `cluster-admin`.
pub open spec fn is_cluster_role_binding_spec(r: ResourceSpec, c: ClusterConfig) -> bool {
    &&& r.api_version@ == "rbac.authorization.k8s.io/v1"@
    &&& r.metadata.name@ == c.cluster_role_binding@
    &&& r.metadata.namespace is None
    &&& r.metadata.labels@.len() == 0
    &&& r.body matches Body::ClusterRoleBinding { subjects, role_ref }
    &&& subjects@.len() == 1
    &&& subjects@[0].kind@ == "ServiceAccount"@
    &&& subjects@[0].name@ == c.service_account@
    &&& subjects@[0].namespace@ == c.namespace@
    &&& role_ref.kind@ == "ClusterRole"@
    &&& role_ref.name@ == "cluster-admin"@
    &&& role_ref.api_group@ == "rbac.authorization.k8s.io"@
}

/// The pod template of the deployment for `c`.
pub open spec fn is_pod_template(t: PodTemplate, c: ClusterConfig) -> bool {
    &&& is_single_pair(t.labels@, "app"@, c.deployment@)
    &&& t.termination_grace_period_seconds == 0
    &&& t.service_account_name@ == c.service_account@
    &&& t.containers@.len() == 1
    &&& t.containers@[0].name@ == c.deployment@
    &&& t.containers@[0].image@ == c.image@
    &&& t.containers@[0].volume_mounts@.len() == 2
    &&& is_mount(t.containers@[0].volume_mounts@[0], "/var/run"@, "docker-sock"@)
    &&& is_mount(t.containers@[0].volume_mounts@[1], "/krunch"@, "krunch"@)
    &&& t.volumes@.len() == 2
    &&& is_host_path(t.volumes@[0], "docker-sock"@, "/var/run"@)
    &&& is_host_path(t.volumes@[1], "krunch"@, "/krunch"@)
}

/// The deployment for `c`: one replica, selected by the label `app`, run under
/// the service account of `c` in the namespace of `c`.
pub open spec fn is_deployment_spec(r: ResourceSpec, c: ClusterConfig) -> bool {
    &&& r.api_version@ == "apps/v1"@
    &&& r.metadata.name@ == c.deployment@
    &&& r.metadata.namespace matches Some(ns)
    &&& ns@ == c.namespace@
    &&& is_single_pair(r.metadata.labels@, "app"@, c.deployment@)
    &&& r.body matches Body::Deployment { replicas, match_labels, template }
    &&& replicas == 1
    &&& is_single_pair(match_labels@, "app"@, c.deployment@)
    &&& is_pod_template(template, c)
}

/// The TLS secret that holds the two encoded texts. It lives in the namespace
/// `default`.
pub open spec fn is_tls_secret_spec(
    r: ResourceSpec,
    name: Seq<char>,
    crt: Seq<char>,
    key: Seq<char>,
) -> bool {
    &&& r.api_version@ == "v1"@
    &&& r.metadata.name@ == name
    &&& r.metadata.namespace matches Some(ns)
    &&& ns@ == "default"@
    &&& r.metadata.labels@.len() == 0
    &&& r.body matches Body::Secret { secret_type, data }
    &&& secret_type@ == "kubernetes.io/tls"@
    &&& data@.len() == 2
    &&& is_pair(data@[0], "tls.crt"@, crt)
    &&& is_pair(data@[1], "tls.key"@, key)
}

fn pair(k: &str, v: &str) -> (p: (String, String))
    ensures
        is_pair(p, k@, v@),
{
    (String::from_str(k), String::from_str(v))
}

impl Krunch {
    /// The namespace that everything else lives in.
    pub fn create_namespace(&self) -> (r: ResourceSpec)
        ensures
            is_namespace_spec(r, self.config),
            r.kind_of() == ResourceKind::Namespace,
    {
        let ns = self.config.namespace.as_str();
        ResourceSpec {
            api_version: String::from_str("v1"),
            metadata: Metadata {
                name: String::from_str(ns),
                namespace: None,
                labels: vec![pair("kubernetes.io/metadata.name", ns)],
            },
            body: Body::Namespace {
                finalizers: vec![String::from_str("kubernetes")],
                phase: String::from_str("Active"),
            },
        }
    }

    /// The service account that the pod runs under.
    pub fn create_service_account(&self) -> (r: ResourceSpec)
        ensures
            is_service_account_spec(r, self.config),
            r.kind_of() == ResourceKind::ServiceAccount,
    {
        ResourceSpec {
            api_version: String::from_str("v1"),
            metadata: Metadata {
                name: String::from_str(self.config.service_account.as_str()),
                namespace: Some(String::from_str(self.config.namespace.as_str())),
                labels: Vec::new(),
            },
            body: Body::ServiceAccount,
        }
    }

    /// The binding that makes the service account a cluster admin.
    pub fn create_cluster_role_binding(&self) -> (r: ResourceSpec)
        ensures
            is_cluster_role_binding_spec(r, self.config),
            r.kind_of() == ResourceKind::ClusterRoleBinding,
    {
        let subject = Subject {
            kind: String::from_str("ServiceAccount"),
            name: String::from_str(self.config.service_account.as_str()),
            namespace: String::from_str(self.config.namespace.as_str()),
        };
        ResourceSpec {
            api_version: String::from_str("rbac.authorization.k8s.io/v1"),
            metadata: Metadata {
                name: String::from_str(self.config.cluster_role_binding.as_str()),
                namespace: None,
                labels: Vec::new(),
            },
            body: Body::ClusterRoleBinding {
                subjects: vec![subject],
                role_ref: RoleRef {
                    kind: String::from_str("ClusterRole"),
                    name: String::from_str("cluster-admin"),
                    api_group: String::from_str("rbac.authorization.k8s.io"),
                },
            },
        }
    }

    /// The deployment whose pod takes the commands.
    pub fn create_deployment(&self) -> (r: ResourceSpec)
        ensures
            is_deployment_spec(r, self.config),
            r.kind_of() == ResourceKind::Deployment,
    {
        let name = self.config.deployment.as_str();
        let container = Container {
            name: String::from_str(name),
            image: String::from_str(self.config.image.as_str()),
            volume_mounts: vec![
                VolumeMount {
                    mount_path: String::from_str("/var/run"),
                    name: String::from_str("docker-sock"),
                },
                VolumeMount {
                    mount_path: String::from_str("/krunch"),
                    name: String::from_str("krunch"),
                },
            ],
        };
        let template = PodTemplate {
            labels: vec![pair("app", name)],
            termination_grace_period_seconds: 0,
            service_account_name: String::from_str(self.config.service_account.as_str()),
            containers: vec![container],
            volumes: vec![
                HostPathVolume {
                    name: String::from_str("docker-sock"),
                    path: String::from_str("/var/run"),
                },
                HostPathVolume {
                    name: String::from_str("krunch"),
                    path: String::from_str("/krunch"),
                },
            ],
        };
        ResourceSpec {
            api_version: String::from_str("apps/v1"),
            metadata: Metadata {
                name: String::from_str(name),
                namespace: Some(String::from_str(self.config.namespace.as_str())),
                labels: vec![pair("app", name)],
            },
            body: Body::Deployment { replicas: 1, match_labels: vec![pair("app", name)], template },
        }
    }
}

/// What the cluster answered to a request to create an object.
#[derive(Clone, Debug, PartialEq, Eq)]
pub enum CreateReply {
    /// The object was created.
    Created,
    /// The server refused; `reason` is its reason code.
    Api { reason: String, code: u16 },
    /// The request did not reach the server, or its answer could not be read.
    Transport(String),
}

/// The verdict on one attempt to create an object.
#[derive(Clone, Debug, PartialEq, Eq)]
pub enum CreationOutcome {
    Created,
    AlreadyExists,
    /// The text is the server's reason code, or the client's message.
    Failed(String),
}

/// The reason code by which the server says that the object is there already.
pub open spec fn already_exists() -> Seq<char> {
    "AlreadyExists"@
}

/// The verdict that an answer calls for.
pub open spec fn outcome_of(reply: CreateReply) -> CreationOutcome {
    match reply {
        CreateReply::Created => CreationOutcome::Created,
        CreateReply::Api { reason, code } => if reason@ == already_exists() {
            CreationOutcome::AlreadyExists
        } else {
            CreationOutcome::Failed(reason)
        },
        CreateReply::Transport(message) => CreationOutcome::Failed(message),
    }
}

/// What is shown to the operator for a verdict.
pub open spec fn outcome_text(o: CreationOutcome) -> Seq<char> {
    match o {
        CreationOutcome::Created => "done"@,
        CreationOutcome::AlreadyExists => "already exists"@,
        CreationOutcome::Failed(_) => "failure"@,
    }
}

impl CreationOutcome {
    /// Whether the object is in the cluster after the attempt.
    pub open spec fn exists_after(self) -> bool {
        self is Created || self is AlreadyExists
    }

    /// Whether the object is in the cluster after the attempt.
    pub fn is_success(&self) -> (r: bool)
        ensures
            r == self.exists_after(),
    {
        match self {
            CreationOutcome::Failed(_) => false,
            _ => true,
        }
    }

    /// What is shown to the operator.
    pub fn message(&self) -> (s: String)
        ensures
            s@ == outcome_text(*self),
    {
        match self {
            CreationOutcome::Created => String::from_str("done"),
            CreationOutcome::AlreadyExists => String::from_str("already exists"),
            CreationOutcome::Failed(_) => String::from_str("failure"),
        }
    }
}

impl Krunch {
    /// Judges the answer to a request to create an object. That the object is
    /// there already counts as success; every other refusal is a failure.
    pub fn handle_resource_creation_result(reply: CreateReply) -> (o: CreationOutcome)
        ensures
            o == outcome_of(reply),
    {
        match reply {
            CreateReply::Created => CreationOutcome::Created,
            CreateReply::Api { reason, code } => if same_text(reason.as_str(), "AlreadyExists") {
                CreationOutcome::AlreadyExists
            } else {
                CreationOutcome::Failed(reason)
            },
            CreateReply::Transport(message) => CreationOutcome::Failed(message),
        }
    }
}

} // verus!
