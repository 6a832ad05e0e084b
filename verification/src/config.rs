//! The fixed identifiers of the cluster objects, gathered in one value that is
//! handed to whoever needs them.

use vstd::prelude::*;
use vstd::string::*;

verus! {

/// The names under which the environment lives in the cluster.
#[derive(Clone, Debug, PartialEq, Eq)]
pub struct ClusterConfig {
    pub namespace: String,
    pub service_account: String,
    pub cluster_role_binding: String,
    pub deployment: String,
    pub image: String,
    /// Seconds after which the server ends a watch.
    pub watch_timeout: u32,
}

/// The client that prepares requests for the cluster and judges its answers.
#[derive(Clone, Debug, PartialEq, Eq)]
pub struct Krunch {
    pub config: ClusterConfig,
}

/// The host name under which the cluster is reached.
pub open spec fn minikube_host() -> Seq<char> {
    "k8s.local"@
}

/// The name of the TLS secret.
pub open spec fn tls_secret() -> Seq<char> {
    "tls"@
}

/// The configuration that the tool ships with.
pub open spec fn is_default_config(c: ClusterConfig) -> bool {
    &&& c.namespace@ == "krunch"@
    &&& c.service_account@ == "krunch"@
    &&& c.cluster_role_binding@ == "krunch-gets-cluster-admin"@
    &&& c.deployment@ == "krunch"@
    &&& c.image@ == "timowuttke/krunch:v1"@
    &&& c.watch_timeout == 20
}

/// The label selector that finds the pod of the deployment: `app=` and the
/// deployment's name.
pub open spec fn label_selector_of(c: ClusterConfig) -> Seq<char> {
    "app="@ + c.deployment@
}

/// The field selector of the watch: `metadata.namespace=` and the namespace.
pub open spec fn field_selector_of(c: ClusterConfig) -> Seq<char> {
    "metadata.namespace="@ + c.namespace@
}

impl ClusterConfig {
    /// The configuration that the tool ships with.
    pub fn krunch() -> (c: ClusterConfig)
        ensures
            is_default_config(c),
    {
        ClusterConfig {
            namespace: String::from_str("krunch"),
            service_account: String::from_str("krunch"),
            cluster_role_binding: String::from_str("krunch-gets-cluster-admin"),
            deployment: String::from_str("krunch"),
            image: String::from_str("timowuttke/krunch:v1"),
            watch_timeout: 20,
        }
    }

    /// The label selector that finds the pod of the deployment.
    pub fn label_selector(&self) -> (s: String)
        ensures
            s@ == label_selector_of(*self),
    {
        String::from_str("app=").concat(self.deployment.as_str())
    }

    /// The field selector of the watch.
    pub fn field_selector(&self) -> (s: String)
        ensures
            s@ == field_selector_of(*self),
    {
        String::from_str("metadata.namespace=").concat(self.namespace.as_str())
    }
}

/// What is asked of the cluster to find the pod of the deployment.
#[derive(Clone, Debug, PartialEq, Eq)]
pub struct PodQuery {
    pub namespace: String,
    pub label_selector: String,
}

/// What is asked of the cluster to be told of changes to the pods.
#[derive(Clone, Debug, PartialEq, Eq)]
pub struct WatchQuery {
    pub namespace: String,
    pub field_selector: String,
    /// Seconds after which the server ends the watch.
    pub timeout: u32,
}

impl Krunch {
    /// The listing that finds the pod of the deployment: the pods of the
    /// namespace that carry the label of the deployment.
    pub fn pod_query(&self) -> (q: PodQuery)
        ensures
            q.namespace@ == self.config.namespace@,
            q.label_selector@ == label_selector_of(self.config),
    {
        PodQuery {
            namespace: self.config.namespace.clone(),
            label_selector: self.config.label_selector(),
        }
    }

    /// The bounded watch on the pods of the namespace.
    pub fn watch_query(&self) -> (q: WatchQuery)
        ensures
            q.namespace@ == self.config.namespace@,
            q.field_selector@ == field_selector_of(self.config),
            q.timeout == self.config.watch_timeout,
    {
        WatchQuery {
            namespace: self.config.namespace.clone(),
            field_selector: self.config.field_selector(),
            timeout: self.config.watch_timeout,
        }
    }

    /// A client for the given configuration.
    pub fn new(config: ClusterConfig) -> (k: Krunch)
        ensures
            k.config == config,
    {
        Krunch { config }
    }
}

} // verus!
