//! The ingress addon of minikube, and the label that it needs on the node.

use vstd::prelude::*;
use vstd::string::*;
use crate::outside::{json_lookup, json_string};
use crate::resource::is_pair;
use crate::text::{same_text, texts};

verus! {

/// Why the list of addons could not be read.
#[derive(Clone, Copy, Debug, PartialEq, Eq, Structural)]
pub enum AddonError {
    /// The list of addons is no JSON document.
    BadJson,
}

/// The arguments with which minikube lists its addons as JSON.
pub fn get_minikbe_addons() -> (r: Vec<String>)
    ensures
        texts(r@) == seq!["addons"@, "list"@, "--output"@, "json"@],
{
    let r = vec![
        String::from_str("addons"),
        String::from_str("list"),
        String::from_str("--output"),
        String::from_str("json"),
    ];
    r
}

/// The arguments with which minikube enables the ingress addon.
pub fn enable_minikube_ingress_addon() -> (r: Vec<String>)
    ensures
        texts(r@) == seq!["addons"@, "enable"@, "ingress"@],
{
    let r = vec![String::from_str("addons"), String::from_str("enable"), String::from_str("ingress")];
    r
}

/// The arguments with which minikube prints the settings of the docker client
/// for bash.
pub fn docker_env_arguments() -> (r: Vec<String>)
    ensures
        texts(r@) == seq!["docker-env"@, "--shell"@, "bash"@],
{
    let r = vec![
        String::from_str("docker-env"),
        String::from_str("--shell"),
        String::from_str("bash"),
    ];
    r
}

/// The arguments with which minikube prints the address of the cluster.
pub fn get_minikube_ip() -> (r: Vec<String>)
    ensures
        texts(r@) == seq!["ip"@],
{
    let r = vec![String::from_str("ip")];
    r
}

/// Whether a status says that an addon is enabled.
pub open spec fn says_enabled(status: Option<Seq<char>>) -> bool {
    status == Some("enabled"@)
}

/// Whether the list of addons says that the ingress addon is enabled.
pub open spec fn ingress_verdict(addons: Seq<char>) -> Result<bool, AddonError> {
    match json_string(addons, "/ingress/Status"@) {
        None => Err(AddonError::BadJson),
        Some(status) => Ok(says_enabled(status)),
    }
}

/// Whether a status says that an addon is enabled.
pub fn status_enabled(status: Option<&str>) -> (r: bool)
    ensures
        r == says_enabled(
            match status {
                Some(s) => Some(s@),
                None => None,
            },
        ),
{
    match status {
        Some(s) => same_text(s, "enabled"),
        None => false,
    }
}

/// Whether the list of addons, as minikube prints it, says that the ingress
/// addon is enabled.
pub fn ingress_enabled(addons: &str) -> (r: Result<bool, AddonError>)
    ensures
        r == ingress_verdict(addons@),
{
    match json_lookup(addons, "/ingress/Status") {
        None => Err(AddonError::BadJson),
        Some(status) => Ok(
            match &status {
                Some(s) => status_enabled(Some(s.as_str())),
                None => status_enabled(None),
            },
        ),
    }
}

/// What has to be run so that the ingress addon is enabled: nothing where it is
/// enabled already, else minikube with the arguments that enable it.
pub fn enable_ingress_addon_if_needed(addons: &str) -> (r: Result<Option<Vec<String>>, AddonError>)
    ensures
        match ingress_verdict(addons@) {
            Err(e) => r == Err::<Option<Vec<String>>, AddonError>(e),
            Ok(true) => r == Ok::<Option<Vec<String>>, AddonError>(None),
            Ok(false) => r matches Ok(Some(arguments)) && texts(arguments@) == seq![
                "addons"@,
                "enable"@,
                "ingress"@,
            ],
        },
{
    match ingress_enabled(addons) {
        Err(e) => Err(e),
        Ok(true) => Ok(None),
        Ok(false) => Ok(Some(enable_minikube_ingress_addon())),
    }
}

/// The label that marks the first node of the cluster.
pub open spec fn primary_label() -> Seq<char> {
    "minikube.k8s.io/primary"@
}

/// Some label has the key `key`.
pub open spec fn has_label(labels: Seq<(String, String)>, key: Seq<char>) -> bool {
    exists|i: int| 0 <= i < labels.len() && (#[trigger] labels[i]).0@ == key
}

/// The labels that the node has to get so that it is marked as the first node:
/// `None` where it is marked already, else its labels and the mark.
pub fn add_node_primary_label_if_not_exists(labels: Vec<(String, String)>) -> (r: Option<
    Vec<(String, String)>,
>)
    ensures
        r is None <==> has_label(labels@, primary_label()),
        r matches Some(all) ==> all@.len() == labels@.len() + 1 && all@.take(labels@.len() as int)
            == labels@ && is_pair(all@.last(), primary_label(), "true"@),
{
    let mut i: usize = 0;
    while i < labels.len()
        invariant
            i <= labels.len(),
            forall|j: int| 0 <= j < i ==> (#[trigger] labels@[j]).0@ != primary_label(),
        decreases labels.len() - i,
    {
        if same_text(labels[i].0.as_str(), "minikube.k8s.io/primary") {
            return None;
        }
        i = i + 1;
    }
    let mut all = labels;
    all.push((String::from_str("minikube.k8s.io/primary"), String::from_str("true")));
    Some(all)
}

} // verus!
