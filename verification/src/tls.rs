//! The certificate of the cluster's name, kept as a secret in the cluster.

use vstd::prelude::*;
use vstd::string::*;
use crate::config::{minikube_host, tls_secret, Krunch};
use crate::outside::{base64_encode, base64_standard};
use crate::resource::{is_tls_secret_spec, Body, Metadata, ResourceKind, ResourceSpec};
use crate::text::{same_text, texts};

verus! {

/// The file in which the local authority leaves the certificate of `host`.
pub open spec fn certificate_file_of(host: Seq<char>) -> Seq<char> {
    host + ".pem"@
}

/// The file in which the local authority leaves the key of `host`.
pub open spec fn key_file_of(host: Seq<char>) -> Seq<char> {
    host + "-key.pem"@
}

/// The name under which the cluster is reached.
pub fn minikube_host_name() -> (r: String)
    ensures
        r@ == minikube_host(),
{
    String::from_str("k8s.local")
}

/// The name of the TLS secret.
pub fn tls_secret_name() -> (r: String)
    ensures
        r@ == tls_secret(),
{
    String::from_str("tls")
}

/// The files in which the local authority leaves the certificate and the key of
/// the cluster's name.
pub fn certificate_files() -> (r: (String, String))
    ensures
        r.0@ == certificate_file_of(minikube_host()),
        r.1@ == key_file_of(minikube_host()),
{
    (minikube_host_name().concat(".pem"), minikube_host_name().concat("-key.pem"))
}

/// The arguments with which the local authority installs itself in the stores of
/// the system.
pub fn install_local_ca() -> (r: Vec<String>)
    ensures
        texts(r@) == seq!["--install"@],
{
    let r = vec![String::from_str("--install")];
    r
}

/// The arguments with which the local authority removes itself from the stores
/// of the system.
pub fn remove_local_ca() -> (r: Vec<String>)
    ensures
        texts(r@) == seq!["--uninstall"@],
{
    let r = vec![String::from_str("--uninstall")];
    r
}

/// The arguments with which the local authority issues the certificate of the
/// cluster's name.
pub fn create_certificate_files() -> (r: Vec<String>)
    ensures
        texts(r@) == seq![minikube_host()],
{
    let r = vec![minikube_host_name()];
    r
}

impl Krunch {
    /// The secret that holds the certificate and the key, both as PEM text. The
    /// secret holds them encoded in base64.
    pub fn install_tls_secret(certificate: &str, key: &str) -> (r: ResourceSpec)
        ensures
            is_tls_secret_spec(
                r,
                tls_secret(),
                base64_standard(certificate.spec_bytes()),
                base64_standard(key.spec_bytes()),
            ),
            r.kind_of() == ResourceKind::Secret,
    {
        let crt = base64_encode(certificate.as_bytes());
        let key = base64_encode(key.as_bytes());
        ResourceSpec {
            api_version: String::from_str("v1"),
            metadata: Metadata {
                name: tls_secret_name(),
                namespace: Some(String::from_str("default")),
                labels: Vec::new(),
            },
            body: Body::Secret {
                secret_type: String::from_str("kubernetes.io/tls"),
                data: vec![(String::from_str("tls.crt"), crt), (String::from_str("tls.key"), key)],
            },
        }
    }
}

/// What the cluster answered to a request to delete an object.
#[derive(Clone, Debug, PartialEq, Eq)]
pub enum DeleteReply {
    Deleted,
    /// The server refused; `reason` is its reason code.
    Api { reason: String, code: u16 },
    /// The request did not reach the server, or its answer could not be read.
    Transport(String),
}

/// The verdict on one attempt to delete an object.
#[derive(Clone, Debug, PartialEq, Eq)]
pub enum DeletionOutcome {
    Deleted,
    /// The object was not there.
    NotFound,
    Failed(String),
}

/// The verdict that an answer calls for.
pub open spec fn deletion_of(reply: DeleteReply) -> DeletionOutcome {
    match reply {
        DeleteReply::Deleted => DeletionOutcome::Deleted,
        DeleteReply::Api { reason, code } => if reason@ == "NotFound"@ {
            DeletionOutcome::NotFound
        } else {
            DeletionOutcome::Failed(reason)
        },
        DeleteReply::Transport(message) => DeletionOutcome::Failed(message),
    }
}

/// What is shown to the operator for a verdict.
pub open spec fn deletion_text(o: DeletionOutcome) -> Seq<char> {
    match o {
        DeletionOutcome::Deleted => "success"@,
        DeletionOutcome::NotFound => "nothing to do"@,
        DeletionOutcome::Failed(_) => "failure"@,
    }
}

/// Judges the answer to a request to delete an object. That the object was not
/// there counts as success.
pub fn handle_resource_deletion_result(reply: DeleteReply) -> (o: DeletionOutcome)
    ensures
        o == deletion_of(reply),
{
    match reply {
        DeleteReply::Deleted => DeletionOutcome::Deleted,
        DeleteReply::Api { reason, code } => if same_text(reason.as_str(), "NotFound") {
            DeletionOutcome::NotFound
        } else {
            DeletionOutcome::Failed(reason)
        },
        DeleteReply::Transport(message) => DeletionOutcome::Failed(message),
    }
}

impl DeletionOutcome {
    /// What is shown to the operator.
    pub fn message(&self) -> (s: String)
        ensures
            s@ == deletion_text(*self),
    {
        match self {
            DeletionOutcome::Deleted => String::from_str("success"),
            DeletionOutcome::NotFound => String::from_str("nothing to do"),
            DeletionOutcome::Failed(_) => String::from_str("failure"),
        }
    }
}

} // verus!
