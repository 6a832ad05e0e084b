//! Whether the cluster that the client is connected to is the one that the
//! environment is made for.

use vstd::prelude::*;
use vstd::string::*;
use crate::text::same_text;

verus! {

/// Why the client cannot work with the cluster.
#[derive(Clone, Debug, PartialEq, Eq)]
pub enum ConnectError {
    /// The settings of the cluster could not be loaded; the text is the reason.
    Config(String),
    /// The cluster does not answer.
    Unreachable,
    /// The client is connected to another cluster; the text is the name of the
    /// context, empty where there is none.
    WrongContext(String),
}

/// A `ConnectError` with its texts as sequences of characters.
pub enum ConnectErrorView {
    Config(Seq<char>),
    Unreachable,
    WrongContext(Seq<char>),
}

impl View for ConnectError {
    type V = ConnectErrorView;

    open spec fn view(&self) -> ConnectErrorView {
        match *self {
            ConnectError::Config(reason) => ConnectErrorView::Config(reason@),
            ConnectError::Unreachable => ConnectErrorView::Unreachable,
            ConnectError::WrongContext(context) => ConnectErrorView::WrongContext(context@),
        }
    }
}

/// What is shown to the operator.
pub open spec fn connect_error_text(e: ConnectErrorView) -> Seq<char> {
    match e {
        ConnectErrorView::Config(reason) => "failed to load cluster config: "@ + reason,
        ConnectErrorView::Unreachable => "failed to connect to cluster, is minikube running?"@,
        ConnectErrorView::WrongContext(context) => "not connected to minikube, current context is "@
            + context,
    }
}

/// The verdict on the context that the client is in: only `minikube` will do.
pub open spec fn context_verdict(current: Option<Seq<char>>) -> Result<(), ConnectErrorView> {
    match current {
        Some(context) => if context == "minikube"@ {
            Ok(())
        } else {
            Err(ConnectErrorView::WrongContext(context))
        },
        None => Err(ConnectErrorView::WrongContext(Seq::empty())),
    }
}

impl ConnectError {
    /// What is shown to the operator.
    pub fn message(&self) -> (s: String)
        ensures
            s@ == connect_error_text(self@),
    {
        match self {
            ConnectError::Config(reason) => String::from_str(
                "failed to load cluster config: ",
            ).concat(reason.as_str()),
            ConnectError::Unreachable => String::from_str(
                "failed to connect to cluster, is minikube running?",
            ),
            ConnectError::WrongContext(context) => String::from_str(
                "not connected to minikube, current context is ",
            ).concat(context.as_str()),
        }
    }
}

/// Checks that the client is connected to minikube. `current_context` is the
/// context that the settings of the cluster name, if they name one.
pub fn get_minikube_client(current_context: Option<&str>) -> (r: Result<(), ConnectError>)
    ensures
        match r {
            Ok(()) => context_verdict(
                match current_context {
                    Some(c) => Some(c@),
                    None => None,
                },
            ) is Ok,
            Err(e) => context_verdict(
                match current_context {
                    Some(c) => Some(c@),
                    None => None,
                },
            ) == Err::<(), ConnectErrorView>(e@),
        },
{
    match current_context {
        Some(context) => if same_text(context, "minikube") {
            Ok(())
        } else {
            Err(ConnectError::WrongContext(String::from_str(context)))
        },
        None => Err(ConnectError::WrongContext(String::new())),
    }
}

} // verus!
