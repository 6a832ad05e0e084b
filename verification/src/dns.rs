//! The entry in the hosts file by which the cluster is found under its name.

use vstd::prelude::*;
use vstd::string::*;
use crate::outside::{regex_replace, regex_replaced};
use crate::paths::TargetOs;
use crate::text::{contains, has_part, optional_text, trim_text, trimmed};

verus! {

/// What has to be done to a file.
#[derive(Clone, Debug, PartialEq, Eq)]
pub enum Change {
    /// Nothing: the file is as it should be.
    Unchanged,
    /// An entry was brought up to date; the text is the new content.
    Updated(String),
    /// An entry was added; the text is the new content.
    Added(String),
}

/// A `Change` with its texts as sequences of characters.
pub enum ChangeView {
    Unchanged,
    Updated(Seq<char>),
    Added(Seq<char>),
}

impl View for Change {
    type V = ChangeView;

    open spec fn view(&self) -> ChangeView {
        match *self {
            Change::Unchanged => ChangeView::Unchanged,
            Change::Updated(t) => ChangeView::Updated(t@),
            Change::Added(t) => ChangeView::Added(t@),
        }
    }
}

/// Why a file could not be edited.
#[derive(Clone, Copy, Debug, PartialEq, Eq, Structural)]
pub enum EditError {
    /// The pattern that finds the entry is no regular expression.
    BadPattern,
}

/// What ends a line on a system.
pub open spec fn line_ending(os: TargetOs) -> Seq<char> {
    if os is Windows {
        "\r\n"@
    } else {
        "\n"@
    }
}

/// The regular expression that finds the line of the cluster's name.
pub open spec fn entry_pattern(os: TargetOs) -> Seq<char> {
    "(?m)^.*k8s.local"@ + line_ending(os)
}

/// The regular expression that finds an empty line.
pub open spec fn blank_pattern(os: TargetOs) -> Seq<char> {
    "(?m)^"@ + line_ending(os)
}

/// The line that gives the cluster's name to the address `ip`.
pub open spec fn entry(ip: Seq<char>, os: TargetOs) -> Seq<char> {
    ip + "\tk8s.local"@ + line_ending(os)
}

/// The content with two line endings behind it, so that its last line is ended
/// and an empty line follows.
pub open spec fn padded(data: Seq<char>, os: TargetOs) -> Seq<char> {
    data + line_ending(os) + line_ending(os)
}

/// What a replacement leaves, trimmed; `None` where the pattern was refused.
pub open spec fn finished(replaced: Option<Seq<char>>) -> Option<Seq<char>> {
    match replaced {
        Some(t) => Some(trimmed(t)),
        None => None,
    }
}

/// The content in which the first line of the cluster's name gives the address
/// `ip`.
pub open spec fn dns_updated(data: Seq<char>, ip: Seq<char>, os: TargetOs) -> Option<Seq<char>> {
    finished(regex_replaced(entry_pattern(os), padded(data, os), entry(ip, os)))
}

/// The content with a line for the cluster's name in place of its first empty
/// line.
pub open spec fn dns_added(data: Seq<char>, ip: Seq<char>, os: TargetOs) -> Option<Seq<char>> {
    finished(regex_replaced(blank_pattern(os), padded(data, os), entry(ip, os) + line_ending(os)))
}

/// The content without the first line of the cluster's name.
pub open spec fn dns_removed(data: Seq<char>, os: TargetOs) -> Option<Seq<char>> {
    finished(regex_replaced(entry_pattern(os), padded(data, os), Seq::empty()))
}

/// What has to be done to the hosts file so that the cluster's name gives the
/// address `ip`: nothing where the address stands in it, an update where the
/// name stands in it, else an addition.
pub open spec fn dns_change(hosts: Seq<char>, ip: Seq<char>, os: TargetOs) -> Result<
    ChangeView,
    EditError,
> {
    let data = trimmed(hosts);
    if has_part(data, ip) {
        Ok(ChangeView::Unchanged)
    } else if has_part(data, "k8s.local"@) {
        match dns_updated(data, ip, os) {
            Some(t) => Ok(ChangeView::Updated(t)),
            None => Err(EditError::BadPattern),
        }
    } else {
        match dns_added(data, ip, os) {
            Some(t) => Ok(ChangeView::Added(t)),
            None => Err(EditError::BadPattern),
        }
    }
}

/// What has to be done to the hosts file so that the cluster's name is gone:
/// `None` where the name does not stand in it, else the new content.
pub open spec fn dns_removal(hosts: Seq<char>, os: TargetOs) -> Result<
    Option<Seq<char>>,
    EditError,
> {
    let data = trimmed(hosts);
    if !has_part(data, "k8s.local"@) {
        Ok(None)
    } else {
        match dns_removed(data, os) {
            Some(t) => Ok(Some(t)),
            None => Err(EditError::BadPattern),
        }
    }
}

/// A result of an edit with its texts as sequences of characters.
pub open spec fn change_view(r: Result<Change, EditError>) -> Result<ChangeView, EditError> {
    match r {
        Ok(c) => Ok(c@),
        Err(e) => Err(e),
    }
}

/// A result of a removal with its text as a sequence of characters.
pub open spec fn removal_view(r: Result<Option<String>, EditError>) -> Result<
    Option<Seq<char>>,
    EditError,
> {
    match r {
        Ok(c) => Ok(optional_text(c)),
        Err(e) => Err(e),
    }
}

fn ending(os: TargetOs) -> (r: &'static str)
    ensures
        r@ == line_ending(os),
{
    match os {
        TargetOs::Windows => "\r\n",
        _ => "\n",
    }
}

fn pad(data: &str, os: TargetOs) -> (r: String)
    ensures
        r@ == padded(data@, os),
{
    String::from_str(data).concat(ending(os)).concat(ending(os))
}

/// What a replacement leaves, trimmed.
pub fn finish_replacement(replaced: Option<String>) -> (r: Option<String>)
    ensures
        optional_text(r) == finished(optional_text(replaced)),
{
    match replaced {
        Some(t) => Some(trim_text(t.as_str())),
        None => None,
    }
}

/// The content of the hosts file in which the first line of the cluster's name
/// gives the address `minikube_ip`. `None` where the pattern was refused.
pub fn update_dns_data(data: &str, minikube_ip: &str, os: TargetOs) -> (r: Option<String>)
    ensures
        optional_text(r) == dns_updated(data@, minikube_ip@, os),
{
    let pattern = String::from_str("(?m)^.*k8s.local").concat(ending(os));
    let line = String::from_str(minikube_ip).concat("\tk8s.local").concat(ending(os));
    finish_replacement(regex_replace(pattern.as_str(), pad(data, os).as_str(), line.as_str()))
}

/// The content of the hosts file with a line for the cluster's name in place of
/// its first empty line. `None` where the pattern was refused.
pub fn add_dns_data(data: &str, minikube_ip: &str, os: TargetOs) -> (r: Option<String>)
    ensures
        optional_text(r) == dns_added(data@, minikube_ip@, os),
{
    let pattern = String::from_str("(?m)^").concat(ending(os));
    let line = String::from_str(minikube_ip).concat("\tk8s.local").concat(ending(os)).concat(
        ending(os),
    );
    finish_replacement(regex_replace(pattern.as_str(), pad(data, os).as_str(), line.as_str()))
}

/// The content of the hosts file without the first line of the cluster's name.
/// `None` where the pattern was refused.
pub fn remove_dns_data(data: &str, os: TargetOs) -> (r: Option<String>)
    ensures
        optional_text(r) == dns_removed(data@, os),
{
    let pattern = String::from_str("(?m)^.*k8s.local").concat(ending(os));
    let nothing = String::new();
    finish_replacement(regex_replace(pattern.as_str(), pad(data, os).as_str(), nothing.as_str()))
}

/// What has to be done to the hosts file so that the cluster's name gives the
/// address `minikube_ip`.
pub fn add_dns_for_minikube(hosts: &str, minikube_ip: &str, os: TargetOs) -> (r: Result<
    Change,
    EditError,
>)
    ensures
        change_view(r) == dns_change(hosts@, minikube_ip@, os),
{
    let data = trim_text(hosts);
    if contains(data.as_str(), minikube_ip) {
        Ok(Change::Unchanged)
    } else if contains(data.as_str(), "k8s.local") {
        match update_dns_data(data.as_str(), minikube_ip, os) {
            Some(t) => Ok(Change::Updated(t)),
            None => Err(EditError::BadPattern),
        }
    } else {
        match add_dns_data(data.as_str(), minikube_ip, os) {
            Some(t) => Ok(Change::Added(t)),
            None => Err(EditError::BadPattern),
        }
    }
}

/// What has to be done to the hosts file so that the cluster's name is gone.
pub fn remove_dns_for_minikube(hosts: &str, os: TargetOs) -> (r: Result<Option<String>, EditError>)
    ensures
        removal_view(r) == dns_removal(hosts@, os),
{
    let data = trim_text(hosts);
    if !contains(data.as_str(), "k8s.local") {
        Ok(None)
    } else {
        match remove_dns_data(data.as_str(), os) {
            Some(t) => Ok(Some(t)),
            None => Err(EditError::BadPattern),
        }
    }
}

/// What is shown to the operator for a change.
pub open spec fn change_text(c: ChangeView) -> Seq<char> {
    match c {
        ChangeView::Unchanged => "already done"@,
        ChangeView::Updated(_) => "minikube ip updated"@,
        ChangeView::Added(_) => "success"@,
    }
}

impl Change {
    /// What is shown to the operator.
    pub fn message(&self) -> (s: String)
        ensures
            s@ == change_text(self@),
    {
        match self {
            Change::Unchanged => String::from_str("already done"),
            Change::Updated(_) => String::from_str("minikube ip updated"),
            Change::Added(_) => String::from_str("success"),
        }
    }
}

} // verus!
