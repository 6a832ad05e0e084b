//! What the installer and the remover do on the operator's machine, step by
//! step, and what they show while they do it.

use vstd::prelude::*;
use vstd::string::*;
use crate::text::{pad_right, padded_to};

verus! {

/// The steps of the installer, in the order in which they run.
#[derive(Clone, Copy, Debug, PartialEq, Eq, Structural)]
pub enum InstallStep {
    DownloadTools,
    AddToPath,
    PointDockerAtCluster,
    EnableIngress,
    CreateDnsEntry,
    CreateCaAndTls,
}

/// The steps of the remover, in the order in which they run.
#[derive(Clone, Copy, Debug, PartialEq, Eq, Structural)]
pub enum RemoveStep {
    EnvironmentEntries,
    DnsEntry,
    CaAndTls,
    DownloadedFiles,
}

/// Whether a step is run, and if not, why.
#[derive(Clone, Copy, Debug, PartialEq, Eq, Structural)]
pub enum Decision {
    Run,
    /// The operator did not go on as an administrator.
    SkippedNotAdmin,
    /// A step that needs the tools was skipped, so the tools stay.
    SkippedStillNeeded,
}

/// The width to which the announcement of a step is filled with spaces.
pub open spec fn label_width() -> nat {
    35
}

/// The text that announces a step of the installer.
pub open spec fn install_label(step: InstallStep) -> Seq<char> {
    match step {
        InstallStep::DownloadTools => "downloading tools"@,
        InstallStep::AddToPath => "adding tools to PATH"@,
        InstallStep::PointDockerAtCluster => "point docker cli to minikube"@,
        InstallStep::EnableIngress => "enabling ingress addon"@,
        InstallStep::CreateDnsEntry => "creating DNS entry"@,
        InstallStep::CreateCaAndTls => "creating CA and TLS secret"@,
    }
}

/// The text that announces a step of the remover.
pub open spec fn remove_label(step: RemoveStep) -> Seq<char> {
    match step {
        RemoveStep::EnvironmentEntries => "deleting environment entries"@,
        RemoveStep::DnsEntry => "deleting DNS entry"@,
        RemoveStep::CaAndTls => "deleting CA and TLS secret"@,
        RemoveStep::DownloadedFiles => "deleting downloaded files"@,
    }
}

/// Whether a step of the installer needs the rights of an administrator.
pub open spec fn install_needs_admin(step: InstallStep) -> bool {
    step is CreateDnsEntry || step is CreateCaAndTls
}

/// What the installer does with a step.
pub open spec fn install_decision(step: InstallStep, admin: bool) -> Decision {
    if install_needs_admin(step) && !admin {
        Decision::SkippedNotAdmin
    } else {
        Decision::Run
    }
}

/// What the remover does with a step. Without the rights of an administrator the
/// local authority cannot be removed, and then its tool has to stay.
pub open spec fn remove_decision(step: RemoveStep, admin: bool) -> Decision {
    if admin || step is EnvironmentEntries {
        Decision::Run
    } else if step is DownloadedFiles {
        Decision::SkippedStillNeeded
    } else {
        Decision::SkippedNotAdmin
    }
}

/// What is shown in place of the result of a step that is not run.
pub open spec fn decision_text(d: Decision) -> Seq<char> {
    match d {
        Decision::Run => Seq::empty(),
        Decision::SkippedNotAdmin => "skipped (not admin)"@,
        Decision::SkippedStillNeeded => "skipped (needed for previously skipped step)"@,
    }
}

impl InstallStep {
    /// Whether the step needs the rights of an administrator.
    pub fn needs_admin(self) -> (r: bool)
        ensures
            r == install_needs_admin(self),
    {
        match self {
            InstallStep::CreateDnsEntry | InstallStep::CreateCaAndTls => true,
            _ => false,
        }
    }

    /// What the installer does with the step. `admin` says whether the operator
    /// goes on as an administrator.
    pub fn decide(self, admin: bool) -> (d: Decision)
        ensures
            d == install_decision(self, admin),
    {
        if self.needs_admin() && !admin {
            Decision::SkippedNotAdmin
        } else {
            Decision::Run
        }
    }

    /// The announcement of the step, filled with spaces to the common width.
    pub fn label(self) -> (r: String)
        ensures
            r@ == padded_to(install_label(self), label_width()),
    {
        let text = match self {
            InstallStep::DownloadTools => "downloading tools",
            InstallStep::AddToPath => "adding tools to PATH",
            InstallStep::PointDockerAtCluster => "point docker cli to minikube",
            InstallStep::EnableIngress => "enabling ingress addon",
            InstallStep::CreateDnsEntry => "creating DNS entry",
            InstallStep::CreateCaAndTls => "creating CA and TLS secret",
        };
        pad_right(text, 35)
    }
}

impl RemoveStep {
    /// Whether the step needs the rights of an administrator, or a step that
    /// needs them.
    pub fn needs_admin(self) -> (r: bool)
        ensures
            r == !(self is EnvironmentEntries),
    {
        match self {
            RemoveStep::EnvironmentEntries => false,
            _ => true,
        }
    }

    /// What the remover does with the step. `admin` says whether the operator
    /// goes on as an administrator.
    pub fn decide(self, admin: bool) -> (d: Decision)
        ensures
            d == remove_decision(self, admin),
    {
        if admin {
            Decision::Run
        } else {
            match self {
                RemoveStep::EnvironmentEntries => Decision::Run,
                RemoveStep::DownloadedFiles => Decision::SkippedStillNeeded,
                _ => Decision::SkippedNotAdmin,
            }
        }
    }

    /// The announcement of the step, filled with spaces to the common width.
    pub fn label(self) -> (r: String)
        ensures
            r@ == padded_to(remove_label(self), label_width()),
    {
        let text = match self {
            RemoveStep::EnvironmentEntries => "deleting environment entries",
            RemoveStep::DnsEntry => "deleting DNS entry",
            RemoveStep::CaAndTls => "deleting CA and TLS secret",
            RemoveStep::DownloadedFiles => "deleting downloaded files",
        };
        pad_right(text, 35)
    }
}

impl Decision {
    /// What is shown in place of the result of a step that is not run.
    pub fn message(self) -> (r: String)
        ensures
            r@ == decision_text(self),
    {
        match self {
            Decision::Run => String::new(),
            Decision::SkippedNotAdmin => String::from_str("skipped (not admin)"),
            Decision::SkippedStillNeeded => String::from_str(
                "skipped (needed for previously skipped step)",
            ),
        }
    }
}

/// The steps of the installer and what it does with each. `admin` says whether
/// the operator goes on as an administrator.
pub fn cli_install(admin: bool) -> (plan: Vec<(InstallStep, Decision)>)
    ensures
        plan@.len() == 6,
        plan@[0].0 == InstallStep::DownloadTools,
        plan@[1].0 == InstallStep::AddToPath,
        plan@[2].0 == InstallStep::PointDockerAtCluster,
        plan@[3].0 == InstallStep::EnableIngress,
        plan@[4].0 == InstallStep::CreateDnsEntry,
        plan@[5].0 == InstallStep::CreateCaAndTls,
        forall|i: int| 0 <= i < 6 ==> (#[trigger] plan@[i]).1 == install_decision(plan@[i].0, admin),
{
    vec![
        (InstallStep::DownloadTools, InstallStep::DownloadTools.decide(admin)),
        (InstallStep::AddToPath, InstallStep::AddToPath.decide(admin)),
        (InstallStep::PointDockerAtCluster, InstallStep::PointDockerAtCluster.decide(admin)),
        (InstallStep::EnableIngress, InstallStep::EnableIngress.decide(admin)),
        (InstallStep::CreateDnsEntry, InstallStep::CreateDnsEntry.decide(admin)),
        (InstallStep::CreateCaAndTls, InstallStep::CreateCaAndTls.decide(admin)),
    ]
}

/// The steps of the remover and what it does with each.
pub fn cli_remove(admin: bool) -> (plan: Vec<(RemoveStep, Decision)>)
    ensures
        plan@.len() == 4,
        plan@[0].0 == RemoveStep::EnvironmentEntries,
        plan@[1].0 == RemoveStep::DnsEntry,
        plan@[2].0 == RemoveStep::CaAndTls,
        plan@[3].0 == RemoveStep::DownloadedFiles,
        forall|i: int| 0 <= i < 4 ==> (#[trigger] plan@[i]).1 == remove_decision(plan@[i].0, admin),
{
    vec![
        (RemoveStep::EnvironmentEntries, RemoveStep::EnvironmentEntries.decide(admin)),
        (RemoveStep::DnsEntry, RemoveStep::DnsEntry.decide(admin)),
        (RemoveStep::CaAndTls, RemoveStep::CaAndTls.decide(admin)),
        (RemoveStep::DownloadedFiles, RemoveStep::DownloadedFiles.decide(admin)),
    ]
}

/// What is shown while a tool is fetched.
pub open spec fn download_label(target: Seq<char>) -> Seq<char> {
    padded_to("downloading "@ + target, label_width())
}

/// How the progress of a download is drawn: with a bar where the terminal is
/// wider than 100 columns, without one otherwise.
pub open spec fn progress_template(columns: nat) -> Seq<char> {
    if columns <= 100 {
        "\r{msg}{bytes}/{total_bytes}"@
    } else {
        "\r{msg}[{bar:30.cyan/blue}] {bytes}/{total_bytes} ({bytes_per_sec})"@
    }
}

/// What is shown while the tool `target` is fetched.
pub fn download_message(target: &str) -> (r: String)
    ensures
        r@ == download_label(target@),
{
    pad_right(String::from_str("downloading ").concat(target).as_str(), 35)
}

/// How the progress of a download is drawn on a terminal of this width.
pub fn get_progress_bar(columns: usize) -> (r: String)
    ensures
        r@ == progress_template(columns as nat),
{
    if columns <= 100 {
        String::from_str("\r{msg}{bytes}/{total_bytes}")
    } else {
        String::from_str("\r{msg}[{bar:30.cyan/blue}] {bytes}/{total_bytes} ({bytes_per_sec})")
    }
}

/// What a fresh config file holds: the versions of the tools that are wanted
/// where the operator has chosen none.
pub open spec fn default_config() -> Seq<char> {
    "{\n  \"versions\": {\n    \"buildx\": \"0.10.4\",\n    \"docker\": \"23.0.4\",\n    \"helm\": \"3.2.0\",\n    \"k9s\": \"0.27.3\",\n    \"kubectl\": \"1.23.3\",\n    \"mkcert\": \"1.4.4\",\n    \"skaffold\": \"2.3.1\"\n  }\n}"@
}

/// What has to be written to the config file: nothing where the file is there,
/// else the default versions.
pub fn create_default_config_if_needed(exists: bool) -> (r: Option<String>)
    ensures
        exists ==> r is None,
        !exists ==> (r matches Some(text) && text@ == default_config()),
{
    if exists {
        None
    } else {
        Some(
            String::from_str(
                "{\n  \"versions\": {\n    \"buildx\": \"0.10.4\",\n    \"docker\": \"23.0.4\",\n    \"helm\": \"3.2.0\",\n    \"k9s\": \"0.27.3\",\n    \"kubectl\": \"1.23.3\",\n    \"mkcert\": \"1.4.4\",\n    \"skaffold\": \"2.3.1\"\n  }\n}",
            ),
        )
    }
}

/// What the remover shows once the downloaded files are dealt with.
pub fn remove_binaries(folder_removed: bool, plugin_removed: bool) -> (r: String)
    ensures
        r@ == if folder_removed || plugin_removed {
            "success"@
        } else {
            "nothing to do"@
        },
{
    if folder_removed || plugin_removed {
        String::from_str("success")
    } else {
        String::from_str("nothing to do")
    }
}

} // verus!
