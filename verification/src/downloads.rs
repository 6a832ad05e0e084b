//! Which tools have to be fetched, and from where.

use vstd::prelude::*;
use vstd::string::*;
use crate::host::{handle_output, ProcessOutput};
use crate::outside::{regex_capture, regex_group, url_file_name, url_last_segment};
use crate::paths::{
    below, bin_folder, buildx_folder, extension, get_bin_folder, get_buildx_folder, join_path,
    tool_name, Binary, Host, PathError, TargetArch, TargetOs,
};
use crate::text::{begins_with, ends_with, finishes_with, optional_text, optional_text2, same_text, starts_with, trimmed};
use vstd::utf8::{decode_utf8, valid_utf8};

verus! {

/// One file to fetch: where from, and the name under which the tool is kept.
#[derive(Clone, Debug, PartialEq, Eq)]
pub struct Download {
    pub target: String,
    pub source: String,
}

/// A `Download` with its texts as sequences of characters.
pub struct DownloadView {
    pub target: Seq<char>,
    pub source: Seq<char>,
}

impl View for Download {
    type V = DownloadView;

    open spec fn view(&self) -> DownloadView {
        DownloadView { target: self.target@, source: self.source@ }
    }
}

/// The versions of the tools. `None` stands for a tool of which no version is
/// known.
#[derive(Clone, Debug, PartialEq, Eq)]
pub struct Versions {
    pub kubectl: Option<String>,
    pub helm: Option<String>,
    pub mkcert: Option<String>,
    pub skaffold: Option<String>,
    pub k9s: Option<String>,
    pub docker: Option<String>,
    pub buildx: Option<String>,
}

/// What the config file of the environment holds.
#[derive(Clone, Debug, PartialEq, Eq)]
pub struct KrunchConfig {
    pub versions: Versions,
}

/// Why the downloads could not be told.
#[derive(Clone, Debug, PartialEq, Eq)]
pub enum DownloadError {
    /// There are no downloads for this system on this processor.
    UnsupportedPlatform,
    /// A tool has to be fetched, but the config names no version of it.
    NoVersion(Binary),
}

/// The systems and processors for which every tool can be fetched.
pub open spec fn is_supported(os: TargetOs, arch: TargetArch) -> bool {
    arch is Amd64 || os is MacOs
}

/// How the site of docker names a system.
pub open spec fn docker_os(os: TargetOs) -> Seq<char> {
    match os {
        TargetOs::Windows => "win"@,
        TargetOs::MacOs => "mac"@,
        TargetOs::Linux => "linux"@,
    }
}

/// How most sites name a system.
pub open spec fn plain_os(os: TargetOs) -> Seq<char> {
    match os {
        TargetOs::Windows => "windows"@,
        TargetOs::MacOs => "darwin"@,
        TargetOs::Linux => "linux"@,
    }
}

/// How the releases of k9s name a system.
pub open spec fn capital_os(os: TargetOs) -> Seq<char> {
    match os {
        TargetOs::Windows => "Windows"@,
        TargetOs::MacOs => "Darwin"@,
        TargetOs::Linux => "Linux"@,
    }
}

/// How the site of docker names a processor.
pub open spec fn docker_arch(arch: TargetArch) -> Seq<char> {
    match arch {
        TargetArch::Amd64 => "x86_64"@,
        TargetArch::Arm64 => "aarch64"@,
    }
}

/// How most sites name a processor.
pub open spec fn plain_arch(arch: TargetArch) -> Seq<char> {
    match arch {
        TargetArch::Amd64 => "amd64"@,
        TargetArch::Arm64 => "arm64"@,
    }
}

/// What an archive ends with: a zip file for Windows, a packed tar file
/// otherwise. `tar` is the ending of the latter.
pub open spec fn archive_ending(os: TargetOs, tar: Seq<char>) -> Seq<char> {
    if os is Windows {
        ".zip"@
    } else {
        tar
    }
}

/// The address of docker in the given version.
pub open spec fn docker_url(os: TargetOs, arch: TargetArch, version: Seq<char>) -> Seq<char> {
    "https://download.docker.com/"@ + docker_os(os) + "/static/stable/"@ + docker_arch(arch)
        + "/docker-"@ + version + archive_ending(os, ".tgz"@)
}

/// The address of kubectl in the given version.
pub open spec fn kubectl_url(os: TargetOs, arch: TargetArch, version: Seq<char>) -> Seq<char> {
    "https://dl.k8s.io/v"@ + version + "/bin/"@ + plain_os(os) + "/"@ + plain_arch(arch)
        + "/kubectl"@ + extension(os)
}

/// The address of helm in the given version.
pub open spec fn helm_url(os: TargetOs, arch: TargetArch, version: Seq<char>) -> Seq<char> {
    "https://get.helm.sh/helm-v"@ + version + "-"@ + plain_os(os) + "-"@ + plain_arch(arch)
        + archive_ending(os, ".tar.gz"@)
}

/// The address of mkcert in the given version.
pub open spec fn mkcert_url(os: TargetOs, arch: TargetArch, version: Seq<char>) -> Seq<char> {
    "https://dl.filippo.io/mkcert/v"@ + version + "?for="@ + plain_os(os) + "/"@ + plain_arch(arch)
}

/// The address of skaffold in the given version.
pub open spec fn skaffold_url(os: TargetOs, arch: TargetArch, version: Seq<char>) -> Seq<char> {
    "https://storage.googleapis.com/skaffold/releases/v"@ + version + "/skaffold-"@ + plain_os(os)
        + "-"@ + plain_arch(arch) + extension(os)
}

/// The address of k9s in the given version.
pub open spec fn k9s_url(os: TargetOs, arch: TargetArch, version: Seq<char>) -> Seq<char> {
    "https://github.com/derailed/k9s/releases/download/v"@ + version + "/k9s_"@ + capital_os(os)
        + "_"@ + plain_arch(arch) + ".tar.gz"@
}

/// The address of the buildx plugin of docker in the given version.
pub open spec fn buildx_url(os: TargetOs, arch: TargetArch, version: Seq<char>) -> Seq<char> {
    "https://github.com/docker/buildx/releases/download/v"@ + version + "/buildx-v"@ + version
        + "."@ + plain_os(os) + "-"@ + plain_arch(arch) + extension(os)
}

/// Where a tool is fetched from. Minikube is not fetched: it has no address.
pub open spec fn tool_url(
    binary: Binary,
    os: TargetOs,
    arch: TargetArch,
    version: Seq<char>,
) -> Seq<char> {
    match binary {
        Binary::Docker => docker_url(os, arch, version),
        Binary::Buildx => buildx_url(os, arch, version),
        Binary::Kubectl => kubectl_url(os, arch, version),
        Binary::Helm => helm_url(os, arch, version),
        Binary::Skaffold => skaffold_url(os, arch, version),
        Binary::K9S => k9s_url(os, arch, version),
        Binary::Mkcert => mkcert_url(os, arch, version),
        Binary::Minikube => Seq::empty(),
    }
}

fn plain_os_name(os: TargetOs) -> (r: &'static str)
    ensures
        r@ == plain_os(os),
{
    match os {
        TargetOs::Windows => "windows",
        TargetOs::MacOs => "darwin",
        TargetOs::Linux => "linux",
    }
}

fn plain_arch_name(arch: TargetArch) -> (r: &'static str)
    ensures
        r@ == plain_arch(arch),
{
    match arch {
        TargetArch::Amd64 => "amd64",
        TargetArch::Arm64 => "arm64",
    }
}

fn exe_ending(os: TargetOs) -> (r: &'static str)
    ensures
        r@ == extension(os),
{
    match os {
        TargetOs::Windows => ".exe",
        _ => {
            proof {
                reveal_strlit("");
            }
            ""
        },
    }
}

/// Where docker is fetched from in the given version.
pub fn get_docker_url(os: TargetOs, arch: TargetArch, version: &str) -> (r: String)
    ensures
        r@ == docker_url(os, arch, version@),
{
    let os_str = match os {
        TargetOs::Windows => "win",
        TargetOs::MacOs => "mac",
        TargetOs::Linux => "linux",
    };
    let ext = match os {
        TargetOs::Windows => ".zip",
        _ => ".tgz",
    };
    let arch_str = match arch {
        TargetArch::Amd64 => "x86_64",
        TargetArch::Arm64 => "aarch64",
    };
    String::from_str("https://download.docker.com/").concat(os_str).concat(
        "/static/stable/",
    ).concat(arch_str).concat("/docker-").concat(version).concat(ext)
}

/// Where kubectl is fetched from in the given version.
pub fn get_kubectl_url(os: TargetOs, arch: TargetArch, version: &str) -> (r: String)
    ensures
        r@ == kubectl_url(os, arch, version@),
{
    String::from_str("https://dl.k8s.io/v").concat(version).concat("/bin/").concat(
        plain_os_name(os),
    ).concat("/").concat(plain_arch_name(arch)).concat("/kubectl").concat(exe_ending(os))
}

/// Where helm is fetched from in the given version.
pub fn get_helm_url(os: TargetOs, arch: TargetArch, version: &str) -> (r: String)
    ensures
        r@ == helm_url(os, arch, version@),
{
    let ext = match os {
        TargetOs::Windows => ".zip",
        _ => ".tar.gz",
    };
    String::from_str("https://get.helm.sh/helm-v").concat(version).concat("-").concat(
        plain_os_name(os),
    ).concat("-").concat(plain_arch_name(arch)).concat(ext)
}

/// Where mkcert is fetched from in the given version.
pub fn get_mkcert_url(os: TargetOs, arch: TargetArch, version: &str) -> (r: String)
    ensures
        r@ == mkcert_url(os, arch, version@),
{
    String::from_str("https://dl.filippo.io/mkcert/v").concat(version).concat("?for=").concat(
        plain_os_name(os),
    ).concat("/").concat(plain_arch_name(arch))
}

/// Where skaffold is fetched from in the given version.
pub fn get_skaffold_url(os: TargetOs, arch: TargetArch, version: &str) -> (r: String)
    ensures
        r@ == skaffold_url(os, arch, version@),
{
    String::from_str("https://storage.googleapis.com/skaffold/releases/v").concat(version).concat(
        "/skaffold-",
    ).concat(plain_os_name(os)).concat("-").concat(plain_arch_name(arch)).concat(exe_ending(os))
}

/// Where k9s is fetched from in the given version.
pub fn get_k9s_url(os: TargetOs, arch: TargetArch, version: &str) -> (r: String)
    ensures
        r@ == k9s_url(os, arch, version@),
{
    let os_str = match os {
        TargetOs::Windows => "Windows",
        TargetOs::MacOs => "Darwin",
        TargetOs::Linux => "Linux",
    };
    String::from_str("https://github.com/derailed/k9s/releases/download/v").concat(version).concat(
        "/k9s_",
    ).concat(os_str).concat("_").concat(plain_arch_name(arch)).concat(".tar.gz")
}

/// Where the buildx plugin of docker is fetched from in the given version.
pub fn get_buildx_url(os: TargetOs, arch: TargetArch, version: &str) -> (r: String)
    ensures
        r@ == buildx_url(os, arch, version@),
{
    String::from_str("https://github.com/docker/buildx/releases/download/v").concat(
        version,
    ).concat("/buildx-v").concat(version).concat(".").concat(plain_os_name(os)).concat("-").concat(
        plain_arch_name(arch),
    ).concat(exe_ending(os))
}

/// Where a tool is fetched from.
pub fn get_tool_url(binary: Binary, os: TargetOs, arch: TargetArch, version: &str) -> (r: String)
    ensures
        r@ == tool_url(binary, os, arch, version@),
{
    match binary {
        Binary::Docker => get_docker_url(os, arch, version),
        Binary::Buildx => get_buildx_url(os, arch, version),
        Binary::Kubectl => get_kubectl_url(os, arch, version),
        Binary::Helm => get_helm_url(os, arch, version),
        Binary::Skaffold => get_skaffold_url(os, arch, version),
        Binary::K9S => get_k9s_url(os, arch, version),
        Binary::Mkcert => get_mkcert_url(os, arch, version),
        Binary::Minikube => String::new(),
    }
}

/// `Versions` with their texts as sequences of characters.
pub struct VersionsView {
    pub kubectl: Option<Seq<char>>,
    pub helm: Option<Seq<char>>,
    pub mkcert: Option<Seq<char>>,
    pub skaffold: Option<Seq<char>>,
    pub k9s: Option<Seq<char>>,
    pub docker: Option<Seq<char>>,
    pub buildx: Option<Seq<char>>,
}

impl View for Versions {
    type V = VersionsView;

    open spec fn view(&self) -> VersionsView {
        VersionsView {
            kubectl: optional_text(self.kubectl),
            helm: optional_text(self.helm),
            mkcert: optional_text(self.mkcert),
            skaffold: optional_text(self.skaffold),
            k9s: optional_text(self.k9s),
            docker: optional_text(self.docker),
            buildx: optional_text(self.buildx),
        }
    }
}

/// The version of a tool in a list of versions. Minikube has none.
pub open spec fn version_of(v: VersionsView, binary: Binary) -> Option<Seq<char>> {
    match binary {
        Binary::Docker => v.docker,
        Binary::Buildx => v.buildx,
        Binary::Kubectl => v.kubectl,
        Binary::Helm => v.helm,
        Binary::Skaffold => v.skaffold,
        Binary::K9S => v.k9s,
        Binary::Mkcert => v.mkcert,
        Binary::Minikube => None,
    }
}

/// The versions that the tool was built to fetch.
pub open spec fn pinned_versions() -> VersionsView {
    VersionsView {
        kubectl: Some("1.26.0"@),
        helm: Some("3.2.0"@),
        mkcert: Some("1.4.4"@),
        skaffold: Some("2.3.1"@),
        k9s: Some("0.27.3"@),
        docker: Some("23.0.4"@),
        buildx: Some("0.10.4"@),
    }
}

/// The tools that are fetched, in the order in which they are fetched.
pub open spec fn download_order() -> Seq<Binary> {
    seq![
        Binary::Docker,
        Binary::Buildx,
        Binary::Kubectl,
        Binary::Helm,
        Binary::Mkcert,
        Binary::Skaffold,
        Binary::K9S,
    ]
}

/// The download of one tool in one version.
pub open spec fn download_of(
    binary: Binary,
    os: TargetOs,
    arch: TargetArch,
    version: Seq<char>,
) -> DownloadView {
    DownloadView {
        target: tool_name(binary) + extension(os),
        source: tool_url(binary, os, arch, version),
    }
}

/// The downloads that bring the tools of `order` from the versions `actual` to
/// the versions `expected`: a tool is fetched where the two differ. Where such a
/// tool has no expected version, the first such tool is the error.
pub open spec fn necessary(
    order: Seq<Binary>,
    os: TargetOs,
    arch: TargetArch,
    expected: VersionsView,
    actual: VersionsView,
) -> Result<Seq<DownloadView>, DownloadError>
    decreases order.len(),
{
    if order.len() == 0 {
        Ok(Seq::empty())
    } else {
        let binary = order.last();
        match necessary(order.drop_last(), os, arch, expected, actual) {
            Err(e) => Err(e),
            Ok(list) => if version_of(expected, binary) == version_of(actual, binary) {
                Ok(list)
            } else {
                match version_of(expected, binary) {
                    None => Err(DownloadError::NoVersion(binary)),
                    Some(version) => Ok(list.push(download_of(binary, os, arch, version))),
                }
            },
        }
    }
}

/// The views of a list of downloads.
pub open spec fn download_views(v: Seq<Download>) -> Seq<DownloadView> {
    v.map_values(|d: Download| d@)
}

/// The downloads that a result holds.
pub open spec fn result_views(r: Result<Vec<Download>, DownloadError>) -> Result<
    Seq<DownloadView>,
    DownloadError,
> {
    match r {
        Ok(v) => Ok(download_views(v@)),
        Err(e) => Err(e),
    }
}

impl Versions {
    /// No version is known of any tool.
    pub fn none() -> (v: Versions)
        ensures
            forall|b: Binary| version_of(v@, b) is None,
    {
        Versions {
            kubectl: None,
            helm: None,
            mkcert: None,
            skaffold: None,
            k9s: None,
            docker: None,
            buildx: None,
        }
    }

    /// The versions that the tool was built to fetch.
    pub fn pinned() -> (v: Versions)
        ensures
            v@ == pinned_versions(),
    {
        Versions {
            kubectl: Some(String::from_str("1.26.0")),
            helm: Some(String::from_str("3.2.0")),
            mkcert: Some(String::from_str("1.4.4")),
            skaffold: Some(String::from_str("2.3.1")),
            k9s: Some(String::from_str("0.27.3")),
            docker: Some(String::from_str("23.0.4")),
            buildx: Some(String::from_str("0.10.4")),
        }
    }

    /// The version of a tool.
    pub fn get(&self, binary: Binary) -> (r: Option<&str>)
        ensures
            match r {
                Some(s) => version_of(self@, binary) == Some(s@),
                None => version_of(self@, binary) is None,
            },
    {
        let field = match binary {
            Binary::Docker => &self.docker,
            Binary::Buildx => &self.buildx,
            Binary::Kubectl => &self.kubectl,
            Binary::Helm => &self.helm,
            Binary::Skaffold => &self.skaffold,
            Binary::K9S => &self.k9s,
            Binary::Mkcert => &self.mkcert,
            Binary::Minikube => {
                return None;
            },
        };
        match field {
            Some(s) => Some(s.as_str()),
            None => None,
        }
    }
}

/// Whether every tool can be fetched for this system on this processor.
pub fn platform_supported(os: TargetOs, arch: TargetArch) -> (r: bool)
    ensures
        r == is_supported(os, arch),
{
    match (os, arch) {
        (_, TargetArch::Amd64) => true,
        (TargetOs::MacOs, TargetArch::Arm64) => true,
        _ => false,
    }
}

fn all_downloads() -> (order: Vec<Binary>)
    ensures
        order@ == download_order(),
{
    let order = vec![
        Binary::Docker,
        Binary::Buildx,
        Binary::Kubectl,
        Binary::Helm,
        Binary::Mkcert,
        Binary::Skaffold,
        Binary::K9S,
    ];
    order
}

/// The downloads that bring the tools from the versions `actual` to the
/// versions `expected`.
pub fn get_necessary_downloads(
    os: TargetOs,
    arch: TargetArch,
    expected: &Versions,
    actual: &Versions,
) -> (r: Result<Vec<Download>, DownloadError>)
    ensures
        !is_supported(os, arch) ==> r == Err::<Vec<Download>, DownloadError>(
            DownloadError::UnsupportedPlatform,
        ),
        is_supported(os, arch) ==> result_views(r) == necessary(
            download_order(),
            os,
            arch,
            expected@,
            actual@,
        ),
{
    if !platform_supported(os, arch) {
        return Err(DownloadError::UnsupportedPlatform);
    }
    let order = all_downloads();
    let mut list: Vec<Download> = Vec::new();
    let mut i: usize = 0;
    assert(download_views(list@) =~= Seq::<DownloadView>::empty());
    while i < order.len()
        invariant
            i <= order.len(),
            is_supported(os, arch),
            order@ == download_order(),
            necessary(order@.take(i as int), os, arch, expected@, actual@) == Ok::<
                Seq<DownloadView>,
                DownloadError,
            >(download_views(list@)),
        decreases order.len() - i,
    {
        let binary = order[i];
        let ghost upto = order@.take(i + 1);
        assert(upto.drop_last() == order@.take(i as int));
        let ghost before = download_views(list@);
        let wanted = expected.get(binary);
        let there = actual.get(binary);
        let same = match (wanted, there) {
            (Some(a), Some(b)) => same_text(a, b),
            (None, None) => true,
            _ => false,
        };
        if !same {
            match wanted {
                None => {
                    proof {
                        lemma_error_stays(order@, (i + 1) as int, os, arch, expected@, actual@);
                    }
                    return Err(DownloadError::NoVersion(binary));
                },
                Some(version) => {
                    list.push(
                        Download {
                            target: binary.file_name(os),
                            source: get_tool_url(binary, os, arch, version),
                        },
                    );
                    assert(download_views(list@) =~= before.push(
                        download_of(binary, os, arch, version@),
                    ));
                },
            }
        }
        i = i + 1;
    }
    assert(order@.take(i as int) == order@);
    Ok(list)
}

/// An error that the first tools of `order` give is the error of all of them.
proof fn lemma_error_stays(
    order: Seq<Binary>,
    n: int,
    os: TargetOs,
    arch: TargetArch,
    expected: VersionsView,
    actual: VersionsView,
)
    requires
        0 <= n <= order.len(),
        necessary(order.take(n), os, arch, expected, actual) is Err,
    ensures
        necessary(order, os, arch, expected, actual) == necessary(
            order.take(n),
            os,
            arch,
            expected,
            actual,
        ),
    decreases order.len() - n,
{
    if n < order.len() {
        let next = order.take(n + 1);
        assert(next.drop_last() == order.take(n));
        lemma_error_stays(order, n + 1, os, arch, expected, actual);
    } else {
        assert(order.take(n) == order);
    }
}

/// Every tool in its pinned version, for a machine that has none of them.
pub fn get_downloads(os: TargetOs, arch: TargetArch) -> (r: Result<Vec<Download>, DownloadError>)
    ensures
        !is_supported(os, arch) ==> r == Err::<Vec<Download>, DownloadError>(
            DownloadError::UnsupportedPlatform,
        ),
        is_supported(os, arch) ==> (r matches Ok(list) && list@.len() == 7 && forall|i: int|
            0 <= i < 7 ==> (#[trigger] list@[i])@ == download_of(
                download_order()[i],
                os,
                arch,
                version_of(pinned_versions(), download_order()[i])->0,
            )),
{
    let pinned = Versions::pinned();
    let nothing = Versions::none();
    let r = get_necessary_downloads(os, arch, &pinned, &nothing);
    proof {
        if is_supported(os, arch) {
            let order = download_order();
            lemma_everything_is_necessary(order, os, arch, pinned@, nothing@);
            let list = r->Ok_0;
            assert forall|i: int| 0 <= i < 7 implies (#[trigger] list@[i])@ == download_of(
                order[i],
                os,
                arch,
                version_of(pinned_versions(), order[i])->0,
            ) by {
                assert(download_views(list@)[i] == list@[i]@);
            }
        }
    }
    r
}

/// Where no tool is there and every tool has an expected version, every tool is
/// fetched.
proof fn lemma_everything_is_necessary(
    order: Seq<Binary>,
    os: TargetOs,
    arch: TargetArch,
    expected: VersionsView,
    actual: VersionsView,
)
    requires
        forall|i: int|
            0 <= i < order.len() ==> version_of(expected, #[trigger] order[i]) is Some
                && version_of(actual, order[i]) is None,
    ensures
        necessary(order, os, arch, expected, actual) matches Ok(list) && list.len() == order.len()
            && forall|i: int|
            0 <= i < order.len() ==> #[trigger] list[i] == download_of(
                order[i],
                os,
                arch,
                version_of(expected, order[i])->0,
            ),
    decreases order.len(),
{
    if order.len() > 0 {
        let before = order.drop_last();
        assert forall|i: int| 0 <= i < before.len() implies version_of(
            expected,
            #[trigger] before[i],
        ) is Some && version_of(actual, before[i]) is None by {
            assert(before[i] == order[i]);
        }
        lemma_everything_is_necessary(before, os, arch, expected, actual);
        assert(version_of(expected, order[order.len() - 1]) is Some);
    }
}

/// What came of running each tool to ask for its version; `None` where the tool
/// could not be run.
#[derive(Clone, Debug, PartialEq, Eq)]
pub struct ToolRuns {
    pub kubectl: Option<ProcessOutput>,
    pub helm: Option<ProcessOutput>,
    pub mkcert: Option<ProcessOutput>,
    pub skaffold: Option<ProcessOutput>,
    pub k9s: Option<ProcessOutput>,
    pub docker: Option<ProcessOutput>,
    pub buildx: Option<ProcessOutput>,
}

/// Why the version of a tool could not be read.
#[derive(Clone, Debug, PartialEq, Eq)]
pub enum VersionError {
    /// The pattern for the version of this tool is no regular expression.
    BadPattern(Binary),
    /// The tool answered, but its answer names no version; the text is the
    /// answer.
    NotDetected(String),
}

/// A `VersionError` with its text as a sequence of characters.
pub enum VersionErrorView {
    BadPattern(Binary),
    NotDetected(Seq<char>),
}

/// The argument that makes a tool name its version.
pub open spec fn version_argument(binary: Binary) -> Seq<char> {
    if binary is Mkcert {
        "-version"@
    } else {
        "version"@
    }
}

/// The regular expression whose group 1 is the version in what a tool answers.
pub open spec fn version_pattern(binary: Binary) -> Seq<char> {
    match binary {
        Binary::Kubectl => "Client Version:.*GitVersion:\"v([\\d\\.]+)\""@,
        Binary::Docker => "Client:\\s+Version:\\s+([^\\s]+)"@,
        Binary::Helm => "Version:\"v([\\d\\.]+)\""@,
        _ => "v(\\d+\\.\\d+\\.\\d+)"@,
    }
}

/// What a tool answered, trimmed; `None` where it could not be run, failed, or
/// wrote something that is no text.
pub open spec fn raw_version(run: Option<ProcessOutput>) -> Option<Seq<char>> {
    match run {
        Some(o) => if valid_utf8(o.stdout@) && valid_utf8(o.stderr@) && o.succeeded() {
            Some(trimmed(decode_utf8(o.stdout@)))
        } else {
            None
        },
        None => None,
    }
}

/// The version that the answer `raw` names, given what the pattern captured in
/// it.
pub open spec fn version_from(
    binary: Binary,
    raw: Seq<char>,
    captured: Option<Option<Seq<char>>>,
) -> Result<Option<Seq<char>>, VersionErrorView> {
    match captured {
        None => Err(VersionErrorView::BadPattern(binary)),
        Some(None) => Err(VersionErrorView::NotDetected(raw)),
        Some(Some(version)) => Ok(Some(version)),
    }
}

/// The version of a tool, read from what came of running it: no version where
/// the tool gave no answer, else what its pattern captures in the answer.
pub open spec fn version_verdict(binary: Binary, run: Option<ProcessOutput>) -> Result<
    Option<Seq<char>>,
    VersionErrorView,
> {
    match raw_version(run) {
        None => Ok(None),
        Some(raw) => version_from(binary, raw, regex_group(version_pattern(binary), raw, 1)),
    }
}

/// A version that was read, with its texts as sequences of characters.
pub open spec fn verdict_view(r: Result<Option<String>, VersionError>) -> Result<
    Option<Seq<char>>,
    VersionErrorView,
> {
    match r {
        Ok(v) => Ok(optional_text(v)),
        Err(VersionError::BadPattern(b)) => Err(VersionErrorView::BadPattern(b)),
        Err(VersionError::NotDetected(raw)) => Err(VersionErrorView::NotDetected(raw@)),
    }
}

/// The versions of all tools: the first tool whose version cannot be read, in
/// the order kubectl, helm, mkcert, skaffold, k9s, docker, buildx, is the error.
pub open spec fn actual_versions(runs: ToolRuns) -> Result<VersionsView, VersionErrorView> {
    match version_verdict(Binary::Kubectl, runs.kubectl) {
        Err(e) => Err(e),
        Ok(kubectl) => match version_verdict(Binary::Helm, runs.helm) {
            Err(e) => Err(e),
            Ok(helm) => match version_verdict(Binary::Mkcert, runs.mkcert) {
                Err(e) => Err(e),
                Ok(mkcert) => match version_verdict(Binary::Skaffold, runs.skaffold) {
                    Err(e) => Err(e),
                    Ok(skaffold) => match version_verdict(Binary::K9S, runs.k9s) {
                        Err(e) => Err(e),
                        Ok(k9s) => match version_verdict(Binary::Docker, runs.docker) {
                            Err(e) => Err(e),
                            Ok(docker) => match version_verdict(Binary::Buildx, runs.buildx) {
                                Err(e) => Err(e),
                                Ok(buildx) => Ok(
                                    VersionsView {
                                        kubectl,
                                        helm,
                                        mkcert,
                                        skaffold,
                                        k9s,
                                        docker,
                                        buildx,
                                    },
                                ),
                            },
                        },
                    },
                },
            },
        },
    }
}

/// The versions that were read, with their texts as sequences of characters.
pub open spec fn versions_view(r: Result<Versions, VersionError>) -> Result<
    VersionsView,
    VersionErrorView,
> {
    match r {
        Ok(v) => Ok(v@),
        Err(VersionError::BadPattern(b)) => Err(VersionErrorView::BadPattern(b)),
        Err(VersionError::NotDetected(raw)) => Err(VersionErrorView::NotDetected(raw@)),
    }
}

impl Binary {
    /// The argument that makes the tool name its version.
    pub fn version_argument(self) -> (r: &'static str)
        ensures
            r@ == version_argument(self),
    {
        match self {
            Binary::Mkcert => "-version",
            _ => "version",
        }
    }

    /// The regular expression whose first group is the version in what the tool
    /// answers.
    pub fn version_pattern(self) -> (r: &'static str)
        ensures
            r@ == version_pattern(self),
    {
        match self {
            Binary::Kubectl => "Client Version:.*GitVersion:\"v([\\d\\.]+)\"",
            Binary::Docker => "Client:\\s+Version:\\s+([^\\s]+)",
            Binary::Helm => "Version:\"v([\\d\\.]+)\"",
            _ => "v(\\d+\\.\\d+\\.\\d+)",
        }
    }
}

/// The version that the answer `raw` names, given what the pattern of the tool
/// captured in it.
pub fn version_from_capture(binary: Binary, raw: String, captured: Option<Option<String>>) -> (r:
    Result<Option<String>, VersionError>)
    ensures
        verdict_view(r) == version_from(binary, raw@, optional_text2(captured)),
{
    match captured {
        None => Err(VersionError::BadPattern(binary)),
        Some(None) => Err(VersionError::NotDetected(raw)),
        Some(Some(version)) => Ok(Some(version)),
    }
}

/// The version of a tool, read from what came of running it.
pub fn get_any_version(binary: Binary, run: Option<ProcessOutput>) -> (r: Result<
    Option<String>,
    VersionError,
>)
    ensures
        verdict_view(r) == version_verdict(binary, run),
{
    let output = match run {
        None => {
            return Ok(None);
        },
        Some(output) => output,
    };
    let raw = match handle_output(output) {
        Err(_) => {
            return Ok(None);
        },
        Ok(raw) => raw,
    };
    let captured = regex_capture(binary.version_pattern(), raw.as_str(), 1);
    version_from_capture(binary, raw, captured)
}

/// The versions of the tools that are on the machine.
pub fn get_actual_versions(runs: ToolRuns) -> (r: Result<Versions, VersionError>)
    ensures
        versions_view(r) == actual_versions(runs),
{
    let kubectl = match get_any_version(Binary::Kubectl, runs.kubectl) {
        Err(e) => {
            return Err(e);
        },
        Ok(v) => v,
    };
    let helm = match get_any_version(Binary::Helm, runs.helm) {
        Err(e) => {
            return Err(e);
        },
        Ok(v) => v,
    };
    let mkcert = match get_any_version(Binary::Mkcert, runs.mkcert) {
        Err(e) => {
            return Err(e);
        },
        Ok(v) => v,
    };
    let skaffold = match get_any_version(Binary::Skaffold, runs.skaffold) {
        Err(e) => {
            return Err(e);
        },
        Ok(v) => v,
    };
    let k9s = match get_any_version(Binary::K9S, runs.k9s) {
        Err(e) => {
            return Err(e);
        },
        Ok(v) => v,
    };
    let docker = match get_any_version(Binary::Docker, runs.docker) {
        Err(e) => {
            return Err(e);
        },
        Ok(v) => v,
    };
    let buildx = match get_any_version(Binary::Buildx, runs.buildx) {
        Err(e) => {
            return Err(e);
        },
        Ok(v) => v,
    };
    Ok(Versions { kubectl, helm, mkcert, skaffold, k9s, docker, buildx })
}

/// How a fetched file is unpacked.
#[derive(Clone, Copy, Debug, PartialEq, Eq, Structural)]
pub enum ArchiveKind {
    /// A tar file packed with gzip: the tool is one of its files.
    TarGz,
    /// A zip file: the tool is one of its files.
    Zip,
    /// The tool itself.
    Plain,
}

/// The folder that a tool is kept in.
#[derive(Clone, Copy, Debug, PartialEq, Eq, Structural)]
pub enum TargetFolder {
    /// The folder of the tools.
    Bin,
    /// The folder of the plugins of docker.
    Buildx,
}

/// How a file of this name is unpacked.
pub open spec fn archive_kind_of(file: Seq<char>) -> ArchiveKind {
    if finishes_with(file, ".tar.gz"@) || finishes_with(file, ".tgz"@) {
        ArchiveKind::TarGz
    } else if finishes_with(file, ".zip"@) {
        ArchiveKind::Zip
    } else {
        ArchiveKind::Plain
    }
}

/// The folder that the tool of this name is kept in.
pub open spec fn target_folder_of(target: Seq<char>) -> TargetFolder {
    if begins_with(target, "docker-buildx"@) {
        TargetFolder::Buildx
    } else {
        TargetFolder::Bin
    }
}

/// How the fetched file at `path` is unpacked.
pub fn archive_kind(path: &str) -> (r: ArchiveKind)
    ensures
        r == archive_kind_of(path@),
{
    if ends_with(path, ".tar.gz") || ends_with(path, ".tgz") {
        ArchiveKind::TarGz
    } else if ends_with(path, ".zip") {
        ArchiveKind::Zip
    } else {
        ArchiveKind::Plain
    }
}

/// The folder that the tool called `target` is kept in.
pub fn target_folder(target: &str) -> (r: TargetFolder)
    ensures
        r == target_folder_of(target@),
{
    if starts_with(target, "docker-buildx") {
        TargetFolder::Buildx
    } else {
        TargetFolder::Bin
    }
}

/// Where the tool called `target` is kept below the home directory `home`.
pub open spec fn target_path_of(target: Seq<char>, home: Seq<char>, os: TargetOs) -> Seq<char> {
    match target_folder_of(target) {
        TargetFolder::Buildx => below(buildx_folder(home, os), target, os),
        TargetFolder::Bin => below(bin_folder(home, os), target, os),
    }
}

/// The folder that the tool called `target` is kept in, and the path of the
/// tool in it. Fails where the home directory is not known.
pub fn handle_tmp_file(target: &str, host: &Host) -> (r: Result<(String, String), PathError>)
    ensures
        match host.home {
            None => r == Err::<(String, String), PathError>(PathError::NoHome),
            Some(home) => r matches Ok((folder, path)) && path@ == target_path_of(
                target@,
                home@,
                host.os,
            ) && folder@ == match target_folder_of(target@) {
                TargetFolder::Buildx => buildx_folder(home@, host.os),
                TargetFolder::Bin => bin_folder(home@, host.os),
            },
        },
{
    let folder = match target_folder(target) {
        TargetFolder::Buildx => get_buildx_folder(host),
        TargetFolder::Bin => get_bin_folder(host),
    };
    match folder {
        Err(e) => Err(e),
        Ok(folder) => {
            let path = join_path(folder.as_str(), target, host.os);
            Ok((folder, path))
        },
    }
}

/// The addresses of the tools that the first installer fetched, in their pinned
/// versions.
#[derive(Clone, Debug, PartialEq, Eq)]
pub struct DownloadUrls {
    pub docker: String,
    pub kubectl: String,
    pub helm: String,
    pub skaffold: String,
    pub k9s: String,
}

/// The addresses of the five tools in their pinned versions.
pub open spec fn is_pinned_urls(u: DownloadUrls, os: TargetOs, arch: TargetArch) -> bool {
    &&& u.docker@ == docker_url(os, arch, "23.0.4"@)
    &&& u.kubectl@ == kubectl_url(os, arch, "1.26.0"@)
    &&& u.helm@ == helm_url(os, arch, "3.2.0"@)
    &&& u.skaffold@ == skaffold_url(os, arch, "2.3.1"@)
    &&& u.k9s@ == k9s_url(os, arch, "0.27.3"@)
}

impl DownloadUrls {
    /// The addresses for this system on this processor.
    pub fn new(os: TargetOs, arch: TargetArch) -> (r: Result<DownloadUrls, DownloadError>)
        ensures
            !is_supported(os, arch) ==> r == Err::<DownloadUrls, DownloadError>(
                DownloadError::UnsupportedPlatform,
            ),
            is_supported(os, arch) ==> (r matches Ok(u) && is_pinned_urls(u, os, arch)),
    {
        if !platform_supported(os, arch) {
            return Err(DownloadError::UnsupportedPlatform);
        }
        Ok(
            DownloadUrls {
                docker: get_docker_url(os, arch, "23.0.4"),
                kubectl: get_kubectl_url(os, arch, "1.26.0"),
                helm: get_helm_url(os, arch, "3.2.0"),
                skaffold: get_skaffold_url(os, arch, "2.3.1"),
                k9s: get_k9s_url(os, arch, "0.27.3"),
            },
        )
    }
}

/// A file as it is kept while it is fetched: its name, and how it is unpacked
/// afterwards.
#[derive(Clone, Debug, PartialEq, Eq)]
pub struct FetchedFile {
    pub name: String,
    pub kind: ArchiveKind,
}

/// The file that the address `url` is fetched to: its name is the last segment
/// of the path of the address, and the name says how it is unpacked. `None`
/// where the address has no such segment.
pub open spec fn fetched_as(url: Seq<char>, r: Option<FetchedFile>) -> bool {
    match url_last_segment(url) {
        Some(name) => r matches Some(file) && file.name@ == name && file.kind == archive_kind_of(
            name,
        ),
        None => r is None,
    }
}

/// The file that the address `url` is fetched to.
pub fn download_file(url: &str) -> (r: Option<FetchedFile>)
    ensures
        fetched_as(url@, r),
{
    match url_file_name(url) {
        Some(name) => {
            let kind = archive_kind(name.as_str());
            Some(FetchedFile { name, kind })
        },
        None => None,
    }
}

/// How far a download has got once `chunk` more bytes have arrived: never
/// further than the whole.
pub fn advance_progress(downloaded: u64, chunk: usize, total: u64) -> (r: u64)
    ensures
        r == if downloaded + chunk <= total {
            downloaded + chunk
        } else {
            total as int
        },
{
    if downloaded >= total {
        return total;
    }
    let room = total - downloaded;
    if chunk as u64 >= room {
        total
    } else {
        downloaded + chunk as u64
    }
}

} // verus!
