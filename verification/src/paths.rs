//! Where the tools and the files of the environment live on the operator's
//! machine.

use vstd::prelude::*;
use vstd::string::*;
use crate::outside::home_dir;
use crate::text::{chars_of, contains, has_part, push_all, string_of};

verus! {

/// The systems that the environment runs on.
#[derive(Clone, Copy, Debug, PartialEq, Eq, Structural)]
pub enum TargetOs {
    Windows,
    MacOs,
    Linux,
}

/// The processors that the environment runs on.
#[derive(Clone, Copy, Debug, PartialEq, Eq, Structural)]
pub enum TargetArch {
    Amd64,
    Arm64,
}

/// The tools that the environment is made of.
#[derive(Clone, Copy, Debug, PartialEq, Eq, Structural)]
pub enum Binary {
    Docker,
    Buildx,
    Kubectl,
    Helm,
    Skaffold,
    K9S,
    Mkcert,
    Minikube,
}

/// What is known of the operator's machine. It is found out once and handed to
/// whoever needs it.
#[derive(Clone, Debug, PartialEq, Eq)]
pub struct Host {
    pub os: TargetOs,
    pub arch: TargetArch,
    /// The home directory of the user, if it could be found.
    pub home: Option<String>,
    /// The login shell of the user, if it is known.
    pub shell: Option<String>,
}

/// Why a path could not be told.
#[derive(Clone, Copy, Debug, PartialEq, Eq, Structural)]
pub enum PathError {
    /// The home directory could not be found.
    NoHome,
    /// The login shell is not known.
    NoShell,
    /// The login shell is neither bash nor zsh.
    UnsupportedShell,
    /// None of the profile files of the shell is there.
    NoProfile,
}

/// The character that separates the parts of a path.
pub open spec fn separator(os: TargetOs) -> char {
    if os is Windows {
        '\\'
    } else {
        '/'
    }
}

/// What executable files end with.
pub open spec fn extension(os: TargetOs) -> Seq<char> {
    if os is Windows {
        ".exe"@
    } else {
        Seq::empty()
    }
}

/// The path of `part` below `base`: the two with one separator between them. An
/// empty `base` gives `part` alone.
pub open spec fn below(base: Seq<char>, part: Seq<char>, os: TargetOs) -> Seq<char> {
    if base.len() == 0 {
        part
    } else if base.last() == separator(os) {
        base + part
    } else {
        base.push(separator(os)) + part
    }
}

/// The name of the file of a tool, without what executable files end with.
pub open spec fn tool_name(binary: Binary) -> Seq<char> {
    match binary {
        Binary::Docker => "docker"@,
        Binary::Buildx => "docker-buildx"@,
        Binary::Kubectl => "kubectl"@,
        Binary::Helm => "helm"@,
        Binary::Skaffold => "skaffold"@,
        Binary::K9S => "k9s"@,
        Binary::Mkcert => "mkcert"@,
        Binary::Minikube => "minikube"@,
    }
}

/// The folder of the environment below the home directory.
pub open spec fn krunch_folder(home: Seq<char>, os: TargetOs) -> Seq<char> {
    below(home, ".krunch"@, os)
}

/// The folder that the tools are put in.
pub open spec fn bin_folder(home: Seq<char>, os: TargetOs) -> Seq<char> {
    below(home, ".krunch/bin"@, os)
}

/// The file that holds the wanted versions of the tools.
pub open spec fn config_file(home: Seq<char>, os: TargetOs) -> Seq<char> {
    below(home, ".krunch/config.json"@, os)
}

/// The folder in which docker looks for its plugins.
pub open spec fn buildx_folder(home: Seq<char>, os: TargetOs) -> Seq<char> {
    below(home, ".docker/cli-plugins"@, os)
}

/// The file of a tool. Minikube is taken from the search path; buildx lies with
/// the plugins of docker; every other tool lies in the folder of the tools.
pub open spec fn binary_path(binary: Binary, home: Seq<char>, os: TargetOs) -> Seq<char> {
    match binary {
        Binary::Minikube => "minikube"@,
        Binary::Buildx => below(buildx_folder(home, os), tool_name(binary) + extension(os), os),
        _ => below(bin_folder(home, os), tool_name(binary) + extension(os), os),
    }
}

/// The file in which the names of hosts are kept.
pub open spec fn etc_hosts(os: TargetOs) -> Seq<char> {
    if os is Windows {
        "C:/Windows/System32/Drivers/etc/hosts"@
    } else {
        "/etc/hosts"@
    }
}

/// The path of `part` below `base`.
pub fn join_path(base: &str, part: &str, os: TargetOs) -> (r: String)
    ensures
        r@ == below(base@, part@, os),
{
    let mut path = chars_of(base);
    let sep = match os {
        TargetOs::Windows => '\\',
        _ => '/',
    };
    if path.len() > 0 && path[path.len() - 1] != sep {
        path.push(sep);
    }
    push_all(&mut path, &chars_of(part));
    string_of(&path)
}

/// The file in which the names of hosts are kept.
pub fn get_etc_hosts_path(os: TargetOs) -> (r: String)
    ensures
        r@ == etc_hosts(os),
{
    match os {
        TargetOs::Windows => String::from_str("C:/Windows/System32/Drivers/etc/hosts"),
        _ => String::from_str("/etc/hosts"),
    }
}

impl Binary {
    /// The name of the file of the tool on `os`.
    pub fn file_name(self, os: TargetOs) -> (r: String)
        ensures
            r@ == tool_name(self) + extension(os),
    {
        let name = match self {
            Binary::Docker => String::from_str("docker"),
            Binary::Buildx => String::from_str("docker-buildx"),
            Binary::Kubectl => String::from_str("kubectl"),
            Binary::Helm => String::from_str("helm"),
            Binary::Skaffold => String::from_str("skaffold"),
            Binary::K9S => String::from_str("k9s"),
            Binary::Mkcert => String::from_str("mkcert"),
            Binary::Minikube => String::from_str("minikube"),
        };
        match os {
            TargetOs::Windows => name.concat(".exe"),
            _ => {
                name
            },
        }
    }
}

impl Host {
    /// The machine with the given system, processor and shell, and with the home
    /// directory that the environment shows.
    pub fn new(os: TargetOs, arch: TargetArch, shell: Option<String>) -> (h: Host)
        ensures
            h.os == os,
            h.arch == arch,
            h.shell == shell,
    {
        Host { os, arch, home: home_dir(), shell }
    }

    /// The home directory.
    pub fn home_folder(&self) -> (r: Result<&str, PathError>)
        ensures
            match self.home {
                Some(home) => r matches Ok(h) && h@ == home@,
                None => r == Err::<&str, PathError>(PathError::NoHome),
            },
    {
        match &self.home {
            Some(home) => Ok(home.as_str()),
            None => Err(PathError::NoHome),
        }
    }
}

/// `r` is the path that `path` gives for the home directory of `host`, or the
/// error that the home directory is not known.
pub open spec fn is_home_path(
    host: Host,
    r: Result<String, PathError>,
    path: spec_fn(Seq<char>, TargetOs) -> Seq<char>,
) -> bool {
    match host.home {
        Some(home) => r matches Ok(p) && p@ == path(home@, host.os),
        None => r == Err::<String, PathError>(PathError::NoHome),
    }
}

/// The folder of the environment.
pub fn get_krunch_folder(host: &Host) -> (r: Result<String, PathError>)
    ensures
        is_home_path(*host, r, |h: Seq<char>, os: TargetOs| krunch_folder(h, os)),
{
    match host.home_folder() {
        Ok(home) => Ok(join_path(home, ".krunch", host.os)),
        Err(e) => Err(e),
    }
}

/// The folder that the tools are put in.
pub fn get_bin_folder(host: &Host) -> (r: Result<String, PathError>)
    ensures
        is_home_path(*host, r, |h: Seq<char>, os: TargetOs| bin_folder(h, os)),
{
    match host.home_folder() {
        Ok(home) => Ok(join_path(home, ".krunch/bin", host.os)),
        Err(e) => Err(e),
    }
}

/// The file that holds the wanted versions of the tools.
pub fn get_config_file_path(host: &Host) -> (r: Result<String, PathError>)
    ensures
        is_home_path(*host, r, |h: Seq<char>, os: TargetOs| config_file(h, os)),
{
    match host.home_folder() {
        Ok(home) => Ok(join_path(home, ".krunch/config.json", host.os)),
        Err(e) => Err(e),
    }
}

/// The folder in which docker looks for its plugins.
pub fn get_buildx_folder(host: &Host) -> (r: Result<String, PathError>)
    ensures
        is_home_path(*host, r, |h: Seq<char>, os: TargetOs| buildx_folder(h, os)),
{
    match host.home_folder() {
        Ok(home) => Ok(join_path(home, ".docker/cli-plugins", host.os)),
        Err(e) => Err(e),
    }
}

/// The file of a tool. Only minikube can be told without the home directory.
pub fn get_binary_path(binary: Binary, host: &Host) -> (r: Result<String, PathError>)
    ensures
        binary is Minikube ==> (r matches Ok(p) && p@ == "minikube"@),
        !(binary is Minikube) ==> is_home_path(
            *host,
            r,
            |h: Seq<char>, os: TargetOs| binary_path(binary, h, os),
        ),
{
    let folder = match binary {
        Binary::Minikube => {
            return Ok(String::from_str("minikube"));
        },
        Binary::Buildx => get_buildx_folder(host),
        _ => get_bin_folder(host),
    };
    match folder {
        Ok(folder) => Ok(join_path(folder.as_str(), binary.file_name(host.os).as_str(), host.os)),
        Err(e) => Err(e),
    }
}

/// The names of the files, below the home directory, in which a shell of the
/// bash family keeps its settings, in the order in which they are looked for.
pub open spec fn bash_profiles() -> Seq<Seq<char>> {
    seq![".bashrc"@, ".bash_profile"@, ".bash_login"@, ".profile"@]
}

/// The same for zsh.
pub open spec fn zsh_profiles() -> Seq<Seq<char>> {
    seq![".zshrc"@, ".zprofile"@, ".zlogin"@]
}

/// The profile files that belong to a shell: those of bash where its name holds
/// `bash`, else those of zsh where it holds `zsh`, else none.
pub open spec fn profiles_of(shell: Seq<char>) -> Option<Seq<Seq<char>>> {
    if has_part(shell, "bash"@) {
        Some(bash_profiles())
    } else if has_part(shell, "zsh"@) {
        Some(zsh_profiles())
    } else {
        None
    }
}

/// `r` is the list of the files in which the shell of `host` may keep its
/// settings, each below the home directory, or the reason why there is none.
pub open spec fn is_profile_list(host: Host, r: Result<Vec<String>, PathError>) -> bool {
    match host.shell {
        None => r == Err::<Vec<String>, PathError>(PathError::NoShell),
        Some(shell) => match profiles_of(shell@) {
            None => r == Err::<Vec<String>, PathError>(PathError::UnsupportedShell),
            Some(files) => match host.home {
                None => r == Err::<Vec<String>, PathError>(PathError::NoHome),
                Some(home) => r matches Ok(paths) && paths@.len() == files.len() && forall|i: int|
                    0 <= i < files.len() ==> (#[trigger] paths@[i])@ == below(
                        home@,
                        files[i],
                        host.os,
                    ),
            },
        },
    }
}

/// The files in which the shell of the user may keep its settings, in the order
/// in which they are to be looked for.
pub fn shell_profile_candidates(host: &Host) -> (r: Result<Vec<String>, PathError>)
    ensures
        is_profile_list(*host, r),
{
    let shell = match &host.shell {
        None => {
            return Err(PathError::NoShell);
        },
        Some(shell) => shell.as_str(),
    };
    let bash = contains(shell, "bash");
    if !bash && !contains(shell, "zsh") {
        return Err(PathError::UnsupportedShell);
    }
    let home = match host.home_folder() {
        Err(e) => {
            return Err(e);
        },
        Ok(home) => home,
    };
    if bash {
        Ok(
            vec![
                join_path(home, ".bashrc", host.os),
                join_path(home, ".bash_profile", host.os),
                join_path(home, ".bash_login", host.os),
                join_path(home, ".profile", host.os),
            ],
        )
    } else {
        Ok(
            vec![
                join_path(home, ".zshrc", host.os),
                join_path(home, ".zprofile", host.os),
                join_path(home, ".zlogin", host.os),
            ],
        )
    }
}

/// The first of `candidates` that is there. `exists[i]` says whether candidate
/// `i` is there.
pub fn get_shell_profile_path(candidates: &Vec<String>, exists: &Vec<bool>) -> (r: Result<
    String,
    PathError,
>)
    requires
        exists@.len() == candidates@.len(),
    ensures
        match r {
            Ok(path) => exists|i: int|
                0 <= i < candidates@.len() && exists@[i] && path == candidates@[i] && forall|j: int|
                    0 <= j < i ==> !exists@[j],
            Err(e) => e == PathError::NoProfile && forall|j: int|
                0 <= j < exists@.len() ==> !exists@[j],
        },
{
    let mut i: usize = 0;
    while i < candidates.len()
        invariant
            i <= candidates.len(),
            exists@.len() == candidates@.len(),
            forall|j: int| 0 <= j < i ==> !exists@[j],
        decreases candidates.len() - i,
    {
        if exists[i] {
            return Ok(candidates[i].clone());
        }
        i = i + 1;
    }
    Err(PathError::NoProfile)
}

} // verus!
