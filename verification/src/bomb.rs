//! Clearing a namespace of everything that was deployed to it: the releases of
//! helm first, then the plain objects. Each command runs in the pod; what it
//! prints decides the next one.

use vstd::prelude::*;
use vstd::string::*;
use crate::config::Krunch;
use crate::text::{begins_with, chars_of, lists, optional_text, same_chars, starts_with, string_of, words, words_of};

verus! {

/// A command for the pod, and which of its output channels are copied live.
#[derive(Clone, Debug, PartialEq, Eq)]
pub struct PodCommand {
    pub command: String,
    pub print_to_stdout: bool,
    pub print_to_stderr: bool,
}

/// Why a namespace is not cleared.
#[derive(Clone, Debug, PartialEq, Eq)]
pub enum BombError {
    /// The namespace belongs to the cluster or to the environment; the text is
    /// its name.
    NotAllowed(String),
}

/// Where the clearing of a namespace stands. Each state but the last holds the
/// name of the namespace.
#[derive(Clone, Debug, PartialEq, Eq)]
pub enum BombState {
    /// The releases of helm have been asked for.
    ListingReleases(String),
    /// The releases of helm are being deleted.
    DeletingReleases(String),
    /// The plain objects have been asked for.
    ListingResources(String),
    /// The plain objects are being deleted.
    DeletingResources,
    Done,
}

/// A word that announces the name of a namespace.
pub open spec fn is_namespace_flag(word: Seq<char>) -> bool {
    word == "-n"@ || word == "--namespace"@
}

/// The word behind the first word that announces a namespace, if there is such
/// a word and one behind it.
pub open spec fn namespace_in(words: Seq<Seq<char>>) -> Option<Seq<char>>
    decreases words.len(),
{
    if words.len() == 0 {
        None
    } else if is_namespace_flag(words[0]) {
        if words.len() >= 2 {
            Some(words[1])
        } else {
            None
        }
    } else {
        namespace_in(words.skip(1))
    }
}

/// The namespace that a command line names.
pub open spec fn namespace_of(command: Seq<char>) -> Option<Seq<char>> {
    namespace_in(words_of(command))
}

/// The namespace that a command line is about: the one it names, else `default`.
pub open spec fn target_namespace(command: Seq<char>) -> Seq<char> {
    match namespace_of(command) {
        Some(ns) => ns,
        None => "default"@,
    }
}

/// The namespaces that must not be cleared: those of the cluster, of the ingress
/// and of the environment.
pub open spec fn is_protected(ns: Seq<char>) -> bool {
    begins_with(ns, "kube-"@) || begins_with(ns, "ingress-"@) || begins_with(ns, "krunch"@)
}

/// The command that lists the releases of helm in a namespace.
pub open spec fn list_releases(ns: Seq<char>) -> Seq<char> {
    "helm ls -n "@ + ns + " --all --short"@
}

/// The command that deletes the releases of helm in a namespace.
pub open spec fn delete_releases(ns: Seq<char>) -> Seq<char> {
    "helm ls -n "@ + ns + " --all --short | xargs -L1 helm -n "@ + ns + " delete"@
}

/// The command that lists the plain objects of a namespace, but for the service
/// of the cluster itself.
pub open spec fn list_resources(ns: Seq<char>) -> Seq<char> {
    "kubectl get all -n "@ + ns
        + " | grep -v -e \"service/kubernetes\" -e \"NAME\" -e \"^[[:blank:]]*$\" | awk '{print $1}'"@
}

/// The command that deletes the plain objects: in the namespace `default` those
/// that were listed, elsewhere all of them.
pub open spec fn delete_resources(ns: Seq<char>, listed: Seq<char>) -> Seq<char> {
    if ns == "default"@ {
        "echo '"@ + listed + "' | xargs kubectl delete -n "@ + ns
    } else {
        "kubectl get all -n "@ + ns
            + " | grep -v -e \"NAME\" -e \"^[[:blank:]]*$\" | awk '{print $1}' "@ + ns
            + " | xargs kubectl delete -n "@ + ns
    }
}

/// `c` is the command `text`, with these channels copied live.
pub open spec fn is_command(c: PodCommand, text: Seq<char>, stdout: bool, stderr: bool) -> bool {
    c.command@ == text && c.print_to_stdout == stdout && c.print_to_stderr == stderr
}

/// `c` holds the command `text`, with these channels copied live.
pub open spec fn is_next(c: Option<PodCommand>, text: Seq<char>, stdout: bool, stderr: bool) -> bool {
    c matches Some(next) && is_command(next, text, stdout, stderr)
}

/// `r` is the step that follows `state` once the command of `state` has printed
/// `stdout`.
pub open spec fn is_bomb_step(
    state: BombState,
    stdout: Seq<char>,
    r: (BombState, Option<PodCommand>),
) -> bool {
    match state {
        BombState::ListingReleases(ns) => if stdout.len() > 0 {
            r.0 == BombState::DeletingReleases(ns) && is_next(r.1, delete_releases(ns@), true, true)
        } else {
            r.0 == BombState::ListingResources(ns) && is_next(
                r.1,
                list_resources(ns@),
                false,
                false,
            )
        },
        BombState::DeletingReleases(ns) => r.0 == BombState::ListingResources(ns) && is_next(
            r.1,
            list_resources(ns@),
            false,
            false,
        ),
        BombState::ListingResources(ns) => r.0 == BombState::DeletingResources && is_next(
            r.1,
            delete_resources(ns@, stdout),
            true,
            false,
        ),
        BombState::DeletingResources => r.0 == BombState::Done && r.1 is None,
        BombState::Done => r.0 == BombState::Done && r.1 is None,
    }
}

/// `r` is the start of the clearing of the namespace that `command` is about, or
/// the refusal of a protected namespace.
pub open spec fn is_bomb_start(
    command: Seq<char>,
    r: Result<(BombState, PodCommand), BombError>,
) -> bool {
    if is_protected(target_namespace(command)) {
        r matches Err(BombError::NotAllowed(ns)) && ns@ == target_namespace(command)
    } else {
        &&& r matches Ok((state, first))
        &&& state matches BombState::ListingReleases(ns)
        &&& ns@ == target_namespace(command)
        &&& is_command(first, list_releases(ns@), false, false)
    }
}

fn list_resources_command(ns: &str) -> (c: PodCommand)
    ensures
        is_command(c, list_resources(ns@), false, false),
{
    PodCommand {
        command: String::from_str("kubectl get all -n ").concat(ns).concat(
            " | grep -v -e \"service/kubernetes\" -e \"NAME\" -e \"^[[:blank:]]*$\" | awk '{print $1}'",
        ),
        print_to_stdout: false,
        print_to_stderr: false,
    }
}

impl Krunch {
    /// The namespace that a command line names: the word behind the first `-n`
    /// or `--namespace`.
    pub fn get_namespace(s: &str) -> (r: Option<String>)
        ensures
            optional_text(r) == namespace_of(s@),
    {
        let ws = words(&chars_of(s));
        let short = chars_of("-n");
        let long = chars_of("--namespace");
        let mut i: usize = 0;
        assert(lists(ws@).skip(0) == lists(ws@));
        while i < ws.len()
            invariant
                i <= ws.len(),
                short@ == "-n"@,
                long@ == "--namespace"@,
                lists(ws@) == words_of(s@),
                namespace_in(lists(ws@).skip(i as int)) == namespace_in(lists(ws@)),
            decreases ws.len() - i,
        {
            let ghost rest = lists(ws@).skip(i as int);
            assert(rest.skip(1) == lists(ws@).skip(i + 1));
            if same_chars(&ws[i], &short) || same_chars(&ws[i], &long) {
                if i + 1 < ws.len() {
                    return Some(string_of(&ws[i + 1]));
                } else {
                    return None;
                }
            }
            i = i + 1;
        }
        None
    }

    /// Starts the clearing of the namespace that `command` is about. The
    /// namespaces of the cluster, of the ingress and of the environment are
    /// refused.
    pub fn bomb(command: &str) -> (r: Result<(BombState, PodCommand), BombError>)
        ensures
            is_bomb_start(command@, r),
    {
        let ns = match Krunch::get_namespace(command) {
            Some(ns) => ns,
            None => String::from_str("default"),
        };
        if starts_with(ns.as_str(), "kube-") || starts_with(ns.as_str(), "ingress-") || starts_with(
            ns.as_str(),
            "krunch",
        ) {
            return Err(BombError::NotAllowed(ns));
        }
        let first = PodCommand {
            command: String::from_str("helm ls -n ").concat(ns.as_str()).concat(" --all --short"),
            print_to_stdout: false,
            print_to_stderr: false,
        };
        Ok((BombState::ListingReleases(ns), first))
    }

    /// The next step of the clearing: `stdout` is what the command of `state`
    /// printed.
    pub fn bomb_step(state: BombState, stdout: &str) -> (r: (BombState, Option<PodCommand>))
        ensures
            is_bomb_step(state, stdout@, r),
    {
        match state {
            BombState::ListingReleases(ns) => {
                if stdout.unicode_len() > 0 {
                    let c = PodCommand {
                        command: String::from_str("helm ls -n ").concat(ns.as_str()).concat(
                            " --all --short | xargs -L1 helm -n ",
                        ).concat(ns.as_str()).concat(" delete"),
                        print_to_stdout: true,
                        print_to_stderr: true,
                    };
                    (BombState::DeletingReleases(ns), Some(c))
                } else {
                    let c = list_resources_command(ns.as_str());
                    (BombState::ListingResources(ns), Some(c))
                }
            },
            BombState::DeletingReleases(ns) => {
                let c = list_resources_command(ns.as_str());
                (BombState::ListingResources(ns), Some(c))
            },
            BombState::ListingResources(ns) => {
                let command = if crate::text::same_text(ns.as_str(), "default") {
                    String::from_str("echo '").concat(stdout).concat(
                        "' | xargs kubectl delete -n ",
                    ).concat(ns.as_str())
                } else {
                    String::from_str("kubectl get all -n ").concat(ns.as_str()).concat(
                        " | grep -v -e \"NAME\" -e \"^[[:blank:]]*$\" | awk '{print $1}' ",
                    ).concat(ns.as_str()).concat(" | xargs kubectl delete -n ").concat(ns.as_str())
                };
                (
                    BombState::DeletingResources,
                    Some(PodCommand { command, print_to_stdout: true, print_to_stderr: false }),
                )
            },
            BombState::DeletingResources => (BombState::Done, None),
            BombState::Done => (BombState::Done, None),
        }
    }
}

} // verus!
