//! The commands that are run on the operator's machine, as lists of arguments.

use vstd::prelude::*;
use vstd::string::*;
use crate::config::Krunch;
use crate::exec::{frame_command, framed};
use crate::paths::{binary_path, get_binary_path, Binary, Host, PathError, TargetOs};
use crate::text::{same_text, texts, trim_text, trimmed};

verus! {

/// The words of a command line put together: each with a space behind it.
pub open spec fn spaced(words: Seq<Seq<char>>) -> Seq<char>
    decreases words.len(),
{
    if words.len() == 0 {
        Seq::empty()
    } else {
        spaced(words.drop_last()) + words.last().push(' ')
    }
}

/// A command with arguments behind it: each with a space in front.
pub open spec fn with_arguments(command: Seq<char>, arguments: Seq<Seq<char>>) -> Seq<char>
    decreases arguments.len(),
{
    if arguments.len() == 0 {
        command
    } else {
        with_arguments(command, arguments.drop_last()).push(' ') + arguments.last()
    }
}

/// A command as the shell of the system takes it.
pub open spec fn host_shell(command: Seq<char>, os: TargetOs) -> Seq<Seq<char>> {
    if os is Windows {
        seq!["cmd"@, "/C"@, command]
    } else {
        framed(command)
    }
}

/// The command that maps the folder `dir` of the host into the cluster.
pub open spec fn mount_command(dir: Seq<char>) -> Seq<Seq<char>> {
    seq!["minikube"@, "mount"@, dir + ":/krunch"@]
}

/// The command that moves a file to a place that only an administrator may
/// write to.
pub open spec fn move_as_admin(from: Seq<char>, to: Seq<char>) -> Seq<Seq<char>> {
    seq!["sudo"@, "-p"@, "[sudo] "@, "mv"@, from, to]
}

/// A command followed by its arguments, as one line.
pub fn join_arguments(command: &str, arguments: &Vec<String>) -> (r: String)
    ensures
        r@ == with_arguments(command@, texts(arguments@)),
{
    let mut line = String::from_str(command);
    let mut i: usize = 0;
    while i < arguments.len()
        invariant
            i <= arguments.len(),
            line@ == with_arguments(command@, texts(arguments@).take(i as int)),
        decreases arguments.len() - i,
    {
        let ghost upto = texts(arguments@).take(i + 1);
        assert(upto.drop_last() == texts(arguments@).take(i as int));
        proof {
            reveal_strlit(" ");
        }
        line = line.concat(" ").concat(arguments[i].as_str());
        i = i + 1;
    }
    assert(texts(arguments@).take(i as int) == texts(arguments@));
    line
}

impl Krunch {
    /// The words of a command line, framed for the pod.
    pub fn create_command(words: &Vec<String>) -> (r: Vec<String>)
        ensures
            texts(r@) == framed(spaced(texts(words@))),
    {
        let mut line = String::new();
        let mut i: usize = 0;
        while i < words.len()
            invariant
                i <= words.len(),
                line@ == spaced(texts(words@).take(i as int)),
            decreases words.len() - i,
        {
            let ghost upto = texts(words@).take(i + 1);
            assert(upto.drop_last() == texts(words@).take(i as int));
            proof {
                reveal_strlit(" ");
            }
            line = line.concat(words[i].as_str()).concat(" ");
            i = i + 1;
        }
        assert(texts(words@).take(i as int) == texts(words@));
        frame_command(line.as_str())
    }

    /// A command as the shell of the operator's machine takes it.
    pub fn execute_host_command(command: &str, os: TargetOs) -> (r: Vec<String>)
        ensures
            texts(r@) == host_shell(command@, os),
    {
        match os {
            TargetOs::Windows => {
                let r = vec![
                    String::from_str("cmd"),
                    String::from_str("/C"),
                    String::from_str(command),
                ];
                r
            },
            _ => frame_command(command),
        }
    }

    /// A tool with its arguments, as the shell of the operator's machine takes
    /// it. Fails where the tool lies below the home directory and that is not
    /// known.
    pub fn execute_command(binary: Binary, arguments: &str, host: &Host) -> (r: Result<
        Vec<String>,
        PathError,
    >)
        ensures
            match (binary, host.home) {
                (Binary::Minikube, _) => r matches Ok(c) && texts(c@) == host_shell(
                    "minikube"@ + " "@ + arguments@,
                    host.os,
                ),
                (_, Some(home)) => r matches Ok(c) && texts(c@) == host_shell(
                    binary_path(binary, home@, host.os) + " "@ + arguments@,
                    host.os,
                ),
                (_, None) => r == Err::<Vec<String>, PathError>(PathError::NoHome),
            },
    {
        match get_binary_path(binary, host) {
            Err(e) => Err(e),
            Ok(path) => {
                let line = path.concat(" ").concat(arguments);
                Ok(Krunch::execute_host_command(line.as_str(), host.os))
            },
        }
    }

    /// The command that maps the folder `current_dir` of the host into the
    /// cluster.
    pub fn mount_current_path(current_dir: &str) -> (r: Vec<String>)
        ensures
            texts(r@) == mount_command(current_dir@),
    {
        let r = vec![
            String::from_str("minikube"),
            String::from_str("mount"),
            String::from_str(current_dir).concat(":/krunch"),
        ];
        r
    }

    /// The command for the pod that deletes the pod `pod_name`, so that the
    /// deployment starts a new one that sees the mapped folder.
    pub fn restart_pod_command(pod_name: &str) -> (r: String)
        ensures
            r@ == "kubectl delete po "@ + pod_name@,
    {
        String::from_str("kubectl delete po ").concat(pod_name)
    }

    /// The command for the host that takes the mapped folder away again.
    pub fn unmount() -> (r: String)
        ensures
            r@ == "minikube ssh \"sudo umount /krunch && sudo rm -rf /krunch\""@,
    {
        String::from_str("minikube ssh \"sudo umount /krunch && sudo rm -rf /krunch\"")
    }
}

/// The command that moves the file `from` to `to` with the rights of an
/// administrator.
pub fn copy_as_admin_unix(from: &str, to: &str) -> (r: Vec<String>)
    ensures
        texts(r@) == move_as_admin(from@, to@),
{
    let r = vec![
        String::from_str("sudo"),
        String::from_str("-p"),
        String::from_str("[sudo] "),
        String::from_str("mv"),
        String::from_str(from),
        String::from_str(to),
    ];
    r
}

/// What the shell of Windows is told so that it copies `from` to `to` and
/// leaves what went wrong in `log`.
pub open spec fn copy_item(from: Seq<char>, to: Seq<char>, log: Seq<char>) -> Seq<char> {
    "'Copy-Item -Path \""@ + from + "\" -Destination \""@ + to + "\" -Force 2> \""@ + log + "\"'"@
}

/// The arguments with which the shell of Windows copies `from` to `to` with the
/// rights of an administrator.
pub open spec fn copy_as_admin(from: Seq<char>, to: Seq<char>, log: Seq<char>) -> Seq<Seq<char>> {
    seq![
        "Start-Process"@,
        "-FilePath"@,
        "powershell"@,
        "-WindowStyle"@,
        "Hidden"@,
        "-Wait"@,
        "-Verb"@,
        "RunAs"@,
        "-ArgumentList"@,
        copy_item(from, to, log),
    ]
}

/// The arguments with which the shell of Windows copies the file `from` to `to`
/// with the rights of an administrator, leaving what went wrong in `log`.
pub fn copy_as_admin_windows(from: &str, to: &str, log: &str) -> (r: Vec<String>)
    ensures
        texts(r@) == copy_as_admin(from@, to@, log@),
{
    let copy = String::from_str("'Copy-Item -Path \"").concat(from).concat(
        "\" -Destination \"",
    ).concat(to).concat("\" -Force 2> \"").concat(log).concat("\"'");
    let r = vec![
        String::from_str("Start-Process"),
        String::from_str("-FilePath"),
        String::from_str("powershell"),
        String::from_str("-WindowStyle"),
        String::from_str("Hidden"),
        String::from_str("-Wait"),
        String::from_str("-Verb"),
        String::from_str("RunAs"),
        String::from_str("-ArgumentList"),
        copy,
    ];
    r
}

/// What the copy with the rights of an administrator came to: it went well
/// exactly when it left nothing in its log.
pub fn copy_result(log: &str) -> (r: Result<(), String>)
    ensures
        log@.len() == 0 ==> r is Ok,
        log@.len() > 0 ==> (r matches Err(m) && m@ == "copy failure: "@ + log@),
{
    if log.unicode_len() == 0 {
        Ok(())
    } else {
        Err(String::from_str("copy failure: ").concat(log))
    }
}

/// What the operator answered to the question whether to go on as an
/// administrator: `y` is yes, `n` and no answer are no, anything else is no
/// answer at all.
pub open spec fn admin_answer(input: Seq<char>) -> Option<bool> {
    let answer = trimmed(input);
    if answer == "y"@ || answer == "Y"@ {
        Some(true)
    } else if answer == "n"@ || answer == "N"@ || answer.len() == 0 {
        Some(false)
    } else {
        None
    }
}

/// Reads the operator's answer to the question whether to go on as an
/// administrator. `None` means that the question has to be asked again.
pub fn should_continue_as_admin(input: &str) -> (r: Option<bool>)
    ensures
        r == admin_answer(input@),
{
    let answer = trim_text(input);
    let a = answer.as_str();
    if same_text(a, "y") || same_text(a, "Y") {
        Some(true)
    } else if same_text(a, "n") || same_text(a, "N") || a.unicode_len() == 0 {
        Some(false)
    } else {
        None
    }
}

/// The two commands with which the password for the rights of an administrator
/// is asked for anew and then checked.
pub fn sudo_check() -> (r: Vec<Vec<String>>)
    ensures
        r@.len() == 2,
        texts(r@[0]@) == seq!["sudo"@, "-k"@],
        texts(r@[1]@) == seq!["sudo"@, "true"@],
{
    let forget = vec![String::from_str("sudo"), String::from_str("-k")];
    let check = vec![String::from_str("sudo"), String::from_str("true")];
    vec![forget, check]
}

} // verus!
