//! What commands on the operator's machine hand back, and how it is read.

use vstd::prelude::*;
use vstd::string::*;
use vstd::utf8::{decode_utf8, valid_utf8};
use crate::exec::{Channel, CommandResult};
use crate::text::{
    chars_of, decode_text, lines, lines_of, lists, replace_char, same_chars, split, split_on,
    string_of, trim, trimmed, without,
};

verus! {

/// What a finished process left behind.
#[derive(Clone, Debug, PartialEq, Eq)]
pub struct ProcessOutput {
    pub stdout: Vec<u8>,
    pub stderr: Vec<u8>,
    /// The exit code; `None` where the process was ended by a signal.
    pub code: Option<i32>,
}

/// Why the output of a process could not be used.
#[derive(Clone, Debug, PartialEq, Eq)]
pub enum OutputError {
    /// What the process wrote on this channel is not valid text.
    InvalidText(Channel),
    /// The process failed; the text is what it said.
    Failed(String),
    /// The process ended without an exit code.
    NoExitCode,
}

impl ProcessOutput {
    /// The process ended with exit code 0.
    pub open spec fn succeeded(self) -> bool {
        self.code == Some(0i32)
    }

    /// Whether the process ended with exit code 0.
    pub fn success(&self) -> (r: bool)
        ensures
            r == self.succeeded(),
    {
        match self.code {
            Some(code) => code == 0,
            None => false,
        }
    }
}

/// What a failed process said: what it wrote on standard error, or else what it
/// wrote on standard output, or else a fixed text.
pub open spec fn failure_text(stdout: Seq<char>, stderr: Seq<char>) -> Seq<char> {
    if stderr.len() > 0 {
        stderr
    } else if stdout.len() > 0 {
        stdout
    } else {
        "command failed without output"@
    }
}

/// `r` is what the output of a process reads as: an error where a channel is
/// not valid text, the trimmed standard output where the process succeeded, and
/// what the process said where it failed.
pub open spec fn reads_as(output: ProcessOutput, r: Result<String, OutputError>) -> bool {
    if !valid_utf8(output.stdout@) {
        r == Err::<String, OutputError>(OutputError::InvalidText(Channel::Stdout))
    } else if !valid_utf8(output.stderr@) {
        r == Err::<String, OutputError>(OutputError::InvalidText(Channel::Stderr))
    } else if output.succeeded() {
        r matches Ok(s) && s@ == trimmed(decode_utf8(output.stdout@))
    } else {
        r matches Err(OutputError::Failed(m)) && m@ == failure_text(
            trimmed(decode_utf8(output.stdout@)),
            trimmed(decode_utf8(output.stderr@)),
        )
    }
}

/// `r` is the result of a command that was run on the host: both channels as
/// text, and the exit code.
pub open spec fn is_host_result(output: ProcessOutput, r: Result<CommandResult, OutputError>) -> bool {
    if !valid_utf8(output.stdout@) {
        r == Err::<CommandResult, OutputError>(OutputError::InvalidText(Channel::Stdout))
    } else if !valid_utf8(output.stderr@) {
        r == Err::<CommandResult, OutputError>(OutputError::InvalidText(Channel::Stderr))
    } else if output.code is None {
        r == Err::<CommandResult, OutputError>(OutputError::NoExitCode)
    } else {
        r matches Ok(c) && c.stdout@ == decode_utf8(output.stdout@) && c.stderr@ == decode_utf8(
            output.stderr@,
        ) && Some(c.exit_code) == output.code
    }
}

/// Reads the output of a process.
pub fn handle_output(output: ProcessOutput) -> (r: Result<String, OutputError>)
    ensures
        reads_as(output, r),
{
    let success = output.success();
    let stdout = match decode_text(output.stdout) {
        None => {
            return Err(OutputError::InvalidText(Channel::Stdout));
        },
        Some(s) => trim(&chars_of(s.as_str())),
    };
    let stderr = match decode_text(output.stderr) {
        None => {
            return Err(OutputError::InvalidText(Channel::Stderr));
        },
        Some(s) => trim(&chars_of(s.as_str())),
    };
    if !success {
        return if stderr.len() > 0 {
            Err(OutputError::Failed(string_of(&stderr)))
        } else if stdout.len() > 0 {
            Err(OutputError::Failed(string_of(&stdout)))
        } else {
            Err(OutputError::Failed(String::from_str("command failed without output")))
        };
    }
    Ok(string_of(&stdout))
}

/// Reads the output of a command that was run on the host.
pub fn host_command_result(output: ProcessOutput) -> (r: Result<CommandResult, OutputError>)
    ensures
        is_host_result(output, r),
{
    let code = output.code;
    let stdout = match decode_text(output.stdout) {
        None => {
            return Err(OutputError::InvalidText(Channel::Stdout));
        },
        Some(s) => s,
    };
    let stderr = match decode_text(output.stderr) {
        None => {
            return Err(OutputError::InvalidText(Channel::Stderr));
        },
        Some(s) => s,
    };
    match code {
        None => Err(OutputError::NoExitCode),
        Some(exit_code) => Ok(CommandResult { stdout, stderr, exit_code }),
    }
}

/// The value that `lines` give to `key`: the last line of the form `key=value`
/// decides, and its value counts without double quotes. Empty where no line
/// has that form.
pub open spec fn env_value(lines: Seq<Seq<char>>, key: Seq<char>) -> Seq<char>
    decreases lines.len(),
{
    if lines.len() == 0 {
        Seq::empty()
    } else {
        let parts = split_on(lines.last(), '=');
        if parts.len() == 2 && parts[0] == key {
            without(parts[1], '"')
        } else {
            env_value(lines.drop_last(), key)
        }
    }
}

/// The value that `lines` give to `key`.
pub fn env_lookup(lines: &Vec<Vec<char>>, key: &str) -> (r: String)
    ensures
        r@ == env_value(lists(lines@), key@),
{
    let key = chars_of(key);
    let none: Vec<char> = Vec::new();
    let mut value: Vec<char> = Vec::new();
    let mut i: usize = 0;
    assert(lists(lines@).take(0) =~= Seq::<Seq<char>>::empty());
    while i < lines.len()
        invariant
            i <= lines.len(),
            none@.len() == 0,
            value@ == env_value(lists(lines@).take(i as int), key@),
        decreases lines.len() - i,
    {
        let ghost upto = lists(lines@).take(i + 1);
        assert(upto.drop_last() == lists(lines@).take(i as int));
        assert(upto.last() == lines@[i as int]@);
        let parts = split(&lines[i], '=');
        assert(lists(parts@).len() == parts@.len());
        if parts.len() == 2 && same_chars(&parts[0], &key) {
            assert(lists(parts@)[0] == parts@[0]@);
            assert(lists(parts@)[1] == parts@[1]@);
            value = replace_char(&parts[1], '"', &none);
            assert(none@ =~= Seq::<char>::empty());
        } else {
            assert(lists(parts@)[0] == parts@[0]@);
        }
        i = i + 1;
    }
    assert(lists(lines@).take(i as int) == lists(lines@));
    string_of(&value)
}

/// Reads the four settings by which the docker client finds the daemon of the
/// cluster, from the shell commands that export them: whether TLS is verified,
/// the host, the path of the certificates, and the active daemon.
pub fn parse_env_string(docker_env_bash: &str) -> (r: (String, String, String, String))
    ensures
        r.0@ == env_value(lines_of(docker_env_bash@), "export DOCKER_TLS_VERIFY"@),
        r.1@ == env_value(lines_of(docker_env_bash@), "export DOCKER_HOST"@),
        r.2@ == env_value(lines_of(docker_env_bash@), "export DOCKER_CERT_PATH"@),
        r.3@ == env_value(lines_of(docker_env_bash@), "export MINIKUBE_ACTIVE_DOCKERD"@),
{
    let all = lines(&chars_of(docker_env_bash));
    (
        env_lookup(&all, "export DOCKER_TLS_VERIFY"),
        env_lookup(&all, "export DOCKER_HOST"),
        env_lookup(&all, "export DOCKER_CERT_PATH"),
        env_lookup(&all, "export MINIKUBE_ACTIVE_DOCKERD"),
    )
}

} // verus!
