//! The remote command channel as a state machine. The caller lists the pods,
//! attaches, reads the two output channels and the exit status in whatever order
//! they arrive, and hands each thing that happened to the machine as an event.

use vstd::prelude::*;
use vstd::string::*;
use vstd::utf8::{decode_utf8, encode_utf8, valid_utf8};
use crate::config::Krunch;
use crate::health::Pod;
use crate::monitor::{resolve_pod, resolved_name};
use crate::text::{decode_text, optional_text, texts};

verus! {

/// One of the two output channels of the remote process.
#[derive(Clone, Copy, Debug, PartialEq, Eq, Structural)]
pub enum Channel {
    Stdout,
    Stderr,
}

/// What a finished command left behind. A channel that was copied live to the
/// local output is empty here.
#[derive(Clone, Debug, PartialEq, Eq)]
pub struct CommandResult {
    pub stdout: String,
    pub stderr: String,
    pub exit_code: i32,
}

/// Why a command could not be run in the pod.
#[derive(Clone, Debug, PartialEq, Eq)]
pub enum ExecError {
    /// No pod carries the label: the bootstrap has to run first.
    PodNotFound,
    /// The pods could not be listed, or reading from the session failed.
    Client(String),
    /// The session could not be opened.
    Attach(String),
    /// What the process wrote on this channel is not valid text.
    InvalidText(Channel),
    /// An event arrived that fits nothing the machine asked for.
    OutOfTurn,
}

/// The command as it is sent, and which channels are copied live.
#[derive(Clone, Debug, PartialEq, Eq)]
pub struct ExecRequest {
    pub command: Vec<String>,
    pub live_stdout: bool,
    pub live_stderr: bool,
}

/// The books of an attached session.
#[derive(Clone, Debug, PartialEq, Eq)]
pub struct Draining {
    pub live_stdout: bool,
    pub live_stderr: bool,
    pub stdout_open: bool,
    pub stderr_open: bool,
    pub stdout: Vec<u8>,
    pub stderr: Vec<u8>,
    pub exit_code: Option<i32>,
}

/// Where a command stands.
#[derive(Clone, Debug, PartialEq, Eq)]
pub enum ExecState {
    Resolving(ExecRequest),
    Attaching(ExecRequest),
    Streaming(Draining),
    Succeeded(CommandResult),
    Failed(ExecError),
}

/// What happened since the last action.
#[derive(Clone, Debug, PartialEq, Eq)]
pub enum ExecEvent {
    /// The pods that carry the label.
    Listed(Vec<Pod>),
    /// The session is open.
    Attached,
    /// Bytes arrived on a channel.
    Chunk(Channel, Vec<u8>),
    /// A channel was closed by the remote side.
    Closed(Channel),
    /// The remote process ended with this exit code.
    Exited(i32),
    /// The last request failed.
    Failed(String),
}

/// What the caller has to do next.
#[derive(Clone, Debug, PartialEq, Eq)]
pub enum ExecAction {
    /// List the pods that carry the label.
    ListPods,
    /// Open a session on `pod` that runs `command`.
    Attach { pod: String, command: Vec<String> },
    /// Wait for the next thing to happen on the session.
    Await,
    /// Copy the bytes just received to the local output of this channel, then
    /// wait for the next thing to happen.
    Forward(Channel),
    /// Nothing: the machine has finished.
    Stop,
}

/// An `ExecRequest` with its texts as sequences of characters.
pub struct RequestView {
    pub command: Seq<Seq<char>>,
    pub live_stdout: bool,
    pub live_stderr: bool,
}

/// `Draining` with its buffers as sequences of bytes.
pub struct DrainingView {
    pub live_stdout: bool,
    pub live_stderr: bool,
    pub stdout_open: bool,
    pub stderr_open: bool,
    pub stdout: Seq<u8>,
    pub stderr: Seq<u8>,
    pub exit_code: Option<i32>,
}

/// An `ExecError` with its texts as sequences of characters.
pub enum ExecErrorView {
    PodNotFound,
    Client(Seq<char>),
    Attach(Seq<char>),
    InvalidText(Channel),
    OutOfTurn,
}

/// An `ExecState` as the transition relation sees it.
pub enum ExecStateView {
    Resolving(RequestView),
    Attaching(RequestView),
    Streaming(DrainingView),
    Succeeded { stdout: Seq<char>, stderr: Seq<char>, exit_code: i32 },
    Failed(ExecErrorView),
}

/// An `ExecEvent` as the transition relation sees it.
pub enum ExecEventView {
    /// The name of the pod that the listing resolves to, if any.
    Listed(Option<Seq<char>>),
    Attached,
    Chunk(Channel, Seq<u8>),
    Closed(Channel),
    Exited(i32),
    Failed(Seq<char>),
}

/// An `ExecAction` with its texts as sequences of characters.
pub enum ExecActionView {
    ListPods,
    Attach { pod: Seq<char>, command: Seq<Seq<char>> },
    Await,
    Forward(Channel),
    Stop,
}

impl View for ExecRequest {
    type V = RequestView;

    open spec fn view(&self) -> RequestView {
        RequestView {
            command: texts(self.command@),
            live_stdout: self.live_stdout,
            live_stderr: self.live_stderr,
        }
    }
}

impl View for Draining {
    type V = DrainingView;

    open spec fn view(&self) -> DrainingView {
        DrainingView {
            live_stdout: self.live_stdout,
            live_stderr: self.live_stderr,
            stdout_open: self.stdout_open,
            stderr_open: self.stderr_open,
            stdout: self.stdout@,
            stderr: self.stderr@,
            exit_code: self.exit_code,
        }
    }
}

impl View for ExecError {
    type V = ExecErrorView;

    open spec fn view(&self) -> ExecErrorView {
        match *self {
            ExecError::PodNotFound => ExecErrorView::PodNotFound,
            ExecError::Client(m) => ExecErrorView::Client(m@),
            ExecError::Attach(m) => ExecErrorView::Attach(m@),
            ExecError::InvalidText(c) => ExecErrorView::InvalidText(c),
            ExecError::OutOfTurn => ExecErrorView::OutOfTurn,
        }
    }
}

impl View for ExecState {
    type V = ExecStateView;

    open spec fn view(&self) -> ExecStateView {
        match *self {
            ExecState::Resolving(r) => ExecStateView::Resolving(r@),
            ExecState::Attaching(r) => ExecStateView::Attaching(r@),
            ExecState::Streaming(d) => ExecStateView::Streaming(d@),
            ExecState::Succeeded(r) => ExecStateView::Succeeded {
                stdout: r.stdout@,
                stderr: r.stderr@,
                exit_code: r.exit_code,
            },
            ExecState::Failed(e) => ExecStateView::Failed(e@),
        }
    }
}

impl View for ExecEvent {
    type V = ExecEventView;

    open spec fn view(&self) -> ExecEventView {
        match *self {
            ExecEvent::Listed(pods) => ExecEventView::Listed(optional_text(resolved_name(pods@))),
            ExecEvent::Attached => ExecEventView::Attached,
            ExecEvent::Chunk(c, bytes) => ExecEventView::Chunk(c, bytes@),
            ExecEvent::Closed(c) => ExecEventView::Closed(c),
            ExecEvent::Exited(code) => ExecEventView::Exited(code),
            ExecEvent::Failed(m) => ExecEventView::Failed(m@),
        }
    }
}

impl View for ExecAction {
    type V = ExecActionView;

    open spec fn view(&self) -> ExecActionView {
        match *self {
            ExecAction::ListPods => ExecActionView::ListPods,
            ExecAction::Attach { pod, command } => ExecActionView::Attach {
                pod: pod@,
                command: texts(command@),
            },
            ExecAction::Await => ExecActionView::Await,
            ExecAction::Forward(c) => ExecActionView::Forward(c),
            ExecAction::Stop => ExecActionView::Stop,
        }
    }
}

/// What is shown to the operator where a command could not be run.
pub open spec fn exec_error_text(e: ExecErrorView) -> Seq<char> {
    match e {
        ExecErrorView::PodNotFound => "krunch pod not found, consider \"krunch init\""@,
        ExecErrorView::Client(reason) => reason,
        ExecErrorView::Attach(reason) => reason,
        ExecErrorView::InvalidText(Channel::Stdout) => "standard output is not valid text"@,
        ExecErrorView::InvalidText(Channel::Stderr) => "standard error is not valid text"@,
        ExecErrorView::OutOfTurn => "unexpected answer from the cluster"@,
    }
}

impl ExecError {
    /// What is shown to the operator.
    pub fn message(&self) -> (s: String)
        ensures
            s@ == exec_error_text(self@),
    {
        match self {
            ExecError::PodNotFound => String::from_str(
                "krunch pod not found, consider \"krunch init\"",
            ),
            ExecError::Client(reason) => reason.clone(),
            ExecError::Attach(reason) => reason.clone(),
            ExecError::InvalidText(Channel::Stdout) => String::from_str(
                "standard output is not valid text",
            ),
            ExecError::InvalidText(Channel::Stderr) => String::from_str(
                "standard error is not valid text",
            ),
            ExecError::OutOfTurn => String::from_str("unexpected answer from the cluster"),
        }
    }
}

/// A command as it is sent to the pod: the shell, `-c`, and the command as
/// one token.
pub open spec fn framed(command: Seq<char>) -> Seq<Seq<char>> {
    seq!["sh"@, "-c"@, command]
}

/// The books of a session that has just been attached.
pub open spec fn fresh_session(live_stdout: bool, live_stderr: bool) -> DrainingView {
    DrainingView {
        live_stdout,
        live_stderr,
        stdout_open: true,
        stderr_open: true,
        stdout: Seq::empty(),
        stderr: Seq::empty(),
        exit_code: None,
    }
}

/// Both channels are closed and the exit status is known.
pub open spec fn is_drained(d: DrainingView) -> bool {
    !d.stdout_open && !d.stderr_open && d.exit_code is Some
}

/// Where a session stands once an event has been entered in its books: it goes
/// on until it is drained, and then the kept bytes are read as text.
pub open spec fn settle(d: DrainingView) -> (ExecStateView, ExecActionView) {
    if !is_drained(d) {
        (ExecStateView::Streaming(d), ExecActionView::Await)
    } else if !valid_utf8(d.stdout) {
        (ExecStateView::Failed(ExecErrorView::InvalidText(Channel::Stdout)), ExecActionView::Stop)
    } else if !valid_utf8(d.stderr) {
        (ExecStateView::Failed(ExecErrorView::InvalidText(Channel::Stderr)), ExecActionView::Stop)
    } else {
        (
            ExecStateView::Succeeded {
                stdout: decode_utf8(d.stdout),
                stderr: decode_utf8(d.stderr),
                exit_code: d.exit_code->0,
            },
            ExecActionView::Stop,
        )
    }
}

/// The failure that an event out of turn brings.
pub open spec fn out_of_turn() -> (ExecStateView, ExecActionView) {
    (ExecStateView::Failed(ExecErrorView::OutOfTurn), ExecActionView::Stop)
}

/// What an event does to an attached session.
pub open spec fn stream_next(d: DrainingView, event: ExecEventView) -> (
    ExecStateView,
    ExecActionView,
) {
    match event {
        ExecEventView::Chunk(Channel::Stdout, bytes) => if !d.stdout_open {
            out_of_turn()
        } else if d.live_stdout {
            (ExecStateView::Streaming(d), ExecActionView::Forward(Channel::Stdout))
        } else {
            (
                ExecStateView::Streaming(DrainingView { stdout: d.stdout + bytes, ..d }),
                ExecActionView::Await,
            )
        },
        ExecEventView::Chunk(Channel::Stderr, bytes) => if !d.stderr_open {
            out_of_turn()
        } else if d.live_stderr {
            (ExecStateView::Streaming(d), ExecActionView::Forward(Channel::Stderr))
        } else {
            (
                ExecStateView::Streaming(DrainingView { stderr: d.stderr + bytes, ..d }),
                ExecActionView::Await,
            )
        },
        ExecEventView::Closed(Channel::Stdout) => if !d.stdout_open {
            out_of_turn()
        } else {
            settle(DrainingView { stdout_open: false, ..d })
        },
        ExecEventView::Closed(Channel::Stderr) => if !d.stderr_open {
            out_of_turn()
        } else {
            settle(DrainingView { stderr_open: false, ..d })
        },
        ExecEventView::Exited(code) => if d.exit_code is Some {
            out_of_turn()
        } else {
            settle(DrainingView { exit_code: Some(code), ..d })
        },
        ExecEventView::Failed(m) => (
            ExecStateView::Failed(ExecErrorView::Client(m)),
            ExecActionView::Stop,
        ),
        _ => out_of_turn(),
    }
}

/// The transition relation of the channel.
pub open spec fn exec_next(state: ExecStateView, event: ExecEventView) -> (
    ExecStateView,
    ExecActionView,
) {
    match state {
        ExecStateView::Succeeded { .. } => (state, ExecActionView::Stop),
        ExecStateView::Failed(_) => (state, ExecActionView::Stop),
        ExecStateView::Resolving(r) => match event {
            ExecEventView::Listed(None) => (
                ExecStateView::Failed(ExecErrorView::PodNotFound),
                ExecActionView::Stop,
            ),
            ExecEventView::Listed(Some(pod)) => (
                ExecStateView::Attaching(r),
                ExecActionView::Attach { pod, command: r.command },
            ),
            ExecEventView::Failed(m) => (
                ExecStateView::Failed(ExecErrorView::Client(m)),
                ExecActionView::Stop,
            ),
            _ => out_of_turn(),
        },
        ExecStateView::Attaching(r) => match event {
            ExecEventView::Attached => (
                ExecStateView::Streaming(fresh_session(r.live_stdout, r.live_stderr)),
                ExecActionView::Await,
            ),
            ExecEventView::Failed(m) => (
                ExecStateView::Failed(ExecErrorView::Attach(m)),
                ExecActionView::Stop,
            ),
            _ => out_of_turn(),
        },
        ExecStateView::Streaming(d) => stream_next(d, event),
    }
}

/// Frames a command for the pod, so that pipes and redirections in it reach the
/// shell as one token.
pub fn frame_command(command: &str) -> (r: Vec<String>)
    ensures
        texts(r@) == framed(command@),
{
    let r = vec![String::from_str("sh"), String::from_str("-c"), String::from_str(command)];
    r
}

fn stop_out_of_turn() -> (r: (ExecState, ExecAction))
    ensures
        (r.0@, r.1@) == out_of_turn(),
{
    (ExecState::Failed(ExecError::OutOfTurn), ExecAction::Stop)
}

fn stop_with(e: ExecError) -> (r: (ExecState, ExecAction))
    ensures
        r.0@ == ExecStateView::Failed(e@),
        r.1@ == ExecActionView::Stop,
{
    (ExecState::Failed(e), ExecAction::Stop)
}

/// Appends `bytes` to `buffer`.
fn append_bytes(buffer: &mut Vec<u8>, bytes: &Vec<u8>)
    ensures
        final(buffer)@ == old(buffer)@ + bytes@,
{
    let mut i: usize = 0;
    while i < bytes.len()
        invariant
            i <= bytes.len(),
            buffer@ == old(buffer)@ + bytes@.take(i as int),
        decreases bytes.len() - i,
    {
        buffer.push(bytes[i]);
        i = i + 1;
    }
}

/// Closes the books of a session if it is drained.
fn settle_session(d: Draining) -> (r: (ExecState, ExecAction))
    ensures
        (r.0@, r.1@) == settle(d@),
{
    if d.stdout_open || d.stderr_open {
        return (ExecState::Streaming(d), ExecAction::Await);
    }
    let code = match d.exit_code {
        None => {
            return (ExecState::Streaming(d), ExecAction::Await);
        },
        Some(code) => code,
    };
    let stdout = match decode_text(d.stdout) {
        None => {
            return stop_with(ExecError::InvalidText(Channel::Stdout));
        },
        Some(s) => s,
    };
    let stderr = match decode_text(d.stderr) {
        None => {
            return stop_with(ExecError::InvalidText(Channel::Stderr));
        },
        Some(s) => s,
    };
    (ExecState::Succeeded(CommandResult { stdout, stderr, exit_code: code }), ExecAction::Stop)
}

/// One step of an attached session.
fn stream_step(d: Draining, event: &ExecEvent) -> (r: (ExecState, ExecAction))
    ensures
        (r.0@, r.1@) == stream_next(d@, event@),
{
    let ghost before = d@;
    let mut d = d;
    match event {
        ExecEvent::Chunk(Channel::Stdout, bytes) => {
            if !d.stdout_open {
                stop_out_of_turn()
            } else if d.live_stdout {
                (ExecState::Streaming(d), ExecAction::Forward(Channel::Stdout))
            } else {
                append_bytes(&mut d.stdout, bytes);
                assert(d@ == (DrainingView { stdout: before.stdout + bytes@, ..before }));
                (ExecState::Streaming(d), ExecAction::Await)
            }
        },
        ExecEvent::Chunk(Channel::Stderr, bytes) => {
            if !d.stderr_open {
                stop_out_of_turn()
            } else if d.live_stderr {
                (ExecState::Streaming(d), ExecAction::Forward(Channel::Stderr))
            } else {
                append_bytes(&mut d.stderr, bytes);
                assert(d@ == (DrainingView { stderr: before.stderr + bytes@, ..before }));
                (ExecState::Streaming(d), ExecAction::Await)
            }
        },
        ExecEvent::Closed(Channel::Stdout) => {
            if !d.stdout_open {
                stop_out_of_turn()
            } else {
                d.stdout_open = false;
                settle_session(d)
            }
        },
        ExecEvent::Closed(Channel::Stderr) => {
            if !d.stderr_open {
                stop_out_of_turn()
            } else {
                d.stderr_open = false;
                settle_session(d)
            }
        },
        ExecEvent::Exited(code) => {
            if d.exit_code.is_some() {
                stop_out_of_turn()
            } else {
                d.exit_code = Some(*code);
                settle_session(d)
            }
        },
        ExecEvent::Failed(m) => stop_with(ExecError::Client(m.clone())),
        _ => stop_out_of_turn(),
    }
}

/// One step of the channel: the state after `event`, and what to do next.
pub fn exec_step(state: ExecState, event: &ExecEvent) -> (r: (ExecState, ExecAction))
    ensures
        (r.0@, r.1@) == exec_next(state@, event@),
{
    match state {
        ExecState::Succeeded(r) => (ExecState::Succeeded(r), ExecAction::Stop),
        ExecState::Failed(e) => (ExecState::Failed(e), ExecAction::Stop),
        ExecState::Resolving(r) => match event {
            ExecEvent::Listed(pods) => match resolve_pod(pods) {
                None => stop_with(ExecError::PodNotFound),
                Some(pod) => {
                    let command = r.command.clone();
                    (ExecState::Attaching(r), ExecAction::Attach { pod, command })
                },
            },
            ExecEvent::Failed(m) => stop_with(ExecError::Client(m.clone())),
            _ => stop_out_of_turn(),
        },
        ExecState::Attaching(r) => match event {
            ExecEvent::Attached => (
                ExecState::Streaming(
                    Draining {
                        live_stdout: r.live_stdout,
                        live_stderr: r.live_stderr,
                        stdout_open: true,
                        stderr_open: true,
                        stdout: Vec::new(),
                        stderr: Vec::new(),
                        exit_code: None,
                    },
                ),
                ExecAction::Await,
            ),
            ExecEvent::Failed(m) => stop_with(ExecError::Attach(m.clone())),
            _ => stop_out_of_turn(),
        },
        ExecState::Streaming(d) => stream_step(d, event),
    }
}

impl Krunch {
    /// Starts a command in the pod: the command is framed for the shell and the
    /// pods are asked for. `print_to_stdout` and `print_to_stderr` say which
    /// channels are copied live instead of kept.
    pub fn execute_pod_command(command: &str, print_to_stdout: bool, print_to_stderr: bool) -> (r: (
        ExecState,
        ExecAction,
    ))
        ensures
            r.0@ == ExecStateView::Resolving(
                RequestView {
                    command: framed(command@),
                    live_stdout: print_to_stdout,
                    live_stderr: print_to_stderr,
                },
            ),
            r.1@ == ExecActionView::ListPods,
    {
        Krunch::execute_generic_command(frame_command(command), print_to_stdout, print_to_stderr)
    }

    /// Starts a command that is framed already.
    pub fn execute_generic_command(
        command: Vec<String>,
        print_to_stdout: bool,
        print_to_stderr: bool,
    ) -> (r: (ExecState, ExecAction))
        ensures
            r.0@ == ExecStateView::Resolving(
                RequestView {
                    command: texts(command@),
                    live_stdout: print_to_stdout,
                    live_stderr: print_to_stderr,
                },
            ),
            r.1@ == ExecActionView::ListPods,
    {
        (
            ExecState::Resolving(
                ExecRequest { command, live_stdout: print_to_stdout, live_stderr: print_to_stderr },
            ),
            ExecAction::ListPods,
        )
    }

    /// The name of the pod that takes the commands: the first of the pods that
    /// carry the label, if there is one.
    pub fn get_krunch_pod_name(pods: &Vec<Pod>) -> (r: Option<String>)
        ensures
            r == resolved_name(pods@),
    {
        resolve_pod(pods)
    }
}

/// The state of the channel after it was fed `events` in order, from `state`.
pub open spec fn exec_run(state: ExecStateView, events: Seq<ExecEventView>) -> ExecStateView
    decreases events.len(),
{
    if events.len() == 0 {
        state
    } else {
        exec_next(exec_run(state, events.drop_last()), events.last()).0
    }
}

/// The action that the channel asks for in answer to event `i` of `events`.
pub open spec fn exec_action_at(
    state: ExecStateView,
    events: Seq<ExecEventView>,
    i: int,
) -> ExecActionView {
    exec_next(exec_run(state, events.take(i)), events[i]).1
}

/// The events as the transition relation sees them.
pub open spec fn event_views(events: Seq<ExecEvent>) -> Seq<ExecEventView> {
    events.map_values(|e: ExecEvent| e@)
}

/// Runs the channel from `state` over a scripted sequence of events. Returns the
/// state reached and the action asked for in answer to each event.
pub fn run_exec(state: ExecState, events: &Vec<ExecEvent>) -> (r: (ExecState, Vec<ExecAction>))
    ensures
        r.0@ == exec_run(state@, event_views(events@)),
        r.1@.len() == events@.len(),
        forall|i: int|
            0 <= i < events@.len() ==> (#[trigger] r.1@[i])@ == exec_action_at(
                state@,
                event_views(events@),
                i,
            ),
{
    let ghost start = state@;
    let ghost views = event_views(events@);
    let mut state = state;
    let mut actions: Vec<ExecAction> = Vec::new();
    let mut i: usize = 0;
    while i < events.len()
        invariant
            i <= events.len(),
            views == event_views(events@),
            state@ == exec_run(start, views.take(i as int)),
            actions@.len() == i,
            forall|j: int|
                0 <= j < i ==> (#[trigger] actions@[j])@ == exec_action_at(start, views, j),
        decreases events.len() - i,
    {
        proof {
            let next = views.take(i + 1);
            assert(next.drop_last() == views.take(i as int));
        }
        let (s, a) = exec_step(state, &events[i]);
        state = s;
        actions.push(a);
        i = i + 1;
    }
    proof {
        assert(views.take(i as int) == views);
    }
    (state, actions)
}

/// Whether the channel has finished.
pub open spec fn is_final(state: ExecStateView) -> bool {
    state is Succeeded || state is Failed
}

/// Once the channel has finished it stays where it is and asks for nothing.
pub proof fn lemma_final_state_is_kept(state: ExecStateView, events: Seq<ExecEventView>)
    requires
        is_final(state),
    ensures
        exec_run(state, events) == state,
        forall|i: int|
            0 <= i < events.len() ==> #[trigger] exec_action_at(state, events, i)
                == ExecActionView::Stop,
    decreases events.len(),
{
    if events.len() > 0 {
        lemma_final_state_is_kept(state, events.drop_last());
        assert forall|i: int| 0 <= i < events.len() implies #[trigger] exec_action_at(
            state,
            events,
            i,
        ) == ExecActionView::Stop by {
            lemma_final_state_is_kept(state, events.take(i));
        }
    }
}

/// Feeding two sequences one after the other is feeding their concatenation.
pub proof fn lemma_run_concat(state: ExecStateView, a: Seq<ExecEventView>, b: Seq<ExecEventView>)
    ensures
        exec_run(state, a + b) == exec_run(exec_run(state, a), b),
    decreases b.len(),
{
    if b.len() == 0 {
        assert(a + b == a);
    } else {
        lemma_run_concat(state, a, b.drop_last());
        assert((a + b).drop_last() == a + b.drop_last());
        assert((a + b).last() == b.last());
    }
}

/// Where the listing finds no pod, the channel fails with `PodNotFound` at once
/// and never asks for a session, whatever is fed to it afterwards.
pub proof fn lemma_no_pod_no_attach(request: RequestView, events: Seq<ExecEventView>, i: int)
    requires
        events.len() >= 1,
        events[0] == ExecEventView::Listed(None),
        0 <= i < events.len(),
    ensures
        exec_run(ExecStateView::Resolving(request), events) == ExecStateView::Failed(
            ExecErrorView::PodNotFound,
        ),
        !(exec_action_at(ExecStateView::Resolving(request), events, i) is Attach),
{
    let start = ExecStateView::Resolving(request);
    let failed = ExecStateView::Failed(ExecErrorView::PodNotFound);
    let head = events.take(1);
    assert(head.drop_last() == Seq::<ExecEventView>::empty());
    assert(exec_run(start, Seq::<ExecEventView>::empty()) == start);
    assert(head.last() == events[0]);
    assert(exec_run(start, head) == failed);
    let rest = events.skip(1);
    assert(events == head + rest);
    lemma_run_concat(start, head, rest);
    lemma_final_state_is_kept(failed, rest);
    if i == 0 {
        assert(events.take(0) == Seq::<ExecEventView>::empty());
    } else {
        let before = rest.take(i - 1);
        assert(events.take(i) == head + before);
        lemma_run_concat(start, head, before);
        lemma_final_state_is_kept(failed, before);
    }
}

/// The bytes of one event that belong to channel `c`.
pub open spec fn bytes_on(event: ExecEventView, c: Channel) -> Seq<u8> {
    match event {
        ExecEventView::Chunk(on, bytes) => if on == c {
            bytes
        } else {
            Seq::empty()
        },
        _ => Seq::empty(),
    }
}

/// Every byte that `events` brought on channel `c`, in order.
pub open spec fn collected(events: Seq<ExecEventView>, c: Channel) -> Seq<u8>
    decreases events.len(),
{
    if events.len() == 0 {
        Seq::empty()
    } else {
        collected(events.drop_last(), c) + bytes_on(events.last(), c)
    }
}

/// What is kept of channel `c`: nothing where the channel is copied live, every
/// byte otherwise.
pub open spec fn kept(live: bool, events: Seq<ExecEventView>, c: Channel) -> Seq<u8> {
    if live {
        Seq::empty()
    } else {
        collected(events, c)
    }
}

/// `events` holds the closing of channel `c`.
pub open spec fn has_closed(events: Seq<ExecEventView>, c: Channel) -> bool {
    exists|i: int| 0 <= i < events.len() && #[trigger] events[i] == ExecEventView::Closed(c)
}

/// `events` holds the exit of the process with `code`.
pub open spec fn has_exited(events: Seq<ExecEventView>, code: i32) -> bool {
    exists|i: int| 0 <= i < events.len() && #[trigger] events[i] == ExecEventView::Exited(code)
}

/// The books of a session agree with `events`, the events since it was attached.
pub open spec fn books_agree(
    d: DrainingView,
    live_stdout: bool,
    live_stderr: bool,
    events: Seq<ExecEventView>,
) -> bool {
    &&& d.live_stdout == live_stdout
    &&& d.live_stderr == live_stderr
    &&& d.stdout == kept(live_stdout, events, Channel::Stdout)
    &&& d.stderr == kept(live_stderr, events, Channel::Stderr)
    &&& !d.stdout_open <==> has_closed(events, Channel::Stdout)
    &&& !d.stderr_open <==> has_closed(events, Channel::Stderr)
    &&& forall|code: i32| d.exit_code == Some(code) <==> has_exited(events, code)
}

/// While a session goes on, its books hold every byte that arrived on a channel
/// that is kept, and say which channels are closed and whether the process has
/// ended.
pub proof fn lemma_books_agree(live_stdout: bool, live_stderr: bool, events: Seq<ExecEventView>)
    ensures
        !(exec_run(
            ExecStateView::Streaming(fresh_session(live_stdout, live_stderr)),
            events,
        ) is Resolving),
        !(exec_run(
            ExecStateView::Streaming(fresh_session(live_stdout, live_stderr)),
            events,
        ) is Attaching),
        exec_run(ExecStateView::Streaming(fresh_session(live_stdout, live_stderr)), events)
            matches ExecStateView::Streaming(d) ==> books_agree(
            d,
            live_stdout,
            live_stderr,
            events,
        ),
    decreases events.len(),
{
    let start = ExecStateView::Streaming(fresh_session(live_stdout, live_stderr));
    if events.len() == 0 {
        let d = fresh_session(live_stdout, live_stderr);
        assert(exec_run(start, events) == start);
        assert(books_agree(d, live_stdout, live_stderr, events));
    } else {
        let before = events.drop_last();
        let last = events.last();
        lemma_books_agree(live_stdout, live_stderr, before);
        let prev = exec_run(start, before);
        assert(events == before.push(last));
        if let ExecStateView::Streaming(p) = prev {
            if let ExecStateView::Streaming(d) = exec_run(start, events) {
                lemma_closing_extends(before, last, Channel::Stdout);
                lemma_closing_extends(before, last, Channel::Stderr);
                assert forall|code: i32| d.exit_code == Some(code) <==> has_exited(
                    events,
                    code,
                ) by {
                    lemma_exit_extends(before, last, code);
                    if let Some(c) = p.exit_code {
                        lemma_exit_extends(before, last, c);
                    }
                }
                assert(collected(events, Channel::Stdout) == collected(before, Channel::Stdout)
                    + bytes_on(last, Channel::Stdout));
                assert(collected(events, Channel::Stderr) == collected(before, Channel::Stderr)
                    + bytes_on(last, Channel::Stderr));
                assert(d.stdout =~= kept(live_stdout, events, Channel::Stdout));
                assert(d.stderr =~= kept(live_stderr, events, Channel::Stderr));
            }
        }
    }
}

/// A closing is among `before` and `last` exactly when it is among `before` or
/// is `last`.
proof fn lemma_closing_extends(before: Seq<ExecEventView>, last: ExecEventView, c: Channel)
    ensures
        has_closed(before.push(last), c) <==> has_closed(before, c) || last
            == ExecEventView::Closed(c),
{
    let all = before.push(last);
    if has_closed(before, c) {
        let i = choose|i: int| 0 <= i < before.len() && #[trigger] before[i]
            == ExecEventView::Closed(c);
        assert(all[i] == ExecEventView::Closed(c));
    }
    if last == ExecEventView::Closed(c) {
        assert(all[before.len() as int] == ExecEventView::Closed(c));
    }
    if has_closed(all, c) {
        let i = choose|i: int| 0 <= i < all.len() && #[trigger] all[i] == ExecEventView::Closed(c);
        if i < before.len() {
            assert(before[i] == ExecEventView::Closed(c));
        }
    }
}

/// An exit is among `before` and `last` exactly when it is among `before` or
/// is `last`.
proof fn lemma_exit_extends(before: Seq<ExecEventView>, last: ExecEventView, code: i32)
    ensures
        has_exited(before.push(last), code) <==> has_exited(before, code) || last
            == ExecEventView::Exited(code),
{
    let all = before.push(last);
    if has_exited(before, code) {
        let i = choose|i: int| 0 <= i < before.len() && #[trigger] before[i]
            == ExecEventView::Exited(code);
        assert(all[i] == ExecEventView::Exited(code));
    }
    if last == ExecEventView::Exited(code) {
        assert(all[before.len() as int] == ExecEventView::Exited(code));
    }
    if has_exited(all, code) {
        let i = choose|i: int| 0 <= i < all.len() && #[trigger] all[i] == ExecEventView::Exited(
            code,
        );
        if i < before.len() {
            assert(before[i] == ExecEventView::Exited(code));
        }
    }
}

/// A session succeeds only when both channels were closed and the process has
/// ended, and the result then holds exactly the bytes that arrived on each
/// channel that is kept. `events` are the events since the session was attached,
/// up to the one that makes it succeed.
pub proof fn lemma_result_holds_every_byte(
    live_stdout: bool,
    live_stderr: bool,
    events: Seq<ExecEventView>,
)
    requires
        events.len() > 0,
        exec_run(
            ExecStateView::Streaming(fresh_session(live_stdout, live_stderr)),
            events.drop_last(),
        ) is Streaming,
        exec_run(
            ExecStateView::Streaming(fresh_session(live_stdout, live_stderr)),
            events,
        ) is Succeeded,
    ensures
        has_closed(events, Channel::Stdout),
        has_closed(events, Channel::Stderr),
        exec_run(ExecStateView::Streaming(fresh_session(live_stdout, live_stderr)), events)
            matches ExecStateView::Succeeded { stdout, stderr, exit_code } && {
            &&& has_exited(events, exit_code)
            &&& encode_utf8(stdout) == kept(live_stdout, events, Channel::Stdout)
            &&& encode_utf8(stderr) == kept(live_stderr, events, Channel::Stderr)
        },
{
    let start = ExecStateView::Streaming(fresh_session(live_stdout, live_stderr));
    let before = events.drop_last();
    let last = events.last();
    lemma_books_agree(live_stdout, live_stderr, before);
    let p = exec_run(start, before)->Streaming_0;
    assert(events == before.push(last));
    lemma_closing_extends(before, last, Channel::Stdout);
    lemma_closing_extends(before, last, Channel::Stderr);
    assert(collected(events, Channel::Stdout) == collected(before, Channel::Stdout) + bytes_on(
        last,
        Channel::Stdout,
    ));
    assert(collected(events, Channel::Stderr) == collected(before, Channel::Stderr) + bytes_on(
        last,
        Channel::Stderr,
    ));
    assert(collected(before, Channel::Stdout) + Seq::<u8>::empty() == collected(
        before,
        Channel::Stdout,
    ));
    assert(collected(before, Channel::Stderr) + Seq::<u8>::empty() == collected(
        before,
        Channel::Stderr,
    ));
    let code = exec_run(start, events)->Succeeded_exit_code;
    lemma_exit_extends(before, last, code);
    vstd::utf8::decode_utf8_encode_utf8(p.stdout);
    vstd::utf8::decode_utf8_encode_utf8(p.stderr);
}

/// A session that has succeeded did so at one moment: up to some event it was
/// still going on, and from that event on its state is the final one.
pub proof fn lemma_success_has_a_moment(
    live_stdout: bool,
    live_stderr: bool,
    events: Seq<ExecEventView>,
) -> (n: int)
    requires
        exec_run(
            ExecStateView::Streaming(fresh_session(live_stdout, live_stderr)),
            events,
        ) is Succeeded,
    ensures
        0 < n <= events.len(),
        exec_run(
            ExecStateView::Streaming(fresh_session(live_stdout, live_stderr)),
            events.take(n).drop_last(),
        ) is Streaming,
        exec_run(ExecStateView::Streaming(fresh_session(live_stdout, live_stderr)), events.take(n))
            == exec_run(
            ExecStateView::Streaming(fresh_session(live_stdout, live_stderr)),
            events,
        ),
    decreases events.len(),
{
    let start = ExecStateView::Streaming(fresh_session(live_stdout, live_stderr));
    let before = events.drop_last();
    lemma_books_agree(live_stdout, live_stderr, before);
    if exec_run(start, before) is Streaming {
        assert(events.take(events.len() as int) == events);
        events.len() as int
    } else {
        let n = lemma_success_has_a_moment(live_stdout, live_stderr, before);
        assert(events.take(n) == before.take(n));
        n
    }
}

} // verus!
