use krunch::config::Krunch;
use krunch::exec::{
    exec_step, frame_command, run_exec, Channel, CommandResult, Draining, ExecAction, ExecError,
    ExecEvent, ExecRequest, ExecState,
};
use krunch::health::Pod;

fn named(name: &str) -> Pod {
    Pod { name: Some(name.to_string()), status: None }
}

fn attached(command: &str, live_stdout: bool, live_stderr: bool) -> ExecState {
    let (state, first) = Krunch::execute_pod_command(command, live_stdout, live_stderr);
    assert_eq!(first, ExecAction::ListPods);
    let (state, actions) =
        run_exec(state, &vec![ExecEvent::Listed(vec![named("krunch-1")]), ExecEvent::Attached]);
    assert_eq!(actions.len(), 2);
    assert_eq!(actions[1], ExecAction::Await);
    state
}

#[test]
fn command_is_framed_for_the_shell() {
    assert_eq!(
        frame_command("kubectl get pods"),
        vec!["sh".to_string(), "-c".to_string(), "kubectl get pods".to_string()]
    );
}

#[test]
fn framed_command_is_what_is_sent_on_attach() {
    let (state, first) = Krunch::execute_pod_command("kubectl get pods", false, false);
    assert_eq!(first, ExecAction::ListPods);
    let (state, action) =
        exec_step(state, &ExecEvent::Listed(vec![named("krunch-abc"), named("other")]));
    assert_eq!(
        action,
        ExecAction::Attach {
            pod: "krunch-abc".to_string(),
            command: vec!["sh".to_string(), "-c".to_string(), "kubectl get pods".to_string()],
        }
    );
    assert_eq!(
        state,
        ExecState::Attaching(ExecRequest {
            command: vec!["sh".to_string(), "-c".to_string(), "kubectl get pods".to_string()],
            live_stdout: false,
            live_stderr: false,
        })
    );
}

#[test]
fn empty_pod_list_fails_without_attach() {
    let (state, _) = Krunch::execute_pod_command("ls", false, false);
    let events = vec![ExecEvent::Listed(vec![]), ExecEvent::Attached, ExecEvent::Exited(0)];
    let (state, actions) = run_exec(state, &events);
    assert_eq!(state, ExecState::Failed(ExecError::PodNotFound));
    assert_eq!(actions, vec![ExecAction::Stop, ExecAction::Stop, ExecAction::Stop]);
    assert_eq!(ExecError::PodNotFound.message(), "krunch pod not found, consider \"krunch init\"");
}

#[test]
fn buffered_streams_hold_every_byte() {
    let state = attached("ls", false, false);
    let events = vec![
        ExecEvent::Chunk(Channel::Stdout, b"hel".to_vec()),
        ExecEvent::Chunk(Channel::Stderr, b"wa".to_vec()),
        ExecEvent::Chunk(Channel::Stdout, b"lo\n".to_vec()),
        ExecEvent::Exited(3),
        ExecEvent::Chunk(Channel::Stderr, b"rn".to_vec()),
        ExecEvent::Closed(Channel::Stderr),
        ExecEvent::Closed(Channel::Stdout),
    ];
    let (state, actions) = run_exec(state, &events);
    assert_eq!(
        state,
        ExecState::Succeeded(CommandResult {
            stdout: "hello\n".to_string(),
            stderr: "warn".to_string(),
            exit_code: 3,
        })
    );
    assert_eq!(actions[..6].to_vec(), vec![ExecAction::Await; 6]);
    assert_eq!(actions[6], ExecAction::Stop);
    match state {
        ExecState::Succeeded(r) => {
            assert_eq!(r.stdout.len(), 6);
            assert_eq!(r.stderr.len(), 4);
        }
        _ => unreachable!(),
    }
}

#[test]
fn session_does_not_finish_before_everything_arrived() {
    let state = attached("ls", false, false);
    let (state, action) = exec_step(state, &ExecEvent::Exited(0));
    assert_eq!(action, ExecAction::Await);
    let (state, action) = exec_step(state, &ExecEvent::Closed(Channel::Stdout));
    assert_eq!(action, ExecAction::Await);
    assert_eq!(
        state,
        ExecState::Streaming(Draining {
            live_stdout: false,
            live_stderr: false,
            stdout_open: false,
            stderr_open: true,
            stdout: vec![],
            stderr: vec![],
            exit_code: Some(0),
        })
    );
    let (state, action) = exec_step(state, &ExecEvent::Closed(Channel::Stderr));
    assert_eq!(action, ExecAction::Stop);
    assert_eq!(
        state,
        ExecState::Succeeded(CommandResult {
            stdout: String::new(),
            stderr: String::new(),
            exit_code: 0
        })
    );
}

#[test]
fn live_channels_are_forwarded_and_not_kept() {
    let state = attached("ls", true, false);
    let events = vec![
        ExecEvent::Chunk(Channel::Stdout, b"shown".to_vec()),
        ExecEvent::Chunk(Channel::Stderr, b"kept".to_vec()),
        ExecEvent::Closed(Channel::Stdout),
        ExecEvent::Closed(Channel::Stderr),
        ExecEvent::Exited(0),
    ];
    let (state, actions) = run_exec(state, &events);
    assert_eq!(
        actions,
        vec![
            ExecAction::Forward(Channel::Stdout),
            ExecAction::Await,
            ExecAction::Await,
            ExecAction::Await,
            ExecAction::Stop,
        ]
    );
    assert_eq!(
        state,
        ExecState::Succeeded(CommandResult {
            stdout: String::new(),
            stderr: "kept".to_string(),
            exit_code: 0
        })
    );
}

#[test]
fn invalid_text_is_a_hard_error() {
    let state = attached("ls", false, false);
    let events = vec![
        ExecEvent::Chunk(Channel::Stdout, vec![0xff, 0xfe]),
        ExecEvent::Closed(Channel::Stdout),
        ExecEvent::Closed(Channel::Stderr),
        ExecEvent::Exited(0),
    ];
    let (state, _) = run_exec(state, &events);
    assert_eq!(state, ExecState::Failed(ExecError::InvalidText(Channel::Stdout)));

    let state = attached("ls", false, false);
    let events = vec![
        ExecEvent::Chunk(Channel::Stderr, vec![0xc3]),
        ExecEvent::Closed(Channel::Stdout),
        ExecEvent::Closed(Channel::Stderr),
        ExecEvent::Exited(0),
    ];
    let (state, _) = run_exec(state, &events);
    assert_eq!(state, ExecState::Failed(ExecError::InvalidText(Channel::Stderr)));
}

#[test]
fn text_split_across_chunks_is_read_whole() {
    let state = attached("ls", false, false);
    let events = vec![
        ExecEvent::Chunk(Channel::Stdout, vec![0xc3]),
        ExecEvent::Chunk(Channel::Stdout, vec![0xa4]),
        ExecEvent::Closed(Channel::Stdout),
        ExecEvent::Closed(Channel::Stderr),
        ExecEvent::Exited(0),
    ];
    let (state, _) = run_exec(state, &events);
    assert_eq!(
        state,
        ExecState::Succeeded(CommandResult {
            stdout: "\u{e4}".to_string(),
            stderr: String::new(),
            exit_code: 0
        })
    );
}

#[test]
fn attach_failure_fails_the_call() {
    let (state, _) = Krunch::execute_pod_command("ls", false, false);
    let events = vec![
        ExecEvent::Listed(vec![named("krunch-1")]),
        ExecEvent::Failed("exec not permitted".to_string()),
    ];
    let (state, actions) = run_exec(state, &events);
    assert_eq!(state, ExecState::Failed(ExecError::Attach("exec not permitted".to_string())));
    assert_eq!(actions[1], ExecAction::Stop);
    assert_eq!(ExecError::Attach("exec not permitted".to_string()).message(), "exec not permitted");
}

#[test]
fn listing_failure_and_stream_failure_are_client_errors() {
    let (state, _) = Krunch::execute_pod_command("ls", false, false);
    let (state, _) = exec_step(state, &ExecEvent::Failed("no route".to_string()));
    assert_eq!(state, ExecState::Failed(ExecError::Client("no route".to_string())));
    let state = attached("ls", false, false);
    let (state, _) = exec_step(state, &ExecEvent::Failed("reset".to_string()));
    assert_eq!(state, ExecState::Failed(ExecError::Client("reset".to_string())));
}

#[test]
fn events_out_of_turn_fail_the_call() {
    let state = attached("ls", false, false);
    let events = vec![ExecEvent::Closed(Channel::Stdout), ExecEvent::Closed(Channel::Stdout)];
    let (state, _) = run_exec(state, &events);
    assert_eq!(state, ExecState::Failed(ExecError::OutOfTurn));

    let state = attached("ls", false, false);
    let events = vec![
        ExecEvent::Closed(Channel::Stderr),
        ExecEvent::Chunk(Channel::Stderr, b"late".to_vec()),
    ];
    let (state, _) = run_exec(state, &events);
    assert_eq!(state, ExecState::Failed(ExecError::OutOfTurn));

    let state = attached("ls", false, false);
    let (state, _) = run_exec(state, &vec![ExecEvent::Exited(0), ExecEvent::Exited(1)]);
    assert_eq!(state, ExecState::Failed(ExecError::OutOfTurn));

    let (state, _) = Krunch::execute_pod_command("ls", false, false);
    let (state, _) = exec_step(state, &ExecEvent::Attached);
    assert_eq!(state, ExecState::Failed(ExecError::OutOfTurn));
}

#[test]
fn pod_name_is_the_first_of_the_list() {
    assert_eq!(Krunch::get_krunch_pod_name(&vec![]), None);
    assert_eq!(
        Krunch::get_krunch_pod_name(&vec![named("a"), named("b")]),
        Some("a".to_string())
    );
    assert_eq!(Krunch::get_krunch_pod_name(&vec![Pod { name: None, status: None }]), None);
}

#[test]
fn generic_command_is_sent_as_given() {
    let command = vec!["kubectl".to_string(), "version".to_string()];
    let (state, _) = Krunch::execute_generic_command(command.clone(), true, true);
    let (_, action) = exec_step(state, &ExecEvent::Listed(vec![named("p")]));
    assert_eq!(action, ExecAction::Attach { pod: "p".to_string(), command });
}
