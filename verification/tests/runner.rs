use status_line::gate::{StatusLineConfig, StatusLineJob, StatusLineManager};
use status_line::outcome::{Failure, Outcome, StatusLineUpdate};
use status_line::request::{StatusLineInput, StatusLineRequest};
use status_line::runner::{conclude_exit, split_command, Action, Attempt, Event};

#[derive(Clone, Debug, PartialEq, Eq)]
struct Usage {
    total_tokens: i64,
}

fn request(cwd: &str) -> StatusLineRequest<Usage> {
    StatusLineRequest {
        model: "gpt-test".to_string(),
        model_provider: "provider".to_string(),
        cwd: cwd.to_string(),
        task_running: true,
        review_mode: false,
        context_window_percent: Some(42),
        context_window_used_tokens: None,
        token_usage: Some(Usage { total_tokens: 1234 }),
    }
}

fn job(command: &[&str], cwd: &str, timeout_ms: u64) -> StatusLineJob<Usage> {
    StatusLineJob {
        command: command.iter().map(|part| part.to_string()).collect(),
        request: request(cwd),
        timeout_ms,
    }
}

fn payload_of(input: &StatusLineInput<Usage>) -> Vec<u8> {
    let mut object = serde_json::Map::new();
    object.insert("model".to_string(), serde_json::Value::from(input.model.clone()));
    object.insert("cwd".to_string(), serde_json::Value::from(input.cwd.clone()));
    object.insert("git_branch".to_string(), serde_json::Value::from(input.git_branch.clone()));
    match serde_json::to_vec(&serde_json::Value::Object(object)) {
        Ok(bytes) => bytes,
        Err(err) => panic!("a map of strings serializes: {err}"),
    }
}

/// A renderer that prints the `cwd` it received as its first output line.
fn echo_cwd(payload: &[u8]) -> Vec<u8> {
    let value: serde_json::Value = match serde_json::from_slice(payload) {
        Ok(value) => value,
        Err(err) => panic!("the payload is JSON: {err}"),
    };
    let cwd = match value.get("cwd").and_then(|cwd| cwd.as_str()) {
        Some(cwd) => cwd.to_string(),
        None => panic!("the payload names the working directory"),
    };
    format!("{cwd}\nignored second line\n").into_bytes()
}

/// Drives an attempt up to the wait for the renderer and returns it with the
/// payload that was written.
fn run_until_waiting(command: &[&str], cwd: &str, timeout_ms: u64) -> (Attempt<Usage>, Vec<u8>) {
    let (attempt, action) = Attempt::start(job(command, cwd, timeout_ms));
    assert_eq!(action, Action::ResolveBranch { cwd: cwd.to_string() });
    let (attempt, action) = attempt.step(Event::BranchResolved { branch: Some("main".to_string()) });
    let input = match action {
        Action::Serialize { input } => input,
        other => panic!("expected the input to serialize, got {other:?}"),
    };
    let payload = payload_of(&input);
    let (attempt, action) = attempt.step(Event::Serialized { payload: payload.clone() });
    assert_eq!(
        action,
        Action::Spawn {
            program: command[0].to_string(),
            args: command[1..].iter().map(|arg| arg.to_string()).collect(),
        }
    );
    let (attempt, action) = attempt.step(Event::Spawned { stdin_open: true });
    assert_eq!(action, Action::WriteInput { payload: payload.clone() });
    let (attempt, action) = attempt.step(Event::InputWritten);
    assert_eq!(action, Action::AwaitExit { timeout_ms });
    (attempt, payload)
}

fn delivered(action: Action<Usage>) -> Outcome {
    match action {
        Action::Deliver { outcome } => outcome,
        other => panic!("expected an outcome, got {other:?}"),
    }
}

fn assert_finished(attempt: Attempt<Usage>) {
    let (attempt, action) = attempt.step(Event::TimedOut);
    assert_eq!(action, Action::Stop);
    let (_, action) = attempt.step(Event::Exited { code: Some(0), stdout: b"late\n".to_vec(), stderr: Vec::new() });
    assert_eq!(action, Action::Stop);
}

#[test]
fn renderer_echoing_cwd_updates_with_that_line() {
    let (attempt, payload) = run_until_waiting(&["render", "--short"], "/tmp/x", 500);
    let stdout = echo_cwd(&payload);
    let (attempt, action) = attempt.step(Event::Exited { code: Some(0), stdout, stderr: Vec::new() });
    let outcome = delivered(action);
    assert_eq!(outcome, Ok(Some("/tmp/x".to_string())));
    assert_eq!(StatusLineUpdate::from_outcome(outcome), StatusLineUpdate::Updated(Some("/tmp/x".to_string())));
    assert_finished(attempt);
}

#[test]
fn input_merges_request_and_branch() {
    let (attempt, _) = Attempt::start(job(&["render"], "/work/tree", 10));
    let (_, action) = attempt.step(Event::BranchResolved { branch: Some("feature/x".to_string()) });
    let expected = StatusLineInput {
        model: "gpt-test".to_string(),
        model_provider: "provider".to_string(),
        cwd: "/work/tree".to_string(),
        git_branch: Some("feature/x".to_string()),
        task_running: true,
        review_mode: false,
        context_window_percent: Some(42),
        context_window_used_tokens: None,
        token_usage: Some(Usage { total_tokens: 1234 }),
    };
    assert_eq!(action, Action::Serialize { input: expected });
}

#[test]
fn unresolved_branch_stays_absent() {
    let (attempt, _) = Attempt::start(job(&["render"], "/not/a/repo", 10));
    let (_, action) = attempt.step(Event::BranchResolved { branch: None });
    match action {
        Action::Serialize { input } => {
            assert_eq!(input.git_branch, None);
            assert_eq!(input.cwd, "/not/a/repo");
            assert_eq!(input.context_window_used_tokens, None);
        }
        other => panic!("expected the input to serialize, got {other:?}"),
    }
}

#[test]
fn blank_line_updates_with_no_line() {
    let (attempt, _) = run_until_waiting(&["render"], "/tmp/x", 500);
    let (_, action) = attempt.step(Event::Exited { code: Some(0), stdout: b"\n".to_vec(), stderr: Vec::new() });
    let outcome = delivered(action);
    assert_eq!(outcome, Ok(None));
    let update = StatusLineUpdate::from_outcome(outcome);
    assert_eq!(update, StatusLineUpdate::Updated(None));
    assert_ne!(update, StatusLineUpdate::Updated(Some(String::new())));
}

#[test]
fn empty_output_updates_with_no_line() {
    let (attempt, _) = run_until_waiting(&["render"], "/tmp/x", 500);
    let (_, action) = attempt.step(Event::Exited { code: Some(0), stdout: Vec::new(), stderr: b"noise".to_vec() });
    assert_eq!(delivered(action), Ok(None));
}

#[test]
fn exit_status_one_fails_whatever_was_printed() {
    let (attempt, _) = run_until_waiting(&["render"], "/tmp/x", 500);
    let (attempt, action) = attempt.step(Event::Exited {
        code: Some(1),
        stdout: b"a perfectly good line\n".to_vec(),
        stderr: b"  broken pipe \n".to_vec(),
    });
    let outcome = delivered(action);
    assert_eq!(
        outcome,
        Err(Failure::NonZeroExit { code: Some(1), stderr: "broken pipe".to_string() })
    );
    assert_eq!(StatusLineUpdate::from_outcome(outcome), StatusLineUpdate::Failed);
    assert_finished(attempt);
}

#[test]
fn renderer_ended_by_a_signal_fails() {
    let outcome = conclude_exit(None, b"line\n", b"");
    assert_eq!(outcome, Err(Failure::NonZeroExit { code: None, stderr: String::new() }));
}

#[test]
fn only_status_zero_counts_as_success() {
    assert_eq!(conclude_exit(Some(0), b"ok\n", b"warning"), Ok(Some("ok".to_string())));
    for code in [1, 2, -1, 127, 255, i32::MIN, i32::MAX] {
        let outcome = conclude_exit(Some(code), b"ok\n", b"why\n");
        assert_eq!(outcome, Err(Failure::NonZeroExit { code: Some(code), stderr: "why".to_string() }));
    }
}

#[test]
fn renderer_outliving_the_deadline_fails() {
    let (attempt, _) = run_until_waiting(&["sleep", "60"], "/tmp/x", 25);
    let (attempt, action) = attempt.step(Event::TimedOut);
    let outcome = delivered(action);
    assert_eq!(outcome, Err(Failure::Timeout { timeout_ms: 25 }));
    assert_eq!(StatusLineUpdate::from_outcome(outcome), StatusLineUpdate::Failed);
    assert_finished(attempt);
}

#[test]
fn failed_wait_fails() {
    let (attempt, _) = run_until_waiting(&["render"], "/tmp/x", 25);
    let (_, action) = attempt.step(Event::WaitFailed { detail: "no child".to_string() });
    assert_eq!(delivered(action), Err(Failure::Wait { detail: "no child".to_string() }));
}

#[test]
fn serialization_failure_fails() {
    let (attempt, _) = Attempt::start(job(&["render"], "/tmp/x", 25));
    let (attempt, _) = attempt.step(Event::BranchResolved { branch: None });
    let (attempt, action) = attempt.step(Event::SerializationFailed { detail: "key must be a string".to_string() });
    let outcome = delivered(action);
    assert_eq!(outcome, Err(Failure::Serialization { detail: "key must be a string".to_string() }));
    assert_eq!(StatusLineUpdate::from_outcome(outcome), StatusLineUpdate::Failed);
    assert_finished(attempt);
}

#[test]
fn empty_command_fails_after_serialization() {
    let (attempt, _) = Attempt::start(job(&[], "/tmp/x", 25));
    let (attempt, action) = attempt.step(Event::BranchResolved { branch: None });
    assert!(matches!(action, Action::Serialize { .. }));
    let (attempt, action) = attempt.step(Event::Serialized { payload: b"{}".to_vec() });
    assert_eq!(delivered(action), Err(Failure::EmptyCommand));
    assert_finished(attempt);
}

#[test]
fn spawn_failure_fails() {
    let (attempt, _) = Attempt::start(job(&["/no/such/program"], "/tmp/x", 25));
    let (attempt, _) = attempt.step(Event::BranchResolved { branch: None });
    let (attempt, _) = attempt.step(Event::Serialized { payload: b"{}".to_vec() });
    let (attempt, action) = attempt.step(Event::SpawnFailed { detail: "not found".to_string() });
    assert_eq!(delivered(action), Err(Failure::Spawn { detail: "not found".to_string() }));
    assert_finished(attempt);
}

#[test]
fn write_failure_fails() {
    let (attempt, _) = Attempt::start(job(&["render"], "/tmp/x", 25));
    let (attempt, _) = attempt.step(Event::BranchResolved { branch: None });
    let (attempt, _) = attempt.step(Event::Serialized { payload: b"{}".to_vec() });
    let (attempt, _) = attempt.step(Event::Spawned { stdin_open: true });
    let (attempt, action) = attempt.step(Event::InputWriteFailed { detail: "closed".to_string() });
    assert_eq!(delivered(action), Err(Failure::InputWrite { detail: "closed".to_string() }));
    assert_finished(attempt);
}

#[test]
fn renderer_without_input_stream_is_awaited_at_once() {
    let (attempt, _) = Attempt::start(job(&["render"], "/tmp/x", 75));
    let (attempt, _) = attempt.step(Event::BranchResolved { branch: None });
    let (attempt, _) = attempt.step(Event::Serialized { payload: b"{}".to_vec() });
    let (attempt, action) = attempt.step(Event::Spawned { stdin_open: false });
    assert_eq!(action, Action::AwaitExit { timeout_ms: 75 });
    let (_, action) = attempt.step(Event::Exited { code: Some(0), stdout: b"up\n".to_vec(), stderr: Vec::new() });
    assert_eq!(delivered(action), Ok(Some("up".to_string())));
}

#[test]
fn event_out_of_turn_fails_the_attempt() {
    let (attempt, _) = Attempt::start(job(&["render"], "/tmp/x", 25));
    let (attempt, action) = attempt.step(Event::InputWritten);
    assert_eq!(delivered(action), Err(Failure::UnexpectedEvent));
    assert_finished(attempt);

    let (attempt, _) = Attempt::start(job(&["render"], "/tmp/x", 25));
    let (attempt, _) = attempt.step(Event::BranchResolved { branch: None });
    let (_, action) = attempt.step(Event::Exited { code: Some(0), stdout: b"x\n".to_vec(), stderr: Vec::new() });
    assert_eq!(delivered(action), Err(Failure::UnexpectedEvent));

    let (attempt, _) = run_until_waiting(&["render"], "/tmp/x", 25);
    let (_, action) = attempt.step(Event::Spawned { stdin_open: true });
    assert_eq!(delivered(action), Err(Failure::UnexpectedEvent));
}

#[test]
fn every_failure_reaches_the_host_as_failed() {
    let failures = vec![
        Failure::Serialization { detail: "a".to_string() },
        Failure::EmptyCommand,
        Failure::Spawn { detail: "b".to_string() },
        Failure::InputWrite { detail: "c".to_string() },
        Failure::Wait { detail: "d".to_string() },
        Failure::Timeout { timeout_ms: 1 },
        Failure::NonZeroExit { code: Some(3), stderr: "e".to_string() },
        Failure::UnexpectedEvent,
    ];
    for failure in failures {
        assert_eq!(StatusLineUpdate::from_outcome(Err(failure)), StatusLineUpdate::Failed);
    }
}

#[test]
fn every_line_reaches_the_host_as_updated() {
    assert_eq!(StatusLineUpdate::from_outcome(Ok(None)), StatusLineUpdate::Updated(None));
    assert_eq!(
        StatusLineUpdate::from_outcome(Ok(Some("main".to_string()))),
        StatusLineUpdate::Updated(Some("main".to_string()))
    );
}

#[test]
fn split_command_parts_program_and_arguments() {
    assert_eq!(split_command(Vec::new()), None);
    assert_eq!(split_command(vec!["render".to_string()]), Some(("render".to_string(), Vec::new())));
    assert_eq!(
        split_command(vec!["sh".to_string(), "-c".to_string(), "echo hi".to_string()]),
        Some(("sh".to_string(), vec!["-c".to_string(), "echo hi".to_string()]))
    );
}

#[test]
fn admitted_job_runs_to_an_update() {
    let config = StatusLineConfig {
        command: vec!["render".to_string()],
        update_interval_ms: 300,
        timeout_ms: 80,
    };
    let mut manager = match StatusLineManager::new(config) {
        Some(manager) => manager,
        None => panic!("a command with a program makes a manager"),
    };
    let job = match manager.maybe_request_at(request("/tmp/x"), 0) {
        Some(job) => job,
        None => panic!("the first trigger is admitted"),
    };
    let (attempt, _) = Attempt::start(job);
    let (attempt, _) = attempt.step(Event::BranchResolved { branch: None });
    let (attempt, action) = attempt.step(Event::Serialized { payload: b"{}".to_vec() });
    assert_eq!(action, Action::Spawn { program: "render".to_string(), args: Vec::new() });
    let (attempt, _) = attempt.step(Event::Spawned { stdin_open: true });
    let (attempt, action) = attempt.step(Event::InputWritten);
    assert_eq!(action, Action::AwaitExit { timeout_ms: 80 });
    let (_, action) = attempt.step(Event::Exited { code: Some(0), stdout: b" idle \n".to_vec(), stderr: Vec::new() });
    assert_eq!(StatusLineUpdate::from_outcome(delivered(action)), StatusLineUpdate::Updated(Some("idle".to_string())));
    assert!(manager.maybe_request_at(request("/tmp/x"), u128::MAX).is_none());
    manager.mark_complete();
    assert!(manager.maybe_request_at(request("/tmp/x"), u128::MAX).is_some());
}
