use n8n_launcher::attempt::{op_timeout_secs, CmdOutcome, ComposeAttempt, ComposeOp};

fn completed(success: bool, exit_code: Option<i32>, stdout: &str, stderr: &str) -> CmdOutcome {
    CmdOutcome::Completed {
        success,
        exit_code,
        stdout: String::from(stdout),
        stderr: String::from(stderr),
    }
}

#[test]
fn up_requests_carry_the_compose_arguments_and_directory() {
    let attempt = ComposeAttempt::new(ComposeOp::Up, String::from("/srv/stack"));
    let req = attempt.request().expect("a request while active");
    assert_eq!(req.program, "docker-compose");
    assert_eq!(req.args, vec![String::from("up"), String::from("-d")]);
    assert_eq!(req.dir, Some(String::from("/srv/stack")));
    assert_eq!(req.timeout_secs, 300);
}

#[test]
fn candidates_are_tried_in_documented_order() {
    let mut attempt = ComposeAttempt::new(ComposeOp::Down, String::from("/srv"));
    let expected = [
        "docker-compose",
        "/usr/local/bin/docker-compose",
        "/opt/homebrew/bin/docker-compose",
        "C:\\Program Files\\Docker\\Docker\\resources\\bin\\docker-compose.exe",
        "C:\\ProgramData\\DockerDesktop\\version-bin\\docker-compose.exe",
    ];
    for (i, name) in expected.iter().enumerate() {
        let req = attempt.request().expect("a request while active");
        assert_eq!(req.program, *name);
        assert_eq!(req.args, vec![String::from("down")]);
        if i + 1 < expected.len() {
            attempt.record(CmdOutcome::TimedOut);
        }
    }
}

#[test]
fn first_success_settles_a_plain_start() {
    let mut attempt = ComposeAttempt::new(ComposeOp::Up, String::from("/srv"));
    attempt.record(completed(false, Some(1), "", "no daemon"));
    assert_eq!(
        attempt.last_error,
        "Command failed with exit code 1: no daemon"
    );
    attempt.record(completed(true, Some(0), "Container n8n Started", "warn"));
    assert_eq!(
        attempt.outcome,
        Some(Ok(String::from(
            "N8N started successfully. Output: Container n8n Started\nErrors: warn"
        )))
    );
    assert!(attempt.request().is_none());
}

#[test]
fn missing_exit_code_is_reported_as_minus_one() {
    let mut attempt = ComposeAttempt::new(ComposeOp::Up, String::from("/srv"));
    attempt.record(completed(false, None, "", "killed"));
    assert_eq!(attempt.last_error, "Command failed with exit code -1: killed");
}

#[test]
fn streaming_start_reports_the_fixed_sentence() {
    let mut attempt = ComposeAttempt::new(ComposeOp::UpStreaming, String::from("/srv"));
    attempt.record(completed(true, Some(0), "lots of output", ""));
    assert_eq!(
        attempt.outcome,
        Some(Ok(String::from("N8N started successfully with progress updates")))
    );
}

#[test]
fn stop_reports_the_fixed_sentence_and_short_failure_text() {
    let mut attempt = ComposeAttempt::new(ComposeOp::Down, String::from("/srv"));
    attempt.record(completed(false, Some(2), "", "not running"));
    assert_eq!(attempt.last_error, "Command failed: not running");
    attempt.record(completed(true, Some(0), "", ""));
    assert_eq!(attempt.outcome, Some(Ok(String::from("N8N stopped successfully"))));
}

#[test]
fn logs_report_the_captured_output() {
    let mut attempt = ComposeAttempt::new(ComposeOp::Logs, String::from("/srv"));
    attempt.record(completed(true, Some(0), "n8n-editor | ready\n", ""));
    assert_eq!(attempt.outcome, Some(Ok(String::from("n8n-editor | ready\n"))));
}

#[test]
fn launch_failures_and_timeouts_are_recorded() {
    let mut attempt = ComposeAttempt::new(ComposeOp::Up, String::from("/srv"));
    attempt.record(CmdOutcome::LaunchFailed { message: String::from("No such file") });
    assert_eq!(attempt.last_error, "Command execution error: No such file");
    attempt.record(CmdOutcome::TimedOut);
    assert_eq!(attempt.last_error, "Command timed out after 5 minutes");
}

#[test]
fn exhausting_every_candidate_reports_the_last_error() {
    let mut attempt = ComposeAttempt::new(ComposeOp::Up, String::from("/srv"));
    for _ in 0..4 {
        attempt.record(CmdOutcome::TimedOut);
    }
    assert_eq!(attempt.outcome, None);
    attempt.record(completed(false, Some(125), "", "bad compose file"));
    assert_eq!(
        attempt.outcome,
        Some(Err(String::from(
            "Failed to start N8N. Last error: Command failed with exit code 125: bad compose file"
        )))
    );
}

#[test]
fn each_operation_has_its_own_final_report_and_timeout_text() {
    let mut stream = ComposeAttempt::new(ComposeOp::UpStreaming, String::from("/srv"));
    for _ in 0..5 {
        stream.record(CmdOutcome::TimedOut);
    }
    assert_eq!(
        stream.outcome,
        Some(Err(String::from(
            "Failed to start N8N with streaming. Last error: Command timed out after 5 minutes"
        )))
    );

    let mut down = ComposeAttempt::new(ComposeOp::Down, String::from("/srv"));
    for _ in 0..5 {
        down.record(CmdOutcome::TimedOut);
    }
    assert_eq!(
        down.outcome,
        Some(Err(String::from(
            "Failed to stop N8N. Last error: Command timed out after 1 minute"
        )))
    );

    let mut logs = ComposeAttempt::new(ComposeOp::Logs, String::from("/srv"));
    for _ in 0..5 {
        logs.record(CmdOutcome::TimedOut);
    }
    assert_eq!(
        logs.outcome,
        Some(Err(String::from(
            "Failed to get logs. Last error: Command timed out after 10 seconds"
        )))
    );
}

#[test]
fn operation_deadlines_match_the_documented_timeouts() {
    assert_eq!(op_timeout_secs(&ComposeOp::Up), 300);
    assert_eq!(op_timeout_secs(&ComposeOp::UpStreaming), 300);
    assert_eq!(op_timeout_secs(&ComposeOp::Down), 60);
    assert_eq!(op_timeout_secs(&ComposeOp::Logs), 10);
}
