use penguexec::artifact::{artifact_file_name, fresh_artifact_file_name};
use penguexec::launch::plan_launch;
use penguexec::outcome::{build_result, ProcessOutcome};
use penguexec::request::{
    validate_request, ExecError, NodeExecutionInput, DEFAULT_TIMEOUT_MS, MAX_CODE_LENGTH,
};
use penguexec::session::{Event, ExecSession, Phase, Step};
use penguexec::text::{text_is_blank, trim_text};

fn input(code: &str, timeout: Option<u64>) -> NodeExecutionInput {
    NodeExecutionInput::new(code.to_string(), timeout, String::new())
}

#[test]
fn empty_code_is_refused() {
    assert_eq!(validate_request(&input("", None)), Err(ExecError::EmptyCode));
}

#[test]
fn whitespace_code_is_refused() {
    assert_eq!(validate_request(&input(" \n\t\u{3000}", None)), Err(ExecError::EmptyCode));
}

#[test]
fn oversized_code_is_refused() {
    let code = "a".repeat(MAX_CODE_LENGTH + 1);
    assert_eq!(
        validate_request(&input(&code, Some(5000))),
        Err(ExecError::CodeTooLarge { max_bytes: 1048576 })
    );
}

#[test]
fn code_at_size_limit_is_accepted() {
    let code = "a".repeat(MAX_CODE_LENGTH);
    assert_eq!(validate_request(&input(&code, None)), Ok(30000));
}

#[test]
fn multibyte_code_is_measured_in_bytes() {
    // 349526 three-byte characters make 1048578 bytes
    let code = "\u{AC00}".repeat(349526);
    assert_eq!(
        validate_request(&input(&code, None)),
        Err(ExecError::CodeTooLarge { max_bytes: 1048576 })
    );
}

#[test]
fn blank_check_comes_before_size_check() {
    let code = " ".repeat(MAX_CODE_LENGTH + 1);
    assert_eq!(validate_request(&input(&code, None)), Err(ExecError::EmptyCode));
}

#[test]
fn default_timeout_applies() {
    assert_eq!(validate_request(&input("1", None)), Ok(DEFAULT_TIMEOUT_MS));
}

#[test]
fn timeout_bounds() {
    assert_eq!(validate_request(&input("1", Some(1000))), Ok(1000));
    assert_eq!(validate_request(&input("1", Some(300000))), Ok(300000));
    assert_eq!(
        validate_request(&input("1", Some(999))),
        Err(ExecError::InvalidTimeout { timeout_ms: 999 })
    );
    assert_eq!(
        validate_request(&input("1", Some(300001))),
        Err(ExecError::InvalidTimeout { timeout_ms: 300001 })
    );
    assert_eq!(
        validate_request(&input("1", Some(0))),
        Err(ExecError::InvalidTimeout { timeout_ms: 0 })
    );
}

#[test]
fn validation_errors_are_classified() {
    assert!(ExecError::EmptyCode.is_validation());
    assert!(ExecError::InvalidTimeout { timeout_ms: 1 }.is_validation());
    assert!(!ExecError::Timeout { timeout_ms: 1000 }.is_validation());
    assert!(!ExecError::Launch { cause: "x".to_string() }.is_validation());
}

#[test]
fn invalid_timeout_starts_no_session() {
    let r = ExecSession::start(&input("console.log(1)", Some(500)), "/tmp/a.js".to_string());
    match r {
        Err(e) => assert_eq!(e, ExecError::InvalidTimeout { timeout_ms: 500 }),
        Ok(_) => panic!("an invalid request must not start"),
    }
}

#[test]
fn oversized_code_starts_no_session() {
    let code = "x".repeat(MAX_CODE_LENGTH + 10);
    let r = ExecSession::start(&input(&code, None), "/tmp/a.js".to_string());
    assert!(matches!(r, Err(ExecError::CodeTooLarge { .. })));
}

#[test]
fn artifact_name_format() {
    assert_eq!(artifact_file_name(0, 42), "pengu_exec_0_42.js");
    assert_eq!(artifact_file_name(1234, 4294967295), "pengu_exec_1234_4294967295.js");
}

#[test]
fn artifact_names_of_distinct_values_differ() {
    assert_ne!(artifact_file_name(1, 23), artifact_file_name(12, 3));
    assert_ne!(artifact_file_name(0, 7), artifact_file_name(0, 8));
}

#[test]
fn fresh_artifact_name_shape() {
    let a = fresh_artifact_file_name(0);
    assert!(a.starts_with("pengu_exec_0_"));
    assert!(a.ends_with(".js"));
    let digits = &a["pengu_exec_0_".len()..a.len() - 3];
    assert!(!digits.is_empty() && digits.chars().all(|c| c.is_ascii_digit()));
}

#[test]
fn launch_plan_orders_arguments() {
    let mut req = input("1", None);
    req.push_arg("--flag".to_string());
    req.push_arg("value".to_string());
    let plan = plan_launch("/tmp/pengu_exec_0_1.js", &req);
    assert_eq!(plan.program, "node");
    assert_eq!(plan.args, vec!["/tmp/pengu_exec_0_1.js", "--flag", "value"]);
    assert_eq!(plan.working_directory, None);
    assert!(plan.environment.is_empty());
}

#[test]
fn launch_plan_sets_working_directory() {
    let req = NodeExecutionInput::new("1".to_string(), None, "/work".to_string());
    let plan = plan_launch("/tmp/s.js", &req);
    assert_eq!(plan.working_directory, Some("/work".to_string()));
}

#[test]
fn launch_plan_overlays_environment() {
    let mut req = input("console.log(process.env.FOO)", None);
    req.set_env("FOO".to_string(), "bar".to_string());
    let plan = plan_launch("/tmp/s.js", &req);
    assert_eq!(plan.environment, vec![("FOO".to_string(), "bar".to_string())]);
}

#[test]
fn set_env_replaces_existing_key() {
    let mut req = input("1", None);
    req.set_env("A".to_string(), "1".to_string());
    req.set_env("B".to_string(), "2".to_string());
    req.set_env("A".to_string(), "3".to_string());
    assert_eq!(
        req.environment,
        vec![("A".to_string(), "3".to_string()), ("B".to_string(), "2".to_string())]
    );
}

#[test]
fn completed_run_is_trimmed() {
    let out = ProcessOutcome::Completed {
        exit_code: Some(0),
        stdout: b"hello\n".to_vec(),
        stderr: b"  warn \r\n".to_vec(),
    };
    let r = build_result(out, 120, "/tmp/x.js".to_string(), 5000).unwrap();
    assert_eq!(r.stdout, "hello");
    assert_eq!(r.stderr, "warn");
    assert_eq!(r.exitCode, 0);
    assert_eq!(r.executionTime, 120);
    assert!(r.executionTime < 5000);
    assert_eq!(r.tempFilePath, Some("/tmp/x.js".to_string()));
}

#[test]
fn nonzero_exit_is_a_result() {
    let out = ProcessOutcome::Completed { exit_code: Some(2), stdout: vec![], stderr: vec![] };
    let r = build_result(out, 10, "/tmp/x.js".to_string(), 5000).unwrap();
    assert_eq!(r.exitCode, 2);
    assert_eq!(r.stdout, "");
}

#[test]
fn signal_exit_reports_minus_one() {
    let out = ProcessOutcome::Completed { exit_code: None, stdout: vec![], stderr: vec![] };
    let r = build_result(out, 10, "/tmp/x.js".to_string(), 5000).unwrap();
    assert_eq!(r.exitCode, -1);
}

#[test]
fn invalid_utf8_output_is_replaced() {
    let out = ProcessOutcome::Completed {
        exit_code: Some(0),
        stdout: vec![b'a', 0xff, b'b'],
        stderr: vec![],
    };
    let r = build_result(out, 1, "/tmp/x.js".to_string(), 5000).unwrap();
    assert_eq!(r.stdout, "a\u{FFFD}b");
}

#[test]
fn timeout_is_an_error() {
    let r = build_result(ProcessOutcome::TimedOut, 1003, "/tmp/x.js".to_string(), 1000);
    assert!(matches!(r, Err(ExecError::Timeout { timeout_ms: 1000 })));
}

#[test]
fn failed_wait_is_a_process_failure() {
    let r = build_result(
        ProcessOutcome::Failed { cause: "broken pipe".to_string() },
        5,
        "/tmp/x.js".to_string(),
        1000,
    );
    match r {
        Err(ExecError::ProcessFailure { cause }) => assert_eq!(cause, "broken pipe"),
        _ => panic!("expected a process failure"),
    }
}

fn started(timeout: Option<u64>) -> (ExecSession, Step) {
    match ExecSession::start(&input("console.log('hello')", timeout), "/tmp/p.js".to_string()) {
        Ok(v) => v,
        Err(e) => panic!("valid request refused: {:?}", e),
    }
}

#[test]
fn session_happy_path() {
    let (mut s, first) = started(Some(5000));
    match first {
        Step::WriteArtifact { path, code } => {
            assert_eq!(path, "/tmp/p.js");
            assert_eq!(code, "console.log('hello')");
        }
        _ => panic!("the first step writes the scratch file"),
    }
    assert!(s.expects(&Event::ArtifactWritten));
    assert!(!s.expects(&Event::ArtifactRemoved));
    match s.step(Event::ArtifactWritten) {
        Step::Launch { plan, timeout_ms } => {
            assert_eq!(timeout_ms, 5000);
            assert_eq!(plan.args, vec!["/tmp/p.js"]);
        }
        _ => panic!("expected a launch"),
    }
    let outcome = ProcessOutcome::Completed {
        exit_code: Some(0),
        stdout: b"hello\n".to_vec(),
        stderr: vec![],
    };
    match s.step(Event::ProcessEnded { outcome, elapsed_ms: 40 }) {
        Step::RemoveArtifact { path } => assert_eq!(path, "/tmp/p.js"),
        _ => panic!("expected a removal"),
    }
    assert_eq!(s.phase, Phase::Cleaning);
    match s.step(Event::ArtifactRemoved) {
        Step::Finish { result: Ok(o) } => {
            assert_eq!(o.stdout, "hello");
            assert_eq!(o.exitCode, 0);
            assert_eq!(o.executionTime, 40);
        }
        _ => panic!("expected a result"),
    }
    assert_eq!(s.phase, Phase::Finished);
}

#[test]
fn session_timeout_removes_artifact_before_error() {
    let (mut s, _) = started(Some(1000));
    let _ = s.step(Event::ArtifactWritten);
    match s.step(Event::ProcessEnded { outcome: ProcessOutcome::TimedOut, elapsed_ms: 1001 }) {
        Step::RemoveArtifact { path } => assert_eq!(path, "/tmp/p.js"),
        _ => panic!("a timed-out run still removes its scratch file"),
    }
    match s.step(Event::ArtifactRemoved) {
        Step::Finish { result } => {
            assert!(matches!(result, Err(ExecError::Timeout { timeout_ms: 1000 })))
        }
        _ => panic!("expected the timeout"),
    }
}

#[test]
fn session_launch_failure_removes_artifact() {
    let (mut s, _) = started(None);
    let _ = s.step(Event::ArtifactWritten);
    match s.step(Event::LaunchFailed { cause: "node not found".to_string() }) {
        Step::RemoveArtifact { .. } => {}
        _ => panic!("expected a removal"),
    }
    match s.step(Event::ArtifactRemoved) {
        Step::Finish { result: Err(ExecError::Launch { cause }) } => {
            assert_eq!(cause, "node not found")
        }
        _ => panic!("expected the launch error"),
    }
}

#[test]
fn session_write_failure_ends_without_launch() {
    let (mut s, _) = started(None);
    match s.step(Event::ArtifactWriteFailed { cause: "disk full".to_string() }) {
        Step::Finish { result: Err(ExecError::ArtifactWrite { cause }) } => {
            assert_eq!(cause, "disk full")
        }
        _ => panic!("expected the write error"),
    }
    assert_eq!(s.phase, Phase::Finished);
    assert!(!s.expects(&Event::ArtifactRemoved));
}

#[test]
fn trim_cases() {
    assert_eq!(trim_text("  a b \n"), "a b");
    assert_eq!(trim_text("\u{2003}x\u{85}"), "x");
    assert_eq!(trim_text(" \t "), "");
    assert_eq!(trim_text(""), "");
    assert_eq!(trim_text("abc"), "abc");
}

#[test]
fn blank_cases() {
    assert!(text_is_blank(""));
    assert!(text_is_blank("\r\n\u{a0}"));
    assert!(!text_is_blank(" x "));
}
