use bytes::Bytes;
use fastgif::diagnostics::DiagnosticLog;
use fastgif::exit::ExitReport;
use fastgif::outcome::{ErrorKind, PipelineOutcome, Stage};
use fastgif::verdict::{interrupted, spawn_failed, verdict, CollectResult, Interruption, LinkResult};

fn verdict_log(lines: &[&str]) -> DiagnosticLog {
    let mut log = DiagnosticLog::new();
    for line in lines {
        log.append_line(line.to_string());
    }
    log
}

fn verdict_lines(log: &DiagnosticLog) -> Vec<String> {
    let mut lines = Vec::new();
    let mut i = 0;
    while let Some(line) = log.line(i) {
        lines.push(line.clone());
        i += 1;
    }
    lines
}

#[test]
fn clean_join_returns_the_collected_bytes() {
    let outcome = verdict(
        LinkResult::Completed,
        CollectResult::Collected(vec![0x47, 0x49, 0x46, 0x38, 0x39, 0x61]),
        ExitReport::exited(0),
        ExitReport::exited(0),
        verdict_log(&["frame=1\n"]),
        verdict_log(&[]),
    );
    assert!(outcome.is_success());
    assert!(outcome.failure().is_none());
    assert_eq!(outcome, PipelineOutcome::Success(Bytes::from(vec![0x47, 0x49, 0x46, 0x38, 0x39, 0x61])));
    assert_eq!(outcome.payload().unwrap().as_ref(), b"GIF89a");
}

#[test]
fn clean_join_with_empty_output_is_still_a_success() {
    let outcome = verdict(
        LinkResult::Completed,
        CollectResult::Collected(Vec::new()),
        ExitReport::exited(0),
        ExitReport::exited(0),
        DiagnosticLog::new(),
        DiagnosticLog::new(),
    );
    assert!(outcome.is_success());
    assert_eq!(outcome.payload().unwrap().len(), 0);
}

#[test]
fn both_exits_fail_and_the_consumer_is_blamed() {
    let outcome = verdict(
        LinkResult::Completed,
        CollectResult::Collected(vec![1, 2, 3]),
        ExitReport::exited(3),
        ExitReport::exited(7),
        verdict_log(&["decoder broke\n"]),
        verdict_log(&["encoder broke\n"]),
    );
    assert!(!outcome.is_success());
    assert!(outcome.payload().is_none());
    let failure = outcome.failure().unwrap();
    assert_eq!(failure.kind, ErrorKind::ProcessExitError);
    assert_eq!(failure.stage, Stage::Consumer);
    assert_eq!(failure.exit_code, Some(7));
    assert_eq!(failure.reason, "");
    assert_eq!(verdict_lines(&failure.diagnostics), vec!["encoder broke\n".to_string()]);
}

#[test]
fn consumer_exit_beats_every_stream_failure() {
    let outcome = verdict(
        LinkResult::Failed("broken pipe".to_string()),
        CollectResult::Failed("connection reset".to_string()),
        ExitReport::exited(1),
        ExitReport::abnormal(),
        DiagnosticLog::new(),
        verdict_log(&["killed\n"]),
    );
    let failure = outcome.failure().unwrap();
    assert_eq!(failure.kind, ErrorKind::ProcessExitError);
    assert_eq!(failure.stage, Stage::Consumer);
    assert_eq!(failure.exit_code, None);
    assert_eq!(verdict_lines(&failure.diagnostics), vec!["killed\n".to_string()]);
}

#[test]
fn producer_exit_failure_carries_every_diagnostic_line_in_order() {
    let n = 40;
    let mut log = DiagnosticLog::new();
    let mut expected = Vec::new();
    for i in 0..n {
        let line = format!("warning {}\n", i);
        expected.push(line.clone());
        log.append_line(line);
    }
    let outcome = verdict(
        LinkResult::Completed,
        CollectResult::Collected(vec![9, 9]),
        ExitReport::exited(1),
        ExitReport::exited(0),
        log,
        verdict_log(&["unrelated\n"]),
    );
    let failure = outcome.failure().unwrap();
    assert_eq!(failure.kind, ErrorKind::ProcessExitError);
    assert_eq!(failure.stage, Stage::Producer);
    assert_eq!(failure.exit_code, Some(1));
    assert_eq!(failure.diagnostics.line_count(), n);
    assert_eq!(verdict_lines(&failure.diagnostics), expected);
    assert_eq!(failure.diagnostics.text(), expected.concat());
}

#[test]
fn producer_exit_beats_stream_failures() {
    let outcome = verdict(
        LinkResult::Failed("broken pipe".to_string()),
        CollectResult::Failed("reset".to_string()),
        ExitReport::exited(-2),
        ExitReport::exited(0),
        verdict_log(&["p\n"]),
        verdict_log(&["c\n"]),
    );
    let failure = outcome.failure().unwrap();
    assert_eq!(failure.stage, Stage::Producer);
    assert_eq!(failure.exit_code, Some(-2));
    assert_eq!(verdict_lines(&failure.diagnostics), vec!["p\n".to_string()]);
}

#[test]
fn abnormal_producer_exit_is_a_failure_without_a_code() {
    let outcome = verdict(
        LinkResult::Completed,
        CollectResult::Collected(vec![1]),
        ExitReport::abnormal(),
        ExitReport::exited(0),
        DiagnosticLog::new(),
        DiagnosticLog::new(),
    );
    let failure = outcome.failure().unwrap();
    assert_eq!(failure.kind, ErrorKind::ProcessExitError);
    assert_eq!(failure.stage, Stage::Producer);
    assert_eq!(failure.exit_code, None);
}

#[test]
fn collector_failure_beats_link_failure() {
    let outcome = verdict(
        LinkResult::Failed("broken pipe".to_string()),
        CollectResult::Failed("read interrupted".to_string()),
        ExitReport::exited(0),
        ExitReport::exited(0),
        verdict_log(&["p\n"]),
        verdict_log(&["c1\n", "c2\n"]),
    );
    let failure = outcome.failure().unwrap();
    assert_eq!(failure.kind, ErrorKind::ConsumerReadError);
    assert_eq!(failure.stage, Stage::ConsumerRead);
    assert_eq!(failure.exit_code, None);
    assert_eq!(failure.reason, "read interrupted");
    assert_eq!(verdict_lines(&failure.diagnostics), vec!["c1\n".to_string(), "c2\n".to_string()]);
}

#[test]
fn link_failure_alone_is_a_forwarding_error_with_both_logs() {
    let outcome = verdict(
        LinkResult::Failed("broken pipe".to_string()),
        CollectResult::Collected(vec![1, 2, 3]),
        ExitReport::exited(0),
        ExitReport::exited(0),
        verdict_log(&["p1\n", "p2\n"]),
        verdict_log(&["c1\n"]),
    );
    assert!(outcome.payload().is_none());
    let failure = outcome.failure().unwrap();
    assert_eq!(failure.kind, ErrorKind::ForwardingError);
    assert_eq!(failure.stage, Stage::ForwardingLink);
    assert_eq!(failure.exit_code, None);
    assert_eq!(failure.reason, "broken pipe");
    assert_eq!(
        verdict_lines(&failure.diagnostics),
        vec!["p1\n".to_string(), "p2\n".to_string(), "c1\n".to_string()]
    );
}

#[test]
fn timeout_is_reported_with_both_logs() {
    let outcome = interrupted(Interruption::TimedOut, verdict_log(&["stalled\n"]), verdict_log(&["waiting\n"]));
    let failure = outcome.failure().unwrap();
    assert_eq!(failure.kind, ErrorKind::TimeoutError);
    assert_eq!(failure.stage, Stage::Timeout);
    assert_eq!(failure.exit_code, None);
    assert_eq!(failure.reason, "");
    assert_eq!(
        verdict_lines(&failure.diagnostics),
        vec!["stalled\n".to_string(), "waiting\n".to_string()]
    );
}

#[test]
fn cancellation_is_reported_as_cancelled() {
    let outcome = interrupted(Interruption::Cancelled, DiagnosticLog::new(), DiagnosticLog::new());
    let failure = outcome.failure().unwrap();
    assert_eq!(failure.kind, ErrorKind::Cancelled);
    assert_eq!(failure.stage, Stage::Cancellation);
    assert_eq!(failure.diagnostics.line_count(), 0);
}

#[test]
fn spawn_failure_names_the_stage_and_the_reason() {
    let outcome = spawn_failed(Stage::Producer, "No such file or directory".to_string());
    let failure = outcome.failure().unwrap();
    assert_eq!(failure.kind, ErrorKind::SpawnError);
    assert_eq!(failure.stage, Stage::Producer);
    assert_eq!(failure.exit_code, None);
    assert_eq!(failure.reason, "No such file or directory");
    assert_eq!(failure.diagnostics.line_count(), 0);

    let outcome = spawn_failed(Stage::Consumer, "Permission denied".to_string());
    let failure = outcome.failure().unwrap();
    assert_eq!(failure.stage, Stage::Consumer);
    assert_eq!(failure.reason, "Permission denied");
}

#[test]
fn exit_report_success_is_exit_code_zero() {
    assert!(ExitReport::exited(0).success());
    assert!(!ExitReport::exited(1).success());
    assert!(!ExitReport::exited(-1).success());
    assert!(!ExitReport::abnormal().success());
    assert_eq!(ExitReport::exited(5).code, Some(5));
    assert_eq!(ExitReport::abnormal().code, None);
}
