use fastgif::diagnostics::{DiagnosticLog, LineRead};

#[test]
fn new_log_is_empty() {
    let log = DiagnosticLog::new();
    assert_eq!(log.line_count(), 0);
    assert!(log.line(0).is_none());
    assert_eq!(log.text(), "");
}

#[test]
fn lines_are_kept_in_arrival_order() {
    let mut log = DiagnosticLog::new();
    log.append_line("first\n".to_string());
    log.append_line("second\n".to_string());
    log.append_line("third".to_string());
    assert_eq!(log.line_count(), 3);
    assert_eq!(log.line(0).unwrap(), "first\n");
    assert_eq!(log.line(1).unwrap(), "second\n");
    assert_eq!(log.line(2).unwrap(), "third");
    assert!(log.line(3).is_none());
    assert_eq!(log.text(), "first\nsecond\nthird");
}

#[test]
fn text_keeps_lines_exactly_as_read() {
    let mut log = DiagnosticLog::new();
    log.append_line("caf\u{e9} \r\n".to_string());
    log.append_line("".to_string());
    log.append_line("  indented\n".to_string());
    assert_eq!(log.text(), "caf\u{e9} \r\n  indented\n");
    assert_eq!(log.line_count(), 3);
}

#[test]
fn record_appends_lines_and_stops_at_end_of_stream() {
    let mut log = DiagnosticLog::new();
    assert!(log.record(LineRead::Line("a\n".to_string())));
    assert!(log.record(LineRead::Line("b\n".to_string())));
    assert!(!log.record(LineRead::EndOfStream));
    assert_eq!(log.line_count(), 2);
    assert_eq!(log.text(), "a\nb\n");
}

#[test]
fn empty_line_read_means_end_of_stream() {
    let mut log = DiagnosticLog::new();
    assert!(log.record(LineRead::Line("\n".to_string())));
    assert!(!log.record(LineRead::Line(String::new())));
    assert_eq!(log.line_count(), 1);
    assert_eq!(log.text(), "\n");
}

#[test]
fn failed_read_ends_the_drain_and_keeps_what_was_read() {
    let mut log = DiagnosticLog::new();
    assert!(log.record(LineRead::Line("only line\n".to_string())));
    assert!(!log.record(LineRead::Failed));
    assert_eq!(log.line_count(), 1);
    assert_eq!(log.line(0).unwrap(), "only line\n");
}

#[test]
fn extend_appends_the_other_log_behind() {
    let mut first = DiagnosticLog::new();
    first.append_line("p1\n".to_string());
    first.append_line("p2\n".to_string());
    let mut second = DiagnosticLog::new();
    second.append_line("c1\n".to_string());
    first.extend(second);
    assert_eq!(first.line_count(), 3);
    assert_eq!(first.text(), "p1\np2\nc1\n");

    first.extend(DiagnosticLog::new());
    assert_eq!(first.line_count(), 3);
}
