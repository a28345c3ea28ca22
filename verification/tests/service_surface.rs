use bytes::Bytes;
use fastgif::config::{bind_address, port_or_default, select_port, DEFAULT_PORT};
use fastgif::diagnostics::DiagnosticLog;
use fastgif::exit::ExitReport;
use fastgif::outcome::{ErrorKind, FailureDescriptor, PipelineOutcome, Stage};
use fastgif::reply::{
    describe_failure, not_found, respond, ReplyBody, STATUS_INTERNAL_SERVER_ERROR,
    STATUS_NOT_FOUND, STATUS_OK,
};
use fastgif::request::{CommandLine, PipelineRequest};
use fastgif::text::{push_decimal, push_signed_decimal};
use fastgif::verdict::{interrupted, spawn_failed, verdict, CollectResult, Interruption, LinkResult};

fn surface_log(lines: &[&str]) -> DiagnosticLog {
    let mut log = DiagnosticLog::new();
    for line in lines {
        log.append_line(line.to_string());
    }
    log
}

fn surface_strings(items: &[&str]) -> Vec<String> {
    items.iter().map(|item| item.to_string()).collect()
}

#[test]
fn tweet_video_request_names_the_source_and_both_command_lines() {
    let request = PipelineRequest::for_tweet_video("EXAMPLE123.mp4");
    assert_eq!(request.source(), "https://video.twimg.com/tweet_video/EXAMPLE123.mp4");
    assert_eq!(request.producer().program(), "ffmpeg");
    assert_eq!(
        request.producer().args(),
        &surface_strings(&[
            "-i",
            "https://video.twimg.com/tweet_video/EXAMPLE123.mp4",
            "-f",
            "yuv4mpegpipe",
            "-"
        ])
    );
    assert_eq!(request.consumer().program(), "gifski");
    assert_eq!(request.consumer().args(), &surface_strings(&["--output", "-", "--fast", "-"]));
}

#[test]
fn tweet_video_request_with_empty_path_points_at_the_directory() {
    let request = PipelineRequest::for_tweet_video("");
    assert_eq!(request.source(), "https://video.twimg.com/tweet_video/");
    assert_eq!(request.producer().args()[1], "https://video.twimg.com/tweet_video/");
}

#[test]
fn custom_request_keeps_what_it_was_given() {
    let producer = CommandLine::new("cat".to_string(), surface_strings(&["/tmp/in.y4m"]));
    let consumer = CommandLine::new("wc".to_string(), surface_strings(&["-c"]));
    let request = PipelineRequest::new("/tmp/in.y4m".to_string(), producer.clone(), consumer.clone());
    assert_eq!(request.source(), "/tmp/in.y4m");
    assert_eq!(request.producer(), &producer);
    assert_eq!(request.consumer(), &consumer);
    assert_eq!(request.producer().program(), "cat");
    assert_eq!(request.consumer().args(), &surface_strings(&["-c"]));
}

#[test]
fn duplicate_command_line_equals_the_first() {
    let line = CommandLine::new("gifski".to_string(), surface_strings(&["--output", "-", "--fast", "-"]));
    let copy = line.duplicate();
    assert_eq!(copy, line);
    assert_eq!(copy.program(), "gifski");
    assert_eq!(copy.args(), &surface_strings(&["--output", "-", "--fast", "-"]));
    let bare = CommandLine::new("true".to_string(), Vec::new());
    assert_eq!(bare.duplicate(), bare);
    assert!(bare.duplicate().args().is_empty());
}

#[test]
fn success_is_answered_with_the_image() {
    let outcome = verdict(
        LinkResult::Completed,
        CollectResult::Collected(b"GIF89a".to_vec()),
        ExitReport::exited(0),
        ExitReport::exited(0),
        DiagnosticLog::new(),
        DiagnosticLog::new(),
    );
    let reply = respond(outcome);
    assert_eq!(reply.status, STATUS_OK);
    assert_eq!(reply.status, 200);
    assert_eq!(
        reply.headers,
        vec![
            ("Content-Type".to_string(), "image/gif".to_string()),
            ("X-Powered-By".to_string(), "fastgif".to_string()),
            ("Cache-Control".to_string(), "public, max-age=31536000".to_string()),
        ]
    );
    assert_eq!(reply.body, ReplyBody::Image(Bytes::from(b"GIF89a".to_vec())));
}

#[test]
fn failure_is_answered_with_a_report_of_stage_and_diagnostics() {
    let outcome = verdict(
        LinkResult::Completed,
        CollectResult::Collected(Vec::new()),
        ExitReport::exited(1),
        ExitReport::exited(0),
        surface_log(&["Input #0 not found\n", "Conversion failed!\n"]),
        DiagnosticLog::new(),
    );
    let reply = respond(outcome);
    assert_eq!(reply.status, STATUS_INTERNAL_SERVER_ERROR);
    assert_eq!(reply.status, 500);
    assert!(reply.headers.is_empty());
    assert_eq!(
        reply.body,
        ReplyBody::Text(
            "Failed to process video: the producer process failed with exit code 1\n\
             Stage: producer\n\nDiagnostics:\nInput #0 not found\nConversion failed!\n"
                .to_string()
        )
    );
}

#[test]
fn every_kind_of_failure_has_its_headline() {
    let spawn = spawn_failed(Stage::Consumer, "Permission denied".to_string());
    assert_eq!(
        describe_failure(spawn.failure().unwrap()),
        "Failed to process video: failed to spawn the consumer process: Permission denied\n\
         Stage: consumer\n\nDiagnostics:\n"
    );

    let link = verdict(
        LinkResult::Failed("broken pipe".to_string()),
        CollectResult::Collected(Vec::new()),
        ExitReport::exited(0),
        ExitReport::exited(0),
        surface_log(&["p\n"]),
        surface_log(&["c\n"]),
    );
    assert_eq!(
        describe_failure(link.failure().unwrap()),
        "Failed to process video: failed to forward producer output to consumer input: broken pipe\n\
         Stage: forwarding link\n\nDiagnostics:\np\nc\n"
    );

    let read = verdict(
        LinkResult::Completed,
        CollectResult::Failed("reset".to_string()),
        ExitReport::exited(0),
        ExitReport::exited(0),
        DiagnosticLog::new(),
        surface_log(&["c\n"]),
    );
    assert_eq!(
        describe_failure(read.failure().unwrap()),
        "Failed to process video: failed to read consumer output: reset\n\
         Stage: consumer read\n\nDiagnostics:\nc\n"
    );

    let abnormal = verdict(
        LinkResult::Completed,
        CollectResult::Collected(Vec::new()),
        ExitReport::exited(0),
        ExitReport::abnormal(),
        DiagnosticLog::new(),
        DiagnosticLog::new(),
    );
    assert_eq!(
        describe_failure(abnormal.failure().unwrap()),
        "Failed to process video: the consumer process ended abnormally\n\
         Stage: consumer\n\nDiagnostics:\n"
    );

    let negative = verdict(
        LinkResult::Completed,
        CollectResult::Collected(Vec::new()),
        ExitReport::exited(0),
        ExitReport::exited(-1073741819),
        DiagnosticLog::new(),
        DiagnosticLog::new(),
    );
    assert_eq!(
        describe_failure(negative.failure().unwrap()),
        "Failed to process video: the consumer process failed with exit code -1073741819\n\
         Stage: consumer\n\nDiagnostics:\n"
    );

    let timeout = interrupted(Interruption::TimedOut, surface_log(&["stalled\n"]), DiagnosticLog::new());
    assert_eq!(
        describe_failure(timeout.failure().unwrap()),
        "Failed to process video: the pipeline timed out\nStage: timeout\n\nDiagnostics:\nstalled\n"
    );

    let cancelled = interrupted(Interruption::Cancelled, DiagnosticLog::new(), DiagnosticLog::new());
    assert_eq!(
        describe_failure(cancelled.failure().unwrap()),
        "Failed to process video: the request was cancelled\nStage: cancellation\n\nDiagnostics:\n"
    );
}

#[test]
fn hand_made_descriptor_is_rendered_from_its_fields() {
    let failure = FailureDescriptor {
        kind: ErrorKind::ProcessExitError,
        stage: Stage::Producer,
        exit_code: Some(255),
        reason: String::new(),
        diagnostics: surface_log(&["a\n", "b\n"]),
    };
    let reply = respond(PipelineOutcome::Failure(failure));
    assert_eq!(reply.status, 500);
    assert_eq!(
        reply.body,
        ReplyBody::Text(
            "Failed to process video: the producer process failed with exit code 255\n\
             Stage: producer\n\nDiagnostics:\na\nb\n"
                .to_string()
        )
    );
}

#[test]
fn unmatched_route_is_answered_with_not_found() {
    let reply = not_found("/favicon.ico");
    assert_eq!(reply.status, STATUS_NOT_FOUND);
    assert_eq!(reply.status, 404);
    assert!(reply.headers.is_empty());
    assert_eq!(reply.body, ReplyBody::Text("404 Not Found: /favicon.ico".to_string()));
}

#[test]
fn decimal_text_of_numbers() {
    let mut out = String::from("n=");
    push_decimal(&mut out, 0);
    assert_eq!(out, "n=0");
    let mut out = String::new();
    push_decimal(&mut out, 7);
    out.push(' ');
    push_decimal(&mut out, 10);
    out.push(' ');
    push_decimal(&mut out, 3000);
    out.push(' ');
    push_decimal(&mut out, 4294967295);
    assert_eq!(out, "7 10 3000 4294967295");

    let mut out = String::new();
    push_signed_decimal(&mut out, 0);
    out.push(' ');
    push_signed_decimal(&mut out, -1);
    out.push(' ');
    push_signed_decimal(&mut out, 2147483647);
    out.push(' ');
    push_signed_decimal(&mut out, -2147483648);
    assert_eq!(out, "0 -1 2147483647 -2147483648");
}

#[test]
fn configured_port_is_used_when_it_parses() {
    assert_eq!(select_port(Some("8080")), 8080);
    assert_eq!(select_port(Some("0")), 0);
    assert_eq!(select_port(Some("65535")), 65535);
}

#[test]
fn default_port_is_used_when_the_setting_is_absent_or_malformed() {
    assert_eq!(DEFAULT_PORT, 3000);
    assert_eq!(select_port(None), 3000);
    assert_eq!(select_port(Some("")), 3000);
    assert_eq!(select_port(Some("http")), 3000);
    assert_eq!(select_port(Some("65536")), 3000);
    assert_eq!(select_port(Some("-1")), 3000);
    assert_eq!(select_port(Some(" 80")), 3000);
    assert_eq!(port_or_default(None), 3000);
    assert_eq!(port_or_default(Some(3000)), 3000);
    assert_eq!(port_or_default(Some(1)), 1);
}

#[test]
fn bind_address_covers_every_interface() {
    assert_eq!(bind_address(3000), "0.0.0.0:3000");
    assert_eq!(bind_address(0), "0.0.0.0:0");
    assert_eq!(bind_address(65535), "0.0.0.0:65535");
    assert_eq!(bind_address(select_port(Some("8080"))), "0.0.0.0:8080");
}
