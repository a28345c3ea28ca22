//! What the caller of the service is told: the image, or a report of the failure.

use crate::outcome::{
    ErrorKind, FailureDescriptor, FailureView, OutcomeView, PipelineOutcome, Stage,
};
use crate::payload::bytes_contents;
use crate::text::{push_signed_decimal, signed_decimal};
use bytes::Bytes;
use vstd::prelude::*;
use vstd::string::StringExecFns;

verus! {

/// The status of a reply that carries the image.
pub const STATUS_OK: u16 = 200;

/// The status of a reply to a request for anything but a video.
pub const STATUS_NOT_FOUND: u16 = 404;

/// The status of a reply that reports a failed conversion.
pub const STATUS_INTERNAL_SERVER_ERROR: u16 = 500;

/// The body of a reply.
#[derive(Debug, PartialEq, Eq)]
pub enum ReplyBody {
    /// The encoded image.
    Image(Bytes),
    /// A message for a human reader.
    Text(String),
}

/// The mathematical content of a [`ReplyBody`].
pub enum ReplyBodyView {
    Image(Seq<u8>),
    Text(Seq<char>),
}

impl View for ReplyBody {
    type V = ReplyBodyView;

    open spec fn view(&self) -> ReplyBodyView {
        match self {
            ReplyBody::Image(payload) => ReplyBodyView::Image(bytes_contents(*payload)),
            ReplyBody::Text(text) => ReplyBodyView::Text(text@),
        }
    }
}

/// A reply to one request: status, headers beyond the transport's defaults,
/// and body.
#[derive(Debug, PartialEq, Eq)]
pub struct Reply {
    pub status: u16,
    pub headers: Vec<(String, String)>,
    pub body: ReplyBody,
}

/// The mathematical content of a [`Reply`].
pub struct ReplyView {
    pub status: u16,
    pub headers: Seq<(Seq<char>, Seq<char>)>,
    pub body: ReplyBodyView,
}

impl View for Reply {
    type V = ReplyView;

    open spec fn view(&self) -> ReplyView {
        ReplyView { status: self.status, headers: self.headers.deep_view(), body: self.body@ }
    }
}

/// The name of a stage in a failure report.
pub open spec fn stage_name(stage: Stage) -> Seq<char> {
    match stage {
        Stage::Producer => "producer"@,
        Stage::Consumer => "consumer"@,
        Stage::ForwardingLink => "forwarding link"@,
        Stage::ConsumerRead => "consumer read"@,
        Stage::Timeout => "timeout"@,
        Stage::Cancellation => "cancellation"@,
    }
}

/// One sentence that says what went wrong.
pub open spec fn headline(failure: FailureView) -> Seq<char> {
    match failure.kind {
        ErrorKind::SpawnError => "failed to spawn the "@ + stage_name(failure.stage)
            + " process: "@ + failure.reason,
        ErrorKind::ForwardingError => "failed to forward producer output to consumer input: "@
            + failure.reason,
        ErrorKind::ConsumerReadError => "failed to read consumer output: "@ + failure.reason,
        ErrorKind::ProcessExitError => match failure.exit_code {
            Some(code) => "the "@ + stage_name(failure.stage) + " process failed with exit code "@
                + signed_decimal(code as int),
            None => "the "@ + stage_name(failure.stage) + " process ended abnormally"@,
        },
        ErrorKind::TimeoutError => "the pipeline timed out"@,
        ErrorKind::Cancelled => "the request was cancelled"@,
    }
}

/// The whole failure report: the headline, the stage, and every captured
/// diagnostic line.
pub open spec fn failure_report(failure: FailureView) -> Seq<char> {
    "Failed to process video: "@ + headline(failure) + "\nStage: "@ + stage_name(failure.stage)
        + "\n\nDiagnostics:\n"@ + failure.diagnostics.flatten()
}

/// The headers sent with the image.
pub open spec fn image_headers() -> Seq<(Seq<char>, Seq<char>)> {
    seq![
        ("Content-Type"@, "image/gif"@),
        ("X-Powered-By"@, "fastgif"@),
        ("Cache-Control"@, "public, max-age=31536000"@),
    ]
}

/// The reply that answers a conversion with `outcome`.
pub open spec fn reply_to(outcome: OutcomeView) -> ReplyView {
    match outcome {
        OutcomeView::Success(bytes) => ReplyView {
            status: STATUS_OK,
            headers: image_headers(),
            body: ReplyBodyView::Image(bytes),
        },
        OutcomeView::Failure(failure) => ReplyView {
            status: STATUS_INTERNAL_SERVER_ERROR,
            headers: Seq::empty(),
            body: ReplyBodyView::Text(failure_report(failure)),
        },
    }
}

/// The reply to a request for `uri`, which names no video.
pub open spec fn not_found_reply(uri: Seq<char>) -> ReplyView {
    ReplyView {
        status: STATUS_NOT_FOUND,
        headers: Seq::empty(),
        body: ReplyBodyView::Text("404 Not Found: "@ + uri),
    }
}

fn stage_text(stage: Stage) -> (name: &'static str)
    ensures
        name@ == stage_name(stage),
{
    match stage {
        Stage::Producer => "producer",
        Stage::Consumer => "consumer",
        Stage::ForwardingLink => "forwarding link",
        Stage::ConsumerRead => "consumer read",
        Stage::Timeout => "timeout",
        Stage::Cancellation => "cancellation",
    }
}

fn push_headline(out: &mut String, failure: &FailureDescriptor)
    ensures
        final(out)@ == old(out)@ + headline(failure@),
{
    match failure.kind {
        ErrorKind::SpawnError => {
            out.append("failed to spawn the ");
            out.append(stage_text(failure.stage));
            out.append(" process: ");
            out.append(failure.reason.as_str());
        },
        ErrorKind::ForwardingError => {
            out.append("failed to forward producer output to consumer input: ");
            out.append(failure.reason.as_str());
        },
        ErrorKind::ConsumerReadError => {
            out.append("failed to read consumer output: ");
            out.append(failure.reason.as_str());
        },
        ErrorKind::ProcessExitError => match failure.exit_code {
            Some(code) => {
                out.append("the ");
                out.append(stage_text(failure.stage));
                out.append(" process failed with exit code ");
                push_signed_decimal(out, code);
            },
            None => {
                out.append("the ");
                out.append(stage_text(failure.stage));
                out.append(" process ended abnormally");
            },
        },
        ErrorKind::TimeoutError => {
            out.append("the pipeline timed out");
        },
        ErrorKind::Cancelled => {
            out.append("the request was cancelled");
        },
    }
    assert(out@ =~= old(out)@ + headline(failure@));
}

/// Renders a failure for a human reader.
pub fn describe_failure(failure: &FailureDescriptor) -> (report: String)
    ensures
        report@ == failure_report(failure@),
{
    let mut report = String::from_str("Failed to process video: ");
    push_headline(&mut report, failure);
    report.append("\nStage: ");
    report.append(stage_text(failure.stage));
    report.append("\n\nDiagnostics:\n");
    let diagnostics = failure.diagnostics.text();
    report.append(diagnostics.as_str());
    assert(report@ =~= failure_report(failure@));
    report
}

fn header(name: &str, value: &str) -> (pair: (String, String))
    ensures
        pair.deep_view() == (name@, value@),
{
    (String::from_str(name), String::from_str(value))
}

/// Maps the outcome of a conversion to the reply sent to the caller.
pub fn respond(outcome: PipelineOutcome) -> (reply: Reply)
    ensures
        reply@ == reply_to(outcome@),
{
    match outcome {
        PipelineOutcome::Success(payload) => {
            let mut headers: Vec<(String, String)> = Vec::new();
            headers.push(header("Content-Type", "image/gif"));
            headers.push(header("X-Powered-By", "fastgif"));
            headers.push(header("Cache-Control", "public, max-age=31536000"));
            assert(headers.deep_view() =~= image_headers());
            Reply { status: STATUS_OK, headers, body: ReplyBody::Image(payload) }
        },
        PipelineOutcome::Failure(failure) => {
            let headers: Vec<(String, String)> = Vec::new();
            assert(headers.deep_view() =~= Seq::<(Seq<char>, Seq<char>)>::empty());
            Reply {
                status: STATUS_INTERNAL_SERVER_ERROR,
                headers,
                body: ReplyBody::Text(describe_failure(&failure)),
            }
        },
    }
}

/// The reply to a request that matches no route.
pub fn not_found(uri: &str) -> (reply: Reply)
    ensures
        reply@ == not_found_reply(uri@),
{
    let mut text = String::from_str("404 Not Found: ");
    text.append(uri);
    let headers: Vec<(String, String)> = Vec::new();
    assert(headers.deep_view() =~= Seq::<(Seq<char>, Seq<char>)>::empty());
    Reply { status: STATUS_NOT_FOUND, headers, body: ReplyBody::Text(text) }
}

} // verus!
