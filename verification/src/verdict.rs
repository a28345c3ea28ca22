//! The precedence rule that turns the results of a finished join into one outcome.
//!
//! Once the relay, the collection, both process exits and both diagnostic
//! drains have reported, the most terminal signal wins: a failed consumer exit
//! over a failed producer exit, over a failed collection, over a failed relay.
//! A run that was interrupted is judged by the interruption alone, because the
//! exit statuses of forcibly terminated processes say nothing.

use crate::diagnostics::{drain_run, law_drain_captures_every_line, reads_of, DiagnosticLog};
use crate::exit::ExitReport;
use crate::outcome::{
    ErrorKind, FailureDescriptor, FailureView, OutcomeView, PipelineOutcome, Stage,
};
use crate::payload::bytes_from_vec;
use vstd::prelude::*;

verus! {

/// How the relay from the producer's output to the consumer's input ended.
#[derive(Clone, Debug, PartialEq, Eq)]
pub enum LinkResult {
    /// Every byte the producer emitted was written to the consumer, whose input
    /// was then closed.
    Completed,
    /// A read or a write failed; the message is what the operation reported.
    Failed(String),
}

/// The mathematical content of a [`LinkResult`].
pub enum LinkResultView {
    Completed,
    Failed(Seq<char>),
}

impl View for LinkResult {
    type V = LinkResultView;

    open spec fn view(&self) -> LinkResultView {
        match self {
            LinkResult::Completed => LinkResultView::Completed,
            LinkResult::Failed(reason) => LinkResultView::Failed(reason@),
        }
    }
}

/// How the collection of the consumer's output ended.
#[derive(Clone, Debug, PartialEq, Eq)]
pub enum CollectResult {
    /// The consumer's whole output, in the order it was produced.
    Collected(Vec<u8>),
    /// A read failed; the message is what the operation reported.
    Failed(String),
}

/// The mathematical content of a [`CollectResult`].
pub enum CollectResultView {
    Collected(Seq<u8>),
    Failed(Seq<char>),
}

impl View for CollectResult {
    type V = CollectResultView;

    open spec fn view(&self) -> CollectResultView {
        match self {
            CollectResult::Collected(bytes) => CollectResultView::Collected(bytes@),
            CollectResult::Failed(reason) => CollectResultView::Failed(reason@),
        }
    }
}

/// Why a wait was cut short.
#[derive(Clone, Copy, Debug, PartialEq, Eq)]
pub enum Interruption {
    /// The bound on the wait expired.
    TimedOut,
    /// The caller cancelled the request.
    Cancelled,
}

/// The failure recorded when the process of `stage` could not be started.
pub open spec fn spawn_failure(stage: Stage, reason: Seq<char>) -> FailureView {
    FailureView {
        kind: ErrorKind::SpawnError,
        stage,
        exit_code: None,
        reason,
        diagnostics: Seq::empty(),
    }
}

/// The failure recorded when the process of `stage` exited unsuccessfully; it
/// carries the whole diagnostic log of that process.
pub open spec fn exit_failure(stage: Stage, exit: ExitReport, log: Seq<Seq<char>>) -> FailureView {
    FailureView {
        kind: ErrorKind::ProcessExitError,
        stage,
        exit_code: exit.code,
        reason: Seq::empty(),
        diagnostics: log,
    }
}

/// The failure recorded when collecting the consumer's output failed.
pub open spec fn read_failure(reason: Seq<char>, consumer_log: Seq<Seq<char>>) -> FailureView {
    FailureView {
        kind: ErrorKind::ConsumerReadError,
        stage: Stage::ConsumerRead,
        exit_code: None,
        reason,
        diagnostics: consumer_log,
    }
}

/// The failure recorded when the relay failed; the link touches both
/// processes, so it carries the producer's log followed by the consumer's.
pub open spec fn link_failure(
    reason: Seq<char>,
    producer_log: Seq<Seq<char>>,
    consumer_log: Seq<Seq<char>>,
) -> FailureView {
    FailureView {
        kind: ErrorKind::ForwardingError,
        stage: Stage::ForwardingLink,
        exit_code: None,
        reason,
        diagnostics: producer_log + consumer_log,
    }
}

/// The failure recorded for an interrupted run; it carries the producer's log
/// followed by the consumer's.
pub open spec fn interruption_failure(
    interruption: Interruption,
    producer_log: Seq<Seq<char>>,
    consumer_log: Seq<Seq<char>>,
) -> FailureView {
    FailureView {
        kind: match interruption {
            Interruption::TimedOut => ErrorKind::TimeoutError,
            Interruption::Cancelled => ErrorKind::Cancelled,
        },
        stage: match interruption {
            Interruption::TimedOut => Stage::Timeout,
            Interruption::Cancelled => Stage::Cancellation,
        },
        exit_code: None,
        reason: Seq::empty(),
        diagnostics: producer_log + consumer_log,
    }
}

/// The outcome of a join that ran to completion without interruption.
pub open spec fn verdict_of(
    link: LinkResultView,
    collected: CollectResultView,
    producer_exit: ExitReport,
    consumer_exit: ExitReport,
    producer_log: Seq<Seq<char>>,
    consumer_log: Seq<Seq<char>>,
) -> OutcomeView {
    if !consumer_exit.succeeded() {
        OutcomeView::Failure(exit_failure(Stage::Consumer, consumer_exit, consumer_log))
    } else if !producer_exit.succeeded() {
        OutcomeView::Failure(exit_failure(Stage::Producer, producer_exit, producer_log))
    } else {
        match collected {
            CollectResultView::Failed(reason) => OutcomeView::Failure(
                read_failure(reason, consumer_log),
            ),
            CollectResultView::Collected(bytes) => match link {
                LinkResultView::Failed(reason) => OutcomeView::Failure(
                    link_failure(reason, producer_log, consumer_log),
                ),
                LinkResultView::Completed => OutcomeView::Success(bytes),
            },
        }
    }
}

/// The outcome when the process of `stage` could not be started.
pub fn spawn_failed(stage: Stage, reason: String) -> (outcome: PipelineOutcome)
    ensures
        outcome@ == OutcomeView::Failure(spawn_failure(stage, reason@)),
{
    PipelineOutcome::Failure(
        FailureDescriptor {
            kind: ErrorKind::SpawnError,
            stage,
            exit_code: None,
            reason,
            diagnostics: DiagnosticLog::new(),
        },
    )
}

/// The outcome of a run that was interrupted: always a failure, whatever the
/// terminated processes reported afterwards.
pub fn interrupted(
    interruption: Interruption,
    producer_log: DiagnosticLog,
    consumer_log: DiagnosticLog,
) -> (outcome: PipelineOutcome)
    ensures
        outcome@ == OutcomeView::Failure(
            interruption_failure(interruption, producer_log@, consumer_log@),
        ),
{
    let mut diagnostics = producer_log;
    diagnostics.extend(consumer_log);
    let (kind, stage) = match interruption {
        Interruption::TimedOut => (ErrorKind::TimeoutError, Stage::Timeout),
        Interruption::Cancelled => (ErrorKind::Cancelled, Stage::Cancellation),
    };
    PipelineOutcome::Failure(
        FailureDescriptor { kind, stage, exit_code: None, reason: String::new(), diagnostics },
    )
}

/// Applies the precedence rule to the results of a completed join.
///
/// Success is returned exactly when the relay completed, the collection
/// completed and both processes exited with code zero; it then carries the
/// whole collected output. Otherwise the failure of highest precedence is
/// returned, and a process-exit failure carries that process's exit code and
/// its whole diagnostic log.
pub fn verdict(
    link: LinkResult,
    collected: CollectResult,
    producer_exit: ExitReport,
    consumer_exit: ExitReport,
    producer_log: DiagnosticLog,
    consumer_log: DiagnosticLog,
) -> (outcome: PipelineOutcome)
    ensures
        outcome@ == verdict_of(
            link@,
            collected@,
            producer_exit,
            consumer_exit,
            producer_log@,
            consumer_log@,
        ),
        outcome@ is Success <==> link@ is Completed && collected@ is Collected
            && producer_exit.succeeded() && consumer_exit.succeeded(),
        outcome@ matches OutcomeView::Success(bytes) ==> collected@
            == CollectResultView::Collected(bytes),
        !consumer_exit.succeeded() ==> outcome@ == OutcomeView::Failure(
            exit_failure(Stage::Consumer, consumer_exit, consumer_log@),
        ),
        consumer_exit.succeeded() && !producer_exit.succeeded() ==> outcome@
            == OutcomeView::Failure(exit_failure(Stage::Producer, producer_exit, producer_log@)),
{
    if !consumer_exit.success() {
        return PipelineOutcome::Failure(
            FailureDescriptor {
                kind: ErrorKind::ProcessExitError,
                stage: Stage::Consumer,
                exit_code: consumer_exit.code,
                reason: String::new(),
                diagnostics: consumer_log,
            },
        );
    }
    if !producer_exit.success() {
        return PipelineOutcome::Failure(
            FailureDescriptor {
                kind: ErrorKind::ProcessExitError,
                stage: Stage::Producer,
                exit_code: producer_exit.code,
                reason: String::new(),
                diagnostics: producer_log,
            },
        );
    }
    match collected {
        CollectResult::Failed(reason) => PipelineOutcome::Failure(
            FailureDescriptor {
                kind: ErrorKind::ConsumerReadError,
                stage: Stage::ConsumerRead,
                exit_code: None,
                reason,
                diagnostics: consumer_log,
            },
        ),
        CollectResult::Collected(bytes) => match link {
            LinkResult::Failed(reason) => {
                let mut diagnostics = producer_log;
                diagnostics.extend(consumer_log);
                PipelineOutcome::Failure(
                    FailureDescriptor {
                        kind: ErrorKind::ForwardingError,
                        stage: Stage::ForwardingLink,
                        exit_code: None,
                        reason,
                        diagnostics,
                    },
                )
            },
            LinkResult::Completed => PipelineOutcome::Success(bytes_from_vec(bytes)),
        },
    }
}

/// Every failure the rules above can produce is well formed.
pub proof fn law_failures_are_well_formed(
    link: LinkResultView,
    collected: CollectResultView,
    producer_exit: ExitReport,
    consumer_exit: ExitReport,
    producer_log: Seq<Seq<char>>,
    consumer_log: Seq<Seq<char>>,
    interruption: Interruption,
    stage: Stage,
    reason: Seq<char>,
)
    ensures
        verdict_of(link, collected, producer_exit, consumer_exit, producer_log, consumer_log)
            matches OutcomeView::Failure(failure) ==> failure.wf(),
        interruption_failure(interruption, producer_log, consumer_log).wf(),
        stage == Stage::Producer || stage == Stage::Consumer ==> spawn_failure(stage, reason).wf(),
{
}

/// When both processes exit unsuccessfully, the failure names the consumer and
/// carries the consumer's exit code, whatever the streams reported.
pub proof fn law_consumer_exit_takes_precedence(
    link: LinkResultView,
    collected: CollectResultView,
    producer_exit: ExitReport,
    consumer_exit: ExitReport,
    producer_log: Seq<Seq<char>>,
    consumer_log: Seq<Seq<char>>,
)
    requires
        !producer_exit.succeeded(),
        !consumer_exit.succeeded(),
    ensures
        verdict_of(link, collected, producer_exit, consumer_exit, producer_log, consumer_log)
            matches OutcomeView::Failure(failure) && failure.stage == Stage::Consumer
            && failure.kind == ErrorKind::ProcessExitError && failure.exit_code
            == consumer_exit.code && failure.diagnostics == consumer_log,
{
}

/// Diagnostic capture: a producer that writes `lines` to its diagnostic stream
/// and exits unsuccessfully, beside a consumer that exits with code zero,
/// yields a failure that names the producer, carries its exit code and holds
/// all of `lines`, in order.
pub proof fn law_failed_producer_reports_all_its_lines(
    lines: Seq<Seq<char>>,
    link: LinkResultView,
    collected: CollectResultView,
    producer_exit: ExitReport,
    consumer_exit: ExitReport,
    consumer_log: Seq<Seq<char>>,
)
    requires
        forall|i: int| 0 <= i < lines.len() ==> (#[trigger] lines[i]).len() > 0,
        !producer_exit.succeeded(),
        consumer_exit.succeeded(),
    ensures
        verdict_of(
            link,
            collected,
            producer_exit,
            consumer_exit,
            drain_run(reads_of(lines)).0,
            consumer_log,
        ) == OutcomeView::Failure(exit_failure(Stage::Producer, producer_exit, lines)),
{
    law_drain_captures_every_line(lines);
}

/// A producer that exits unsuccessfully beside a successful consumer yields a
/// failure that names the producer and holds every captured line of the
/// producer's diagnostic stream, in order.
pub proof fn law_producer_failure_carries_whole_log(
    link: LinkResultView,
    collected: CollectResultView,
    producer_exit: ExitReport,
    consumer_exit: ExitReport,
    producer_log: Seq<Seq<char>>,
    consumer_log: Seq<Seq<char>>,
)
    requires
        !producer_exit.succeeded(),
        consumer_exit.succeeded(),
    ensures
        verdict_of(link, collected, producer_exit, consumer_exit, producer_log, consumer_log)
            matches OutcomeView::Failure(failure) && failure.stage == Stage::Producer
            && failure.exit_code == producer_exit.code && failure.diagnostics == producer_log,
{
}

} // verus!
