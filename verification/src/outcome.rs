//! What a conversion returns: the encoded bytes, or a description of the failure.

use crate::diagnostics::DiagnosticLog;
use crate::payload::bytes_contents;
use bytes::Bytes;
use vstd::prelude::*;

verus! {

/// The part of the pipeline a failure is attributed to.
#[derive(Clone, Copy, Debug, PartialEq, Eq)]
pub enum Stage {
    /// The first process, which decodes the source media.
    Producer,
    /// The second process, which encodes the final image.
    Consumer,
    /// The relay from the producer's output to the consumer's input.
    ForwardingLink,
    /// The collection of the consumer's output.
    ConsumerRead,
    /// The bounded wait that expired.
    Timeout,
    /// The caller, who withdrew the request.
    Cancellation,
}

/// The kind of a failure.
#[derive(Clone, Copy, Debug, PartialEq, Eq)]
pub enum ErrorKind {
    /// A process could not be created.
    SpawnError,
    /// Reading from the producer or writing to the consumer failed while relaying.
    ForwardingError,
    /// Collecting the consumer's output failed.
    ConsumerReadError,
    /// A process exited with a non-zero status or ended abnormally.
    ProcessExitError,
    /// A bounded wait expired before the awaited stage finished.
    TimeoutError,
    /// The caller cancelled the request; the pipeline was torn down as after a timeout.
    Cancelled,
}

/// Why a conversion failed.
#[derive(Clone, Debug, PartialEq, Eq)]
pub struct FailureDescriptor {
    pub kind: ErrorKind,
    pub stage: Stage,
    /// The exit code of the failed process; `None` when it ended abnormally or
    /// when the failure is not a process exit.
    pub exit_code: Option<i32>,
    /// What the failed operation reported; empty when there is nothing to report.
    pub reason: String,
    /// The diagnostic text captured from the processes the stage involves.
    pub diagnostics: DiagnosticLog,
}

/// The mathematical content of a [`FailureDescriptor`].
pub struct FailureView {
    pub kind: ErrorKind,
    pub stage: Stage,
    pub exit_code: Option<i32>,
    pub reason: Seq<char>,
    pub diagnostics: Seq<Seq<char>>,
}

impl View for FailureDescriptor {
    type V = FailureView;

    open spec fn view(&self) -> FailureView {
        FailureView {
            kind: self.kind,
            stage: self.stage,
            exit_code: self.exit_code,
            reason: self.reason@,
            diagnostics: self.diagnostics@,
        }
    }
}

impl FailureView {
    /// The kind and the stage agree, and an exit code is present only for a
    /// process exit.
    pub open spec fn wf(self) -> bool {
        &&& match self.kind {
            ErrorKind::SpawnError | ErrorKind::ProcessExitError => self.stage == Stage::Producer
                || self.stage == Stage::Consumer,
            ErrorKind::ForwardingError => self.stage == Stage::ForwardingLink,
            ErrorKind::ConsumerReadError => self.stage == Stage::ConsumerRead,
            ErrorKind::TimeoutError => self.stage == Stage::Timeout,
            ErrorKind::Cancelled => self.stage == Stage::Cancellation,
        }
        &&& self.exit_code.is_some() ==> self.kind == ErrorKind::ProcessExitError
        &&& self.kind == ErrorKind::ProcessExitError ==> self.exit_code != Some(0i32)
    }
}

/// The single result of one conversion request.
#[derive(Debug, PartialEq, Eq)]
pub enum PipelineOutcome {
    /// The complete encoded output.
    Success(Bytes),
    /// The failure that decided the verdict.
    Failure(FailureDescriptor),
}

/// The mathematical content of a [`PipelineOutcome`].
pub enum OutcomeView {
    Success(Seq<u8>),
    Failure(FailureView),
}

impl View for PipelineOutcome {
    type V = OutcomeView;

    open spec fn view(&self) -> OutcomeView {
        match self {
            PipelineOutcome::Success(payload) => OutcomeView::Success(bytes_contents(*payload)),
            PipelineOutcome::Failure(failure) => OutcomeView::Failure(failure@),
        }
    }
}

impl PipelineOutcome {
    /// Whether the conversion succeeded.
    pub fn is_success(&self) -> (ok: bool)
        ensures
            ok == (self@ is Success),
            ok != (self@ is Failure),
    {
        match self {
            PipelineOutcome::Success(_) => true,
            PipelineOutcome::Failure(_) => false,
        }
    }

    /// The failure descriptor, when the conversion failed.
    pub fn failure(&self) -> (found: Option<&FailureDescriptor>)
        ensures
            match self@ {
                OutcomeView::Success(_) => found.is_none(),
                OutcomeView::Failure(view) => found.is_some() && found.unwrap()@ == view,
            },
    {
        match self {
            PipelineOutcome::Success(_) => None,
            PipelineOutcome::Failure(failure) => Some(failure),
        }
    }

    /// The encoded bytes, when the conversion succeeded.
    pub fn payload(&self) -> (found: Option<&Bytes>)
        ensures
            match self@ {
                OutcomeView::Success(bytes) => found.is_some() && bytes_contents(*found.unwrap())
                    == bytes,
                OutcomeView::Failure(_) => found.is_none(),
            },
    {
        match self {
            PipelineOutcome::Success(payload) => Some(payload),
            PipelineOutcome::Failure(_) => None,
        }
    }
}

} // verus!
