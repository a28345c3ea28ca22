//! The lifecycle of one conversion: two child processes, four stream tasks,
//! one outcome.
//!
//! The orchestrator is a state machine. It names the next operation to
//! perform (spawn a process, await a task, terminate or reap a process) and
//! takes the result of that operation as the next event. The join is
//! non-cancelling: after a failure, and after an interruption, every task is
//! still awaited and every process still reaped before the outcome is handed
//! out.

use crate::diagnostics::DiagnosticLog;
use crate::exit::ExitReport;
use crate::outcome::{OutcomeView, PipelineOutcome, Stage};
use crate::request::{Launch, LaunchView, PipelineRequest, PipelineRequestView, StdinMode};
use crate::verdict::{
    interrupted, interruption_failure, spawn_failed, spawn_failure, verdict, verdict_of,
    CollectResult, CollectResultView, Interruption, LinkResult, LinkResultView,
};
use vstd::pervasive::unreached;
use vstd::prelude::*;

verus! {

/// Where the orchestrator stands; each phase but the first and the last has
/// one operation outstanding.
#[derive(Clone, Copy, Debug, PartialEq, Eq)]
pub enum Phase {
    /// Nothing has been launched.
    Idle,
    /// The producer is being spawned.
    SpawningProducer,
    /// The consumer is being spawned.
    SpawningConsumer,
    /// The relay, the collector and both diagnostic drains are being started.
    Starting,
    /// The relay is awaited.
    Forwarding,
    /// The collector is awaited.
    Collecting,
    /// The producer is being forcibly terminated.
    TerminatingProducer,
    /// The consumer is being forcibly terminated.
    TerminatingConsumer,
    /// The producer's exit is awaited.
    ReapingProducer,
    /// The consumer's exit is awaited.
    ReapingConsumer,
    /// Both diagnostic drains are awaited.
    Draining,
    /// The outcome has been handed out.
    Finished,
}

/// The life of a child process as the orchestrator knows it.
#[derive(Clone, Copy, Debug, PartialEq, Eq)]
pub enum ProcessState {
    /// The process was never started.
    NotStarted,
    /// The process was started and has not been reaped.
    Running,
    /// The process has exited and its status was collected.
    Reaped,
}

/// The bounds, in time units of the embedding program, on the two waits that
/// can stall on a stream. `None` waits without bound.
#[derive(Clone, Copy, Debug, PartialEq, Eq)]
pub struct WaitBounds {
    /// The bound on the wait for the relay.
    pub forwarder: Option<u64>,
    /// The bound on the wait for the collector.
    pub collector: Option<u64>,
}

/// The result of the operation the orchestrator asked for.
#[derive(Debug, PartialEq, Eq)]
pub enum Event {
    /// The request has arrived.
    Begin,
    /// The process was started with all its streams captured.
    Spawned,
    /// The process could not be started.
    SpawnFailed(String),
    /// The relay, the collector and both drains are running.
    TasksStarted,
    /// The relay is over.
    ForwarderFinished(LinkResult),
    /// The collector is over.
    CollectorFinished(CollectResult),
    /// The outstanding wait was cut short.
    Interrupted(Interruption),
    /// The termination signal was sent (or the process had already exited).
    Terminated,
    /// The process has exited and was reaped.
    Exited(ExitReport),
    /// Both drains have reached the end of their streams.
    Drained { producer_log: DiagnosticLog, consumer_log: DiagnosticLog },
}

/// The mathematical content of an [`Event`].
pub enum EventView {
    Begin,
    Spawned,
    SpawnFailed(Seq<char>),
    TasksStarted,
    ForwarderFinished(LinkResultView),
    CollectorFinished(CollectResultView),
    Interrupted(Interruption),
    Terminated,
    Exited(ExitReport),
    Drained { producer_log: Seq<Seq<char>>, consumer_log: Seq<Seq<char>> },
}

impl View for Event {
    type V = EventView;

    open spec fn view(&self) -> EventView {
        match self {
            Event::Begin => EventView::Begin,
            Event::Spawned => EventView::Spawned,
            Event::SpawnFailed(reason) => EventView::SpawnFailed(reason@),
            Event::TasksStarted => EventView::TasksStarted,
            Event::ForwarderFinished(result) => EventView::ForwarderFinished(result@),
            Event::CollectorFinished(result) => EventView::CollectorFinished(result@),
            Event::Interrupted(interruption) => EventView::Interrupted(*interruption),
            Event::Terminated => EventView::Terminated,
            Event::Exited(report) => EventView::Exited(*report),
            Event::Drained { producer_log, consumer_log } => EventView::Drained {
                producer_log: producer_log@,
                consumer_log: consumer_log@,
            },
        }
    }
}

/// The operation the orchestrator asks for next.
#[derive(Debug, PartialEq, Eq)]
pub enum Action {
    /// Spawn the producer with its output and diagnostic streams captured.
    SpawnProducer(Launch),
    /// Spawn the consumer with its input, output and diagnostic streams captured.
    SpawnConsumer(Launch),
    /// Start the relay, the collector and both diagnostic drains.
    StartTasks,
    /// Await the relay, for at most `bound` time units if a bound is given.
    AwaitForwarder { bound: Option<u64> },
    /// Await the collector, for at most `bound` time units if a bound is given.
    AwaitCollector { bound: Option<u64> },
    /// Forcibly terminate the producer.
    TerminateProducer,
    /// Forcibly terminate the consumer.
    TerminateConsumer,
    /// Await the producer's exit and collect its status.
    AwaitProducerExit,
    /// Await the consumer's exit and collect its status.
    AwaitConsumerExit,
    /// Await both diagnostic drains.
    AwaitDrains,
    /// The conversion is over; hand this outcome to the caller.
    Return(PipelineOutcome),
    /// The event does not answer the outstanding operation; nothing changed.
    Rejected,
}

/// The mathematical content of an [`Action`].
pub enum ActionView {
    SpawnProducer(LaunchView),
    SpawnConsumer(LaunchView),
    StartTasks,
    AwaitForwarder { bound: Option<u64> },
    AwaitCollector { bound: Option<u64> },
    TerminateProducer,
    TerminateConsumer,
    AwaitProducerExit,
    AwaitConsumerExit,
    AwaitDrains,
    Return(OutcomeView),
    Rejected,
}

impl View for Action {
    type V = ActionView;

    open spec fn view(&self) -> ActionView {
        match self {
            Action::SpawnProducer(launch) => ActionView::SpawnProducer(launch@),
            Action::SpawnConsumer(launch) => ActionView::SpawnConsumer(launch@),
            Action::StartTasks => ActionView::StartTasks,
            Action::AwaitForwarder { bound } => ActionView::AwaitForwarder { bound: *bound },
            Action::AwaitCollector { bound } => ActionView::AwaitCollector { bound: *bound },
            Action::TerminateProducer => ActionView::TerminateProducer,
            Action::TerminateConsumer => ActionView::TerminateConsumer,
            Action::AwaitProducerExit => ActionView::AwaitProducerExit,
            Action::AwaitConsumerExit => ActionView::AwaitConsumerExit,
            Action::AwaitDrains => ActionView::AwaitDrains,
            Action::Return(outcome) => ActionView::Return(outcome@),
            Action::Rejected => ActionView::Rejected,
        }
    }
}

/// The state of the orchestrator as a mathematical value.
pub struct PipelineState {
    pub request: PipelineRequestView,
    pub bounds: WaitBounds,
    pub phase: Phase,
    pub producer: ProcessState,
    pub consumer: ProcessState,
    /// Why the consumer could not be started, while the producer is cleaned up.
    pub spawn_failure: Option<Seq<char>>,
    /// Why a wait was cut short, once one was.
    pub interruption: Option<Interruption>,
    /// The relay's result, once it is over.
    pub link: Option<LinkResultView>,
    /// The collector's result, once it is over.
    pub collected: Option<CollectResultView>,
    /// The producer's exit status, once it was reaped.
    pub producer_exit: Option<ExitReport>,
    /// The consumer's exit status, once it was reaped.
    pub consumer_exit: Option<ExitReport>,
}

impl PipelineState {
    /// The state before anything is launched.
    pub open spec fn initial(request: PipelineRequestView, bounds: WaitBounds) -> PipelineState {
        PipelineState {
            request,
            bounds,
            phase: Phase::Idle,
            producer: ProcessState::NotStarted,
            consumer: ProcessState::NotStarted,
            spawn_failure: None,
            interruption: None,
            link: None,
            collected: None,
            producer_exit: None,
            consumer_exit: None,
        }
    }

    /// How the producer is started: it reads the source by itself, so its
    /// standard input is left as it is.
    pub open spec fn producer_launch(self) -> LaunchView {
        LaunchView { command: self.request.producer, stdin: StdinMode::Inherit }
    }

    /// How the consumer is started: its standard input is the pipe the relay
    /// writes to.
    pub open spec fn consumer_launch(self) -> LaunchView {
        LaunchView { command: self.request.consumer, stdin: StdinMode::Piped }
    }

    /// The bound on the outstanding wait; only the waits for the relay and for
    /// the collector can have one.
    pub open spec fn bound_of_wait(self) -> Option<u64> {
        match self.phase {
            Phase::Forwarding => self.bounds.forwarder,
            Phase::Collecting => self.bounds.collector,
            _ => None,
        }
    }

    /// Whether the outstanding wait can be cut short by `cause` now: while a
    /// task or a process exit is awaited, at most once per run, by a
    /// cancellation always, by a timeout only where the wait has a bound.
    pub open spec fn interruptible(self, cause: Interruption) -> bool {
        &&& self.phase == Phase::Forwarding || self.phase == Phase::Collecting || self.phase
            == Phase::ReapingProducer || self.phase == Phase::ReapingConsumer
        &&& self.interruption.is_none()
        &&& self.spawn_failure.is_none()
        &&& cause == Interruption::Cancelled || self.bound_of_wait().is_some()
    }

    /// The start of the forced termination: the producer first if it is still
    /// running, else the consumer.
    pub open spec fn interrupt(self, cause: Interruption) -> (PipelineState, ActionView) {
        if self.producer == ProcessState::Running {
            (
                PipelineState {
                    phase: Phase::TerminatingProducer,
                    interruption: Some(cause),
                    ..self
                },
                ActionView::TerminateProducer,
            )
        } else {
            (
                PipelineState {
                    phase: Phase::TerminatingConsumer,
                    interruption: Some(cause),
                    ..self
                },
                ActionView::TerminateConsumer,
            )
        }
    }

    /// The join taken up again where it was cut short, once both processes
    /// are terminated; no wait is bounded any more.
    pub open spec fn resume(self) -> (PipelineState, ActionView) {
        if self.link.is_none() {
            (
                PipelineState { phase: Phase::Forwarding, ..self },
                ActionView::AwaitForwarder { bound: None },
            )
        } else if self.collected.is_none() {
            (
                PipelineState { phase: Phase::Collecting, ..self },
                ActionView::AwaitCollector { bound: None },
            )
        } else if self.producer == ProcessState::Running {
            (PipelineState { phase: Phase::ReapingProducer, ..self }, ActionView::AwaitProducerExit)
        } else {
            (PipelineState { phase: Phase::ReapingConsumer, ..self }, ActionView::AwaitConsumerExit)
        }
    }

    /// The bound on a wait: none once the run was interrupted, since the
    /// processes are then already terminated.
    pub open spec fn effective_bound(self, bound: Option<u64>) -> Option<u64> {
        if self.interruption.is_some() {
            None
        } else {
            bound
        }
    }

    /// The outcome handed out when both drains have finished.
    pub open spec fn final_outcome(
        self,
        producer_log: Seq<Seq<char>>,
        consumer_log: Seq<Seq<char>>,
    ) -> OutcomeView {
        match self.interruption {
            Some(interruption) => OutcomeView::Failure(
                interruption_failure(interruption, producer_log, consumer_log),
            ),
            None => verdict_of(
                self.link.unwrap(),
                self.collected.unwrap(),
                self.producer_exit.unwrap(),
                self.consumer_exit.unwrap(),
                producer_log,
                consumer_log,
            ),
        }
    }

    /// The state in which the outcome has been handed out; what was moved
    /// into the outcome is no longer held.
    pub open spec fn finished(self) -> PipelineState {
        PipelineState {
            phase: Phase::Finished,
            spawn_failure: None,
            link: None,
            collected: None,
            ..self
        }
    }

    /// The state after `event`, and the action that answers it.
    pub open spec fn next(self, event: EventView) -> (PipelineState, ActionView) {
        match (self.phase, event) {
            (Phase::Idle, EventView::Begin) => (
                PipelineState { phase: Phase::SpawningProducer, ..self },
                ActionView::SpawnProducer(self.producer_launch()),
            ),
            (Phase::SpawningProducer, EventView::Spawned) => (
                PipelineState {
                    phase: Phase::SpawningConsumer,
                    producer: ProcessState::Running,
                    ..self
                },
                ActionView::SpawnConsumer(self.consumer_launch()),
            ),
            (Phase::SpawningProducer, EventView::SpawnFailed(reason)) => (
                self.finished(),
                ActionView::Return(OutcomeView::Failure(spawn_failure(Stage::Producer, reason))),
            ),
            (Phase::SpawningConsumer, EventView::Spawned) => (
                PipelineState { phase: Phase::Starting, consumer: ProcessState::Running, ..self },
                ActionView::StartTasks,
            ),
            (Phase::SpawningConsumer, EventView::SpawnFailed(reason)) => (
                PipelineState {
                    phase: Phase::TerminatingProducer,
                    spawn_failure: Some(reason),
                    ..self
                },
                ActionView::TerminateProducer,
            ),
            (Phase::Starting, EventView::TasksStarted) => (
                PipelineState { phase: Phase::Forwarding, ..self },
                ActionView::AwaitForwarder { bound: self.bounds.forwarder },
            ),
            (Phase::Forwarding, EventView::ForwarderFinished(result)) => (
                PipelineState { phase: Phase::Collecting, link: Some(result), ..self },
                ActionView::AwaitCollector { bound: self.effective_bound(self.bounds.collector) },
            ),
            (Phase::Collecting, EventView::CollectorFinished(result)) => (
                PipelineState { phase: Phase::ReapingProducer, collected: Some(result), ..self },
                ActionView::AwaitProducerExit,
            ),
            (Phase::TerminatingProducer, EventView::Terminated) => if self.consumer
                == ProcessState::Running {
                (
                    PipelineState { phase: Phase::TerminatingConsumer, ..self },
                    ActionView::TerminateConsumer,
                )
            } else {
                (
                    PipelineState { phase: Phase::ReapingProducer, ..self },
                    ActionView::AwaitProducerExit,
                )
            },
            (Phase::TerminatingConsumer, EventView::Terminated) => self.resume(),
            (Phase::ReapingProducer, EventView::Exited(report)) => if self.consumer
                == ProcessState::Running {
                (
                    PipelineState {
                        phase: Phase::ReapingConsumer,
                        producer: ProcessState::Reaped,
                        producer_exit: Some(report),
                        ..self
                    },
                    ActionView::AwaitConsumerExit,
                )
            } else {
                (
                    PipelineState {
                        producer: ProcessState::Reaped,
                        producer_exit: Some(report),
                        ..self
                    }.finished(),
                    ActionView::Return(
                        OutcomeView::Failure(
                            spawn_failure(Stage::Consumer, self.spawn_failure.unwrap()),
                        ),
                    ),
                )
            },
            (Phase::ReapingConsumer, EventView::Exited(report)) => (
                PipelineState {
                    phase: Phase::Draining,
                    consumer: ProcessState::Reaped,
                    consumer_exit: Some(report),
                    ..self
                },
                ActionView::AwaitDrains,
            ),
            (Phase::Draining, EventView::Drained { producer_log, consumer_log }) => (
                self.finished(),
                ActionView::Return(self.final_outcome(producer_log, consumer_log)),
            ),
            (_, EventView::Interrupted(cause)) => if self.interruptible(cause) {
                self.interrupt(cause)
            } else {
                (self, ActionView::Rejected)
            },
            _ => (self, ActionView::Rejected),
        }
    }

    /// Nothing has been recorded yet.
    pub open spec fn nothing_recorded(self) -> bool {
        &&& self.spawn_failure.is_none()
        &&& self.interruption.is_none()
        &&& self.link.is_none()
        &&& self.collected.is_none()
        &&& self.producer_exit.is_none()
        &&& self.consumer_exit.is_none()
    }

    /// What holds of every state the orchestrator can reach.
    pub open spec fn wf(self) -> bool {
        match self.phase {
            Phase::Idle | Phase::SpawningProducer => {
                &&& self.producer == ProcessState::NotStarted
                &&& self.consumer == ProcessState::NotStarted
                &&& self.nothing_recorded()
            },
            Phase::SpawningConsumer => {
                &&& self.producer == ProcessState::Running
                &&& self.consumer == ProcessState::NotStarted
                &&& self.nothing_recorded()
            },
            Phase::Starting => {
                &&& self.producer == ProcessState::Running
                &&& self.consumer == ProcessState::Running
                &&& self.nothing_recorded()
            },
            Phase::Forwarding => {
                &&& self.producer == ProcessState::Running
                &&& self.consumer == ProcessState::Running
                &&& self.spawn_failure.is_none()
                &&& self.link.is_none()
                &&& self.collected.is_none()
                &&& self.producer_exit.is_none()
                &&& self.consumer_exit.is_none()
            },
            Phase::Collecting => {
                &&& self.producer == ProcessState::Running
                &&& self.consumer == ProcessState::Running
                &&& self.spawn_failure.is_none()
                &&& self.link.is_some()
                &&& self.collected.is_none()
                &&& self.producer_exit.is_none()
                &&& self.consumer_exit.is_none()
            },
            Phase::TerminatingProducer => {
                &&& self.producer == ProcessState::Running
                &&& self.producer_exit.is_none()
                &&& self.consumer_exit.is_none()
                &&& if self.consumer == ProcessState::Running {
                    &&& self.spawn_failure.is_none()
                    &&& self.interruption.is_some()
                    &&& self.collected.is_some() ==> self.link.is_some()
                } else {
                    &&& self.consumer == ProcessState::NotStarted
                    &&& self.spawn_failure.is_some()
                    &&& self.interruption.is_none()
                    &&& self.link.is_none()
                    &&& self.collected.is_none()
                }
            },
            Phase::TerminatingConsumer => {
                &&& self.consumer == ProcessState::Running
                &&& self.spawn_failure.is_none()
                &&& self.interruption.is_some()
                &&& self.consumer_exit.is_none()
                &&& self.collected.is_some() ==> self.link.is_some()
                &&& if self.producer == ProcessState::Running {
                    self.producer_exit.is_none()
                } else {
                    &&& self.producer == ProcessState::Reaped
                    &&& self.producer_exit.is_some()
                    &&& self.link.is_some()
                    &&& self.collected.is_some()
                }
            },
            Phase::ReapingProducer => {
                &&& self.producer == ProcessState::Running
                &&& self.producer_exit.is_none()
                &&& self.consumer_exit.is_none()
                &&& if self.consumer == ProcessState::Running {
                    &&& self.spawn_failure.is_none()
                    &&& self.link.is_some()
                    &&& self.collected.is_some()
                } else {
                    &&& self.consumer == ProcessState::NotStarted
                    &&& self.spawn_failure.is_some()
                    &&& self.interruption.is_none()
                    &&& self.link.is_none()
                    &&& self.collected.is_none()
                }
            },
            Phase::ReapingConsumer => {
                &&& self.producer == ProcessState::Reaped
                &&& self.consumer == ProcessState::Running
                &&& self.spawn_failure.is_none()
                &&& self.link.is_some()
                &&& self.collected.is_some()
                &&& self.producer_exit.is_some()
                &&& self.consumer_exit.is_none()
            },
            Phase::Draining => {
                &&& self.producer == ProcessState::Reaped
                &&& self.consumer == ProcessState::Reaped
                &&& self.spawn_failure.is_none()
                &&& self.link.is_some()
                &&& self.collected.is_some()
                &&& self.producer_exit.is_some()
                &&& self.consumer_exit.is_some()
            },
            Phase::Finished => {
                &&& self.producer != ProcessState::Running
                &&& self.consumer != ProcessState::Running
                &&& self.spawn_failure.is_none()
                &&& self.link.is_none()
                &&& self.collected.is_none()
            },
        }
    }
}

/// The supervisor of one conversion request.
pub struct Orchestrator {
    request: PipelineRequest,
    bounds: WaitBounds,
    phase: Phase,
    producer: ProcessState,
    consumer: ProcessState,
    spawn_failure: Option<String>,
    interruption: Option<Interruption>,
    link: Option<LinkResult>,
    collected: Option<CollectResult>,
    producer_exit: Option<ExitReport>,
    consumer_exit: Option<ExitReport>,
}

impl View for Orchestrator {
    type V = PipelineState;

    closed spec fn view(&self) -> PipelineState {
        PipelineState {
            request: self.request@,
            bounds: self.bounds,
            phase: self.phase,
            producer: self.producer,
            consumer: self.consumer,
            spawn_failure: match self.spawn_failure {
                Some(reason) => Some(reason@),
                None => None,
            },
            interruption: self.interruption,
            link: match self.link {
                Some(result) => Some(result@),
                None => None,
            },
            collected: match self.collected {
                Some(result) => Some(result@),
                None => None,
            },
            producer_exit: self.producer_exit,
            consumer_exit: self.consumer_exit,
        }
    }
}

impl Orchestrator {
    #[verifier::type_invariant]
    spec fn reachable(self) -> bool {
        self@.wf()
    }

    /// An orchestrator for one request, with nothing launched yet.
    pub fn new(request: PipelineRequest, bounds: WaitBounds) -> (orchestrator: Orchestrator)
        ensures
            orchestrator@ == PipelineState::initial(request@, bounds),
    {
        Orchestrator {
            request,
            bounds,
            phase: Phase::Idle,
            producer: ProcessState::NotStarted,
            consumer: ProcessState::NotStarted,
            spawn_failure: None,
            interruption: None,
            link: None,
            collected: None,
            producer_exit: None,
            consumer_exit: None,
        }
    }

    /// The request this orchestrator serves.
    pub fn request(&self) -> (request: &PipelineRequest)
        ensures
            request@ == self@.request,
    {
        &self.request
    }

    /// The bounds this orchestrator was made with.
    pub fn bounds(&self) -> (bounds: WaitBounds)
        ensures
            bounds == self@.bounds,
    {
        self.bounds
    }

    /// Where the orchestrator stands.
    pub fn phase(&self) -> (phase: Phase)
        ensures
            phase == self@.phase,
    {
        self.phase
    }

    /// The life of the producer.
    pub fn producer(&self) -> (state: ProcessState)
        ensures
            state == self@.producer,
    {
        self.producer
    }

    /// The life of the consumer.
    pub fn consumer(&self) -> (state: ProcessState)
        ensures
            state == self@.consumer,
    {
        self.consumer
    }

    /// Why a wait was cut short, if one was.
    pub fn interruption(&self) -> (interruption: Option<Interruption>)
        ensures
            interruption == self@.interruption,
    {
        self.interruption
    }

    /// Whether the outstanding wait can be cut short by `cause` now; if not,
    /// an interruption would be rejected.
    pub fn interruptible(&self, cause: Interruption) -> (ok: bool)
        ensures
            ok == self@.interruptible(cause),
    {
        let bound = match self.phase {
            Phase::Forwarding => self.bounds.forwarder,
            Phase::Collecting => self.bounds.collector,
            Phase::ReapingProducer | Phase::ReapingConsumer => None,
            _ => {
                return false;
            },
        };
        if self.interruption.is_some() || self.spawn_failure.is_some() {
            return false;
        }
        match cause {
            Interruption::Cancelled => true,
            Interruption::TimedOut => bound.is_some(),
        }
    }

    /// Whether the outcome has been handed out.
    pub fn is_finished(&self) -> (done: bool)
        ensures
            done == (self@.phase == Phase::Finished),
            done ==> self@.producer != ProcessState::Running && self@.consumer
                != ProcessState::Running,
    {
        proof {
            use_type_invariant(self);
        }
        match self.phase {
            Phase::Finished => true,
            _ => false,
        }
    }

    /// Takes the result of the outstanding operation and names the next one.
    ///
    /// The outcome is handed out in a `Return` action, by the step that enters
    /// the `Finished` phase and by no other; by then no process of this
    /// request is running.
    pub fn step(self, event: Event) -> (out: (Orchestrator, Action))
        ensures
            (out.0@, out.1@) == self@.next(event@),
            self@.wf(),
            out.0@.wf(),
            out.1@ is Return <==> self@.phase != Phase::Finished && out.0@.phase
                == Phase::Finished,
            out.1@ is Return ==> out.0@.producer != ProcessState::Running && out.0@.consumer
                != ProcessState::Running,
    {
        proof {
            use_type_invariant(&self);
        }
        match (self.phase, event) {
            (Phase::Idle, Event::Begin) => {
                let launch = Launch {
                    command: self.request.producer().duplicate(),
                    stdin: StdinMode::Inherit,
                };
                (Orchestrator { phase: Phase::SpawningProducer, ..self }, Action::SpawnProducer(launch))
            },
            (Phase::SpawningProducer, Event::Spawned) => {
                let launch = Launch {
                    command: self.request.consumer().duplicate(),
                    stdin: StdinMode::Piped,
                };
                (
                    Orchestrator {
                        phase: Phase::SpawningConsumer,
                        producer: ProcessState::Running,
                        ..self
                    },
                    Action::SpawnConsumer(launch),
                )
            },
            (Phase::SpawningProducer, Event::SpawnFailed(reason)) => (
                Orchestrator {
                    phase: Phase::Finished,
                    spawn_failure: None,
                    link: None,
                    collected: None,
                    ..self
                },
                Action::Return(spawn_failed(Stage::Producer, reason)),
            ),
            (Phase::SpawningConsumer, Event::Spawned) => (
                Orchestrator { phase: Phase::Starting, consumer: ProcessState::Running, ..self },
                Action::StartTasks,
            ),
            (Phase::SpawningConsumer, Event::SpawnFailed(reason)) => (
                Orchestrator {
                    phase: Phase::TerminatingProducer,
                    spawn_failure: Some(reason),
                    ..self
                },
                Action::TerminateProducer,
            ),
            (Phase::Starting, Event::TasksStarted) => {
                let bound = self.bounds.forwarder;
                (Orchestrator { phase: Phase::Forwarding, ..self }, Action::AwaitForwarder { bound })
            },
            (Phase::Forwarding, Event::ForwarderFinished(result)) => {
                let bound = match self.interruption {
                    Some(_) => None,
                    None => self.bounds.collector,
                };
                (
                    Orchestrator { phase: Phase::Collecting, link: Some(result), ..self },
                    Action::AwaitCollector { bound },
                )
            },
            (Phase::Collecting, Event::CollectorFinished(result)) => (
                Orchestrator { phase: Phase::ReapingProducer, collected: Some(result), ..self },
                Action::AwaitProducerExit,
            ),
            (Phase::TerminatingProducer, Event::Terminated) => {
                if is_running(self.consumer) {
                    (
                        Orchestrator { phase: Phase::TerminatingConsumer, ..self },
                        Action::TerminateConsumer,
                    )
                } else {
                    (
                        Orchestrator { phase: Phase::ReapingProducer, ..self },
                        Action::AwaitProducerExit,
                    )
                }
            },
            (Phase::TerminatingConsumer, Event::Terminated) => {
                if self.link.is_none() {
                    (
                        Orchestrator { phase: Phase::Forwarding, ..self },
                        Action::AwaitForwarder { bound: None },
                    )
                } else if self.collected.is_none() {
                    (
                        Orchestrator { phase: Phase::Collecting, ..self },
                        Action::AwaitCollector { bound: None },
                    )
                } else if is_running(self.producer) {
                    (
                        Orchestrator { phase: Phase::ReapingProducer, ..self },
                        Action::AwaitProducerExit,
                    )
                } else {
                    (
                        Orchestrator { phase: Phase::ReapingConsumer, ..self },
                        Action::AwaitConsumerExit,
                    )
                }
            },
            (Phase::ReapingProducer, Event::Exited(report)) => {
                if is_running(self.consumer) {
                    (
                        Orchestrator {
                            phase: Phase::ReapingConsumer,
                            producer: ProcessState::Reaped,
                            producer_exit: Some(report),
                            ..self
                        },
                        Action::AwaitConsumerExit,
                    )
                } else {
                    let Orchestrator {
                        request,
                        bounds,
                        consumer,
                        spawn_failure,
                        interruption,
                        consumer_exit,
                        ..
                    } = self;
                    let outcome = match spawn_failure {
                        Some(reason) => spawn_failed(Stage::Consumer, reason),
                        None => unreached(),
                    };
                    (
                        Orchestrator {
                            request,
                            bounds,
                            phase: Phase::Finished,
                            producer: ProcessState::Reaped,
                            consumer,
                            spawn_failure: None,
                            interruption,
                            link: None,
                            collected: None,
                            producer_exit: Some(report),
                            consumer_exit,
                        },
                        Action::Return(outcome),
                    )
                }
            },
            (Phase::ReapingConsumer, Event::Exited(report)) => (
                Orchestrator {
                    phase: Phase::Draining,
                    consumer: ProcessState::Reaped,
                    consumer_exit: Some(report),
                    ..self
                },
                Action::AwaitDrains,
            ),
            (Phase::Draining, Event::Drained { producer_log, consumer_log }) => {
                let Orchestrator {
                    request,
                    bounds,
                    producer,
                    consumer,
                    interruption,
                    link,
                    collected,
                    producer_exit,
                    consumer_exit,
                    ..
                } = self;
                let outcome = match interruption {
                    Some(cause) => interrupted(cause, producer_log, consumer_log),
                    None => match (link, collected, producer_exit, consumer_exit) {
                        (Some(link), Some(collected), Some(producer_exit), Some(consumer_exit)) => {
                            verdict(
                                link,
                                collected,
                                producer_exit,
                                consumer_exit,
                                producer_log,
                                consumer_log,
                            )
                        },
                        _ => unreached(),
                    },
                };
                (
                    Orchestrator {
                        request,
                        bounds,
                        phase: Phase::Finished,
                        producer,
                        consumer,
                        spawn_failure: None,
                        interruption,
                        link: None,
                        collected: None,
                        producer_exit,
                        consumer_exit,
                    },
                    Action::Return(outcome),
                )
            },
            (_, Event::Interrupted(cause)) => {
                if self.interruptible(cause) {
                    if is_running(self.producer) {
                        (
                            Orchestrator {
                                phase: Phase::TerminatingProducer,
                                interruption: Some(cause),
                                ..self
                            },
                            Action::TerminateProducer,
                        )
                    } else {
                        (
                            Orchestrator {
                                phase: Phase::TerminatingConsumer,
                                interruption: Some(cause),
                                ..self
                            },
                            Action::TerminateConsumer,
                        )
                    }
                } else {
                    (self, Action::Rejected)
                }
            },
            _ => (self, Action::Rejected),
        }
    }
}

/// Whether a process was started and has not been reaped.
fn is_running(state: ProcessState) -> (running: bool)
    ensures
        running == (state == ProcessState::Running),
{
    match state {
        ProcessState::Running => true,
        _ => false,
    }
}

impl PipelineState {
    /// An upper bound on the number of events the orchestrator will still
    /// accept before the outcome is handed out.
    pub open spec fn remaining(self) -> nat {
        match self.phase {
            Phase::Idle => 15,
            Phase::SpawningProducer => 14,
            Phase::SpawningConsumer => 13,
            Phase::Starting => 12,
            Phase::Forwarding => if self.interruption.is_none() {
                11
            } else {
                5
            },
            Phase::Collecting => if self.interruption.is_none() {
                10
            } else {
                4
            },
            Phase::ReapingProducer => if self.interruption.is_none()
                && self.spawn_failure.is_none() {
                9
            } else {
                3
            },
            Phase::ReapingConsumer => if self.interruption.is_none() {
                8
            } else {
                2
            },
            Phase::TerminatingProducer => 7,
            Phase::TerminatingConsumer => 6,
            Phase::Draining => 1,
            Phase::Finished => 0,
        }
    }

    /// An event that answers the outstanding operation.
    pub open spec fn awaited(self) -> EventView {
        match self.phase {
            Phase::Idle => EventView::Begin,
            Phase::SpawningProducer | Phase::SpawningConsumer => EventView::Spawned,
            Phase::Starting => EventView::TasksStarted,
            Phase::Forwarding => EventView::ForwarderFinished(LinkResultView::Completed),
            Phase::Collecting => EventView::CollectorFinished(
                CollectResultView::Collected(Seq::empty()),
            ),
            Phase::TerminatingProducer | Phase::TerminatingConsumer => EventView::Terminated,
            Phase::ReapingProducer | Phase::ReapingConsumer => EventView::Exited(
                ExitReport { code: None },
            ),
            Phase::Draining | Phase::Finished => EventView::Drained {
                producer_log: Seq::empty(),
                consumer_log: Seq::empty(),
            },
        }
    }

    /// The state reached from `self` by `events`, and the action that answered
    /// each of them.
    pub open spec fn run(self, events: Seq<EventView>) -> (PipelineState, Seq<ActionView>)
        decreases events.len(),
    {
        if events.len() == 0 {
            (self, Seq::empty())
        } else {
            let (before, actions) = self.run(events.drop_last());
            let (after, action) = before.next(events.last());
            (after, actions.push(action))
        }
    }
}

/// How many outcomes were handed out.
pub open spec fn outcomes_returned(actions: Seq<ActionView>) -> nat
    decreases actions.len(),
{
    if actions.len() == 0 {
        0
    } else {
        outcomes_returned(actions.drop_last()) + if actions.last() is Return {
            1nat
        } else {
            0nat
        }
    }
}

/// How often the producer was asked to be spawned.
pub open spec fn producer_spawns(actions: Seq<ActionView>) -> nat
    decreases actions.len(),
{
    if actions.len() == 0 {
        0
    } else {
        producer_spawns(actions.drop_last()) + if actions.last() is SpawnProducer {
            1nat
        } else {
            0nat
        }
    }
}

/// How often the consumer was asked to be spawned.
pub open spec fn consumer_spawns(actions: Seq<ActionView>) -> nat
    decreases actions.len(),
{
    if actions.len() == 0 {
        0
    } else {
        consumer_spawns(actions.drop_last()) + if actions.last() is SpawnConsumer {
            1nat
        } else {
            0nat
        }
    }
}

/// How many events were accepted.
pub open spec fn events_accepted(actions: Seq<ActionView>) -> nat
    decreases actions.len(),
{
    if actions.len() == 0 {
        0
    } else {
        events_accepted(actions.drop_last()) + if actions.last() is Rejected {
            0nat
        } else {
            1nat
        }
    }
}

/// Before anything is launched the orchestrator is well formed.
pub proof fn law_initial_pipeline_is_well_formed(request: PipelineRequestView, bounds: WaitBounds)
    ensures
        PipelineState::initial(request, bounds).wf(),
{
}

/// Every step keeps the orchestrator well formed, and a rejected event
/// changes nothing.
pub proof fn law_pipeline_step_keeps_well_formed(state: PipelineState, event: EventView)
    requires
        state.wf(),
    ensures
        state.next(event).0.wf(),
        state.next(event).0.request == state.request,
        state.next(event).0.bounds == state.bounds,
        state.next(event).1 is Rejected ==> state.next(event).0 == state,
{
}

/// No orphaned processes: when the outcome is handed out, whether a success,
/// a failure or the report of a timeout or a cancellation, every process the
/// request started has exited and was reaped.
pub proof fn law_no_orphaned_processes(state: PipelineState, event: EventView)
    requires
        state.wf(),
    ensures
        state.next(event).1 is Return ==> {
            let after = state.next(event).0;
            &&& after.producer != ProcessState::Running
            &&& after.consumer != ProcessState::Running
            &&& after.producer == ProcessState::Reaped ==> after.producer_exit.is_some()
            &&& after.consumer == ProcessState::Reaped ==> after.consumer_exit.is_some()
        },
        state.producer == ProcessState::Reaped ==> state.next(event).0.producer
            == ProcessState::Reaped,
        state.consumer == ProcessState::Reaped ==> state.next(event).0.consumer
            == ProcessState::Reaped,
{
}

/// The outcome is handed out by the step that finishes the run and by no
/// other, and a finished orchestrator rejects every event: a run yields one
/// outcome, never two.
pub proof fn law_outcome_is_returned_once(state: PipelineState, event: EventView)
    ensures
        state.next(event).1 is Return <==> state.phase != Phase::Finished && state.next(
            event,
        ).0.phase == Phase::Finished,
        state.phase == Phase::Finished ==> state.next(event) == (state, ActionView::Rejected),
{
}

/// Every accepted event brings the outcome nearer, and in every phase but the
/// last some event is accepted: a run whose operations are all answered ends,
/// after at most fifteen events, with an outcome.
pub proof fn law_pipeline_makes_progress(state: PipelineState, event: EventView)
    requires
        state.wf(),
    ensures
        !(state.next(event).1 is Rejected) ==> state.next(event).0.remaining() < state.remaining(),
        state.remaining() == 0 <==> state.phase == Phase::Finished,
        state.phase != Phase::Finished ==> !(state.next(state.awaited()).1 is Rejected),
{
}

/// The verdict waits for the whole join: an outcome that is not the report of
/// a failed spawn is handed out only after the relay has ended (so that the
/// consumer's input is closed), the collector has ended, both processes were
/// reaped and both diagnostic drains have reached the end of their streams.
pub proof fn law_verdict_waits_for_the_join(state: PipelineState, event: EventView)
    requires
        state.wf(),
    ensures
        state.next(event).1 is Return ==> {
            ||| {
                &&& event is SpawnFailed
                &&& state.producer == ProcessState::NotStarted
                &&& state.consumer == ProcessState::NotStarted
            }
            ||| {
                &&& event is Exited
                &&& state.spawn_failure.is_some()
                &&& state.consumer == ProcessState::NotStarted
            }
            ||| {
                &&& event is Drained
                &&& state.link.is_some()
                &&& state.collected.is_some()
                &&& state.producer_exit.is_some()
                &&& state.consumer_exit.is_some()
            }
        },
{
}

/// The outcome of a run that was not interrupted follows the precedence rule,
/// and the outcome of an interrupted run is the interruption, whatever the
/// terminated processes and the streams reported.
pub proof fn law_outcome_follows_precedence(
    state: PipelineState,
    producer_log: Seq<Seq<char>>,
    consumer_log: Seq<Seq<char>>,
)
    requires
        state.wf(),
        state.phase == Phase::Draining,
    ensures
        ({
            let event = EventView::Drained { producer_log, consumer_log };
            let outcome = state.next(event).1->Return_0;
            &&& state.next(event).1 is Return
            &&& state.interruption matches Some(cause) ==> outcome == OutcomeView::Failure(
                interruption_failure(cause, producer_log, consumer_log),
            )
            &&& state.interruption.is_none() ==> outcome == verdict_of(
                state.link.unwrap(),
                state.collected.unwrap(),
                state.producer_exit.unwrap(),
                state.consumer_exit.unwrap(),
                producer_log,
                consumer_log,
            )
            &&& outcome matches OutcomeView::Success(bytes) ==> {
                &&& state.interruption.is_none()
                &&& state.link == Some(LinkResultView::Completed)
                &&& state.collected == Some(CollectResultView::Collected(bytes))
                &&& state.producer_exit.unwrap().succeeded()
                &&& state.consumer_exit.unwrap().succeeded()
            }
        }),
{
}

/// An interruption is final and its overhead is bounded: once a wait was cut
/// short, both processes are terminated, at most seven further events are
/// accepted, and the outcome is the report of that interruption.
pub proof fn law_interruption_decides_outcome(state: PipelineState, event: EventView)
    requires
        state.wf(),
    ensures
        state.interruption.is_none() && state.next(event).0.interruption.is_some() ==> {
            &&& event is Interrupted
            &&& state.next(event).1 is TerminateProducer || state.next(event).1
                is TerminateConsumer
            &&& state.next(event).0.remaining() <= 7
        },
        state.interruption matches Some(cause) ==> {
            &&& state.next(event).0.interruption == Some(cause)
            &&& state.remaining() <= 7
            &&& state.next(event).1 matches ActionView::Return(outcome) ==> exists|
                producer_log: Seq<Seq<char>>,
                consumer_log: Seq<Seq<char>>,
            |
                outcome == OutcomeView::Failure(
                    #[trigger] interruption_failure(cause, producer_log, consumer_log),
                )
        },
{
    if state.interruption is Some && state.next(event).1 is Return {
        let cause = state.interruption.unwrap();
        let producer_log = event->Drained_producer_log;
        let consumer_log = event->Drained_consumer_log;
        assert(state.next(event).1->Return_0 == OutcomeView::Failure(
            interruption_failure(cause, producer_log, consumer_log),
        ));
    }
}

/// Exactly one outcome per request, over whole runs.
///
/// Whatever events arrive, in whatever order: at most one outcome is handed
/// out; one has been handed out exactly when the orchestrator is finished, and
/// then no process of the request is running; each of the two processes is
/// spawned at most once; and at most fifteen events are ever accepted.
pub proof fn law_one_outcome_per_request(
    request: PipelineRequestView,
    bounds: WaitBounds,
    events: Seq<EventView>,
)
    ensures
        ({
            let (end, actions) = PipelineState::initial(request, bounds).run(events);
            &&& end.wf()
            &&& actions.len() == events.len()
            &&& outcomes_returned(actions) <= 1
            &&& outcomes_returned(actions) == 1 <==> end.phase == Phase::Finished
            &&& end.phase == Phase::Finished ==> end.producer != ProcessState::Running
                && end.consumer != ProcessState::Running
            &&& producer_spawns(actions) == if end.phase == Phase::Idle {
                0nat
            } else {
                1nat
            }
            &&& consumer_spawns(actions) == if end.producer == ProcessState::NotStarted {
                0nat
            } else {
                1nat
            }
            &&& events_accepted(actions) + end.remaining() <= 15
        }),
    decreases events.len(),
{
    let start = PipelineState::initial(request, bounds);
    if events.len() > 0 {
        law_one_outcome_per_request(request, bounds, events.drop_last());
        let (before, earlier) = start.run(events.drop_last());
        let (end, action) = before.next(events.last());
        let actions = earlier.push(action);
        law_pipeline_step_keeps_well_formed(before, events.last());
        law_outcome_is_returned_once(before, events.last());
        law_pipeline_makes_progress(before, events.last());
        assert(actions.drop_last() =~= earlier);
    }
}


} // verus!
