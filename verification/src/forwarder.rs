//! The relay from the producer's output to the consumer's input.
//!
//! The relay is a state machine. The embedding task performs the stream
//! operation that the machine asks for and reports the result as the next
//! event: read a bounded chunk from the producer, write that chunk to the
//! consumer, and after the end of the producer's stream (or after the first
//! failed operation) close the consumer's input, once.

use crate::verdict::{LinkResult, LinkResultView};
use vstd::prelude::*;

verus! {

/// The chunk bound used when the caller names none.
pub const DEFAULT_CHUNK_LIMIT: usize = 8192;

/// Where the relay stands.
#[derive(Clone, Copy, Debug, PartialEq, Eq)]
pub enum LinkPhase {
    /// Not started.
    Idle,
    /// A read from the producer is outstanding.
    Reading,
    /// A write of the chunk in flight to the consumer is outstanding.
    Writing,
    /// The close of the consumer's input is outstanding.
    Closing,
    /// The consumer's input is closed and the result has been handed out.
    Finished,
}

/// What the embedding task reports to the relay.
#[derive(Debug, PartialEq, Eq)]
pub enum LinkEvent {
    /// The task is ready to relay.
    Begin,
    /// A read returned these bytes; an empty chunk means end of stream.
    ChunkRead(Vec<u8>),
    /// The producer's output reached its end.
    EndOfStream,
    /// A read from the producer failed.
    ReadFailed(String),
    /// The chunk in flight was written to the consumer in full.
    ChunkWritten,
    /// The write of the chunk in flight failed.
    WriteFailed(String),
    /// The consumer's input was closed.
    Closed,
}

/// The mathematical content of a [`LinkEvent`].
pub enum LinkEventView {
    Begin,
    ChunkRead(Seq<u8>),
    EndOfStream,
    ReadFailed(Seq<char>),
    ChunkWritten,
    WriteFailed(Seq<char>),
    Closed,
}

impl View for LinkEvent {
    type V = LinkEventView;

    open spec fn view(&self) -> LinkEventView {
        match self {
            LinkEvent::Begin => LinkEventView::Begin,
            LinkEvent::ChunkRead(chunk) => LinkEventView::ChunkRead(chunk@),
            LinkEvent::EndOfStream => LinkEventView::EndOfStream,
            LinkEvent::ReadFailed(reason) => LinkEventView::ReadFailed(reason@),
            LinkEvent::ChunkWritten => LinkEventView::ChunkWritten,
            LinkEvent::WriteFailed(reason) => LinkEventView::WriteFailed(reason@),
            LinkEvent::Closed => LinkEventView::Closed,
        }
    }
}

/// What the relay asks the embedding task to do next.
#[derive(Debug, PartialEq, Eq)]
pub enum LinkAction {
    /// Read at most this many bytes from the producer's output.
    Read(usize),
    /// Write exactly these bytes to the consumer's input.
    Write(Vec<u8>),
    /// Close the consumer's input.
    Close,
    /// The relay is over; report this result.
    Finish(LinkResult),
    /// The event does not answer the outstanding request; nothing changed.
    Rejected,
}

/// The mathematical content of a [`LinkAction`].
pub enum LinkActionView {
    Read(nat),
    Write(Seq<u8>),
    Close,
    Finish(LinkResultView),
    Rejected,
}

impl View for LinkAction {
    type V = LinkActionView;

    open spec fn view(&self) -> LinkActionView {
        match self {
            LinkAction::Read(limit) => LinkActionView::Read(*limit as nat),
            LinkAction::Write(chunk) => LinkActionView::Write(chunk@),
            LinkAction::Close => LinkActionView::Close,
            LinkAction::Finish(result) => LinkActionView::Finish(result@),
            LinkAction::Rejected => LinkActionView::Rejected,
        }
    }
}

/// The state of the relay as a mathematical value.
pub struct LinkState {
    pub phase: LinkPhase,
    /// The largest chunk a read may return.
    pub chunk_limit: nat,
    /// The first failure, if any operation failed.
    pub failure: Option<Seq<char>>,
    /// Every byte accepted from the producer so far, in order.
    pub received: Seq<u8>,
    /// The chunk handed out for writing and not yet acknowledged.
    pub in_flight: Seq<u8>,
    /// Every byte whose write the consumer side acknowledged, in order.
    pub delivered: Seq<u8>,
    /// The count of delivered bytes, saturating at `u64::MAX`.
    pub forwarded: nat,
}

/// The count `forwarded` after `more` further bytes, saturating at `u64::MAX`.
pub open spec fn saturating_count(forwarded: nat, more: nat) -> nat {
    if forwarded + more > u64::MAX {
        u64::MAX as nat
    } else {
        forwarded + more
    }
}

impl LinkState {
    /// The state of a relay that has not started.
    pub open spec fn initial(chunk_limit: nat) -> LinkState {
        LinkState {
            phase: LinkPhase::Idle,
            chunk_limit,
            failure: None,
            received: Seq::empty(),
            in_flight: Seq::empty(),
            delivered: Seq::empty(),
            forwarded: 0,
        }
    }

    /// The result a relay in this state reports when it finishes.
    pub open spec fn result(self) -> LinkResultView {
        match self.failure {
            Some(reason) => LinkResultView::Failed(reason),
            None => LinkResultView::Completed,
        }
    }

    /// The state after `event`, and the action that answers it.
    pub open spec fn next(self, event: LinkEventView) -> (LinkState, LinkActionView) {
        match (self.phase, event) {
            (LinkPhase::Idle, LinkEventView::Begin) => (
                LinkState { phase: LinkPhase::Reading, ..self },
                LinkActionView::Read(self.chunk_limit),
            ),
            (LinkPhase::Reading, LinkEventView::ChunkRead(chunk)) => if chunk.len() == 0 {
                (LinkState { phase: LinkPhase::Closing, ..self }, LinkActionView::Close)
            } else if chunk.len() <= self.chunk_limit {
                (
                    LinkState {
                        phase: LinkPhase::Writing,
                        received: self.received + chunk,
                        in_flight: chunk,
                        ..self
                    },
                    LinkActionView::Write(chunk),
                )
            } else {
                (self, LinkActionView::Rejected)
            },
            (LinkPhase::Reading, LinkEventView::EndOfStream) => (
                LinkState { phase: LinkPhase::Closing, ..self },
                LinkActionView::Close,
            ),
            (LinkPhase::Reading, LinkEventView::ReadFailed(reason)) => (
                LinkState { phase: LinkPhase::Closing, failure: Some(reason), ..self },
                LinkActionView::Close,
            ),
            (LinkPhase::Writing, LinkEventView::ChunkWritten) => (
                LinkState {
                    phase: LinkPhase::Reading,
                    in_flight: Seq::empty(),
                    delivered: self.delivered + self.in_flight,
                    forwarded: saturating_count(self.forwarded, self.in_flight.len()),
                    ..self
                },
                LinkActionView::Read(self.chunk_limit),
            ),
            (LinkPhase::Writing, LinkEventView::WriteFailed(reason)) => (
                LinkState { phase: LinkPhase::Closing, failure: Some(reason), ..self },
                LinkActionView::Close,
            ),
            (LinkPhase::Closing, LinkEventView::Closed) => (
                LinkState { phase: LinkPhase::Finished, ..self },
                LinkActionView::Finish(self.result()),
            ),
            _ => (self, LinkActionView::Rejected),
        }
    }

    /// What holds of every state the relay can reach.
    pub open spec fn wf(self) -> bool {
        &&& self.chunk_limit > 0
        &&& self.received == self.delivered + self.in_flight
        &&& self.in_flight.len() <= self.chunk_limit
        &&& self.in_flight.len() > 0 ==> self.phase == LinkPhase::Writing || self.failure.is_some()
        &&& self.phase == LinkPhase::Writing ==> self.in_flight.len() > 0
        &&& self.phase == LinkPhase::Idle ==> self.received.len() == 0
        &&& self.failure.is_some() ==> self.phase == LinkPhase::Closing || self.phase
            == LinkPhase::Finished
        &&& self.forwarded == saturating_count(0, self.delivered.len())
    }
}

/// The relay between the two processes.
pub struct Forwarder {
    phase: LinkPhase,
    chunk_limit: usize,
    failure: Option<String>,
    forwarded: u64,
    in_flight_len: usize,
    received: Ghost<Seq<u8>>,
    in_flight: Ghost<Seq<u8>>,
    delivered: Ghost<Seq<u8>>,
}

impl View for Forwarder {
    type V = LinkState;

    closed spec fn view(&self) -> LinkState {
        LinkState {
            phase: self.phase,
            chunk_limit: self.chunk_limit as nat,
            failure: match self.failure {
                Some(reason) => Some(reason@),
                None => None,
            },
            received: self.received@,
            in_flight: self.in_flight@,
            delivered: self.delivered@,
            forwarded: self.forwarded as nat,
        }
    }
}

impl Forwarder {
    #[verifier::type_invariant]
    spec fn reachable(self) -> bool {
        self.in_flight_len == self.in_flight@.len() && self@.wf()
    }

    /// A relay that reads chunks of at most [`DEFAULT_CHUNK_LIMIT`] bytes.
    pub fn new() -> (relay: Forwarder)
        ensures
            relay@ == LinkState::initial(DEFAULT_CHUNK_LIMIT as nat),
    {
        proof {
            law_initial_relay_is_well_formed(DEFAULT_CHUNK_LIMIT as nat);
        }
        Forwarder {
            phase: LinkPhase::Idle,
            chunk_limit: DEFAULT_CHUNK_LIMIT,
            failure: None,
            forwarded: 0,
            in_flight_len: 0,
            received: Ghost(Seq::empty()),
            in_flight: Ghost(Seq::empty()),
            delivered: Ghost(Seq::empty()),
        }
    }

    /// A relay that reads chunks of at most `chunk_limit` bytes; `None` when
    /// the limit is zero, since a read of no bytes cannot be told from the end
    /// of the stream.
    pub fn with_chunk_limit(chunk_limit: usize) -> (relay: Option<Forwarder>)
        ensures
            chunk_limit == 0 ==> relay.is_none(),
            chunk_limit > 0 ==> relay.is_some() && relay.unwrap()@ == LinkState::initial(
                chunk_limit as nat,
            ),
    {
        if chunk_limit == 0 {
            None
        } else {
            proof {
                law_initial_relay_is_well_formed(chunk_limit as nat);
            }
            Some(
                Forwarder {
                    phase: LinkPhase::Idle,
                    chunk_limit,
                    failure: None,
                    forwarded: 0,
                    in_flight_len: 0,
                    received: Ghost(Seq::empty()),
                    in_flight: Ghost(Seq::empty()),
                    delivered: Ghost(Seq::empty()),
                },
            )
        }
    }

    /// Where the relay stands.
    pub fn phase(&self) -> (phase: LinkPhase)
        ensures
            phase == self@.phase,
    {
        self.phase
    }

    /// The largest chunk a read may return.
    pub fn chunk_limit(&self) -> (limit: usize)
        ensures
            limit == self@.chunk_limit,
    {
        self.chunk_limit
    }

    /// The number of bytes whose write was acknowledged, saturating at `u64::MAX`.
    pub fn bytes_forwarded(&self) -> (count: u64)
        ensures
            count == self@.forwarded,
            count == saturating_count(0, self@.delivered.len()),
    {
        proof {
            use_type_invariant(self);
        }
        self.forwarded
    }

    /// Whether the relay is over.
    pub fn is_finished(&self) -> (done: bool)
        ensures
            done == (self@.phase == LinkPhase::Finished),
    {
        match self.phase {
            LinkPhase::Finished => true,
            _ => false,
        }
    }

    /// Takes the report of the embedding task and decides what to do next.
    ///
    /// A chunk is handed out for writing exactly as it was read; the close of
    /// the consumer's input is asked for only when nothing is left to write or
    /// the link has failed.
    pub fn step(self, event: LinkEvent) -> (out: (Forwarder, LinkAction))
        ensures
            (out.0@, out.1@) == self@.next(event@),
            self@.wf(),
            out.0@.wf(),
            out.1@ matches LinkActionView::Write(chunk) ==> event@ == LinkEventView::ChunkRead(
                chunk,
            ),
            out.1@ is Close ==> out.0@.failure.is_some() || out.0@.delivered == out.0@.received,
            out.1@ == LinkActionView::Finish(LinkResultView::Completed) ==> out.0@.delivered
                == out.0@.received,
    {
        proof {
            use_type_invariant(&self);
            law_relay_step_keeps_order(self@, event@);
            law_relay_closes_after_last_byte(self@, event@);
            if self@.next(event@).1 == LinkActionView::Finish(LinkResultView::Completed) {
                assert(self@.received =~= self@.delivered);
            }
        }
        match (self.phase, event) {
            (LinkPhase::Idle, LinkEvent::Begin) => {
                let limit = self.chunk_limit;
                (Forwarder { phase: LinkPhase::Reading, ..self }, LinkAction::Read(limit))
            },
            (LinkPhase::Reading, LinkEvent::ChunkRead(chunk)) => {
                let len = chunk.len();
                if len == 0 {
                    (Forwarder { phase: LinkPhase::Closing, ..self }, LinkAction::Close)
                } else if len <= self.chunk_limit {
                    (
                        Forwarder {
                            phase: LinkPhase::Writing,
                            in_flight_len: len,
                            received: Ghost(self.received@ + chunk@),
                            in_flight: Ghost(chunk@),
                            ..self
                        },
                        LinkAction::Write(chunk),
                    )
                } else {
                    (self, LinkAction::Rejected)
                }
            },
            (LinkPhase::Reading, LinkEvent::EndOfStream) => (
                Forwarder { phase: LinkPhase::Closing, ..self },
                LinkAction::Close,
            ),
            (LinkPhase::Reading, LinkEvent::ReadFailed(reason)) => (
                Forwarder { phase: LinkPhase::Closing, failure: Some(reason), ..self },
                LinkAction::Close,
            ),
            (LinkPhase::Writing, LinkEvent::ChunkWritten) => {
                let limit = self.chunk_limit;
                (
                    Forwarder {
                        phase: LinkPhase::Reading,
                        forwarded: self.forwarded.saturating_add(self.in_flight_len as u64),
                        in_flight_len: 0,
                        in_flight: Ghost(Seq::empty()),
                        delivered: Ghost(self.delivered@ + self.in_flight@),
                        ..self
                    },
                    LinkAction::Read(limit),
                )
            },
            (LinkPhase::Writing, LinkEvent::WriteFailed(reason)) => (
                Forwarder { phase: LinkPhase::Closing, failure: Some(reason), ..self },
                LinkAction::Close,
            ),
            (LinkPhase::Closing, LinkEvent::Closed) => {
                let result = match &self.failure {
                    Some(reason) => LinkResult::Failed(reason.clone()),
                    None => LinkResult::Completed,
                };
                (Forwarder { phase: LinkPhase::Finished, ..self }, LinkAction::Finish(result))
            },
            _ => (self, LinkAction::Rejected),
        }
    }
}

impl LinkState {
    /// The state reached from `self` by `events`, and the action that answered
    /// each of them.
    pub open spec fn run(self, events: Seq<LinkEventView>) -> (LinkState, Seq<LinkActionView>)
        decreases events.len(),
    {
        if events.len() == 0 {
            (self, Seq::empty())
        } else {
            let (before, actions) = self.run(events.drop_last());
            let (after, action) = before.next(events.last());
            (after, actions.push(action))
        }
    }
}

/// The bytes the relay handed out for writing, in order.
pub open spec fn bytes_written(actions: Seq<LinkActionView>) -> Seq<u8>
    decreases actions.len(),
{
    if actions.len() == 0 {
        Seq::empty()
    } else {
        bytes_written(actions.drop_last()) + match actions.last() {
            LinkActionView::Write(chunk) => chunk,
            _ => Seq::empty(),
        }
    }
}

/// The bytes the relay accepted from reads, in order: the chunks of those
/// read reports that were answered with a write.
pub open spec fn bytes_accepted(
    events: Seq<LinkEventView>,
    actions: Seq<LinkActionView>,
) -> Seq<u8>
    decreases events.len(),
{
    if events.len() == 0 || actions.len() != events.len() {
        Seq::empty()
    } else {
        bytes_accepted(events.drop_last(), actions.drop_last()) + match (
            events.last(),
            actions.last(),
        ) {
            (LinkEventView::ChunkRead(chunk), LinkActionView::Write(_)) => chunk,
            _ => Seq::empty(),
        }
    }
}

/// How often the relay asked for the consumer's input to be closed.
pub open spec fn close_requests(actions: Seq<LinkActionView>) -> nat
    decreases actions.len(),
{
    if actions.len() == 0 {
        0
    } else {
        close_requests(actions.drop_last()) + if actions.last() is Close {
            1nat
        } else {
            0nat
        }
    }
}

/// A relay that has not started is well formed.
pub proof fn law_initial_relay_is_well_formed(chunk_limit: nat)
    requires
        chunk_limit > 0,
    ensures
        LinkState::initial(chunk_limit).wf(),
{
    assert(Seq::<u8>::empty() =~= Seq::<u8>::empty() + Seq::<u8>::empty());
}

/// Every step keeps the relay well formed, never takes back a byte and never
/// reorders one: what was received and what was delivered only grow at the
/// end, and what was delivered is always a prefix of what was received.
pub proof fn law_relay_step_keeps_order(state: LinkState, event: LinkEventView)
    requires
        state.wf(),
    ensures
        state.next(event).0.wf(),
        state.received.is_prefix_of(state.next(event).0.received),
        state.delivered.is_prefix_of(state.next(event).0.delivered),
        state.next(event).0.delivered.is_prefix_of(state.next(event).0.received),
        state.next(event).1 is Rejected ==> state.next(event).0 == state,
{
    let after = state.next(event).0;
    assert(after.received =~= after.delivered + after.in_flight);
    assert(state.received.is_prefix_of(after.received));
    assert(state.delivered.is_prefix_of(after.delivered));
    assert(after.delivered.is_prefix_of(after.received));
}

/// A write hands on exactly the chunk that was just read, whole and unchanged.
pub proof fn law_relay_does_not_reframe(state: LinkState, event: LinkEventView)
    ensures
        state.next(event).1 matches LinkActionView::Write(chunk) ==> event
            == LinkEventView::ChunkRead(chunk) && state.next(event).0.received == state.received
            + chunk,
{
}

/// The consumer's input is closed when, and only when, the producer's stream
/// has ended and every received byte has been delivered, or the link has
/// failed; the relay reports its result only after the close.
pub proof fn law_relay_closes_after_last_byte(state: LinkState, event: LinkEventView)
    requires
        state.wf(),
    ensures
        state.next(event).1 is Close ==> {
            let after = state.next(event).0;
            &&& after.phase == LinkPhase::Closing
            &&& state.phase == LinkPhase::Reading || state.phase == LinkPhase::Writing
            &&& after.failure.is_some() || after.delivered == after.received
        },
        state.next(event).1 is Finish ==> state.phase == LinkPhase::Closing,
        state.phase == LinkPhase::Reading && (event is EndOfStream || event is ReadFailed)
            ==> state.next(event).1 is Close,
        state.phase == LinkPhase::Writing && event is WriteFailed ==> state.next(event).1 is Close,
{
    let after = state.next(event).0;
    if state.next(event).1 is Close && after.failure.is_none() {
        assert(after.received =~= after.delivered);
    }
}

/// Byte-exact forwarding over whole runs.
///
/// Whatever the embedding task reports, in whatever order: the bytes handed
/// out for writing are, in order, exactly the bytes accepted from reads; the
/// consumer's input is asked to be closed at most once, and exactly once in a
/// run that reaches its end; and when the relay finishes without a failure,
/// every accepted byte was delivered.
pub proof fn law_relay_is_byte_exact(chunk_limit: nat, events: Seq<LinkEventView>)
    requires
        chunk_limit > 0,
    ensures
        ({
            let (end, actions) = LinkState::initial(chunk_limit).run(events);
            &&& end.wf()
            &&& actions.len() == events.len()
            &&& bytes_written(actions) == end.received
            &&& bytes_accepted(events, actions) == end.received
            &&& end.delivered.is_prefix_of(end.received)
            &&& close_requests(actions) <= 1
            &&& close_requests(actions) == 1 <==> end.phase == LinkPhase::Closing || end.phase
                == LinkPhase::Finished
            &&& end.phase == LinkPhase::Finished && end.failure.is_none() ==> end.delivered
                == bytes_accepted(events, actions)
        }),
    decreases events.len(),
{
    let start = LinkState::initial(chunk_limit);
    if events.len() == 0 {
        assert(start.delivered.is_prefix_of(start.received));
    } else {
        law_relay_is_byte_exact(chunk_limit, events.drop_last());
        let (before, earlier) = start.run(events.drop_last());
        let (end, action) = before.next(events.last());
        let actions = earlier.push(action);
        law_relay_step_keeps_order(before, events.last());
        assert(actions.drop_last() =~= earlier);
        assert(bytes_written(actions) =~= end.received);
        assert(bytes_accepted(events, actions) =~= end.received);
        if end.phase == LinkPhase::Finished && end.failure.is_none() {
            assert(end.received =~= end.delivered);
        }
    }
}


} // verus!
