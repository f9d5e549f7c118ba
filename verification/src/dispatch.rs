//! The dispatch state machine: one invocation awaits an internal event that
//! its filter accepts, and keeps every other event, in arrival order, for the
//! next ordinary read.
//!
//! The machine decides and never blocks. Whoever drives it performs the
//! action that a step returns (write a query, wait on the raw source) and
//! hands the outcome back as the next signal, together with the reading of a
//! monotonic clock in milliseconds.

use crate::event::{Event, InternalEvent, SourceError};
use crate::filter::Filter;
use std::collections::VecDeque;
use vstd::prelude::*;

verus! {

/// Where an invocation stands.
#[derive(Debug, Clone, Copy, PartialEq, Eq, Structural)]
pub enum Phase {
    /// Nothing is awaited: no invocation has begun, or one has begun and its
    /// query is still to be written.
    Idle,
    /// The raw source is being read for an event that the filter accepts.
    AwaitingReply,
    /// An accepted event was handed out.
    Matched,
    /// The deadline passed before an accepted event arrived.
    TimedOut,
    /// A wake-up ended the wait before the deadline.
    Cancelled,
    /// The raw source failed.
    SourceError,
}

/// Why an invocation ended without an accepted event.
#[derive(Debug, Clone, Copy, PartialEq, Eq, Structural)]
pub enum ProbeOutcome {
    /// The deadline passed. For a capability probe this means that the
    /// terminal does not answer the query.
    TimedOut,
    /// The wait was interrupted on purpose, as on shutdown.
    Cancelled,
    /// Reading or writing the raw source failed.
    SourceError(SourceError),
}

/// What a wait on the raw source, or the write of a query, came back with.
#[derive(Debug, PartialEq, Eq)]
pub enum Signal {
    /// The query was written.
    QueryWritten,
    /// The next internal event of the stream.
    Arrived(InternalEvent),
    /// The wait ran out of time.
    Elapsed,
    /// The waker interrupted the wait.
    Woken,
    /// The raw source failed.
    Failed(SourceError),
}

/// What the driver is to do next.
#[derive(Debug, PartialEq, Eq)]
pub enum Action {
    /// Write these bytes to the terminal, then signal `QueryWritten` or
    /// `Failed`.
    Write(Vec<u8>),
    /// Wait on the raw source, for at most this many milliseconds where a
    /// number is given, then signal what came of it.
    Wait(Option<u64>),
    /// The invocation has ended with this result.
    Done(Result<InternalEvent, ProbeOutcome>),
}

/// Whether a deadline has passed at the given time. No deadline never passes.
pub open spec fn spec_has_elapsed(deadline: Option<u64>, now: u64) -> bool {
    deadline matches Some(at) && now >= at
}

/// The time left until a deadline: nothing once it has passed, and no bound
/// where there is no deadline.
pub open spec fn spec_remaining(deadline: Option<u64>, now: u64) -> Option<u64> {
    match deadline {
        None => None,
        Some(at) => Some(
            if at > now {
                (at - now) as u64
            } else {
                0
            },
        ),
    }
}

/// Whether a deadline has passed at the given time.
pub fn has_elapsed(deadline: Option<u64>, now: u64) -> (elapsed: bool)
    ensures
        elapsed == spec_has_elapsed(deadline, now),
{
    match deadline {
        Some(at) => now >= at,
        None => false,
    }
}

/// The time left until a deadline.
pub fn remaining(deadline: Option<u64>, now: u64) -> (left: Option<u64>)
    ensures
        left == spec_remaining(deadline, now),
{
    match deadline {
        None => None,
        Some(at) => Some(
            if at > now {
                at - now
            } else {
                0
            },
        ),
    }
}

/// The state of a dispatcher as contracts speak of it.
pub struct Machine {
    /// Where the current invocation stands.
    pub phase: Phase,
    /// The time at which the current invocation gives up, if any.
    pub deadline: Option<u64>,
    /// The events kept for the next ordinary read, oldest first.
    pub pending: Seq<InternalEvent>,
}

/// The least position of the buffer that holds an event the filter accepts,
/// or the buffer's length where it holds none.
pub open spec fn first_accepted<F: Filter>(pending: Seq<InternalEvent>, filter: F) -> int
    decreases pending.len(),
{
    if pending.len() == 0 {
        0
    } else if filter.accepts(pending[0]) {
        0
    } else {
        1 + first_accepted(pending.drop_first(), filter)
    }
}

impl Machine {
    /// The machine between invocations, with nothing kept.
    pub open spec fn initial() -> Machine {
        Machine { phase: Phase::Idle, deadline: None, pending: Seq::empty() }
    }

    /// The step that ends, or goes on with, a wait after the deadline was
    /// looked at: past the deadline the invocation has timed out, before it
    /// the wait is taken up again for the time that is left.
    pub open spec fn settled(self, now: u64) -> (Machine, Action) {
        if spec_has_elapsed(self.deadline, now) {
            (Machine { phase: Phase::TimedOut, ..self }, Action::Done(Err(ProbeOutcome::TimedOut)))
        } else {
            (
                Machine { phase: Phase::AwaitingReply, ..self },
                Action::Wait(spec_remaining(self.deadline, now)),
            )
        }
    }

    /// The machine and the action after a probe has begun.
    pub open spec fn after_begin_probe(
        self,
        query: Option<Vec<u8>>,
        deadline: Option<u64>,
        now: u64,
    ) -> (Machine, Action) {
        match query {
            Some(bytes) => (
                Machine { phase: Phase::Idle, deadline, pending: self.pending },
                Action::Write(bytes),
            ),
            None => (
                Machine { phase: Phase::AwaitingReply, deadline, pending: self.pending },
                Action::Wait(spec_remaining(deadline, now)),
            ),
        }
    }

    /// The machine and the action after an ordinary read has begun: the
    /// oldest kept event that the filter accepts is handed out; where none is
    /// kept, the raw source is waited on.
    pub open spec fn after_begin_read<F: Filter>(
        self,
        filter: F,
        deadline: Option<u64>,
        now: u64,
    ) -> (Machine, Action) {
        let at = first_accepted(self.pending, filter);
        if at < self.pending.len() {
            (
                Machine { phase: Phase::Matched, deadline, pending: self.pending.remove(at) },
                Action::Done(Ok(self.pending[at])),
            )
        } else {
            (
                Machine { phase: Phase::AwaitingReply, deadline, pending: self.pending },
                Action::Wait(spec_remaining(deadline, now)),
            )
        }
    }

    /// Whether the machine, as it stands, has a use for the signal: the
    /// outcome of a write while the query is due, the outcome of a wait while
    /// a reply is awaited.
    pub open spec fn expects(self, signal: Signal) -> bool {
        match self.phase {
            Phase::Idle => signal is QueryWritten || signal is Failed,
            Phase::AwaitingReply => !(signal is QueryWritten),
            _ => false,
        }
    }

    /// The machine and the action after a signal.
    pub open spec fn after_signal<F: Filter>(self, filter: F, signal: Signal, now: u64) -> (
        Machine,
        Action,
    ) {
        match signal {
            Signal::QueryWritten => (
                Machine { phase: Phase::AwaitingReply, ..self },
                Action::Wait(spec_remaining(self.deadline, now)),
            ),
            Signal::Arrived(event) => if filter.accepts(event) {
                (Machine { phase: Phase::Matched, ..self }, Action::Done(Ok(event)))
            } else {
                Machine { pending: self.pending.push(event), ..self }.settled(now)
            },
            Signal::Elapsed => self.settled(now),
            Signal::Woken => if spec_has_elapsed(self.deadline, now) {
                (
                    Machine { phase: Phase::TimedOut, ..self },
                    Action::Done(Err(ProbeOutcome::TimedOut)),
                )
            } else {
                (
                    Machine { phase: Phase::Cancelled, ..self },
                    Action::Done(Err(ProbeOutcome::Cancelled)),
                )
            },
            Signal::Failed(error) => (
                Machine { phase: Phase::SourceError, ..self },
                Action::Done(Err(ProbeOutcome::SourceError(error))),
            ),
        }
    }
}

/// The dispatcher: the buffer of events kept for the next ordinary read, and
/// the state of the invocation that is under way. Whoever holds it mutably is
/// the one consumer that may read the raw source.
pub struct Dispatcher {
    phase: Phase,
    deadline: Option<u64>,
    pending: VecDeque<InternalEvent>,
}

impl View for Dispatcher {
    type V = Machine;

    closed spec fn view(&self) -> Machine {
        Machine { phase: self.phase, deadline: self.deadline, pending: self.pending@ }
    }
}

impl Dispatcher {
    /// A dispatcher between invocations, with nothing kept.
    pub fn new() -> (dispatcher: Self)
        ensures
            dispatcher@ == Machine::initial(),
    {
        Dispatcher { phase: Phase::Idle, deadline: None, pending: VecDeque::new() }
    }

    /// Where the current invocation stands.
    pub fn phase(&self) -> (phase: Phase)
        ensures
            phase == self@.phase,
    {
        self.phase
    }

    /// The number of events kept for the next ordinary read.
    pub fn pending_len(&self) -> (len: usize)
        ensures
            len == self@.pending.len(),
    {
        self.pending.len()
    }

    /// Whether the dispatcher, as it stands, has a use for the signal.
    pub fn expects(&self, signal: &Signal) -> (expected: bool)
        ensures
            expected == self@.expects(*signal),
    {
        match self.phase {
            Phase::Idle => matches!(*signal, Signal::QueryWritten | Signal::Failed(_)),
            Phase::AwaitingReply => !matches!(*signal, Signal::QueryWritten),
            _ => false,
        }
    }

    /// Begins a probe: a query, if one is given, is to be written first, and
    /// then the raw source is read until the deadline for an event that the
    /// probe's filter accepts. What is kept for ordinary reads stays as it
    /// is.
    pub fn begin_probe(&mut self, query: Option<Vec<u8>>, deadline: Option<u64>, now: u64) -> (action:
        Action)
        ensures
            (final(self)@, action) == old(self)@.after_begin_probe(query, deadline, now),
    {
        self.deadline = deadline;
        match query {
            Some(bytes) => {
                self.phase = Phase::Idle;
                Action::Write(bytes)
            },
            None => {
                self.phase = Phase::AwaitingReply;
                Action::Wait(remaining(deadline, now))
            },
        }
    }

    /// Begins an ordinary read: the oldest kept event that the filter accepts
    /// is handed out at once, and the others stay kept in their order. Where
    /// no kept event is accepted, the raw source is to be read.
    pub fn begin_read<F: Filter>(&mut self, filter: &F, deadline: Option<u64>, now: u64) -> (action:
        Action)
        ensures
            (final(self)@, action) == old(self)@.after_begin_read(*filter, deadline, now),
    {
        self.deadline = deadline;
        let at = self.find_accepted(filter);
        match self.pending.remove(at) {
            Some(event) => {
                self.phase = Phase::Matched;
                Action::Done(Ok(event))
            },
            None => {
                self.phase = Phase::AwaitingReply;
                Action::Wait(remaining(deadline, now))
            },
        }
    }

    /// The position of the oldest kept event that the filter accepts.
    fn find_accepted<F: Filter>(&self, filter: &F) -> (at: usize)
        ensures
            at == first_accepted(self@.pending, *filter),
            at <= self@.pending.len(),
    {
        let mut at: usize = 0;
        assert(self.pending@.skip(0) == self.pending@);
        while at < self.pending.len()
            invariant
                at <= self.pending@.len(),
                first_accepted(self.pending@, *filter) == at + first_accepted(
                    self.pending@.skip(at as int),
                    *filter,
                ),
            decreases self.pending@.len() - at,
        {
            let ghost rest = self.pending@.skip(at as int);
            assert(rest[0] == self.pending@[at as int]);
            assert(rest.drop_first() == self.pending@.skip(at + 1));
            if filter.eval(&self.pending[at]) {
                return at;
            }
            at += 1;
        }
        at
    }

    /// Takes the outcome of the action that the last step asked for, and
    /// says what to do next.
    pub fn on_signal<F: Filter>(&mut self, filter: &F, signal: Signal, now: u64) -> (action: Action)
        requires
            old(self)@.expects(signal),
        ensures
            (final(self)@, action) == old(self)@.after_signal(*filter, signal, now),
    {
        match signal {
            Signal::QueryWritten => {
                self.phase = Phase::AwaitingReply;
                Action::Wait(remaining(self.deadline, now))
            },
            Signal::Arrived(event) => {
                if filter.eval(&event) {
                    self.phase = Phase::Matched;
                    Action::Done(Ok(event))
                } else {
                    self.pending.push_back(event);
                    self.settle(now)
                }
            },
            Signal::Elapsed => self.settle(now),
            Signal::Woken => {
                if has_elapsed(self.deadline, now) {
                    self.phase = Phase::TimedOut;
                    Action::Done(Err(ProbeOutcome::TimedOut))
                } else {
                    self.phase = Phase::Cancelled;
                    Action::Done(Err(ProbeOutcome::Cancelled))
                }
            },
            Signal::Failed(error) => {
                self.phase = Phase::SourceError;
                Action::Done(Err(ProbeOutcome::SourceError(error)))
            },
        }
    }

    /// Ends the invocation if its deadline has passed, and else goes on
    /// waiting for the time that is left.
    fn settle(&mut self, now: u64) -> (action: Action)
        ensures
            (final(self)@, action) == old(self)@.settled(now),
    {
        if has_elapsed(self.deadline, now) {
            self.phase = Phase::TimedOut;
            Action::Done(Err(ProbeOutcome::TimedOut))
        } else {
            self.phase = Phase::AwaitingReply;
            Action::Wait(remaining(self.deadline, now))
        }
    }
}

/// The application event that an internal event carries, if it carries one.
pub fn into_event(event: InternalEvent) -> (public: Option<Event>)
    ensures
        public == (match event {
            InternalEvent::Event(inner) => Some(inner),
            _ => None::<Event>,
        }),
{
    match event {
        InternalEvent::Event(inner) => Some(inner),
        _ => None,
    }
}

} // verus!
