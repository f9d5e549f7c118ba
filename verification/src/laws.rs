//! What holds of the dispatch state machine over every input and over runs
//! of several steps.

use crate::dispatch::{
    first_accepted, spec_has_elapsed, spec_remaining, Action, Machine, Phase, ProbeOutcome, Signal,
};
use crate::event::InternalEvent;
use crate::filter::Filter;
use vstd::prelude::*;

verus! {

/// The events of a sequence that a filter accepts, in their order.
pub open spec fn accepted_of<F: Filter>(events: Seq<InternalEvent>, filter: F) -> Seq<
    InternalEvent,
> {
    events.filter(|event: InternalEvent| filter.accepts(event))
}

/// The events of a sequence that a filter does not accept, in their order.
pub open spec fn refused_of<F: Filter>(events: Seq<InternalEvent>, filter: F) -> Seq<
    InternalEvent,
> {
    events.filter(|event: InternalEvent| !filter.accepts(event))
}

/// An arrival: an internal event and the time at which the wait returned it.
pub type Arrival = (InternalEvent, u64);

/// The events of a sequence of arrivals.
pub open spec fn events_of(arrivals: Seq<Arrival>) -> Seq<InternalEvent> {
    arrivals.map_values(|arrival: Arrival| arrival.0)
}

/// The machine after a sequence of arrivals, as far as it awaits a reply.
pub open spec fn after_arrivals<F: Filter>(machine: Machine, filter: F, arrivals: Seq<Arrival>) -> Machine
    decreases arrivals.len(),
{
    if arrivals.len() == 0 || !(machine.phase is AwaitingReply) {
        machine
    } else {
        after_arrivals(
            machine.after_signal(filter, Signal::Arrived(arrivals[0].0), arrivals[0].1).0,
            filter,
            arrivals.drop_first(),
        )
    }
}

/// `first_accepted` is the position of the oldest accepted event: no event
/// before it is accepted, and the event at it is, where there is one.
pub proof fn lemma_first_accepted<F: Filter>(pending: Seq<InternalEvent>, filter: F)
    ensures
        0 <= first_accepted(pending, filter) <= pending.len(),
        forall|i: int| 0 <= i < first_accepted(pending, filter) ==> !filter.accepts(#[trigger] pending[i]),
        first_accepted(pending, filter) < pending.len() ==> filter.accepts(
            pending[first_accepted(pending, filter)],
        ),
    decreases pending.len(),
{
    if pending.len() > 0 && !filter.accepts(pending[0]) {
        let rest = pending.drop_first();
        lemma_first_accepted(rest, filter);
        assert forall|i: int| 0 <= i < first_accepted(pending, filter) implies !filter.accepts(
            #[trigger] pending[i],
        ) by {
            if i > 0 {
                assert(pending[i] == rest[i - 1]);
            }
        }
        assert(first_accepted(pending, filter) < pending.len() ==> pending[first_accepted(
            pending,
            filter,
        )] == rest[first_accepted(rest, filter)]);
    }
}

/// An invocation times out only at or after its deadline: whatever the
/// signal, a machine that has come to `TimedOut` had a deadline, and the time
/// of the signal was not before it.
pub proof fn lemma_no_timeout_before_deadline<F: Filter>(
    machine: Machine,
    filter: F,
    signal: Signal,
    now: u64,
)
    requires
        machine.expects(signal),
    ensures
        machine.after_signal(filter, signal, now).0.phase is TimedOut ==> spec_has_elapsed(
            machine.deadline,
            now,
        ),
        machine.after_signal(filter, signal, now).1 == Action::Done(Err(ProbeOutcome::TimedOut))
            ==> spec_has_elapsed(machine.deadline, now),
{
}

/// A wait that runs out at or after the deadline ends the invocation as
/// timed out, and one that returns early is taken up again for exactly the
/// time that is left, so no wait reaches past the deadline.
pub proof fn lemma_elapsed_wait(machine: Machine, now: u64)
    requires
        machine.phase is AwaitingReply,
    ensures
        spec_has_elapsed(machine.deadline, now) ==> machine.settled(now) == (
            Machine { phase: Phase::TimedOut, ..machine },
            Action::Done(Err(ProbeOutcome::TimedOut)),
        ),
        !spec_has_elapsed(machine.deadline, now) ==> machine.settled(now) == (
            machine,
            Action::Wait(spec_remaining(machine.deadline, now)),
        ),
        machine.deadline matches Some(at) ==> (spec_remaining(machine.deadline, now) matches Some(
            left,
        ) && now + left <= at || now >= at),
{
}

/// A wake-up before the deadline, or with no deadline at all, cancels the
/// invocation: it does not time out, and what is kept stays as it was.
pub proof fn lemma_wake_cancels<F: Filter>(machine: Machine, filter: F, now: u64)
    requires
        machine.phase is AwaitingReply,
        !spec_has_elapsed(machine.deadline, now),
    ensures
        machine.after_signal(filter, Signal::Woken, now) == (
            Machine { phase: Phase::Cancelled, ..machine },
            Action::Done(Err(ProbeOutcome::Cancelled)),
        ),
{
}

/// No event is lost or handed out twice: an event that arrives is either
/// handed out by that step, with what is kept unchanged, or appended to what
/// is kept and not handed out. No other signal changes what is kept or hands
/// out an event.
pub proof fn lemma_step_conserves_events<F: Filter>(
    machine: Machine,
    filter: F,
    signal: Signal,
    now: u64,
)
    requires
        machine.expects(signal),
    ensures
        ({
            let (next, action) = machine.after_signal(filter, signal, now);
            match signal {
                Signal::Arrived(event) => if filter.accepts(event) {
                    action == Action::Done(Ok(event)) && next.pending == machine.pending
                } else {
                    !(action matches Action::Done(Ok(_))) && next.pending == machine.pending.push(
                        event,
                    )
                },
                _ => !(action matches Action::Done(Ok(_))) && next.pending == machine.pending,
            }
        }),
{
}

/// A probe keeps what it cannot use, in arrival order: after any number of
/// events that its filter does not accept, arriving before the deadline, the
/// machine still awaits a reply and has appended exactly those events, in
/// their order, to what was kept. The first accepted event is then handed
/// out, and what is kept does not change with it.
pub proof fn lemma_probe_keeps_unmatched_in_order<F: Filter>(
    machine: Machine,
    filter: F,
    skipped: Seq<Arrival>,
    hit: InternalEvent,
    now: u64,
)
    requires
        machine.phase is AwaitingReply,
        forall|i: int|
            0 <= i < skipped.len() ==> !filter.accepts((#[trigger] skipped[i]).0)
                && !spec_has_elapsed(machine.deadline, skipped[i].1),
        filter.accepts(hit),
    ensures
        after_arrivals(machine, filter, skipped) == (Machine {
            pending: machine.pending + events_of(skipped),
            ..machine
        }),
        after_arrivals(machine, filter, skipped).after_signal(filter, Signal::Arrived(hit), now)
            == (
            Machine {
                phase: Phase::Matched,
                pending: machine.pending + events_of(skipped),
                ..machine
            },
            Action::Done(Ok(hit)),
        ),
    decreases skipped.len(),
{
    if skipped.len() == 0 {
        assert(machine.pending + events_of(skipped) == machine.pending);
    } else {
        let first = skipped[0];
        let rest = skipped.drop_first();
        let next = machine.after_signal(filter, Signal::Arrived(first.0), first.1).0;
        assert(next == Machine { pending: machine.pending.push(first.0), ..machine });
        assert forall|i: int| 0 <= i < rest.len() implies !filter.accepts((#[trigger] rest[i]).0)
            && !spec_has_elapsed(next.deadline, rest[i].1) by {
            assert(rest[i] == skipped[i + 1]);
        }
        lemma_probe_keeps_unmatched_in_order(next, filter, rest, hit, now);
        assert(next.pending + events_of(rest) == machine.pending + events_of(skipped)) by {
            assert(events_of(skipped) == seq![first.0] + events_of(rest));
            assert(machine.pending.push(first.0) + events_of(rest) == machine.pending + (
                seq![first.0] + events_of(rest)));
        }
    }
}

/// Across a probe and the reads that follow it, events reach the reader in
/// the order in which they arrived. Let a probe be under way with nothing
/// kept. An event that the probe does not accept arrives before the
/// deadline, then one that it accepts: the probe hands out the second. The
/// next ordinary read, whose filter accepts the first event, is handed that
/// event at once and leaves nothing kept. The read after it finds nothing
/// kept, waits, and is handed a later event that its filter accepts.
pub proof fn lemma_probe_then_reads_in_order<P: Filter, R: Filter>(
    probing: P,
    reading: R,
    deadline: Option<u64>,
    first: Arrival,
    hit: Arrival,
    later: Arrival,
    read_at: u64,
)
    requires
        !probing.accepts(first.0),
        !spec_has_elapsed(deadline, first.1),
        probing.accepts(hit.0),
        reading.accepts(first.0),
        reading.accepts(later.0),
    ensures
        ({
            let begun = Machine {
                phase: Phase::AwaitingReply,
                deadline,
                pending: Seq::<InternalEvent>::empty(),
            };
            let (skipped, wait) = begun.after_signal(probing, Signal::Arrived(first.0), first.1);
            let (matched, probed) = skipped.after_signal(probing, Signal::Arrived(hit.0), hit.1);
            let (drained, read_one) = matched.after_begin_read(reading, None, read_at);
            let (waiting, read_two) = drained.after_begin_read(reading, None, read_at);
            let (done, read_three) = waiting.after_signal(
                reading,
                Signal::Arrived(later.0),
                later.1,
            );
            &&& wait == Action::Wait(spec_remaining(deadline, first.1))
            &&& probed == Action::Done(Ok(hit.0))
            &&& matched.pending == seq![first.0]
            &&& read_one == Action::Done(Ok(first.0))
            &&& drained.pending == Seq::<InternalEvent>::empty()
            &&& read_two == Action::Wait(None)
            &&& waiting.phase is AwaitingReply
            &&& read_three == Action::Done(Ok(later.0))
            &&& done.pending == Seq::<InternalEvent>::empty()
        }),
{
    let empty = Seq::<InternalEvent>::empty();
    let kept = seq![first.0];
    assert(empty.push(first.0) == kept);
    assert(first_accepted(kept, reading) == 0);
    assert(kept.remove(0) == empty);
    assert(first_accepted(empty, reading) == 0);
}

/// An ordinary read hands out the oldest kept event that its filter
/// accepts, and nothing kept changes place: the accepted events that stay
/// are those that were kept, without the first, and the events that the
/// filter does not accept stay as they were. Where no kept event is
/// accepted, nothing is handed out and the raw source is waited on.
pub proof fn lemma_read_drains_oldest_first<F: Filter>(
    machine: Machine,
    filter: F,
    deadline: Option<u64>,
    now: u64,
)
    ensures
        ({
            let (next, action) = machine.after_begin_read(filter, deadline, now);
            let accepted = accepted_of(machine.pending, filter);
            if accepted.len() > 0 {
                &&& action == Action::Done(Ok(accepted[0]))
                &&& next.phase is Matched
                &&& accepted_of(next.pending, filter) == accepted.drop_first()
                &&& refused_of(next.pending, filter) == refused_of(machine.pending, filter)
            } else {
                &&& action == Action::Wait(spec_remaining(deadline, now))
                &&& next.phase is AwaitingReply
                &&& next.pending == machine.pending
            }
        }),
{
    let pending = machine.pending;
    let at = first_accepted(pending, filter);
    let yes = |event: InternalEvent| filter.accepts(event);
    let no = |event: InternalEvent| !filter.accepts(event);
    lemma_first_accepted(pending, filter);
    let before = pending.take(at);
    assert forall|i: int| 0 <= i < before.len() implies !yes(#[trigger] before[i]) by {
        assert(before[i] == pending[i]);
    }
    before.lemma_all_neg_filter_empty(yes);
    if at < pending.len() {
        let after = pending.skip(at + 1);
        let one = seq![pending[at]];
        assert(pending == before + one + after);
        assert(pending.remove(at) == before + after);
        Seq::filter_distributes_over_add(before + one, after, yes);
        Seq::filter_distributes_over_add(before, one, yes);
        Seq::filter_distributes_over_add(before, after, yes);
        Seq::filter_distributes_over_add(before + one, after, no);
        Seq::filter_distributes_over_add(before, one, no);
        Seq::filter_distributes_over_add(before, after, no);
        assert(one.filter(yes) == one && one.filter(no) == Seq::<InternalEvent>::empty()) by {
            reveal_with_fuel(Seq::filter, 2);
            assert(one.drop_last() == Seq::<InternalEvent>::empty());
            assert(Seq::<InternalEvent>::empty().push(one.last()) == one);
        }
        assert(accepted_of(pending, filter) == one + after.filter(yes));
        assert((one + after.filter(yes)).drop_first() == after.filter(yes));
        assert(before.filter(no) + Seq::<InternalEvent>::empty() + after.filter(no)
            == before.filter(no) + after.filter(no));
    } else {
        assert(before == pending);
    }
}

} // verus!
