//! Filters: the predicates by which a consumer says which internal events it
//! may observe.

use crate::event::InternalEvent;
use vstd::prelude::*;

verus! {

/// A predicate over internal events. A filter has no state: what it accepts
/// depends on the filter and the event alone.
pub trait Filter: Send + Sync + 'static {
    /// The events that the filter accepts.
    spec fn accepts(&self, event: InternalEvent) -> bool;

    /// Returns whether the given event fulfills the filter.
    fn eval(&self, event: &InternalEvent) -> (accepted: bool)
        ensures
            accepted == self.accepts(*event),
    ;
}

/// Accepts the reply to a cursor position query and nothing else.
#[derive(Debug, Clone, Copy)]
pub struct CursorPositionFilter;

impl Filter for CursorPositionFilter {
    open spec fn accepts(&self, event: InternalEvent) -> bool {
        event is CursorPosition
    }

    fn eval(&self, event: &InternalEvent) -> (accepted: bool) {
        matches!(*event, InternalEvent::CursorPosition(_, _))
    }
}

/// Accepts what ends a query for the keyboard enhancements: the flags that a
/// terminal which knows the query replies with, and the primary device
/// attributes that every terminal replies with to the query sent right after
/// it. Which of the two was accepted tells whether the terminal supports the
/// enhancements.
#[derive(Debug, Clone, Copy)]
pub struct KeyboardEnhancementFlagsFilter;

impl Filter for KeyboardEnhancementFlagsFilter {
    open spec fn accepts(&self, event: InternalEvent) -> bool {
        event is KeyboardEnhancementFlags || event is PrimaryDeviceAttributes
    }

    fn eval(&self, event: &InternalEvent) -> (accepted: bool) {
        matches!(
            *event,
            InternalEvent::KeyboardEnhancementFlags(_) | InternalEvent::PrimaryDeviceAttributes
        )
    }
}

/// Accepts the reply to a primary device attributes query and nothing else.
#[derive(Debug, Clone, Copy)]
pub struct PrimaryDeviceAttributesFilter;

impl Filter for PrimaryDeviceAttributesFilter {
    open spec fn accepts(&self, event: InternalEvent) -> bool {
        event is PrimaryDeviceAttributes
    }

    fn eval(&self, event: &InternalEvent) -> (accepted: bool) {
        matches!(*event, InternalEvent::PrimaryDeviceAttributes)
    }
}

/// Accepts the events meant for the application and no reply to a query.
///
/// On a platform whose input channel never carries a reply, every internal
/// event is an application event, so there this filter accepts all that it
/// can ever be shown.
#[derive(Debug, Clone, Copy)]
pub struct EventFilter;

impl Filter for EventFilter {
    open spec fn accepts(&self, event: InternalEvent) -> bool {
        event is Event
    }

    fn eval(&self, event: &InternalEvent) -> (accepted: bool) {
        matches!(*event, InternalEvent::Event(_))
    }
}

/// Accepts every internal event: the filter of a consumer that sorts out
/// for itself what it was given.
#[derive(Debug, Clone, Copy)]
pub struct InternalEventFilter;

impl Filter for InternalEventFilter {
    open spec fn accepts(&self, event: InternalEvent) -> bool {
        true
    }

    fn eval(&self, _event: &InternalEvent) -> (accepted: bool) {
        true
    }
}

/// On input that holds no reply to a query, the filter for application
/// events and the filter that accepts everything agree.
pub proof fn lemma_event_filter_total_without_replies(event: InternalEvent)
    requires
        !event.is_reply(),
    ensures
        EventFilter.accepts(event) == InternalEventFilter.accepts(event),
        EventFilter.accepts(event),
{
}

} // verus!
