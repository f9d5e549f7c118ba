use term_input::dispatch::{
    has_elapsed, into_event, remaining, Action, Dispatcher, Phase, ProbeOutcome, Signal,
};
use term_input::event::{Event, InternalEvent, KeyEvent, KeyboardEnhancementFlags, SourceError};
use term_input::filter::{
    CursorPositionFilter, EventFilter, InternalEventFilter, KeyboardEnhancementFlagsFilter,
    PrimaryDeviceAttributesFilter,
};
use term_input::probe::{
    cursor_position, cursor_position_query, keyboard_enhancement, keyboard_enhancement_query,
    primary_device_attributes_query, source_error, supports_keyboard_enhancement,
};
use term_input::waker::WakeSignal;

fn key(code: u32) -> InternalEvent {
    InternalEvent::Event(Event::Key(KeyEvent { code, modifiers: 0 }))
}

#[test]
fn new_dispatcher_is_idle_and_keeps_nothing() {
    let dispatcher = Dispatcher::new();
    assert_eq!(dispatcher.phase(), Phase::Idle);
    assert_eq!(dispatcher.pending_len(), 0);
}

#[test]
fn probe_returns_the_match_and_reads_see_the_rest_in_order() {
    let mut dispatcher = Dispatcher::new();
    let action = dispatcher.begin_probe(Some(cursor_position_query()), Some(2000), 0);
    assert_eq!(action, Action::Write(vec![0x1b, b'[', b'6', b'n']));
    assert_eq!(dispatcher.phase(), Phase::Idle);
    let action = dispatcher.on_signal(&CursorPositionFilter, Signal::QueryWritten, 1);
    assert_eq!(action, Action::Wait(Some(1999)));
    assert_eq!(dispatcher.phase(), Phase::AwaitingReply);

    let action = dispatcher.on_signal(&CursorPositionFilter, Signal::Arrived(key(97)), 5);
    assert_eq!(action, Action::Wait(Some(1995)));
    assert_eq!(dispatcher.pending_len(), 1);
    let action = dispatcher.on_signal(
        &CursorPositionFilter,
        Signal::Arrived(InternalEvent::CursorPosition(4, 9)),
        8,
    );
    assert_eq!(action, Action::Done(Ok(InternalEvent::CursorPosition(4, 9))));
    assert_eq!(dispatcher.phase(), Phase::Matched);
    assert_eq!(dispatcher.pending_len(), 1);

    let action = dispatcher.begin_read(&EventFilter, None, 10);
    assert_eq!(action, Action::Done(Ok(key(97))));
    assert_eq!(dispatcher.phase(), Phase::Matched);
    assert_eq!(dispatcher.pending_len(), 0);

    let action = dispatcher.begin_read(&EventFilter, None, 11);
    assert_eq!(action, Action::Wait(None));
    assert_eq!(dispatcher.phase(), Phase::AwaitingReply);
    let action = dispatcher.on_signal(&EventFilter, Signal::Arrived(key(99)), 12);
    assert_eq!(action, Action::Done(Ok(key(99))));
}

#[test]
fn several_unmatched_events_keep_their_arrival_order() {
    let mut dispatcher = Dispatcher::new();
    dispatcher.begin_probe(None, None, 0);
    for code in [1u32, 2, 3, 4] {
        let action = dispatcher.on_signal(&PrimaryDeviceAttributesFilter, Signal::Arrived(key(code)), 0);
        assert_eq!(action, Action::Wait(None));
    }
    let action = dispatcher.on_signal(
        &PrimaryDeviceAttributesFilter,
        Signal::Arrived(InternalEvent::PrimaryDeviceAttributes),
        0,
    );
    assert_eq!(action, Action::Done(Ok(InternalEvent::PrimaryDeviceAttributes)));
    assert_eq!(dispatcher.pending_len(), 4);
    for code in [1u32, 2, 3, 4] {
        let action = dispatcher.begin_read(&EventFilter, None, 0);
        assert_eq!(action, Action::Done(Ok(key(code))));
    }
    assert_eq!(dispatcher.pending_len(), 0);
}

#[test]
fn read_skips_kept_replies_and_leaves_them_in_place() {
    let mut dispatcher = Dispatcher::new();
    dispatcher.begin_probe(None, None, 0);
    dispatcher.on_signal(
        &PrimaryDeviceAttributesFilter,
        Signal::Arrived(InternalEvent::CursorPosition(1, 2)),
        0,
    );
    dispatcher.on_signal(&PrimaryDeviceAttributesFilter, Signal::Arrived(key(7)), 0);
    dispatcher.on_signal(
        &PrimaryDeviceAttributesFilter,
        Signal::Arrived(InternalEvent::KeyboardEnhancementFlags(
            KeyboardEnhancementFlags::REPORT_EVENT_TYPES(),
        )),
        0,
    );
    dispatcher.on_signal(&PrimaryDeviceAttributesFilter, Signal::Woken, 0);
    assert_eq!(dispatcher.pending_len(), 3);

    assert_eq!(dispatcher.begin_read(&EventFilter, None, 0), Action::Done(Ok(key(7))));
    assert_eq!(dispatcher.pending_len(), 2);
    assert_eq!(dispatcher.begin_read(&EventFilter, Some(50), 20), Action::Wait(Some(30)));
    assert_eq!(dispatcher.pending_len(), 2);
    assert_eq!(
        dispatcher.begin_read(&InternalEventFilter, None, 0),
        Action::Done(Ok(InternalEvent::CursorPosition(1, 2)))
    );
    assert_eq!(
        dispatcher.begin_read(&InternalEventFilter, None, 0),
        Action::Done(Ok(InternalEvent::KeyboardEnhancementFlags(
            KeyboardEnhancementFlags::REPORT_EVENT_TYPES()
        )))
    );
    assert_eq!(dispatcher.begin_read(&InternalEventFilter, None, 0), Action::Wait(None));
}

#[test]
fn probe_times_out_at_the_deadline_and_not_before() {
    let mut dispatcher = Dispatcher::new();
    let action = dispatcher.begin_probe(None, Some(100), 40);
    assert_eq!(action, Action::Wait(Some(60)));
    let action = dispatcher.on_signal(&CursorPositionFilter, Signal::Elapsed, 99);
    assert_eq!(action, Action::Wait(Some(1)));
    assert_eq!(dispatcher.phase(), Phase::AwaitingReply);
    let action = dispatcher.on_signal(&CursorPositionFilter, Signal::Elapsed, 100);
    assert_eq!(action, Action::Done(Err(ProbeOutcome::TimedOut)));
    assert_eq!(dispatcher.phase(), Phase::TimedOut);
}

#[test]
fn unmatched_event_after_the_deadline_is_kept_and_the_probe_times_out() {
    let mut dispatcher = Dispatcher::new();
    dispatcher.begin_probe(None, Some(100), 0);
    let action = dispatcher.on_signal(&CursorPositionFilter, Signal::Arrived(key(5)), 150);
    assert_eq!(action, Action::Done(Err(ProbeOutcome::TimedOut)));
    assert_eq!(dispatcher.pending_len(), 1);
    assert_eq!(dispatcher.begin_read(&EventFilter, None, 151), Action::Done(Ok(key(5))));
}

#[test]
fn matching_event_after_the_deadline_is_still_handed_out() {
    let mut dispatcher = Dispatcher::new();
    dispatcher.begin_probe(None, Some(100), 0);
    let action = dispatcher.on_signal(
        &CursorPositionFilter,
        Signal::Arrived(InternalEvent::CursorPosition(0, 0)),
        150,
    );
    assert_eq!(action, Action::Done(Ok(InternalEvent::CursorPosition(0, 0))));
    assert_eq!(dispatcher.phase(), Phase::Matched);
}

#[test]
fn wake_before_the_deadline_cancels() {
    let mut dispatcher = Dispatcher::new();
    dispatcher.begin_probe(None, Some(100), 0);
    dispatcher.on_signal(&CursorPositionFilter, Signal::Arrived(key(1)), 10);
    let action = dispatcher.on_signal(&CursorPositionFilter, Signal::Woken, 99);
    assert_eq!(action, Action::Done(Err(ProbeOutcome::Cancelled)));
    assert_eq!(dispatcher.phase(), Phase::Cancelled);
    assert_eq!(dispatcher.pending_len(), 1);
    assert_eq!(dispatcher.begin_read(&EventFilter, None, 100), Action::Done(Ok(key(1))));
}

#[test]
fn wake_without_a_deadline_cancels() {
    let mut dispatcher = Dispatcher::new();
    assert_eq!(dispatcher.begin_read(&EventFilter, None, 0), Action::Wait(None));
    let action = dispatcher.on_signal(&EventFilter, Signal::Woken, u64::MAX);
    assert_eq!(action, Action::Done(Err(ProbeOutcome::Cancelled)));
}

#[test]
fn wake_after_the_deadline_is_a_timeout() {
    let mut dispatcher = Dispatcher::new();
    dispatcher.begin_probe(None, Some(100), 0);
    let action = dispatcher.on_signal(&CursorPositionFilter, Signal::Woken, 100);
    assert_eq!(action, Action::Done(Err(ProbeOutcome::TimedOut)));
    assert_eq!(dispatcher.phase(), Phase::TimedOut);
}

#[test]
fn source_failure_ends_the_invocation_and_keeps_the_buffer() {
    let mut dispatcher = Dispatcher::new();
    dispatcher.begin_probe(None, None, 0);
    dispatcher.on_signal(&CursorPositionFilter, Signal::Arrived(key(1)), 0);
    let action = dispatcher.on_signal(
        &CursorPositionFilter,
        Signal::Failed(SourceError { code: 5 }),
        0,
    );
    assert_eq!(action, Action::Done(Err(ProbeOutcome::SourceError(SourceError { code: 5 }))));
    assert_eq!(dispatcher.phase(), Phase::SourceError);
    assert_eq!(dispatcher.pending_len(), 1);
}

#[test]
fn failed_query_write_is_a_source_error() {
    let mut dispatcher = Dispatcher::new();
    let action = dispatcher.begin_probe(Some(primary_device_attributes_query()), Some(10), 0);
    assert_eq!(action, Action::Write(vec![0x1b, b'[', b'c']));
    let failed = Signal::Failed(SourceError { code: 32 });
    assert!(dispatcher.expects(&failed));
    let action = dispatcher.on_signal(&PrimaryDeviceAttributesFilter, failed, 0);
    assert_eq!(action, Action::Done(Err(ProbeOutcome::SourceError(SourceError { code: 32 }))));
    assert_eq!(dispatcher.phase(), Phase::SourceError);
}

#[test]
fn expects_follows_the_phase() {
    let mut dispatcher = Dispatcher::new();
    assert!(dispatcher.expects(&Signal::QueryWritten));
    assert!(dispatcher.expects(&Signal::Failed(SourceError { code: 1 })));
    assert!(!dispatcher.expects(&Signal::Woken));
    assert!(!dispatcher.expects(&Signal::Elapsed));
    assert!(!dispatcher.expects(&Signal::Arrived(key(1))));
    dispatcher.begin_probe(None, None, 0);
    assert!(!dispatcher.expects(&Signal::QueryWritten));
    assert!(dispatcher.expects(&Signal::Woken));
    assert!(dispatcher.expects(&Signal::Elapsed));
    assert!(dispatcher.expects(&Signal::Arrived(key(1))));
    assert!(dispatcher.expects(&Signal::Failed(SourceError { code: 1 })));
    dispatcher.on_signal(&EventFilter, Signal::Woken, 0);
    assert!(!dispatcher.expects(&Signal::QueryWritten));
    assert!(!dispatcher.expects(&Signal::Woken));
    assert!(!dispatcher.expects(&Signal::Arrived(key(1))));
}

#[test]
fn dispatcher_is_reusable_after_cancellation() {
    let mut dispatcher = Dispatcher::new();
    dispatcher.begin_probe(None, Some(10), 0);
    dispatcher.on_signal(&CursorPositionFilter, Signal::Woken, 1);
    let action = dispatcher.begin_probe(Some(cursor_position_query()), Some(30), 5);
    assert_eq!(action, Action::Write(vec![0x1b, 0x5b, 0x36, 0x6e]));
    let action = dispatcher.on_signal(&CursorPositionFilter, Signal::QueryWritten, 6);
    assert_eq!(action, Action::Wait(Some(24)));
    let action = dispatcher.on_signal(
        &CursorPositionFilter,
        Signal::Arrived(InternalEvent::CursorPosition(2, 3)),
        7,
    );
    assert_eq!(cursor_position(into_result(action)), Ok(Some((2, 3))));
}

fn into_result(action: Action) -> Result<InternalEvent, ProbeOutcome> {
    match action {
        Action::Done(result) => result,
        other => panic!("the invocation has not ended: {:?}", other),
    }
}

#[test]
fn device_attributes_alone_mean_no_keyboard_enhancement() {
    let mut dispatcher = Dispatcher::new();
    let action = dispatcher.begin_probe(Some(keyboard_enhancement_query()), Some(2000), 0);
    assert_eq!(action, Action::Write(vec![0x1b, b'[', b'?', b'u', 0x1b, b'[', b'c']));
    dispatcher.on_signal(&KeyboardEnhancementFlagsFilter, Signal::QueryWritten, 0);
    let action = dispatcher.on_signal(
        &KeyboardEnhancementFlagsFilter,
        Signal::Arrived(InternalEvent::PrimaryDeviceAttributes),
        3,
    );
    assert_eq!(action, Action::Done(Ok(InternalEvent::PrimaryDeviceAttributes)));
    assert_eq!(dispatcher.pending_len(), 0);
    assert_eq!(supports_keyboard_enhancement(Ok(InternalEvent::PrimaryDeviceAttributes)), Ok(false));
    assert_eq!(keyboard_enhancement(into_result(action)), Ok(None));
}

#[test]
fn flags_end_the_probe_and_the_later_device_attributes_are_kept() {
    let flags = KeyboardEnhancementFlags::DISAMBIGUATE_ESCAPE_CODES()
        .union(KeyboardEnhancementFlags::REPORT_EVENT_TYPES());
    let mut dispatcher = Dispatcher::new();
    dispatcher.begin_probe(Some(keyboard_enhancement_query()), Some(2000), 0);
    dispatcher.on_signal(&KeyboardEnhancementFlagsFilter, Signal::QueryWritten, 0);
    let action = dispatcher.on_signal(
        &KeyboardEnhancementFlagsFilter,
        Signal::Arrived(InternalEvent::KeyboardEnhancementFlags(flags)),
        3,
    );
    assert_eq!(action, Action::Done(Ok(InternalEvent::KeyboardEnhancementFlags(flags))));
    assert_eq!(keyboard_enhancement(into_result(action)), Ok(Some(flags)));
    assert_eq!(
        supports_keyboard_enhancement(Ok(InternalEvent::KeyboardEnhancementFlags(flags))),
        Ok(true)
    );

    // The application's read does not accept the late reply: it stays kept.
    assert_eq!(dispatcher.begin_read(&EventFilter, None, 4), Action::Wait(None));
    let action = dispatcher.on_signal(
        &EventFilter,
        Signal::Arrived(InternalEvent::PrimaryDeviceAttributes),
        5,
    );
    assert_eq!(action, Action::Wait(None));
    assert_eq!(dispatcher.pending_len(), 1);
    let action = dispatcher.on_signal(&EventFilter, Signal::Arrived(key(120)), 6);
    assert_eq!(action, Action::Done(Ok(key(120))));
    assert_eq!(dispatcher.pending_len(), 1);

    // A read that accepts everything is handed the kept reply.
    let action = dispatcher.begin_read(&InternalEventFilter, None, 7);
    assert_eq!(action, Action::Done(Ok(InternalEvent::PrimaryDeviceAttributes)));
    assert_eq!(dispatcher.pending_len(), 0);
}

#[test]
fn probe_results_are_read_by_kind() {
    assert_eq!(keyboard_enhancement(Err(ProbeOutcome::TimedOut)), Err(ProbeOutcome::TimedOut));
    assert_eq!(
        supports_keyboard_enhancement(Err(ProbeOutcome::Cancelled)),
        Err(ProbeOutcome::Cancelled)
    );
    assert_eq!(cursor_position(Ok(InternalEvent::CursorPosition(12, 34))), Ok(Some((12, 34))));
    assert_eq!(cursor_position(Ok(InternalEvent::PrimaryDeviceAttributes)), Ok(None));
    assert_eq!(
        cursor_position(Err(ProbeOutcome::SourceError(SourceError { code: 9 }))),
        Err(ProbeOutcome::SourceError(SourceError { code: 9 }))
    );
    assert_eq!(
        source_error(ProbeOutcome::SourceError(SourceError { code: 9 })),
        Some(SourceError { code: 9 })
    );
    assert_eq!(source_error(ProbeOutcome::TimedOut), None);
    assert_eq!(source_error(ProbeOutcome::Cancelled), None);
}

#[test]
fn into_event_unwraps_application_events_only() {
    assert_eq!(into_event(InternalEvent::Event(Event::Resize(10, 10))), Some(Event::Resize(10, 10)));
    assert_eq!(
        into_event(InternalEvent::Event(Event::Paste(String::from("abc")))),
        Some(Event::Paste(String::from("abc")))
    );
    assert_eq!(into_event(InternalEvent::CursorPosition(1, 1)), None);
    assert_eq!(into_event(InternalEvent::PrimaryDeviceAttributes), None);
}

#[test]
fn deadline_arithmetic() {
    assert!(!has_elapsed(None, u64::MAX));
    assert!(!has_elapsed(Some(10), 9));
    assert!(has_elapsed(Some(10), 10));
    assert!(has_elapsed(Some(10), 11));
    assert_eq!(remaining(None, 5), None);
    assert_eq!(remaining(Some(10), 4), Some(6));
    assert_eq!(remaining(Some(10), 10), Some(0));
    assert_eq!(remaining(Some(10), 500), Some(0));
    assert_eq!(remaining(Some(u64::MAX), 0), Some(u64::MAX));
}

#[test]
fn query_bytes() {
    assert_eq!(cursor_position_query(), b"\x1b[6n".to_vec());
    assert_eq!(primary_device_attributes_query(), b"\x1b[c".to_vec());
    assert_eq!(keyboard_enhancement_query(), b"\x1b[?u\x1b[c".to_vec());
}

#[test]
fn wake_signal_stays_raised_until_seen_and_holds_no_count() {
    let mut signal = WakeSignal::new();
    assert!(!signal.is_raised());
    assert!(!signal.take());
    signal.wake();
    signal.wake();
    assert!(signal.is_raised());
    assert!(signal.take());
    assert!(!signal.is_raised());
    assert!(!signal.take());
}
