//! Input event core of a terminal control library.
//!
//! A terminal's input channel carries two kinds of decoded units, interleaved:
//! events meant for the application (keys, mouse, resize, focus, paste) and
//! replies of the terminal to queries that the library itself sent. This crate
//! holds the rules by which the two are told apart and shared out: the event
//! model, the filters that select what a consumer may observe, and the
//! dispatch state machine that awaits a matching event while keeping every
//! other event, in arrival order, for the next ordinary read.

pub mod dispatch;
pub mod event;
pub mod filter;
pub mod laws;
pub mod probe;
pub mod waker;
