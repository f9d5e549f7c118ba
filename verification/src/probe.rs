//! Capability probes: the queries that are written to the terminal, and what
//! the accepted reply says.

use crate::dispatch::ProbeOutcome;
use crate::event::{InternalEvent, KeyboardEnhancementFlags, SourceError};
use vstd::prelude::*;

verus! {

/// The query for the cursor's position: `ESC [ 6 n`.
pub open spec fn spec_cursor_position_query() -> Seq<u8> {
    seq![0x1b, 0x5b, 0x36, 0x6e]
}

/// The query for the enabled keyboard enhancements alone: `ESC [ ? u`.
pub open spec fn spec_enhancement_flags_query() -> Seq<u8> {
    seq![0x1b, 0x5b, 0x3f, 0x75]
}

/// The query for the primary device attributes: `ESC [ c`.
pub open spec fn spec_primary_device_attributes_query() -> Seq<u8> {
    seq![0x1b, 0x5b, 0x63]
}

/// The bytes that ask the terminal where the cursor is.
pub fn cursor_position_query() -> (bytes: Vec<u8>)
    ensures
        bytes@ == spec_cursor_position_query(),
{
    let bytes = vec![0x1bu8, 0x5bu8, 0x36u8, 0x6eu8];
    assert(bytes@ =~= spec_cursor_position_query());
    bytes
}

/// The bytes that ask the terminal for its primary device attributes.
pub fn primary_device_attributes_query() -> (bytes: Vec<u8>)
    ensures
        bytes@ == spec_primary_device_attributes_query(),
{
    let bytes = vec![0x1bu8, 0x5bu8, 0x63u8];
    assert(bytes@ =~= spec_primary_device_attributes_query());
    bytes
}

/// The bytes of a keyboard enhancement probe: the query for the enabled
/// enhancements, and right behind it the query for the primary device
/// attributes. A terminal that does not know the first still answers the
/// second, which ends the probe.
pub fn keyboard_enhancement_query() -> (bytes: Vec<u8>)
    ensures
        bytes@ == spec_enhancement_flags_query() + spec_primary_device_attributes_query(),
{
    let bytes = vec![0x1bu8, 0x5bu8, 0x3fu8, 0x75u8, 0x1bu8, 0x5bu8, 0x63u8];
    assert(bytes@ =~= spec_enhancement_flags_query() + spec_primary_device_attributes_query());
    bytes
}

/// What the result of a keyboard enhancement probe says of the terminal.
pub open spec fn spec_keyboard_enhancement(result: Result<InternalEvent, ProbeOutcome>) -> Result<
    Option<KeyboardEnhancementFlags>,
    ProbeOutcome,
> {
    match result {
        Ok(InternalEvent::KeyboardEnhancementFlags(flags)) => Ok(Some(flags)),
        Ok(_) => Ok(None),
        Err(outcome) => Err(outcome),
    }
}

/// Reads the result of a keyboard enhancement probe: the reported flags
/// where the terminal replied with them, and nothing where another reply
/// ended the probe, which is how a terminal without the enhancements
/// answers. A probe that ended without a reply says nothing of the terminal,
/// and its outcome is handed on.
pub fn keyboard_enhancement(result: Result<InternalEvent, ProbeOutcome>) -> (flags: Result<
    Option<KeyboardEnhancementFlags>,
    ProbeOutcome,
>)
    ensures
        flags == spec_keyboard_enhancement(result),
{
    match result {
        Ok(InternalEvent::KeyboardEnhancementFlags(flags)) => Ok(Some(flags)),
        Ok(_) => Ok(None),
        Err(outcome) => Err(outcome),
    }
}

/// Whether the terminal supports the keyboard enhancements, as far as the
/// result of a probe for them tells: it does exactly where the probe was
/// ended by the flags.
pub fn supports_keyboard_enhancement(result: Result<InternalEvent, ProbeOutcome>) -> (supported:
    Result<bool, ProbeOutcome>)
    ensures
        supported == (match result {
            Ok(reply) => Ok::<bool, ProbeOutcome>(reply is KeyboardEnhancementFlags),
            Err(outcome) => Err(outcome),
        }),
{
    match keyboard_enhancement(result) {
        Ok(flags) => Ok(flags.is_some()),
        Err(outcome) => Err(outcome),
    }
}

/// Reads the result of a cursor position probe: the column and row of the
/// reply. A probe that another reply ended has no position to give.
pub fn cursor_position(result: Result<InternalEvent, ProbeOutcome>) -> (position: Result<
    Option<(u16, u16)>,
    ProbeOutcome,
>)
    ensures
        position == (match result {
            Ok(InternalEvent::CursorPosition(column, row)) => Ok::<
                Option<(u16, u16)>,
                ProbeOutcome,
            >(Some((column, row))),
            Ok(_) => Ok(None),
            Err(outcome) => Err(outcome),
        }),
{
    match result {
        Ok(InternalEvent::CursorPosition(column, row)) => Ok(Some((column, row))),
        Ok(_) => Ok(None),
        Err(outcome) => Err(outcome),
    }
}

/// The failure of the raw source behind an outcome, if that is what ended
/// the invocation.
pub fn source_error(outcome: ProbeOutcome) -> (error: Option<SourceError>)
    ensures
        error == (match outcome {
            ProbeOutcome::SourceError(inner) => Some(inner),
            _ => None::<SourceError>,
        }),
{
    match outcome {
        ProbeOutcome::SourceError(inner) => Some(inner),
        _ => None,
    }
}

} // verus!
