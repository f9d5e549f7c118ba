//! The event model: what the decoder produces and what the dispatch core
//! hands on.

use vstd::prelude::*;

verus! {

/// A key press as the decoder reports it: the key's code and the modifier
/// keys held with it, as a bit set.
#[derive(Debug, Clone, Copy, PartialEq, Eq, Structural)]
pub struct KeyEvent {
    pub code: u32,
    pub modifiers: u8,
}

/// A mouse action: what happened, and the cell it happened in.
#[derive(Debug, Clone, Copy, PartialEq, Eq, Structural)]
pub struct MouseEvent {
    pub kind: u8,
    pub column: u16,
    pub row: u16,
    pub modifiers: u8,
}

/// An event that the application may observe.
#[derive(Debug, Clone, PartialEq, Eq)]
pub enum Event {
    /// The terminal gained focus.
    FocusGained,
    /// The terminal lost focus.
    FocusLost,
    /// A key was pressed.
    Key(KeyEvent),
    /// The mouse moved or a button changed.
    Mouse(MouseEvent),
    /// Text was pasted as one unit.
    Paste(String),
    /// The terminal was resized to the given number of columns and rows.
    Resize(u16, u16),
}

/// The capability bit set that a terminal reports for the progressive
/// keyboard enhancement protocol.
#[derive(Debug, Clone, Copy, PartialEq, Eq, Structural)]
pub struct KeyboardEnhancementFlags(u8);

/// The bits that carry a meaning; every other bit of a report is dropped.
pub const KNOWN_ENHANCEMENT_BITS: u8 = 0x0f;

impl KeyboardEnhancementFlags {
    /// Escape codes are sent for keys that would otherwise be ambiguous.
    #[allow(non_snake_case)]
    pub fn DISAMBIGUATE_ESCAPE_CODES() -> (flags: Self)
        ensures
            flags@ == 0x01,
            flags.wf(),
    {
        assert(0x01u8 & !0x0fu8 == 0) by (bit_vector);
        KeyboardEnhancementFlags(0x01)
    }

    /// Key repeat and release are reported besides key press.
    #[allow(non_snake_case)]
    pub fn REPORT_EVENT_TYPES() -> (flags: Self)
        ensures
            flags@ == 0x02,
            flags.wf(),
    {
        assert(0x02u8 & !0x0fu8 == 0) by (bit_vector);
        KeyboardEnhancementFlags(0x02)
    }

    /// Alternate key codes are reported besides the base key code.
    #[allow(non_snake_case)]
    pub fn REPORT_ALTERNATE_KEYS() -> (flags: Self)
        ensures
            flags@ == 0x04,
            flags.wf(),
    {
        assert(0x04u8 & !0x0fu8 == 0) by (bit_vector);
        KeyboardEnhancementFlags(0x04)
    }

    /// Every key is reported as an escape code, plain text keys included.
    #[allow(non_snake_case)]
    pub fn REPORT_ALL_KEYS_AS_ESCAPE_CODES() -> (flags: Self)
        ensures
            flags@ == 0x08,
            flags.wf(),
    {
        assert(0x08u8 & !0x0fu8 == 0) by (bit_vector);
        KeyboardEnhancementFlags(0x08)
    }

    /// The bit set as a number.
    pub closed spec fn view(&self) -> u8 {
        self.0
    }

    /// Every value holds known bits only.
    pub open spec fn wf(&self) -> bool {
        self@ & !KNOWN_ENHANCEMENT_BITS == 0
    }

    /// The set with no capability in it.
    pub fn empty() -> (flags: Self)
        ensures
            flags@ == 0,
            flags.wf(),
    {
        assert(0u8 & !0x0fu8 == 0) by (bit_vector);
        KeyboardEnhancementFlags(0)
    }

    /// The set that a reported number stands for: its known bits.
    pub fn from_bits_truncate(bits: u8) -> (flags: Self)
        ensures
            flags@ == bits & KNOWN_ENHANCEMENT_BITS,
            flags.wf(),
    {
        assert((bits & 0x0fu8) & !0x0fu8 == 0) by (bit_vector);
        KeyboardEnhancementFlags(bits & KNOWN_ENHANCEMENT_BITS)
    }

    /// The set as a number.
    pub fn bits(&self) -> (bits: u8)
        ensures
            bits == self@,
    {
        self.0
    }

    /// Whether every capability of `other` is in this set.
    pub fn contains(&self, other: KeyboardEnhancementFlags) -> (held: bool)
        ensures
            held == (self@ & other@ == other@),
    {
        self.0 & other.0 == other.0
    }

    /// The capabilities of both sets.
    pub fn union(self, other: KeyboardEnhancementFlags) -> (both: Self)
        ensures
            both@ == self@ | other@,
            self.wf() && other.wf() ==> both.wf(),
    {
        let (a, b): (u8, u8) = (self.0, other.0);
        assert(a & !0x0fu8 == 0 && b & !0x0fu8 == 0 ==> (a | b) & !0x0fu8 == 0) by (bit_vector);
        KeyboardEnhancementFlags(self.0 | other.0)
    }
}

/// A failure of the raw input channel, by the code that the operating system
/// gave for it.
#[derive(Debug, Clone, Copy, PartialEq, Eq, Structural)]
pub struct SourceError {
    pub code: i32,
}

/// One decoded unit of the raw input stream: an event for the application, or
/// the terminal's reply to a query.
#[derive(Debug, Clone, PartialEq, Eq)]
pub enum InternalEvent {
    /// An event that the application may observe.
    Event(Event),
    /// The cursor's column and row, in reply to a cursor position query.
    CursorPosition(u16, u16),
    /// The enabled keyboard enhancements, in reply to a query for them.
    KeyboardEnhancementFlags(KeyboardEnhancementFlags),
    /// The reply to a primary device attributes query. Every terminal sends
    /// it, so where it arrives before any reply to a query sent ahead of it,
    /// the terminal does not know that query.
    PrimaryDeviceAttributes,
}

impl InternalEvent {
    /// Whether the unit is a reply to a query, which no application may see.
    pub open spec fn is_reply(&self) -> bool {
        !(self is Event)
    }
}

} // verus!
