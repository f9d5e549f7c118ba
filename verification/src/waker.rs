//! The wake signal: a poke that stays raised until a wait has seen it.

use vstd::prelude::*;

verus! {

/// A signal that interrupts a wait on the raw source. It holds no count:
/// raised any number of times, it is seen once, and it stays raised until it
/// is seen, so a wake-up that comes before the wait begins is not lost.
#[derive(Debug)]
pub struct WakeSignal {
    raised: bool,
}

impl WakeSignal {
    /// Whether a wake-up is waiting to be seen.
    pub closed spec fn view(&self) -> bool {
        self.raised
    }

    /// A signal that nobody has raised.
    pub fn new() -> (signal: Self)
        ensures
            !signal@,
    {
        WakeSignal { raised: false }
    }

    /// Raises the signal, whether or not it was raised already.
    pub fn wake(&mut self)
        ensures
            final(self)@,
    {
        self.raised = true;
    }

    /// Whether a wake-up is waiting to be seen.
    pub fn is_raised(&self) -> (raised: bool)
        ensures
            raised == self@,
    {
        self.raised
    }

    /// Sees the signal: says whether it was raised, and lowers it.
    pub fn take(&mut self) -> (woken: bool)
        ensures
            woken == old(self)@,
            !final(self)@,
    {
        let woken = self.raised;
        self.raised = false;
        woken
    }
}

} // verus!
