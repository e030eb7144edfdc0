//! The hand-off from the timer interrupt to the main loop: one flag that
//! says "the timer has fired".
//!
//! The interrupt sets the flag, the main loop tests and clears it. Two
//! firings before the main loop looks are taken as one. The channel is used
//! through `&mut`, so the caller holds it exclusively for each access, as a
//! section that masks interrupts does.

use vstd::prelude::*;

verus! {

/// The "timer fired" flag.
#[derive(Debug)]
pub struct SignalChannel {
    pending: bool,
}

impl View for SignalChannel {
    type V = bool;

    /// Whether a tick is pending.
    closed spec fn view(&self) -> bool {
        self.pending
    }
}

impl SignalChannel {
    /// A channel with nothing pending.
    pub fn new() -> (channel: Self)
        ensures
            !channel@,
    {
        Self { pending: false }
    }

    /// Marks a tick as pending. Called by the timer interrupt.
    pub fn signal(&mut self)
        ensures
            final(self)@,
    {
        self.pending = true;
    }

    /// Whether a tick is pending. The main loop waits on this.
    pub fn is_pending(&self) -> (pending: bool)
        ensures
            pending == self@,
    {
        self.pending
    }

    /// Tests and clears the flag in one step, and says whether it was set.
    /// Called by the main loop.
    pub fn consume_if_pending(&mut self) -> (was_pending: bool)
        ensures
            was_pending == old(self)@,
            !final(self)@,
    {
        let was_pending = self.pending;
        self.pending = false;
        was_pending
    }
}

} // verus!
