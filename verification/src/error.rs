//! What can go wrong in a call of the machine.

use vstd::prelude::*;

verus! {

/// A failed access to a line. `PE` is what a failed write of an output line
/// reports, `BE` what a failed read of the button reports.
#[derive(Debug, Copy, Clone, PartialEq, Eq)]
pub enum StateMachineError<PE, BE> {
    /// Writing one output line failed.
    PinError(PE),
    /// Reading the button failed.
    ButtonError(BE),
}

} // verus!
