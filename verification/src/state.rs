//! The modes of the machine.

use vstd::prelude::*;

verus! {

/// The mode the machine is in. The two modes exclude each other.
#[derive(Clone, Copy, Debug, PartialEq, Eq, Structural)]
pub enum State {
    /// The counter is frozen.
    Paused,
    /// The counter advances by one on every tick.
    Running,
}

impl State {
    /// The name under which a mode appears in diagnostic output.
    pub open spec fn name_text(self) -> Seq<char> {
        match self {
            State::Paused => "Paused"@,
            State::Running => "Running"@,
        }
    }

    /// The name under which this mode appears in diagnostic output.
    pub fn name(&self) -> (r: &'static str)
        ensures
            r@ == self.name_text(),
    {
        match self {
            State::Paused => "Paused",
            State::Running => "Running",
        }
    }
}

} // verus!
