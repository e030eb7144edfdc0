//! The state machine: a state, a counter and the bank of output lines.
//!
//! The machine never touches a line itself. Each call takes the button level
//! that the caller has just sampled, and a callback `write(line, high)` that
//! drives one line and reports whether that worked. The machine keeps the
//! levels that were written without a fault, so that it always knows what
//! the bank holds.
//!
//! The callback is called through a shared reference: a caller that drives
//! real lines keeps them in a `RefCell`. A call of the machine takes `&mut
//! self`, so two calls never overlap; a caller that shares the machine
//! between an interrupt and a main loop wraps each call in a section that
//! masks interrupts.

use vstd::prelude::*;

use crate::config::{lemma_valid_config_bounds, max_tick, max_tick_for, valid_config};
use crate::console::{diagnostic_line, diagnostic_text};
use crate::display::{display, line_level, pattern, shown};
use crate::error::StateMachineError;
use crate::state::State;
use crate::transition::{
    counter_after_tick, state_after_edge, state_after_tick, step_on_edge, step_on_tick,
};

verus! {

/// A machine as a mathematical value.
pub struct MachineView {
    /// The mode.
    pub state: State,
    /// The tick counter.
    pub counter: nat,
    /// How many ticks make one visible step.
    pub ticks_per_increment: nat,
    /// The level of each output line, line 0 first.
    pub levels: Seq<bool>,
}

impl MachineView {
    /// The number of output lines.
    pub open spec fn bits(self) -> nat {
        self.levels.len()
    }

    /// The largest value the counter takes.
    pub open spec fn max_tick(self) -> int {
        max_tick(self.bits(), self.ticks_per_increment)
    }

    /// The configuration is usable and the counter is within its bound.
    pub open spec fn wf(self) -> bool {
        &&& valid_config(self.bits(), self.ticks_per_increment)
        &&& self.counter <= self.max_tick()
    }

    /// The levels that the bank should hold for this state and counter.
    pub open spec fn display(self) -> Seq<bool> {
        display(self.state, self.counter, self.ticks_per_increment, self.bits())
    }

    /// The same machine with other levels on its lines.
    pub open spec fn with_levels(self, levels: Seq<bool>) -> MachineView {
        MachineView { levels, ..self }
    }

    /// The tick rule applied to state and counter; the lines are not yet
    /// driven.
    pub open spec fn stepped_by_tick(self, pressed: bool) -> MachineView {
        MachineView {
            state: state_after_tick(self.state, pressed),
            counter: counter_after_tick(self.state, self.counter, pressed, self.max_tick() as nat),
            ..self
        }
    }

    /// The edge rule applied to the state; the lines are not yet driven.
    pub open spec fn stepped_by_edge(self, pressed: bool) -> MachineView {
        MachineView { state: state_after_edge(self.state, pressed), ..self }
    }

    /// The machine after a tick that drove every line.
    pub open spec fn after_tick(self, pressed: bool) -> MachineView {
        let stepped = self.stepped_by_tick(pressed);
        stepped.with_levels(stepped.display())
    }

    /// The machine after a button edge that drove every line.
    pub open spec fn after_edge(self, pressed: bool) -> MachineView {
        let stepped = self.stepped_by_edge(pressed);
        stepped.with_levels(stepped.display())
    }
}

/// The first `k` lines were driven to their level in `target`, each without
/// a fault.
pub open spec fn lines_written<W: Fn(usize, bool) -> Result<(), PE>, PE>(
    write: &W,
    target: Seq<bool>,
    k: int,
) -> bool {
    forall|i: int| 0 <= i < k ==> call_ensures(write, (i as usize, #[trigger] target[i]), Ok(()))
}

/// What a pass over the bank leaves behind. The lines are driven in order,
/// each to its level in `target`. Either all of them took their level, or
/// the pass stopped at the first line whose write failed: the lines before
/// it hold their new level, that line and those after it hold what they held
/// before, and the fault of that line is the one reported.
pub open spec fn bank_written<W: Fn(usize, bool) -> Result<(), PE>, PE>(
    write: &W,
    before: Seq<bool>,
    target: Seq<bool>,
    after: Seq<bool>,
    r: Result<(), PE>,
) -> bool {
    match r {
        Ok(()) => lines_written(write, target, target.len() as int) && after == target,
        Err(e) => exists|k: int|
            {
                &&& 0 <= k < target.len()
                &&& lines_written(write, target, k)
                &&& #[trigger] call_ensures(write, (k as usize, target[k]), Err(e))
                &&& after == target.subrange(0, k) + before.subrange(k, before.len() as int)
            },
    }
}

/// State machine that controls the output lines.
///
/// It shows the counter on `BITS` lines and advances it by one visible step
/// every `ticks_per_increment` ticks. While the button is pressed it pauses.
#[derive(Debug)]
pub struct StateMachine<const BITS: usize> {
    state: State,
    pins: [bool; BITS],
    cnt: u8,
    ticks_per_increment: u8,
    max_tick: u8,
}

impl<const BITS: usize> View for StateMachine<BITS> {
    type V = MachineView;

    closed spec fn view(&self) -> MachineView {
        MachineView {
            state: self.state,
            counter: self.cnt as nat,
            ticks_per_increment: self.ticks_per_increment as nat,
            levels: self.pins@,
        }
    }
}

impl<const BITS: usize> StateMachine<BITS> {
    /// The wrap point that the machine computed when it was made.
    pub closed spec fn wrap_point(&self) -> nat {
        self.max_tick as nat
    }

    /// The machine has `BITS` lines, a usable configuration, a counter
    /// within its bound, and the wrap point that belongs to its
    /// configuration.
    pub open spec fn wf(&self) -> bool {
        &&& self@.levels.len() == BITS
        &&& self@.wf()
        &&& self.wrap_point() == self@.max_tick()
    }

    /// Whether a machine with `BITS` lines can count `ticks_per_increment`
    /// ticks for each visible step.
    pub fn supports(ticks_per_increment: u8) -> (ok: bool)
        ensures
            ok == valid_config(BITS as nat, ticks_per_increment as nat),
    {
        max_tick_for(BITS, ticks_per_increment).is_some()
    }

    /// Creates a new state machine: paused, with the counter at 0.
    ///
    /// `pins` holds the level of each output line at this moment; the
    /// machine does not drive a line before its first tick or button edge.
    /// [`StateMachine::supports`] tells at run time whether the
    /// configuration is usable.
    pub fn new(pins: [bool; BITS], ticks_per_increment: u8) -> (machine: Self)
        requires
            valid_config(BITS as nat, ticks_per_increment as nat),
        ensures
            machine.wf(),
            machine@ == (MachineView {
                state: State::Paused,
                counter: 0,
                ticks_per_increment: ticks_per_increment as nat,
                levels: pins@,
            }),
    {
        let max_tick = max_tick_for(BITS, ticks_per_increment).unwrap();
        Self { state: State::Paused, pins, cnt: 0, ticks_per_increment, max_tick }
    }

    /// The mode the machine is in.
    pub fn state(&self) -> (state: State)
        ensures
            state == self@.state,
    {
        self.state
    }

    /// The tick counter.
    pub fn counter(&self) -> (counter: u8)
        ensures
            counter == self@.counter,
    {
        self.cnt
    }

    /// How many ticks make one visible step.
    pub fn ticks_per_increment(&self) -> (ticks: u8)
        ensures
            ticks == self@.ticks_per_increment,
    {
        self.ticks_per_increment
    }

    /// The largest value the counter takes.
    pub fn max_tick(&self) -> (max: u8)
        requires
            self.wf(),
        ensures
            max == self@.max_tick(),
    {
        self.max_tick
    }

    /// The levels that the bank holds, line 0 first.
    pub fn levels(&self) -> (levels: [bool; BITS])
        ensures
            levels@ == self@.levels,
    {
        self.pins
    }

    /// Ticks the state machine: applies the tick rule to the button level,
    /// drives the lines, and returns the diagnostic line of this tick.
    ///
    /// A failed button read is handed back and changes nothing. A failed
    /// line write is handed back after the state and the counter have
    /// moved.
    pub fn tick<W, PE, BE>(&mut self, btn: Result<bool, BE>, write: &W) -> (r: Result<
        String,
        StateMachineError<PE, BE>,
    >) where W: Fn(usize, bool) -> Result<(), PE>
        requires
            old(self).wf(),
            forall|line: usize, high: bool| line < BITS ==> call_requires(write, (line, high)),
        ensures
            final(self).wf(),
            match btn {
                Err(e) => r == Err::<String, StateMachineError<PE, BE>>(
                    StateMachineError::ButtonError(e),
                ) && final(self)@ == old(self)@,
                Ok(pressed) => {
                    let stepped = old(self)@.stepped_by_tick(pressed);
                    &&& final(self)@ == stepped.with_levels(final(self)@.levels)
                    &&& match r {
                        Ok(line) => {
                            &&& bank_written(
                                write,
                                stepped.levels,
                                stepped.display(),
                                final(self)@.levels,
                                Ok(()),
                            )
                            &&& final(self)@ == old(self)@.after_tick(pressed)
                            &&& line@ == diagnostic_text(pressed, stepped.counter, stepped.state)
                        },
                        Err(StateMachineError::PinError(e)) => bank_written(
                            write,
                            stepped.levels,
                            stepped.display(),
                            final(self)@.levels,
                            Err(e),
                        ),
                        Err(StateMachineError::ButtonError(_)) => false,
                    }
                },
            },
    {
        let pressed = match btn {
            Ok(pressed) => pressed,
            Err(e) => {
                return Err(StateMachineError::ButtonError(e));
            },
        };

        // Transitions
        let (state, cnt) = step_on_tick(self.state, self.cnt, pressed, self.max_tick);
        self.state = state;
        self.cnt = cnt;

        // Actions
        match self.actions(write) {
            Ok(()) => {},
            Err(e) => {
                return Err(StateMachineError::PinError(e));
            },
        }

        Ok(diagnostic_line(pressed, self.cnt, self.state))
    }

    /// Brings the bank in line with the state and the counter.
    pub fn actions<W, PE>(&mut self, write: &W) -> (r: Result<(), PE>) where
        W: Fn(usize, bool) -> Result<(), PE>,

        requires
            old(self).wf(),
            forall|line: usize, high: bool| line < BITS ==> call_requires(write, (line, high)),
        ensures
            final(self).wf(),
            final(self)@ == old(self)@.with_levels(final(self)@.levels),
            bank_written(write, old(self)@.levels, old(self)@.display(), final(self)@.levels, r),
    {
        match self.state {
            State::Paused | State::Running => self.set_pins(
                shown(self.cnt, self.ticks_per_increment),
                write,
            ),
        }
    }

    /// Drives the lines to show `n`: line `i` gets bit `i`. Stops at the
    /// first line that cannot be written.
    pub fn set_pins<W, PE>(&mut self, n: u8, write: &W) -> (r: Result<(), PE>) where
        W: Fn(usize, bool) -> Result<(), PE>,

        requires
            old(self).wf(),
            forall|line: usize, high: bool| line < BITS ==> call_requires(write, (line, high)),
        ensures
            final(self).wf(),
            final(self)@ == old(self)@.with_levels(final(self)@.levels),
            bank_written(
                write,
                old(self)@.levels,
                pattern(n as nat, BITS as nat),
                final(self)@.levels,
                r,
            ),
    {
        let ghost before = self@;
        let ghost target = pattern(n as nat, BITS as nat);
        proof {
            lemma_valid_config_bounds(BITS as nat, self.ticks_per_increment as nat);
        }
        let mut i: usize = 0;
        while i < BITS
            invariant
                i <= BITS <= 8,
                before == old(self)@,
                before.levels.len() == BITS,
                target == pattern(n as nat, BITS as nat),
                forall|line: usize, high: bool| line < BITS ==> call_requires(write, (line, high)),
                self.wf(),
                self@ == before.with_levels(self@.levels),
                self@.levels == target.subrange(0, i as int) + before.levels.subrange(
                    i as int,
                    BITS as int,
                ),
                lines_written(write, target, i as int),
            decreases BITS - i,
        {
            let high = line_level(n, i);
            assert(target[i as int] == high);
            match write(i, high) {
                Ok(done) => {
                    assert(done == ());
                    assert(call_ensures(write, (i, target[i as int]), Ok(())));
                },
                Err(e) => {
                    proof {
                        let k = i as int;
                        assert(call_ensures(write, (k as usize, target[k]), Err(e)));
                        assert(self@.levels == target.subrange(0, k) + before.levels.subrange(
                            k,
                            before.levels.len() as int,
                        ));
                    }
                    return Err(e);
                },
            }
            self.pins[i] = high;
            proof {
                assert(self@.levels =~= target.subrange(0, i + 1) + before.levels.subrange(
                    i + 1,
                    BITS as int,
                ));
            }
            i = i + 1;
        }
        proof {
            assert(self@.levels =~= target);
        }
        Ok(())
    }

    /// Handles a button edge: applies the edge rule to the button level and
    /// drives the lines. The counter stays as it is.
    ///
    /// A failed button read is handed back and changes nothing. A failed
    /// line write is handed back after the state has moved. After `Ok` the
    /// caller acknowledges the edge to the hardware, once and as its last
    /// step.
    pub fn handle_btn_interrupt<W, PE, BE>(&mut self, btn: Result<bool, BE>, write: &W) -> (r:
        Result<(), StateMachineError<PE, BE>>) where W: Fn(usize, bool) -> Result<(), PE>
        requires
            old(self).wf(),
            forall|line: usize, high: bool| line < BITS ==> call_requires(write, (line, high)),
        ensures
            final(self).wf(),
            match btn {
                Err(e) => r == Err::<(), StateMachineError<PE, BE>>(
                    StateMachineError::ButtonError(e),
                ) && final(self)@ == old(self)@,
                Ok(pressed) => {
                    let stepped = old(self)@.stepped_by_edge(pressed);
                    &&& final(self)@ == stepped.with_levels(final(self)@.levels)
                    &&& match r {
                        Ok(()) => {
                            &&& bank_written(
                                write,
                                stepped.levels,
                                stepped.display(),
                                final(self)@.levels,
                                Ok(()),
                            )
                            &&& final(self)@ == old(self)@.after_edge(pressed)
                        },
                        Err(StateMachineError::PinError(e)) => bank_written(
                            write,
                            stepped.levels,
                            stepped.display(),
                            final(self)@.levels,
                            Err(e),
                        ),
                        Err(StateMachineError::ButtonError(_)) => false,
                    }
                },
            },
    {
        let pressed = match btn {
            Ok(pressed) => pressed,
            Err(e) => {
                return Err(StateMachineError::ButtonError(e));
            },
        };

        self.state = step_on_edge(self.state, pressed);

        match self.actions(write) {
            Ok(()) => Ok(()),
            Err(e) => Err(StateMachineError::PinError(e)),
        }
    }
}

} // verus!
