//! The transition rules: what a timer tick and a button edge do to the state
//! and the counter.
//!
//! | Current | Button   | Next    | Counter                  |
//! |---------|----------|---------|--------------------------|
//! | Paused  | pressed  | Paused  | unchanged                |
//! | Paused  | released | Running | unchanged                |
//! | Running | pressed  | Paused  | unchanged                |
//! | Running | released | Running | plus one, wrapping to 0  |

use vstd::prelude::*;

use crate::state::State;

verus! {

/// The state after a tick.
pub open spec fn state_after_tick(state: State, pressed: bool) -> State {
    match (state, pressed) {
        (State::Paused, true) => State::Paused,
        (State::Paused, false) => State::Running,
        (State::Running, true) => State::Paused,
        (State::Running, false) => State::Running,
    }
}

/// The counter after a tick. It moves only while the machine is running and
/// the button is released; one past `max_tick` is 0.
pub open spec fn counter_after_tick(state: State, counter: nat, pressed: bool, max_tick: nat) -> nat {
    match (state, pressed) {
        (State::Running, false) => if counter == max_tick {
            0
        } else {
            counter + 1
        },
        _ => counter,
    }
}

/// The state after a button edge: a press pauses at once, a release resumes
/// a paused machine and leaves a running one alone.
pub open spec fn state_after_edge(state: State, pressed: bool) -> State {
    if pressed {
        State::Paused
    } else {
        match state {
            State::Paused => State::Running,
            State::Running => State::Running,
        }
    }
}

/// Applies the tick rule to a state and a counter.
pub fn step_on_tick(state: State, counter: u8, pressed: bool, max_tick: u8) -> (next: (State, u8))
    requires
        counter <= max_tick,
    ensures
        next.0 == state_after_tick(state, pressed),
        next.1 == counter_after_tick(state, counter as nat, pressed, max_tick as nat),
        next.1 <= max_tick,
{
    match state {
        State::Paused => if !pressed {
            (State::Running, counter)
        } else {
            (State::Paused, counter)
        },
        State::Running => if pressed {
            (State::Paused, counter)
        } else {
            let counter = if counter == max_tick {
                0
            } else {
                counter + 1
            };
            (State::Running, counter)
        },
    }
}

/// Applies the edge rule to a state.
pub fn step_on_edge(state: State, pressed: bool) -> (next: State)
    ensures
        next == state_after_edge(state, pressed),
{
    if pressed {
        State::Paused
    } else {
        match state {
            State::Paused => State::Running,
            State::Running => State::Running,
        }
    }
}

} // verus!
