//! What holds of every machine, proved from the transition rules.

use vstd::prelude::*;

use crate::config::{lemma_valid_config_bounds, two_to};
use crate::display::{bank_value, lemma_pattern_reads_as_value, shown_value};
use crate::machine::MachineView;
use crate::state::State;

verus! {

/// A tick is a function of the state, the counter and the button level: two
/// machines of one configuration that agree on state and counter agree after
/// the tick, whatever their lines held before.
pub proof fn lemma_tick_depends_on_state_counter_button(
    a: MachineView,
    b: MachineView,
    pressed: bool,
)
    requires
        a.wf(),
        b.wf(),
        a.bits() == b.bits(),
        a.ticks_per_increment == b.ticks_per_increment,
        a.state == b.state,
        a.counter == b.counter,
    ensures
        a.after_tick(pressed) == b.after_tick(pressed),
{
}

/// A button edge is a function of the state, the counter and the button
/// level: two machines of one configuration that agree on state and counter
/// agree after the edge, whatever their lines held before.
pub proof fn lemma_edge_depends_on_state_counter_button(
    a: MachineView,
    b: MachineView,
    pressed: bool,
)
    requires
        a.wf(),
        b.wf(),
        a.bits() == b.bits(),
        a.ticks_per_increment == b.ticks_per_increment,
        a.state == b.state,
        a.counter == b.counter,
    ensures
        a.after_edge(pressed) == b.after_edge(pressed),
{
}

/// The counter never exceeds its bound: a tick and a button edge take a
/// well-formed machine to a well-formed machine.
pub proof fn lemma_counter_stays_within_bound(m: MachineView, pressed: bool)
    requires
        m.wf(),
    ensures
        m.after_tick(pressed).wf(),
        m.after_tick(pressed).counter <= m.max_tick(),
        m.after_edge(pressed).wf(),
        m.after_edge(pressed).counter <= m.max_tick(),
{
}

/// The counter wraps: the tick after the bound, on a running machine with
/// the button released, brings it to 0.
pub proof fn lemma_counter_wraps_to_zero(m: MachineView)
    requires
        m.wf(),
        m.state == State::Running,
        m.counter == m.max_tick(),
    ensures
        m.after_tick(false).counter == 0,
        m.after_tick(false).state == State::Running,
{
}

/// Below the bound, a tick on a running machine with the button released
/// adds one.
pub proof fn lemma_counter_advances_by_one(m: MachineView)
    requires
        m.wf(),
        m.state == State::Running,
        m.counter < m.max_tick(),
    ensures
        m.after_tick(false).counter == m.counter + 1,
        m.after_tick(false).state == State::Running,
{
}

/// After a tick or a button edge the bank holds the display of the new
/// state and counter.
pub proof fn lemma_bank_holds_display(m: MachineView, pressed: bool)
    requires
        m.wf(),
    ensures
        m.after_tick(pressed).levels == m.after_tick(pressed).display(),
        m.after_edge(pressed).levels == m.after_edge(pressed).display(),
        m.after_tick(pressed).levels.len() == m.bits(),
        m.after_edge(pressed).levels.len() == m.bits(),
{
}

/// The display reads as the counter in whole visible steps, and every such
/// number fits on the lines.
pub proof fn lemma_display_reads_as_counter_in_steps(m: MachineView)
    requires
        m.wf(),
    ensures
        bank_value(m.display()) == m.counter / m.ticks_per_increment,
        m.counter / m.ticks_per_increment < two_to(m.bits()),
{
    let span = two_to(m.bits()) as int;
    let ticks = m.ticks_per_increment as int;
    let counter = m.counter as int;
    lemma_valid_config_bounds(m.bits(), m.ticks_per_increment);
    assert(counter / ticks < span) by (nonlinear_arith)
        requires
            0 <= counter <= span * ticks - 1,
            ticks >= 1,
            span >= 1,
    ;
    lemma_pattern_reads_as_value(shown_value(m.counter, m.ticks_per_increment), m.bits());
    vstd::arithmetic::div_mod::lemma_small_mod((counter / ticks) as nat, span as nat);
}

/// A press on a running machine pauses it and leaves the counter as it is,
/// on a tick and on a button edge.
pub proof fn lemma_press_pauses_and_keeps_counter(m: MachineView)
    requires
        m.wf(),
        m.state == State::Running,
    ensures
        m.after_tick(true).state == State::Paused,
        m.after_tick(true).counter == m.counter,
        m.after_edge(true).state == State::Paused,
        m.after_edge(true).counter == m.counter,
{
}

/// A release on a paused machine resumes it at the counter it stopped at,
/// on a tick and on a button edge.
pub proof fn lemma_release_resumes_at_same_counter(m: MachineView)
    requires
        m.wf(),
        m.state == State::Paused,
    ensures
        m.after_tick(false).state == State::Running,
        m.after_tick(false).counter == m.counter,
        m.after_edge(false).state == State::Running,
        m.after_edge(false).counter == m.counter,
{
}

/// A button edge goes by the level, not by the number of edges: a second
/// edge at the same level changes nothing.
pub proof fn lemma_edge_is_idempotent(m: MachineView, pressed: bool)
    requires
        m.wf(),
    ensures
        m.after_edge(pressed).after_edge(pressed) == m.after_edge(pressed),
{
}

} // verus!
