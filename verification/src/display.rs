//! What the output lines show: the counter, slowed down, in binary.

use vstd::arithmetic::div_mod::lemma_mod_breakdown;
use vstd::arithmetic::power2::{lemma_pow2_pos, lemma_pow2_unfold, pow2};
use vstd::bits::lemma_u8_shr_is_div;
use vstd::prelude::*;

use crate::config::{lemma_two_to_is_pow2, two_to};
use crate::state::State;

verus! {

/// Bit `i` of `value`, counted from the least significant one.
pub open spec fn bit(value: nat, i: nat) -> bool {
    (value / two_to(i)) % 2 == 1
}

/// The number on display: the counter in units of whole visible steps.
pub open spec fn shown_value(counter: nat, ticks_per_increment: nat) -> nat {
    counter / ticks_per_increment
}

/// The levels of `bits` lines that show `value`: line `i` carries bit `i`.
pub open spec fn pattern(value: nat, bits: nat) -> Seq<bool> {
    Seq::new(bits, |i: int| bit(value, i as nat))
}

/// The levels that the bank holds for a state and a counter. Both modes show
/// the counter: a paused machine keeps its last value on display.
pub open spec fn display(state: State, counter: nat, ticks_per_increment: nat, bits: nat) -> Seq<
    bool,
> {
    match state {
        State::Paused | State::Running => pattern(shown_value(counter, ticks_per_increment), bits),
    }
}

/// The number that a bank of lines reads as: line `i` weighs 2^i.
pub open spec fn bank_value(levels: Seq<bool>) -> nat
    decreases levels.len(),
{
    if levels.len() == 0 {
        0
    } else {
        bank_value(levels.drop_last()) + if levels.last() {
            two_to((levels.len() - 1) as nat)
        } else {
            0
        }
    }
}

/// A bank that shows `value` on `bits` lines reads as `value`, cut to `bits`
/// binary digits.
pub proof fn lemma_pattern_reads_as_value(value: nat, bits: nat)
    ensures
        bank_value(pattern(value, bits)) == value % two_to(bits),
    decreases bits,
{
    lemma_pow2_pos(bits);
    lemma_two_to_is_pow2(bits);
    if bits > 0 {
        let lower = (bits - 1) as nat;
        lemma_two_to_is_pow2(lower);
        lemma_pattern_reads_as_value(value, lower);
        assert(pattern(value, bits).drop_last() =~= pattern(value, lower));
        assert(pattern(value, bits).last() == bit(value, lower));
        lemma_pow2_pos(lower);
        lemma_pow2_unfold(bits);
        lemma_mod_breakdown(value as int, pow2(lower) as int, 2);
        assert(pow2(bits) == pow2(lower) * 2);
        let top = (value / pow2(lower)) % 2;
        assert(top == 0 || top == 1);
        assert(pow2(lower) * top == if bit(value, lower) {
            pow2(lower)
        } else {
            0
        }) by (nonlinear_arith)
            requires
                top == 0 || top == 1,
                bit(value, lower) == (top == 1),
        ;
    }
}

/// The level of line `line` when `value` is on display.
pub fn line_level(value: u8, line: usize) -> (high: bool)
    requires
        line < 8,
    ensures
        high == bit(value as nat, line as nat),
{
    let shift: u8 = line as u8;
    let low: u8 = (value >> shift) & 1;
    proof {
        lemma_u8_shr_is_div(value, shift);
        lemma_two_to_is_pow2(shift as nat);
        let shifted: u8 = value >> shift;
        assert(shifted & 1 == shifted % 2) by (bit_vector);
    }
    low == 1
}

/// The number on display for a counter value.
pub fn shown(counter: u8, ticks_per_increment: u8) -> (value: u8)
    requires
        ticks_per_increment >= 1,
    ensures
        value == shown_value(counter as nat, ticks_per_increment as nat),
{
    counter / ticks_per_increment
}

} // verus!
