//! Sizing of the counter: how many ticks make one visible step, and where the
//! counter wraps.

use vstd::arithmetic::power2::{
    lemma2_to64, lemma_pow2_pos, lemma_pow2_strictly_increases, lemma_pow2_unfold, pow2,
};
use vstd::prelude::*;

verus! {

/// How long the display holds one value, in milliseconds.
pub const COUNT_DURATION_MS: u32 = 500;

/// 2 to the power `e`: the number of values that `e` lines can show. The
/// powers that a byte can hold, and the first one it cannot, are written
/// out, so that a configuration given in numbers needs no proof.
pub open spec fn two_to(e: nat) -> nat {
    if e == 0 {
        1
    } else if e == 1 {
        2
    } else if e == 2 {
        4
    } else if e == 3 {
        8
    } else if e == 4 {
        16
    } else if e == 5 {
        32
    } else if e == 6 {
        64
    } else if e == 7 {
        128
    } else if e == 8 {
        256
    } else {
        pow2(e)
    }
}

/// `two_to` is the power of 2.
pub proof fn lemma_two_to_is_pow2(e: nat)
    ensures
        two_to(e) == pow2(e),
{
    lemma2_to64();
}

/// The largest value the counter takes: one full cycle of the display, less
/// one tick.
pub open spec fn max_tick(bits: nat, ticks_per_increment: nat) -> int {
    two_to(bits) * ticks_per_increment - 1
}

/// A configuration is usable when there is at least one line, at least one
/// tick per visible step, and the counter fits in a byte.
pub open spec fn valid_config(bits: nat, ticks_per_increment: nat) -> bool {
    &&& bits >= 1
    &&& ticks_per_increment >= 1
    &&& max_tick(bits, ticks_per_increment) <= u8::MAX
}

/// How many timer periods fit in one visible step, if that number is at
/// least 1 and fits in a byte. A remainder is dropped.
pub open spec fn ticks_per_increment_spec(step_ms: nat, period_ms: nat) -> Option<u8> {
    if period_ms != 0 && 1 <= step_ms / period_ms <= u8::MAX {
        Some((step_ms / period_ms) as u8)
    } else {
        None
    }
}

/// Every usable configuration has at most 8 lines.
pub proof fn lemma_valid_config_bounds(bits: nat, ticks_per_increment: nat)
    requires
        valid_config(bits, ticks_per_increment),
    ensures
        bits <= 8,
        two_to(bits) <= 256,
        0 <= max_tick(bits, ticks_per_increment) <= u8::MAX,
{
    lemma2_to64();
    lemma_two_to_is_pow2(bits);
    let p = pow2(bits) as int;
    let t = ticks_per_increment as int;
    if bits > 8 {
        lemma_pow2_strictly_increases(8, bits);
    }
    lemma_pow2_pos(bits);
    assert(p * t >= p) by (nonlinear_arith)
        requires
            t >= 1,
            p >= 0,
    ;
}

/// Divides the visible step by the timer period.
pub fn ticks_per_increment(step_ms: u32, period_ms: u32) -> (r: Option<u8>)
    ensures
        r == ticks_per_increment_spec(step_ms as nat, period_ms as nat),
{
    if period_ms == 0 {
        return None;
    }
    let q: u32 = step_ms / period_ms;
    if 1 <= q && q <= 255 {
        Some(q as u8)
    } else {
        None
    }
}

/// The wrap point of the counter for `bits` lines, or `None` where the
/// configuration is not usable.
pub fn max_tick_for(bits: usize, ticks_per_increment: u8) -> (r: Option<u8>)
    ensures
        r is Some <==> valid_config(bits as nat, ticks_per_increment as nat),
        r matches Some(m) ==> m == max_tick(bits as nat, ticks_per_increment as nat),
{
    proof {
        lemma2_to64();
        lemma_two_to_is_pow2(bits as nat);
    }
    if bits == 0 || ticks_per_increment == 0 {
        return None;
    }
    if bits > 8 {
        proof {
            lemma_pow2_strictly_increases(8, bits as nat);
            let p = pow2(bits as nat) as int;
            let t = ticks_per_increment as int;
            assert(p * t >= p) by (nonlinear_arith)
                requires
                    t >= 1,
                    p >= 0,
            ;
        }
        return None;
    }
    let mut span: u32 = ticks_per_increment as u32;
    let mut i: usize = 0;
    while i < bits
        invariant
            i <= bits <= 8,
            span == pow2(i as nat) * ticks_per_increment,
            span >= 1,
            pow2(i as nat) <= 256,
            ticks_per_increment >= 1,
        decreases bits - i,
    {
        proof {
            lemma2_to64();
            lemma_pow2_unfold((i + 1) as nat);
            if i + 1 < 8 {
                lemma_pow2_strictly_increases((i + 1) as nat, 8);
            }
            let p = pow2(i as nat) as int;
            let t = ticks_per_increment as int;
            assert(p * t <= 256 * 255) by (nonlinear_arith)
                requires
                    0 <= p <= 256,
                    0 <= t <= 255,
            ;
            assert((2 * p) * t == 2 * (p * t)) by (nonlinear_arith);
        }
        span = span * 2;
        i = i + 1;
    }
    if span <= 256 {
        Some((span - 1) as u8)
    } else {
        None
    }
}

} // verus!
