//! Arithmetic on the tick counter.

use vstd::prelude::*;

verus! {

/// The tick that lies `pace` ticks after `counter`. The counter is a `u32`
/// that wraps, so the sum is taken modulo 2^32.
pub open spec fn next_tick(counter: u32, pace: u32) -> u32 {
    ((counter + pace) % 0x1_0000_0000) as u32
}

/// Computes the tick at which a line that toggled at `counter` is due again.
pub fn next(counter: &u32, pace: &u32) -> (wake: u32)
    ensures
        wake == next_tick(*counter, *pace),
{
    counter.wrapping_add(*pace)
}

} // verus!
