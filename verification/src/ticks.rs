//! Arithmetic on tick counts.
//!
//! The tick counter has the width of `usize` and wraps on overflow. Wrapping
//! is intentional: it only matters once the counter overflows, which is
//! unreachable at real tick rates, and it keeps every operation total.

use vstd::prelude::*;

verus! {

/// The value of the tick counter after `n` more ticks from `t`: addition at
/// the counter's width, wrapping on overflow.
pub open spec fn ticks_later(t: usize, n: usize) -> usize {
    vstd::wrapping::usize_specs::wrapping_add(t, n)
}

/// One tick after `t`.
pub open spec fn tick_after(t: usize) -> usize {
    ticks_later(t, 1)
}

/// Sleeping for zero ticks targets the current tick itself, so such a wait is
/// already complete when it starts.
pub proof fn lemma_ticks_later_zero(t: usize)
    ensures
        ticks_later(t, 0) == t,
        t >= ticks_later(t, 0),
{
}

/// Below overflow, the target tick is plain addition: a wait of `n` ticks
/// begun at `t` completes exactly at counts `>= t + n`.
pub proof fn lemma_ticks_later_exact(t: usize, n: usize)
    requires
        t + n <= usize::MAX,
    ensures
        ticks_later(t, n) == t + n,
{
}

/// Two waits begun at the same tick order their targets as their durations:
/// below overflow the shorter wait never targets a later tick than the longer
/// one, so each completes at its own target, unaffected by the other.
pub proof fn lemma_ticks_later_monotone(t: usize, shorter: usize, longer: usize)
    requires
        shorter <= longer,
        t + longer <= usize::MAX,
    ensures
        ticks_later(t, shorter) <= ticks_later(t, longer),
{
}

} // verus!
