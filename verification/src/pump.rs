//! The per-tick pump, host side.
//!
//! Once per host tick, with exclusive access to host state, the pump:
//! advances the tick clock — so every count read during this tick, including
//! by the callbacks about to run, is the count of the tick they run in — then
//! gives the background runtime one bounded opportunity to make progress, and
//! only then drains the callback queue front to back without blocking for new
//! entries. The first two steps stand here; the drain itself runs the queued
//! opaque closures against host state, which only the host wiring can do, and
//! follows the order discipline of [`crate::queue::CallbackLedger`].

use vstd::prelude::*;

use crate::clock::TickClock;
use crate::ticks::tick_after;

verus! {

#[verifier::external_type_specification]
#[verifier::external_body]
pub struct ExRuntime(tokio::runtime::Runtime);

/// Relies on tokio::runtime::Runtime::block_on and tokio::task::yield_now:
/// runs one future that yields once and completes. On a current-thread
/// runtime this lets already-spawned tasks run; on a multi-thread runtime it
/// is a harmless no-op, since its workers progress on their own. Either way
/// it returns after a single yield point, so the host tick rate is never
/// governed by background task behaviour.
#[verifier::external_body]
fn nudge_runtime(rt: &tokio::runtime::Runtime) {
    rt.block_on(tokio::task::yield_now());
}

/// The pump's opening steps, in their fixed order: advance the clock by one
/// tick — publishing the change to every sleeping task — then give the
/// background runtime its bounded chance to run. Returns the tick count of
/// the tick now underway, the count every callback of the coming drain is
/// handed.
pub fn pump_begin(clock: &mut TickClock, rt: &tokio::runtime::Runtime) -> (current_tick: usize)
    ensures
        old(clock).wf() ==> final(clock).wf(),
        final(clock).advances() == old(clock).advances() + 1,
        final(clock).count_spec() == tick_after(old(clock).count_spec()),
        current_tick == final(clock).count_spec(),
{
    let current_tick = clock.advance();
    nudge_runtime(rt);
    current_tick
}

} // verus!
