//! The per-task handle: a reading handle on the shared tick counter and a
//! receiving half of the tick-change signal. Handles are cheap to duplicate;
//! every handle minted from one clock reads the one live counter.

use std::sync::atomic::AtomicUsize;
use std::sync::atomic::Ordering;
use std::sync::Arc;
use vstd::prelude::*;

use crate::clock::share_counter;
use crate::signal::subscribe;
use crate::sleep::SleepPoll;
use crate::sleep::SleepWait;
use crate::ticks::ticks_later;

verus! {

pub struct TaskHandle {
    /// Reading handle on the clock's shared counter.
    pub(crate) ticks: Arc<AtomicUsize>,
    /// Receiving half of the tick-change signal. The task's suspension loop
    /// awaits changes on it between polls of its wait.
    pub signal: tokio::sync::watch::Receiver<()>,
}

impl TaskHandle {
    /// The shared counter this handle reads.
    pub closed spec fn counter(&self) -> Arc<AtomicUsize> {
        self.ticks
    }

    /// Both handles read the same live counter.
    pub open spec fn same_counter(&self, other: &TaskHandle) -> bool {
        self.counter() == other.counter()
    }

    /// Assembles a handle from a reading handle on a shared counter and a
    /// subscription to the tick-change signal.
    pub(crate) fn from_parts(
        ticks: Arc<AtomicUsize>,
        signal: tokio::sync::watch::Receiver<()>,
    ) -> (h: TaskHandle)
        ensures
            h.counter() == ticks,
    {
        TaskHandle { ticks, signal }
    }

    /// Non-blocking read of the shared tick counter with sequentially
    /// consistent ordering. The value was current at some instant no earlier
    /// than the call and may change immediately after; nothing more can be
    /// promised of a counter that another thread advances, so callers hand
    /// the reading to the wait logic, which is exact for every reading.
    pub fn current_tick(&self) -> usize {
        self.ticks.load(Ordering::SeqCst)
    }

    /// A second handle on the same counter, with its own subscription to the
    /// tick-change signal.
    pub fn duplicate(&self) -> (r: TaskHandle)
        ensures
            r.same_counter(self),
    {
        TaskHandle {
            ticks: share_counter(&self.ticks),
            signal: subscribe(&self.signal),
        }
    }

    /// Begins a wait for `updates_to_sleep` further ticks: reads the counter
    /// once and targets that reading plus the requested number of ticks.
    /// Returns the reading together with the wait.
    pub fn plan_sleep(&self, updates_to_sleep: usize) -> (r: (usize, SleepWait))
        ensures
            r.1.target == ticks_later(r.0, updates_to_sleep),
    {
        let start = self.current_tick();
        (start, SleepWait::begin(start, updates_to_sleep))
    }

    /// Re-checks a wait against a fresh reading of the counter: returns the
    /// reading and whether the wait is complete at that reading.
    pub fn check_sleep(&self, wait: &SleepWait) -> (r: (usize, SleepPoll))
        ensures
            (r.1 is Finished) <==> r.0 >= wait.target,
            (r.1 is AwaitSignal) <==> r.0 < wait.target,
    {
        let now = self.current_tick();
        (now, wait.poll(now))
    }
}

} // verus!
