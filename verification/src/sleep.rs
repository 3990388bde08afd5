//! Suspension until a target tick.
//!
//! A wait is level-triggered: it fixes a target when it begins, and is
//! complete whenever the counter has reached the target, however many
//! coalesced or spurious signal wakeups happened in between. The task's own
//! loop performs the awaiting; the decisions — what the target is, whether a
//! reading completes the wait, and what a resolved signal means — stand here.

use vstd::prelude::*;

use crate::ticks::ticks_later;

verus! {

/// One task's pending wait: complete once the tick counter reaches `target`.
pub struct SleepWait {
    /// The tick count at which the wait is complete.
    pub target: usize,
}

/// What a reading of the counter means for a wait.
#[derive(Clone, Copy, Debug, PartialEq, Eq)]
pub enum SleepPoll {
    /// The counter has reached the target: the task resumes.
    Finished,
    /// Not there yet: await the next tick-change signal, then re-check.
    AwaitSignal,
}

/// What a resolved await of the tick-change signal means.
#[derive(Clone, Copy, Debug, PartialEq, Eq)]
pub enum SignalOutcome {
    /// A change was published: re-read the counter and poll the wait again.
    Recheck,
    /// The sending half is gone: the clock is torn down, so no further tick
    /// will come. The wait resolves immediately — best-effort cancellation,
    /// not an error. A caller that must tell this apart from reaching the
    /// target re-reads the counter itself.
    Cancelled,
}

impl SleepWait {
    /// Begins a wait of `updates_to_sleep` ticks from the reading `current`:
    /// the target is that reading plus the requested number of ticks, at the
    /// counter's width. A wait of zero ticks targets `current` itself and is
    /// complete at once.
    pub fn begin(current: usize, updates_to_sleep: usize) -> (w: SleepWait)
        ensures
            w.target == ticks_later(current, updates_to_sleep),
    {
        SleepWait { target: current.wrapping_add(updates_to_sleep) }
    }

    /// Polls the wait against a reading of the counter. The wait finishes
    /// exactly when the reading has reached the target: never at a smaller
    /// reading, and at the first reading no smaller — so a task resumes no
    /// later than the first tick that reaches its target.
    pub fn poll(&self, current: usize) -> (r: SleepPoll)
        ensures
            (r is Finished) <==> current >= self.target,
            (r is AwaitSignal) <==> current < self.target,
    {
        if current >= self.target {
            SleepPoll::Finished
        } else {
            SleepPoll::AwaitSignal
        }
    }
}

/// Sleep correctness: a wait of `updates` ticks begun at a reading `start`
/// whose target does not overflow the counter is complete at exactly the
/// readings that have reached `start + updates` — never at a smaller reading,
/// and at every reading from `start + updates` on, so the task resumes no
/// later than the first tick that reaches that count.
pub proof fn lemma_sleep_resumes_at_target(w: SleepWait, start: usize, updates: usize, now: usize)
    requires
        w.target == ticks_later(start, updates),
        start + updates <= usize::MAX,
    ensures
        (now >= w.target) <==> now >= start + updates,
{
    crate::ticks::lemma_ticks_later_exact(start, updates);
}

/// Zero-sleep no-op: a wait of zero ticks targets the very reading it began
/// from and is already complete there, so the task resumes without ever
/// suspending.
pub proof fn lemma_zero_sleep_no_op(w: SleepWait, start: usize)
    requires
        w.target == ticks_later(start, 0),
    ensures
        start >= w.target,
{
    crate::ticks::lemma_ticks_later_zero(start);
}

/// Concurrent independence: two waits begun at the same reading for
/// different durations each complete exactly at their own target count,
/// unaffected by the other's presence, and the shorter wait never outlasts
/// the longer one.
pub proof fn lemma_waits_independent(
    quick: SleepWait,
    slow: SleepWait,
    start: usize,
    shorter: usize,
    longer: usize,
    now: usize,
)
    requires
        quick.target == ticks_later(start, shorter),
        slow.target == ticks_later(start, longer),
        shorter <= longer,
        start + longer <= usize::MAX,
    ensures
        (now >= quick.target) <==> now >= start + shorter,
        (now >= slow.target) <==> now >= start + longer,
        now >= slow.target ==> now >= quick.target,
{
    crate::ticks::lemma_ticks_later_exact(start, shorter);
    crate::ticks::lemma_ticks_later_exact(start, longer);
}

/// The step taken when an awaited tick-change signal resolves, given whether
/// it resolved as a change (`true`) or as the sender being gone (`false`):
/// a change means re-check the counter; a missing sender means the clock is
/// torn down and the wait resolves immediately rather than hang forever.
pub fn after_signal(signal_ok: bool) -> (r: SignalOutcome)
    ensures
        (r is Recheck) <==> signal_ok,
        (r is Cancelled) <==> !signal_ok,
{
    if signal_ok {
        SignalOutcome::Recheck
    } else {
        SignalOutcome::Cancelled
    }
}

} // verus!
