//! The tick clock: the authoritative count of host ticks, a shared
//! atomically-read mirror of it for background tasks, and the sending half of
//! the tick-change signal.
//!
//! The host owns the clock and advances it exactly once per tick, from one
//! thread; everyone else only reads the shared mirror. The `count` field is
//! the host's own copy of the counter, which lets the host-side contracts pin
//! the count down exactly, while the mirror is what task handles read from
//! other threads.

use std::sync::atomic::AtomicUsize;
use std::sync::atomic::Ordering;
use std::sync::Arc;
use vstd::prelude::*;

use crate::handle::TaskHandle;
use crate::signal::new_signal_channel;
use crate::signal::publish_signal;
use crate::signal::subscribe;
use crate::ticks::tick_after;

verus! {

/// The tick count after `n` advances of a fresh clock.
pub open spec fn count_after(n: nat) -> usize
    decreases n,
{
    if n == 0 {
        0
    } else {
        tick_after(count_after((n - 1) as nat))
    }
}

/// Relies on std::sync::Arc::clone: the clone is a second handle to the same
/// shared allocation, so it carries the same value.
#[verifier::external_body]
pub(crate) fn share_counter(c: &Arc<AtomicUsize>) -> (r: Arc<AtomicUsize>)
    ensures
        r == *c,
{
    c.clone()
}

pub struct TickClock {
    /// The host's own copy of the tick count.
    count: usize,
    /// How many times `advance` has run since construction.
    advances: Ghost<nat>,
    /// The shared counter that task handles read from other threads.
    shared: Arc<AtomicUsize>,
    /// Sending half of the tick-change signal.
    signal_tx: tokio::sync::watch::Sender<()>,
}

impl TickClock {
    /// How many times the clock has been advanced since construction.
    pub closed spec fn advances(&self) -> nat {
        self.advances@
    }

    /// The current tick count as the host sees it.
    pub closed spec fn count_spec(&self) -> usize {
        self.count
    }

    /// The host copy of the count agrees with the number of advances.
    pub open spec fn wf(&self) -> bool {
        self.count_spec() == count_after(self.advances())
    }

    /// The handle reads the clock's own shared counter: every handle minted
    /// from one clock shares the one live counter.
    pub closed spec fn feeds(&self, h: &TaskHandle) -> bool {
        h.counter() == self.shared
    }

    /// Creates the clock at tick zero, together with the template receiving
    /// half of the tick-change signal from which task handles are minted.
    pub fn new() -> (r: (TickClock, tokio::sync::watch::Receiver<()>))
        ensures
            r.0.wf(),
            r.0.advances() == 0,
            r.0.count_spec() == 0,
    {
        let (tx, rx) = new_signal_channel();
        let clock = TickClock {
            count: 0,
            advances: Ghost(0),
            shared: Arc::new(AtomicUsize::new(0)),
            signal_tx: tx,
        };
        (clock, rx)
    }

    /// Advances the clock: increments the count once, mirrors it into the
    /// shared counter with sequentially consistent ordering, and publishes a
    /// tick-change signal, waking every task awaiting one. Called by the pump
    /// exactly once per host tick, before the pump drains any callback, so a
    /// callback that reads the count observes the tick it runs in. A
    /// publication with no live receivers is the normal quiet case, not a
    /// fault.
    pub fn advance(&mut self) -> (r: usize)
        ensures
            old(self).wf() ==> final(self).wf(),
            final(self).advances() == old(self).advances() + 1,
            final(self).count_spec() == tick_after(old(self).count_spec()),
            r == final(self).count_spec(),
            forall|h: TaskHandle| #[trigger] old(self).feeds(&h) ==> final(self).feeds(&h),
    {
        let _ = self.shared.fetch_add(1, Ordering::SeqCst);
        self.count = self.count.wrapping_add(1);
        self.advances = Ghost(self.advances@ + 1);
        let _ = publish_signal(&self.signal_tx);
        self.count
    }

    /// The current tick count, read on the host side.
    pub fn current(&self) -> (r: usize)
        ensures
            r == self.count_spec(),
    {
        self.count
    }

    /// Mints a task handle: a second reading handle on the shared counter and
    /// a fresh subscription to the tick-change signal, cloned from the
    /// template receiver that `new` handed out.
    pub fn make_handle(&self, template: &tokio::sync::watch::Receiver<()>) -> (h: TaskHandle)
        ensures
            self.feeds(&h),
    {
        TaskHandle::from_parts(share_counter(&self.shared), subscribe(template))
    }

    /// So long as the counter overflows no tick, the count the host reads is
    /// exactly the number of times the pump has advanced the clock, starting
    /// at zero.
    pub proof fn lemma_count_is_advances(&self)
        requires
            self.wf(),
            self.advances() <= usize::MAX as nat,
        ensures
            self.count_spec() as nat == self.advances(),
    {
        lemma_count_after_small(self.advances());
    }
}

/// Below overflow, `n` advances of a fresh clock count to exactly `n`.
pub proof fn lemma_count_after_small(n: nat)
    requires
        n <= usize::MAX as nat,
    ensures
        count_after(n) as nat == n,
    decreases n,
{
    if n > 0 {
        lemma_count_after_small((n - 1) as nat);
    }
}

/// A duplicated handle reads the same live counter as the handle it was
/// duplicated from: the clock feeding one feeds the other.
pub proof fn lemma_feeds_duplicate(c: &TickClock, h: &TaskHandle, d: &TaskHandle)
    requires
        c.feeds(h),
        h.same_counter(d),
    ensures
        c.feeds(d),
{
}

} // verus!
