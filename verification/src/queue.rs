//! The order discipline of the callback queue.
//!
//! Background tasks submit one-shot callbacks; the pump drains them once per
//! tick and runs each with exclusive access to host state. The callbacks
//! themselves are opaque one-shot closures, so the ledger stands for each by
//! an id, handed out in submission order. It states what the bridge
//! guarantees of the queue: a drain takes exactly the callbacks submitted
//! before it began, runs them front to back in submission order, and defers
//! everything submitted later to a later drain.

use vstd::prelude::*;

verus! {

/// Ids stand in submission order: a callback submitted earlier has the
/// smaller id, so a sequence ordered by id is ordered by submission.
pub open spec fn in_submission_order(ids: Seq<u64>) -> bool {
    forall|i: int, j: int| 0 <= i < j < ids.len() ==> ids[i] < ids[j]
}

/// The ledger of the callback queue: one id per submitted callback, in
/// submission order, split into those not yet drained and the count of all
/// ids ever handed out.
pub struct CallbackLedger {
    /// The next id to hand out; ids below it are all the ids ever issued.
    next_id: u64,
    /// Ids submitted and not yet taken by a drain, in submission order.
    pending: Vec<u64>,
}

impl CallbackLedger {
    /// How many callbacks have ever been submitted.
    pub closed spec fn submitted(&self) -> nat {
        self.next_id as nat
    }

    /// Ids of the callbacks submitted and not yet drained, in submission
    /// order.
    pub closed spec fn pending_ids(&self) -> Seq<u64> {
        self.pending@
    }

    /// Pending ids are in submission order and were all issued already.
    pub open spec fn wf(&self) -> bool {
        &&& in_submission_order(self.pending_ids())
        &&& forall|i: int|
            0 <= i < self.pending_ids().len() ==> (self.pending_ids()[i] as nat)
                < self.submitted()
    }

    /// An empty ledger: nothing submitted, nothing pending.
    pub fn new() -> (q: CallbackLedger)
        ensures
            q.wf(),
            q.submitted() == 0,
            q.pending_ids() == Seq::<u64>::empty(),
    {
        CallbackLedger { next_id: 0, pending: Vec::new() }
    }

    /// Records one submission: the callback gets the next id and joins the
    /// back of the pending queue. Concurrent submitters reach the queue one
    /// at a time — it is internally synchronized — so each submission holds
    /// one place in the order, whichever task or thread made it.
    pub fn submit(&mut self) -> (id: u64)
        requires
            old(self).wf(),
            old(self).submitted() < u64::MAX as nat,
        ensures
            final(self).wf(),
            id as nat == old(self).submitted(),
            final(self).submitted() == old(self).submitted() + 1,
            final(self).pending_ids() == old(self).pending_ids().push(id),
    {
        let id = self.next_id;
        self.pending.push(id);
        self.next_id = self.next_id + 1;
        id
    }

    /// Begins a drain: takes, in submission order, exactly the callbacks
    /// submitted before this moment and leaves the queue empty, so anything
    /// submitted while the batch runs waits for a later drain. The pump runs
    /// the batch front to back without blocking for new entries.
    pub fn begin_drain(&mut self) -> (batch: Vec<u64>)
        requires
            old(self).wf(),
        ensures
            final(self).wf(),
            batch@ == old(self).pending_ids(),
            in_submission_order(batch@),
            final(self).pending_ids() == Seq::<u64>::empty(),
            final(self).submitted() == old(self).submitted(),
            forall|i: int| 0 <= i < batch@.len() ==> (batch@[i] as nat) < final(self).submitted(),
    {
        let mut batch: Vec<u64> = Vec::new();
        std::mem::swap(&mut batch, &mut self.pending);
        proof {
            assert(self.pending@ =~= Seq::<u64>::empty());
        }
        batch
    }
}

/// Within one drain's batch, a callback submitted earlier stands strictly
/// before one submitted later: the pump runs the batch front to back, so the
/// earlier callback executes first, whichever tasks or threads submitted the
/// two.
pub proof fn lemma_batch_runs_in_submission_order(batch: Seq<u64>, i: int, j: int)
    requires
        in_submission_order(batch),
        0 <= i < batch.len(),
        0 <= j < batch.len(),
        batch[i] < batch[j],
    ensures
        i < j,
{
    if i == j {
        assert(false);
    } else if j < i {
        assert(batch[j] < batch[i]);
        assert(false);
    }
}

/// A callback submitted only after a drain began — for instance during the
/// execution of a callback of that very drain — is absent from the drain's
/// batch: it runs no earlier than the next tick's drain.
pub proof fn lemma_later_submission_deferred(batch: Seq<u64>, issued: nat, id: u64)
    requires
        forall|i: int| 0 <= i < batch.len() ==> (batch[i] as nat) < issued,
        id as nat >= issued,
    ensures
        !batch.contains(id),
{
    if batch.contains(id) {
        let i = choose|i: int| 0 <= i < batch.len() && batch[i] == id;
        assert((batch[i] as nat) < issued);
        assert(false);
    }
}

} // verus!
