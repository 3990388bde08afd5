//! The fatal lifecycle conditions of the bridge.
//!
//! A queue found empty during a drain, or a tick published with no one
//! subscribed, is transient and normal; a sleep resolving because the clock
//! is gone is ordinary cancellation ([`crate::sleep::SignalOutcome`]). What
//! remains is unrecoverable: submitting a callback after the queue's consumer
//! is destroyed, or a submitted callback's reply channel dropped without a
//! value. Both mean the host pump was torn down while tasks were still
//! outstanding — no further tick will ever satisfy the call — so the task
//! path must stop loudly rather than continue against absent host state.

use vstd::prelude::*;

verus! {

/// What pushing a callback onto the queue came to.
#[derive(Clone, Copy, Debug, PartialEq, Eq)]
pub enum SubmitStatus {
    /// The envelope is on the queue and will run during a coming tick's
    /// drain; the submitter now awaits the reply.
    Queued,
    /// The queue's consumer is gone: the host was torn down while the
    /// submitter was still running. Fatal — report loudly, distinctly from
    /// ordinary cancellation.
    HostGone,
}

/// What awaiting an envelope's reply came to.
#[derive(Clone, Copy, Debug, PartialEq, Eq)]
pub enum ReplyStatus {
    /// The callback ran and its value arrived: hand the value to the caller.
    Delivered,
    /// The reply channel was dropped unfulfilled: the host was torn down
    /// with the envelope still pending. Fatal, as for [`SubmitStatus`].
    HostGone,
}

/// The step taken after pushing a callback onto the queue, given whether the
/// queue accepted it (`true`) or its consumer no longer exists (`false`).
pub fn after_submit(accepted: bool) -> (r: SubmitStatus)
    ensures
        (r is Queued) <==> accepted,
        (r is HostGone) <==> !accepted,
{
    if accepted {
        SubmitStatus::Queued
    } else {
        SubmitStatus::HostGone
    }
}

/// The step taken when the await of a reply resolves, given whether a value
/// arrived (`true`) or the channel was dropped unfulfilled (`false`).
pub fn after_reply(delivered: bool) -> (r: ReplyStatus)
    ensures
        (r is Delivered) <==> delivered,
        (r is HostGone) <==> !delivered,
{
    if delivered {
        ReplyStatus::Delivered
    } else {
        ReplyStatus::HostGone
    }
}

} // verus!
