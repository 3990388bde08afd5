//! The tick-change signal: a single-value broadcast primitive. The clock
//! publishes on its sending half after every tick; each task handle holds a
//! receiving half and awaits it while sleeping. Receivers never trust the
//! payload — they re-read the shared counter after every wakeup — so redundant
//! publications may coalesce into one wakeup.

use vstd::prelude::*;

verus! {

#[verifier::external_type_specification]
#[verifier::external_body]
#[verifier::reject_recursive_types(T)]
pub struct ExWatchSender<T>(tokio::sync::watch::Sender<T>);

#[verifier::external_type_specification]
#[verifier::external_body]
#[verifier::reject_recursive_types(T)]
pub struct ExWatchReceiver<T>(tokio::sync::watch::Receiver<T>);

/// Relies on tokio::sync::watch::channel: returns the sending and receiving
/// halves of a fresh single-value broadcast channel.
#[verifier::external_body]
pub(crate) fn new_signal_channel() -> (tokio::sync::watch::Sender<()>, tokio::sync::watch::Receiver<()>) {
    tokio::sync::watch::channel(())
}

/// Relies on tokio::sync::watch::Sender::send: publishes a change to every
/// current receiver, waking each one awaiting the channel. Returns false
/// exactly when no receiver exists, which callers treat as the normal quiet
/// case (every task may simply have finished), not a fault.
#[verifier::external_body]
pub(crate) fn publish_signal(tx: &tokio::sync::watch::Sender<()>) -> bool {
    tx.send(()).is_ok()
}

/// Relies on tokio::sync::watch::Receiver::clone: the clone receives on the
/// same channel and observes every publication later than those the original
/// had already seen.
#[verifier::external_body]
pub(crate) fn subscribe(rx: &tokio::sync::watch::Receiver<()>) -> tokio::sync::watch::Receiver<()> {
    rx.clone()
}

} // verus!
