//! Synchronization bridge between a single-threaded host loop that advances
//! in discrete ticks and background asynchronous tasks running on their own
//! executor.
//!
//! The host advances the tick clock ([`clock`]) exactly once per tick through
//! the pump ([`pump`]) and then drains a queue of one-shot callbacks
//! submitted by background tasks, in submission order ([`queue`]). Each task
//! holds a handle ([`handle`]) through which it reads the tick count and
//! suspends until a target tick ([`sleep`] and [`ticks`]); the clock wakes
//! sleepers through a broadcast signal ([`signal`]). Background code never
//! touches host state: work that needs it is queued and runs on the host
//! thread, during the drain of exactly one tick.

pub mod clock;
pub mod handle;
pub mod lifecycle;
pub mod pump;
pub mod queue;
pub mod signal;
pub mod sleep;
pub mod ticks;
