//! A dynamic timeout: a deferred one-shot timer whose remaining delay can be
//! extended, shortened, or cancelled after creation and before it fires.
//!
//! The pending delay is held as an ordered queue of duration segments; the
//! total remaining wait is the sum of the segments. A worker consumes the
//! queue segment by segment from the end and, once the queue is empty, runs
//! the completion action exactly once unless the timer was cancelled first.
//!
//! This crate holds the verified core: the segment queue, the shared timer
//! state, and the decision the worker takes at each step. The unverified
//! shells that actually sleep (a dedicated thread, or a cooperatively
//! scheduled task) drive [`timer::TimerCore`] one step at a time.

pub mod errors;
pub mod queue;
pub mod timer;
pub mod laws;
