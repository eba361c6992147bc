use vstd::prelude::*;

verus! {

/// Why a timer operation could not be carried out.
///
/// Every failure is surfaced once, synchronously, to the call that hit it;
/// nothing is retried internally.
#[derive(Clone, Copy, Debug, PartialEq, Eq, Structural)]
pub enum TimerError {
    /// `add` or `sub` was called after the segment queue was observed empty:
    /// the timer has already fired or been cancelled, so there is nothing
    /// left to extend or shrink. Recoverable; it simply means "too late".
    AlreadyFired,
    /// The lock guarding the shared timer state was found poisoned.
    LockFailure,
    /// An interruption or completion signal could not be delivered because
    /// the receiving side was already gone.
    SignalFailure,
    /// The worker thread terminated abnormally (the completion action itself
    /// panicked). Treated as a contract violation by the caller.
    JoinFailure,
}

} // verus!
