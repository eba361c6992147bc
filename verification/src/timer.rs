use vstd::prelude::*;

use crate::errors::TimerError;
use crate::queue::{seg_sum, shrink_spec, DelayQueue};

verus! {

/// Mathematical state of a timer: the pending segments and the cancellation
/// flag. This is exactly the mutable state the owner's handle and the worker
/// share; everything either side does is a transition on this model.
pub struct TimerModel {
    pub segments: Seq<u64>,
    pub cancelled: bool,
}

/// State of a freshly created timer: a zero-length anchor segment plus the
/// caller's initial delay, not cancelled.
pub open spec fn new_model(initial: u64) -> TimerModel {
    TimerModel { segments: seq![0u64, initial], cancelled: false }
}

/// Effect of a successful `add`: one more segment at the consumption end.
pub open spec fn add_model(m: TimerModel, d: u64) -> TimerModel {
    TimerModel { segments: m.segments.push(d), ..m }
}

/// Effect of a successful `sub`: the queue shrunk by `d`.
pub open spec fn sub_model(m: TimerModel, d: u64) -> TimerModel {
    TimerModel { segments: shrink_spec(m.segments, d), ..m }
}

/// Effect of `cancel`: the flag raised and every pending segment dropped, so
/// the worker's drain loop terminates as soon as it looks at the queue.
pub open spec fn cancel_model(m: TimerModel) -> TimerModel {
    TimerModel { segments: Seq::empty(), cancelled: true }
}

/// Effect of the worker consuming one segment.
pub open spec fn pop_model(m: TimerModel) -> TimerModel {
    TimerModel { segments: m.segments.drop_last(), ..m }
}

/// What the worker does next, decided atomically against the shared state.
#[derive(Clone, Copy, Debug, PartialEq, Eq, Structural)]
pub enum WorkerStep {
    /// A segment was consumed: wait out this many nanoseconds, then step
    /// again.
    Wait(u64),
    /// The queue is empty: the drain is over. The payload says whether the
    /// completion action runs — `true` exactly when the timer was never
    /// cancelled. After this step the timer is terminal.
    Finish(bool),
}

/// The shared core of one timer: the segment queue and the cancellation
/// flag. The owner's handle mutates it through `add`/`sub`/`cancel`, the
/// worker through `step`; an unverified shell serializes those calls (a lock
/// around the whole core) and performs the actual waiting and firing.
pub struct TimerCore {
    queue: DelayQueue,
    cancelled: bool,
}

impl View for TimerCore {
    type V = TimerModel;

    closed spec fn view(&self) -> TimerModel {
        TimerModel { segments: self.queue@, cancelled: self.cancelled }
    }
}

impl TimerCore {
    /// The core is well formed when its total pending delay fits in a `u64`.
    pub open spec fn wf(&self) -> bool {
        seg_sum(self@.segments) <= u64::MAX
    }

    /// Creates the shared state for a timer that will wait `initial`
    /// nanoseconds before firing.
    pub fn new(initial: u64) -> (t: TimerCore)
        ensures
            t@ == new_model(initial),
            t.wf(),
    {
        let queue = DelayQueue::new(initial);
        let t = TimerCore { queue, cancelled: false };
        proof {
            assert(t@.segments =~= new_model(initial).segments);
        }
        t
    }

    /// Total delay, in nanoseconds, the worker has yet to consume.
    pub fn remaining(&self) -> (r: u64)
        requires
            self.wf(),
        ensures
            r == seg_sum(self@.segments),
    {
        self.queue.total()
    }

    /// Whether the queue has been observed empty, i.e. the timer fired or
    /// was cancelled and mutations are no longer accepted.
    pub fn is_drained(&self) -> (r: bool)
        ensures
            r == (self@.segments.len() == 0),
    {
        self.queue.is_empty()
    }

    /// Whether `cancel` has been called on this timer.
    pub fn is_cancelled(&self) -> (r: bool)
        ensures
            r == self@.cancelled,
    {
        self.cancelled
    }

    /// Extends the total remaining delay by exactly `d` nanoseconds by
    /// appending a segment, or reports [`TimerError::AlreadyFired`] — and
    /// changes nothing — when no segment is left to extend.
    pub fn add(&mut self, d: u64) -> (r: Result<(), TimerError>)
        requires
            old(self).wf(),
            seg_sum(old(self)@.segments) + d <= u64::MAX,
        ensures
            final(self).wf(),
            old(self)@.segments.len() == 0 ==> r == Err::<(), TimerError>(
                TimerError::AlreadyFired,
            ) && final(self)@ == old(self)@,
            old(self)@.segments.len() > 0 ==> r == Ok::<(), TimerError>(())
                && final(self)@ == add_model(old(self)@, d),
    {
        if self.queue.is_empty() {
            return Err(TimerError::AlreadyFired);
        }
        self.queue.push(d);
        Ok(())
    }

    /// Shrinks the total remaining delay by `d` nanoseconds, exactly where
    /// the segments above the anchor hold at least `d` and down to the
    /// anchor otherwise; never empties the queue. Reports
    /// [`TimerError::AlreadyFired`] — and changes nothing — when the queue
    /// is already empty.
    pub fn sub(&mut self, d: u64) -> (r: Result<(), TimerError>)
        requires
            old(self).wf(),
        ensures
            final(self).wf(),
            old(self)@.segments.len() == 0 ==> r == Err::<(), TimerError>(
                TimerError::AlreadyFired,
            ) && final(self)@ == old(self)@,
            old(self)@.segments.len() > 0 ==> r == Ok::<(), TimerError>(())
                && final(self)@ == sub_model(old(self)@, d),
    {
        if self.queue.is_empty() {
            return Err(TimerError::AlreadyFired);
        }
        self.queue.shrink(d);
        Ok(())
    }

    /// Dismisses the timer: raises the cancellation flag and clears the
    /// queue, so the worker finishes without running the completion action.
    /// Calling this on an already terminal timer leaves it terminal.
    pub fn cancel(&mut self)
        ensures
            final(self)@ == cancel_model(old(self)@),
            final(self).wf(),
    {
        self.cancelled = true;
        self.queue.clear();
        proof {
            assert(self@.segments =~= Seq::<u64>::empty());
        }
    }

    /// The worker's one decision, taken atomically against the shared state:
    /// consume the next segment and wait it out, or — once the queue is
    /// empty — finish, firing exactly when the timer was never cancelled.
    /// `add` and `sub` fail from the moment the queue is observed empty, so
    /// no later mutation can make the worker fire twice.
    pub fn step(&mut self) -> (s: WorkerStep)
        requires
            old(self).wf(),
        ensures
            final(self).wf(),
            old(self)@.segments.len() > 0 ==> s == WorkerStep::Wait(
                old(self)@.segments.last(),
            ) && final(self)@ == pop_model(old(self)@),
            old(self)@.segments.len() == 0 ==> s == WorkerStep::Finish(
                !old(self)@.cancelled,
            ) && final(self)@ == old(self)@,
    {
        proof {
            if self@.segments.len() > 0 {
                crate::queue::lemma_seg_sum_nonneg(self@.segments.drop_last());
            }
        }
        match self.queue.pop() {
            Some(d) => WorkerStep::Wait(d),
            None => WorkerStep::Finish(!self.cancelled),
        }
    }
}

} // verus!
