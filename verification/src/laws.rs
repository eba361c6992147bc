use vstd::prelude::*;

use crate::queue::{lemma_seg_sum_push, lemma_shrink_rec_props, seg_sum};
use crate::timer::{
    add_model, cancel_model, new_model, pop_model, sub_model, TimerModel,
};

verus! {

/// Outcome of the worker draining a timer to its terminal state with no
/// further owner calls: how long it waits in total, and whether the
/// completion action runs at the end.
pub struct DrainOutcome {
    pub waited: int,
    pub fires: bool,
}

/// The drain loop as a function of the shared state: while segments remain,
/// consume the last one and wait it out; once the queue is empty, read the
/// flag once and fire exactly when it was never raised.
pub open spec fn drain_model(m: TimerModel) -> DrainOutcome
    decreases m.segments.len(),
{
    if m.segments.len() == 0 {
        DrainOutcome { waited: 0, fires: !m.cancelled }
    } else {
        DrainOutcome {
            waited: m.segments.last() + drain_model(pop_model(m)).waited,
            fires: drain_model(pop_model(m)).fires,
        }
    }
}

/// An undisturbed drain waits out exactly the total pending delay, and fires
/// exactly when the timer stands uncancelled.
pub proof fn lemma_drain_model(m: TimerModel)
    ensures
        drain_model(m).waited == seg_sum(m.segments),
        drain_model(m).fires == !m.cancelled,
    decreases m.segments.len(),
{
    if m.segments.len() > 0 {
        lemma_drain_model(pop_model(m));
    }
}

/// The total pending delay of a fresh timer is its initial delay.
pub proof fn lemma_new_model_total(d: u64)
    ensures
        seg_sum(new_model(d).segments) == d,
{
    let s0 = Seq::<u64>::empty();
    lemma_seg_sum_push(s0, 0u64);
    lemma_seg_sum_push(s0.push(0u64), d);
    assert(new_model(d).segments =~= s0.push(0u64).push(d));
}

/// Fire after delay: a timer created with delay `d` and then left alone
/// waits exactly `d` and runs its completion action, once, at the end of the
/// single terminal step of its drain.
pub proof fn lemma_fire_after_delay(d: u64)
    ensures
        drain_model(new_model(d)).waited == d,
        drain_model(new_model(d)).fires,
{
    lemma_new_model_total(d);
    lemma_drain_model(new_model(d));
}

/// Extension correctness: a successful `add(e)` lengthens the coming wait by
/// exactly `e` and leaves the fire decision as it was.
pub proof fn lemma_extension(m: TimerModel, e: u64)
    ensures
        drain_model(add_model(m, e)).waited == drain_model(m).waited + e,
        drain_model(add_model(m, e)).fires == drain_model(m).fires,
{
    lemma_seg_sum_push(m.segments, e);
    lemma_drain_model(m);
    lemma_drain_model(add_model(m, e));
}

/// Extension scenario: created with delay `d` and extended by `e` before any
/// consumption, the timer waits exactly `d + e` and fires.
pub proof fn lemma_extension_from_new(d: u64, e: u64)
    ensures
        drain_model(add_model(new_model(d), e)).waited == d + e,
        drain_model(add_model(new_model(d), e)).fires,
{
    lemma_fire_after_delay(d);
    lemma_extension(new_model(d), e);
}

/// Shrink correctness: `sub(s)` shortens the coming wait by exactly `s`
/// unless that would eat into the anchor segment, in which case everything
/// above the anchor goes and no more. It never empties the queue — so it
/// never makes the timer fire by itself — it keeps the anchor, and it leaves
/// the fire decision as it was.
pub proof fn lemma_shrink_correctness(m: TimerModel, s: u64)
    requires
        m.segments.len() >= 1,
    ensures
        sub_model(m, s).segments.len() >= 1,
        sub_model(m, s).segments[0] == m.segments[0],
        drain_model(sub_model(m, s)).waited == if seg_sum(m.segments) - s >= m.segments[0] {
            seg_sum(m.segments) - s
        } else {
            m.segments[0] as int
        },
        drain_model(sub_model(m, s)).fires == drain_model(m).fires,
{
    lemma_shrink_rec_props(m.segments, s as int);
    lemma_drain_model(m);
    lemma_drain_model(sub_model(m, s));
}

/// Shrink scenario: created with delay `d`, extended by `e`, then shrunk by
/// `s <= d + e`, the timer waits exactly `d + e - s` — never a negative
/// time — and fires.
pub proof fn lemma_shrink_from_new(d: u64, e: u64, s: u64)
    requires
        s <= d + e,
    ensures
        drain_model(sub_model(add_model(new_model(d), e), s)).waited == d + e - s,
        drain_model(sub_model(add_model(new_model(d), e), s)).fires,
{
    let m = add_model(new_model(d), e);
    lemma_new_model_total(d);
    lemma_seg_sum_push(new_model(d).segments, e);
    lemma_shrink_correctness(m, s);
    lemma_drain_model(sub_model(m, s));
}

/// One interleaved event on the shared state: an owner call or one worker
/// consumption step. `Add`, `Sub` and `Pop` act only while segments remain,
/// exactly as the handle's calls succeed and the worker's loop runs.
pub enum TimerEvent {
    Add(u64),
    Sub(u64),
    Cancel,
    Pop,
}

/// The transition each event makes on the shared state.
pub open spec fn apply_event(m: TimerModel, e: TimerEvent) -> TimerModel {
    match e {
        TimerEvent::Add(d) => if m.segments.len() > 0 {
            add_model(m, d)
        } else {
            m
        },
        TimerEvent::Sub(d) => if m.segments.len() > 0 {
            sub_model(m, d)
        } else {
            m
        },
        TimerEvent::Cancel => cancel_model(m),
        TimerEvent::Pop => if m.segments.len() > 0 {
            pop_model(m)
        } else {
            m
        },
    }
}

/// The state after a whole interleaving of owner calls and worker steps.
pub open spec fn apply_events(m: TimerModel, es: Seq<TimerEvent>) -> TimerModel
    decreases es.len(),
{
    if es.len() == 0 {
        m
    } else {
        apply_events(apply_event(m, es[0]), es.drop_first())
    }
}

/// No event lowers the cancellation flag: once raised it stays raised.
pub proof fn lemma_cancelled_monotone(m: TimerModel, es: Seq<TimerEvent>)
    requires
        m.cancelled,
    ensures
        apply_events(m, es).cancelled,
    decreases es.len(),
{
    if es.len() > 0 {
        lemma_cancelled_monotone(apply_event(m, es[0]), es.drop_first());
    }
}

/// Cancel prevents fire: whatever the owner and the worker do after a
/// `cancel` — in either concurrency model, in any interleaving — the drain
/// ends without running the completion action.
pub proof fn lemma_cancel_prevents_fire(m: TimerModel, es: Seq<TimerEvent>)
    ensures
        !drain_model(apply_events(cancel_model(m), es)).fires,
{
    lemma_cancelled_monotone(cancel_model(m), es);
    lemma_drain_model(apply_events(cancel_model(m), es));
}

/// Cancel on a terminal timer is a no-op: the queue stays empty, a repeated
/// cancel changes nothing more, and the fire decision after it is negative —
/// the action, if it already ran, does not run again.
pub proof fn lemma_cancel_terminal_noop(m: TimerModel)
    ensures
        cancel_model(cancel_model(m)) == cancel_model(m),
        m.segments.len() == 0 ==> cancel_model(m).segments == m.segments,
        !drain_model(cancel_model(m)).fires,
{
    if m.segments.len() == 0 {
        assert(cancel_model(m).segments =~= m.segments);
    }
}

/// Mutation after firing is rejected: on an empty queue, `add` and `sub`
/// leave the state untouched, which is what the handle reports as
/// `AlreadyFired`.
pub proof fn lemma_post_fire_mutation_rejected(m: TimerModel, d: u64)
    requires
        m.segments.len() == 0,
    ensures
        apply_event(m, TimerEvent::Add(d)) == m,
        apply_event(m, TimerEvent::Sub(d)) == m,
{
}

} // verus!
