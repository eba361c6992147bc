use vstd::prelude::*;

verus! {

/// Total delay held by a sequence of segments: the sum of all entries.
///
/// Defined by peeling the last element, which is also the order in which the
/// worker consumes the queue.
pub open spec fn seg_sum(s: Seq<u64>) -> int
    decreases s.len(),
{
    if s.len() == 0 {
        0
    } else {
        seg_sum(s.drop_last()) + s.last()
    }
}

/// The sum of segments is never negative.
pub proof fn lemma_seg_sum_nonneg(s: Seq<u64>)
    ensures
        0 <= seg_sum(s),
    decreases s.len(),
{
    if s.len() > 0 {
        lemma_seg_sum_nonneg(s.drop_last());
    }
}

/// Appending one segment grows the sum by exactly that segment.
pub proof fn lemma_seg_sum_push(s: Seq<u64>, x: u64)
    ensures
        seg_sum(s.push(x)) == seg_sum(s) + x,
{
    assert(s.push(x).drop_last() =~= s);
}

/// The sum splits around any cut point.
pub proof fn lemma_seg_sum_split(s: Seq<u64>, i: int)
    requires
        0 <= i <= s.len(),
    ensures
        seg_sum(s) == seg_sum(s.take(i)) + seg_sum(s.skip(i)),
    decreases s.len(),
{
    if i == s.len() {
        assert(s.take(i) =~= s);
        assert(s.skip(i) =~= Seq::<u64>::empty());
    } else {
        lemma_seg_sum_split(s.drop_last(), i);
        assert(s.drop_last().take(i) =~= s.take(i));
        assert(s.skip(i).drop_last() =~= s.drop_last().skip(i));
        assert(s.skip(i).len() > 0);
        assert(s.skip(i).last() == s.last());
    }
}

/// What remains of `s` after shrinking it by `need`: segments are removed
/// from the consumption end until at least `need` worth is gone or a single
/// segment is left, and any amount removed beyond `need` is pushed back as a
/// fresh segment.
pub open spec fn shrink_rec(s: Seq<u64>, need: int) -> Seq<u64>
    decreases s.len(),
{
    if need <= 0 || s.len() <= 1 {
        if need < 0 {
            s.push((0 - need) as u64)
        } else {
            s
        }
    } else {
        shrink_rec(s.drop_last(), need - s.last())
    }
}

/// The queue left by [`DelayQueue::shrink`]`(d)` on a queue holding `s`.
pub open spec fn shrink_spec(s: Seq<u64>, d: u64) -> Seq<u64> {
    shrink_rec(s, d as int)
}

/// The first segment never exceeds the total.
pub proof fn lemma_seg_sum_first(s: Seq<u64>)
    requires
        s.len() >= 1,
    ensures
        s[0] <= seg_sum(s),
{
    lemma_seg_sum_split(s, 1);
    lemma_seg_sum_nonneg(s.skip(1));
    assert(s.take(1).drop_last() =~= Seq::<u64>::empty());
    assert(s.take(1).last() == s[0]);
    assert(seg_sum(Seq::<u64>::empty()) == 0);
    assert(seg_sum(s.take(1)) == seg_sum(s.take(1).drop_last()) + s.take(1).last());
}

/// Shrinking a non-empty queue by `need` leaves it non-empty, keeps its
/// anchor segment, and reduces the total by exactly `need` unless that would
/// eat into the anchor, in which case everything above the anchor is removed
/// and no more.
pub proof fn lemma_shrink_rec_props(s: Seq<u64>, need: int)
    requires
        s.len() >= 1,
        0 - need <= u64::MAX,
    ensures
        shrink_rec(s, need).len() >= 1,
        shrink_rec(s, need)[0] == s[0],
        seg_sum(shrink_rec(s, need)) == if seg_sum(s) - need >= s[0] {
            seg_sum(s) - need
        } else {
            s[0] as int
        },
    decreases s.len(),
{
    if need <= 0 {
        lemma_seg_sum_first(s);
        if need < 0 {
            lemma_seg_sum_push(s, (0 - need) as u64);
        }
    } else if s.len() == 1 {
        assert(s.drop_last() =~= Seq::<u64>::empty());
        assert(s.last() == s[0]);
        assert(seg_sum(Seq::<u64>::empty()) == 0);
        assert(seg_sum(s) == seg_sum(s.drop_last()) + s.last());
    } else {
        lemma_shrink_rec_props(s.drop_last(), need - s.last());
    }
}

/// Ordered accumulation of pending wait segments.
///
/// The total remaining delay is the sum of the segments; the worker consumes
/// them from the end, so the most recently pushed segment is waited out
/// first. The segment at index 0 is the anchor laid down at construction:
/// shrinking never removes it, so the queue only becomes empty by being
/// drained or cleared.
///
/// Each segment is a duration in nanoseconds.
pub struct DelayQueue {
    segments: Vec<u64>,
}

impl View for DelayQueue {
    type V = Seq<u64>;

    closed spec fn view(&self) -> Seq<u64> {
        self.segments@
    }
}

impl DelayQueue {
    /// The queue's one internal invariant: the total delay it holds fits in
    /// a `u64`, so sums over it can be computed without overflow.
    pub open spec fn wf(&self) -> bool {
        seg_sum(self@) <= u64::MAX
    }

    /// A fresh queue holding a zero-length anchor segment plus the caller's
    /// initial delay.
    pub fn new(initial: u64) -> (q: DelayQueue)
        ensures
            q@ =~= seq![0u64, initial],
            q.wf(),
    {
        let mut segments: Vec<u64> = Vec::new();
        segments.push(0);
        segments.push(initial);
        proof {
            let s0 = Seq::<u64>::empty();
            lemma_seg_sum_push(s0, 0u64);
            lemma_seg_sum_push(s0.push(0u64), initial);
            assert(segments@ =~= s0.push(0u64).push(initial));
            assert(segments@ =~= seq![0u64, initial]);
        }
        DelayQueue { segments }
    }

    /// Whether no segments remain. An empty queue is the terminal state: the
    /// worker fires (or skips firing) exactly when it observes it.
    pub fn is_empty(&self) -> (r: bool)
        ensures
            r == (self@.len() == 0),
    {
        self.segments.len() == 0
    }

    /// Number of segments currently held.
    pub fn len(&self) -> (r: usize)
        ensures
            r == self@.len(),
    {
        self.segments.len()
    }

    /// Appends one segment, extending the total remaining delay by exactly
    /// `d`.
    pub fn push(&mut self, d: u64)
        requires
            old(self).wf(),
            seg_sum(old(self)@) + d <= u64::MAX,
        ensures
            final(self)@ == old(self)@.push(d),
            final(self).wf(),
    {
        proof {
            lemma_seg_sum_push(self@, d);
        }
        self.segments.push(d);
    }

    /// Removes and returns the segment consumed next (the last one), or
    /// `None` if the queue is already empty, in which case it is unchanged.
    pub fn pop(&mut self) -> (r: Option<u64>)
        ensures
            old(self)@.len() == 0 ==> r is None && final(self)@ == old(self)@,
            old(self)@.len() > 0 ==> r == Some(old(self)@.last())
                && final(self)@ == old(self)@.drop_last(),
    {
        self.segments.pop()
    }

    /// Drops every remaining segment.
    pub fn clear(&mut self)
        ensures
            final(self)@ =~= Seq::<u64>::empty(),
            final(self).wf(),
    {
        self.segments.clear();
    }

    /// The total remaining delay: the sum of all segments.
    pub fn total(&self) -> (r: u64)
        requires
            self.wf(),
        ensures
            r == seg_sum(self@),
    {
        let ghost s = self@;
        let mut acc: u64 = 0;
        let mut i: usize = 0;
        while i < self.segments.len()
            invariant
                0 <= i <= s.len(),
                self@ == s,
                seg_sum(s) <= u64::MAX,
                acc == seg_sum(s.take(i as int)),
            decreases s.len() - i,
        {
            proof {
                assert(s.take(i + 1).drop_last() =~= s.take(i as int));
                assert(s.take(i + 1).last() == s[i as int]);
                lemma_seg_sum_split(s, i + 1);
                lemma_seg_sum_nonneg(s.skip(i + 1));
            }
            acc = acc + self.segments[i];
            i = i + 1;
        }
        proof {
            assert(s.take(s.len() as int) =~= s);
        }
        acc
    }

    /// Shrinks the total remaining delay by `d`: pops segments from the
    /// consumption end until at least `d` worth has been removed or only one
    /// segment remains, then pushes back any excess removed beyond `d`. The
    /// reduction is exact whenever the segments above the anchor hold at
    /// least `d`; the queue never becomes empty here.
    pub fn shrink(&mut self, d: u64)
        requires
            old(self).wf(),
            old(self)@.len() >= 1,
        ensures
            final(self)@ == shrink_spec(old(self)@, d),
            final(self).wf(),
    {
        let ghost orig = self@;
        let mut popped: u64 = 0;
        while popped < d && self.len() > 1
            invariant
                self@.len() >= 1,
                seg_sum(self@) + popped == seg_sum(orig),
                seg_sum(orig) <= u64::MAX,
                shrink_rec(self@, d - popped) == shrink_rec(orig, d as int),
            decreases self@.len(),
        {
            proof {
                lemma_seg_sum_nonneg(self@.drop_last());
            }
            let x = self.pop().unwrap();
            popped = popped + x;
        }
        proof {
            lemma_seg_sum_nonneg(self@);
        }
        if popped > d {
            self.push(popped - d);
        }
    }
}

} // verus!
