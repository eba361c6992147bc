use dyn_timeout::queue::DelayQueue;

#[test]
fn new_queue_holds_anchor_and_delay() {
    let q = DelayQueue::new(7);
    assert_eq!(q.len(), 2);
    assert!(!q.is_empty());
    assert_eq!(q.total(), 7);
}

#[test]
fn pop_consumes_from_the_end() {
    let mut q = DelayQueue::new(7);
    q.push(3);
    assert_eq!(q.total(), 10);
    assert_eq!(q.pop(), Some(3));
    assert_eq!(q.pop(), Some(7));
    assert_eq!(q.pop(), Some(0));
    assert_eq!(q.pop(), None);
    assert!(q.is_empty());
}

#[test]
fn clear_empties_the_queue() {
    let mut q = DelayQueue::new(7);
    q.push(3);
    q.clear();
    assert!(q.is_empty());
    assert_eq!(q.total(), 0);
}

#[test]
fn shrink_by_exact_segment_removes_it() {
    let mut q = DelayQueue::new(10);
    q.push(20);
    q.shrink(20);
    assert_eq!(q.total(), 10);
    assert_eq!(q.len(), 2);
}

#[test]
fn shrink_pushes_back_the_excess() {
    let mut q = DelayQueue::new(10);
    q.push(20);
    q.shrink(5);
    // the 20 is popped, 15 of it comes back as a fresh segment
    assert_eq!(q.total(), 25);
    assert_eq!(q.len(), 3);
    assert_eq!(q.pop(), Some(15));
}

#[test]
fn shrink_spans_several_segments() {
    let mut q = DelayQueue::new(10);
    q.push(20);
    q.push(30);
    q.shrink(35);
    // pops 30, then 20; 15 of the popped 50 comes back
    assert_eq!(q.total(), 25);
    assert_eq!(q.pop(), Some(15));
    assert_eq!(q.pop(), Some(10));
}

#[test]
fn shrink_never_removes_the_last_segment() {
    let mut q = DelayQueue::new(10);
    q.shrink(50);
    // only the initial delay can go; the anchor stays
    assert!(!q.is_empty());
    assert_eq!(q.len(), 1);
    assert_eq!(q.total(), 0);
}

#[test]
fn shrink_by_zero_changes_nothing() {
    let mut q = DelayQueue::new(10);
    q.push(20);
    q.shrink(0);
    assert_eq!(q.total(), 30);
    assert_eq!(q.len(), 3);
}
