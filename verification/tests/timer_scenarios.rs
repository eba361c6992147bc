use dyn_timeout::errors::TimerError;
use dyn_timeout::timer::{TimerCore, WorkerStep};

/// Drives the worker's drain loop to its terminal step with no concurrent
/// owner calls, returning the total delay waited out and whether the
/// completion action would run.
fn drain(core: &mut TimerCore) -> (u64, bool) {
    let mut waited: u64 = 0;
    loop {
        match core.step() {
            WorkerStep::Wait(d) => waited += d,
            WorkerStep::Finish(fires) => return (waited, fires),
        }
    }
}

#[test]
fn fires_once_after_initial_delay() {
    // delay of 20 time units, no mutation: the worker waits exactly 20 and
    // the single terminal step fires.
    let mut core = TimerCore::new(20);
    let (waited, fires) = drain(&mut core);
    assert_eq!(waited, 20);
    assert!(fires);
}

#[test]
fn add_extends_the_wait() {
    // delay 20 extended by 20 right after creation: one fire, after 40.
    let mut core = TimerCore::new(20);
    core.add(20).unwrap();
    let (waited, fires) = drain(&mut core);
    assert_eq!(waited, 40);
    assert!(fires);
}

#[test]
fn sub_shortens_the_wait() {
    let mut core = TimerCore::new(20);
    core.add(10).unwrap();
    core.add(20).unwrap();
    core.sub(10).unwrap();
    let (waited, fires) = drain(&mut core);
    assert_eq!(waited, 40);
    assert!(fires);
}

#[test]
fn sub_stops_at_the_anchor() {
    // shrinking by more than everything above the anchor never drives the
    // wait negative and never empties the queue.
    let mut core = TimerCore::new(20);
    core.sub(100).unwrap();
    assert_eq!(core.remaining(), 0);
    assert!(!core.is_drained());
    // the timer is still pending, so it can still be extended
    core.add(5).unwrap();
    let (waited, fires) = drain(&mut core);
    assert_eq!(waited, 5);
    assert!(fires);
}

#[test]
fn cancel_prevents_fire() {
    let mut core = TimerCore::new(20_000_000_000);
    core.add(20_000_000_000).unwrap();
    core.cancel();
    let (waited, fires) = drain(&mut core);
    assert_eq!(waited, 0);
    assert!(!fires);
}

#[test]
fn cancel_between_worker_steps_prevents_fire() {
    let mut core = TimerCore::new(20);
    core.add(30).unwrap();
    // the worker consumes one segment, then the owner cancels
    assert_eq!(core.step(), WorkerStep::Wait(30));
    core.cancel();
    let (waited, fires) = drain(&mut core);
    assert_eq!(waited, 0);
    assert!(!fires);
}

#[test]
fn cancel_after_fire_is_a_noop() {
    let mut core = TimerCore::new(20);
    let (_, fires) = drain(&mut core);
    assert!(fires);
    // the action already ran; cancelling now leaves the timer terminal and
    // can never make it fire again
    core.cancel();
    assert!(core.is_drained());
    assert!(core.is_cancelled());
    let (waited, fires_again) = drain(&mut core);
    assert_eq!(waited, 0);
    assert!(!fires_again);
}

#[test]
fn cancel_is_idempotent() {
    let mut core = TimerCore::new(20);
    core.cancel();
    core.cancel();
    assert!(core.is_cancelled());
    let (_, fires) = drain(&mut core);
    assert!(!fires);
}

#[test]
fn mutation_after_fire_is_rejected() {
    let mut core = TimerCore::new(20);
    let (_, fires) = drain(&mut core);
    assert!(fires);
    assert_eq!(core.add(10), Err(TimerError::AlreadyFired));
    assert_eq!(core.sub(10), Err(TimerError::AlreadyFired));
    // the rejected calls changed nothing
    assert!(core.is_drained());
    assert_eq!(core.remaining(), 0);
}

#[test]
fn mutation_after_cancel_is_rejected() {
    let mut core = TimerCore::new(20);
    core.cancel();
    assert_eq!(core.add(10), Err(TimerError::AlreadyFired));
    assert_eq!(core.sub(10), Err(TimerError::AlreadyFired));
}

#[test]
fn fresh_timer_state() {
    let core = TimerCore::new(20);
    assert_eq!(core.remaining(), 20);
    assert!(!core.is_drained());
    assert!(!core.is_cancelled());
}
