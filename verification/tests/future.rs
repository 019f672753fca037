use event_listener::Listener;
use wg::AsyncWaitGroup;

#[test]
fn future_test_async_waitings() {
    let wg = AsyncWaitGroup::new();
    wg.add(1);
    wg.add(1);
    assert_eq!(wg.waitings(), 2);
}

#[test]
fn future_test_clone_and_fmt() {
    let awg = AsyncWaitGroup::new();
    let awg1 = awg.clone();
    awg1.add(3);
    assert_eq!(format!("{:?}", awg), format!("{:?}", awg1));
}

#[test]
fn test_over_done() {
    let wg = AsyncWaitGroup::new();
    assert_eq!(wg.done(), 0);
    assert_eq!(wg.done(), 0);
    assert_eq!(wg.waitings(), 0);
}

#[test]
fn test_future_scenario() {
    let wg = AsyncWaitGroup::new();
    wg.add(3);
    assert_eq!(wg.done(), 2);
    assert_eq!(wg.done(), 1);
    assert_eq!(wg.waitings(), 1);
    assert_eq!(wg.done(), 0);
    assert_eq!(wg.waitings(), 0);
    wg.wait_blocking();
}

#[test]
fn test_wait_blocking_on_fresh_group_returns() {
    let wg = AsyncWaitGroup::new();
    wg.wait_blocking();
    assert_eq!(wg.waitings(), 0);
}

#[test]
fn test_future_reuse_cycles() {
    let wg = AsyncWaitGroup::new();
    let workers = wg.add(6);
    for _ in 0..6 {
        workers.done();
    }
    wg.wait_blocking();
    assert_eq!(wg.waitings(), 0);

    let worker = wg.add(1);
    worker.done();
    wg.wait_blocking();
    assert_eq!(wg.waitings(), 0);
}

#[test]
fn test_future_from_initial_count() {
    let wg = AsyncWaitGroup::from(5);
    assert_eq!(wg.waitings(), 5);
    for _ in 0..5 {
        wg.clone().done();
    }
    wg.wait_blocking();
}

#[test]
fn test_zero_transition_notifies_registered_listener() {
    let wg = AsyncWaitGroup::new();
    wg.add(1);
    let listener = wg.register();
    assert_eq!(wg.done(), 0);
    // the zero-transition must have notified the listener, so this returns
    // instead of blocking forever
    listener.wait();
}

#[test]
fn test_future_add_saturates() {
    let wg = AsyncWaitGroup::from(usize::MAX);
    wg.add(1);
    assert_eq!(wg.waitings(), usize::MAX);
    assert_eq!(wg.done(), usize::MAX - 1);
}
