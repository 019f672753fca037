use wg::WaitGroup;

#[test]
fn test_waitings() {
    let wg = WaitGroup::new();
    wg.add(1);
    wg.add(1);
    assert_eq!(wg.waitings(), 2);
}

#[test]
fn sync_test_clone_and_fmt() {
    let swg = WaitGroup::new();
    let swg1 = swg.clone();
    swg1.add(3);
    assert_eq!(format!("{:?}", swg), format!("{:?}", swg1));
}

#[test]
fn test_sync_scenario() {
    let wg = WaitGroup::new();
    wg.add(3);
    assert_eq!(wg.done(), 2);
    assert_eq!(wg.done(), 1);
    assert_eq!(wg.waitings(), 1);
    assert_eq!(wg.done(), 0);
    assert_eq!(wg.waitings(), 0);
    wg.wait();
}

#[test]
fn test_sync_wait_on_fresh_group_returns() {
    let wg = WaitGroup::new();
    wg.wait();
    assert_eq!(wg.waitings(), 0);
}

#[test]
fn test_sync_reuse_cycles() {
    let wg = WaitGroup::new();
    let workers = wg.add(6);
    for _ in 0..6 {
        workers.done();
    }
    wg.wait();
    assert_eq!(wg.waitings(), 0);

    let worker = wg.add(1);
    worker.done();
    wg.wait();
    assert_eq!(wg.waitings(), 0);
}

#[test]
fn test_sync_from_initial_count() {
    let wg = WaitGroup::from(5);
    assert_eq!(wg.waitings(), 5);
    for _ in 0..5 {
        wg.clone().done();
    }
    wg.wait();
    assert_eq!(wg.waitings(), 0);
}

#[test]
fn test_sync_over_done_is_noop() {
    let wg = WaitGroup::new();
    assert_eq!(wg.done(), 0);
    assert_eq!(wg.done(), 0);
    assert_eq!(wg.waitings(), 0);
}

#[test]
fn test_sync_add_zero_is_noop() {
    let wg = WaitGroup::new();
    wg.add(0);
    assert_eq!(wg.waitings(), 0);
}

#[test]
fn test_sync_add_saturates() {
    let wg = WaitGroup::from(usize::MAX);
    wg.add(1);
    assert_eq!(wg.waitings(), usize::MAX);
    assert_eq!(wg.done(), usize::MAX - 1);
}

#[test]
fn test_sync_clones_share_one_count() {
    let wg = WaitGroup::new();
    let other = wg.clone();
    wg.add(2);
    assert_eq!(other.waitings(), 2);
    assert_eq!(other.done(), 1);
    assert_eq!(wg.waitings(), 1);
}

#[test]
fn test_sync_nested_dispatch_completions() {
    // five top-level units, each of which adds one nested unit before its
    // own completion: the count reaches zero only after all ten are done
    let wg = WaitGroup::new();
    let mut workers = Vec::new();
    for _ in 0..5 {
        workers.push(wg.add(1));
    }
    let mut nested = Vec::new();
    for worker in &workers {
        nested.push(worker.add(1));
        worker.done();
    }
    assert_eq!(wg.waitings(), 5);
    for (i, n) in nested.iter().enumerate() {
        assert_eq!(n.done(), 5 - 1 - i);
    }
    assert_eq!(wg.waitings(), 0);
    wg.wait();
}

#[test]
fn test_sync_default_is_empty() {
    let wg = WaitGroup::default();
    assert_eq!(wg.waitings(), 0);
    wg.wait();
}
