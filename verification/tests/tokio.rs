use wg::tokio::AsyncWaitGroup;

#[test]
fn tokio_test_clone_and_fmt() {
    let awg = AsyncWaitGroup::new();
    let awg1 = awg.clone();
    awg1.add(3);
    assert_eq!(format!("{:?}", awg), format!("{:?}", awg1));
}

#[test]
fn test_tokio_scenario() {
    let wg = AsyncWaitGroup::new();
    wg.add(3);
    wg.clone().done();
    wg.clone().done();
    assert_eq!(wg.waitings(), 1);
    wg.clone().done();
    assert_eq!(wg.waitings(), 0);
}

#[test]
fn test_tokio_over_done_is_noop() {
    let wg = AsyncWaitGroup::new();
    wg.clone().done();
    wg.clone().done();
    assert_eq!(wg.waitings(), 0);
}

#[test]
fn test_tokio_from_initial_count() {
    let wg = AsyncWaitGroup::from(5);
    assert_eq!(wg.waitings(), 5);
    for _ in 0..5 {
        wg.clone().done();
    }
    assert_eq!(wg.waitings(), 0);
}

#[test]
fn test_tokio_add_saturates() {
    let wg = AsyncWaitGroup::from(usize::MAX);
    wg.add(1);
    assert_eq!(wg.waitings(), usize::MAX);
    wg.clone().done();
    assert_eq!(wg.waitings(), usize::MAX - 1);
}

#[test]
fn test_tokio_register_without_polling_is_harmless() {
    let wg = AsyncWaitGroup::new();
    wg.add(1);
    let registration = wg.register();
    wg.clone().done();
    assert_eq!(wg.waitings(), 0);
    drop(registration);
}
