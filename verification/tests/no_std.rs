use wg::no_std::WaitGroup;

#[test]
fn test_spin_group_counts() {
    let wg = WaitGroup::new();
    wg.add(3);
    assert_eq!(wg.done(), 2);
    assert_eq!(wg.done(), 1);
    assert_eq!(wg.waitings(), 1);
    assert_eq!(wg.done(), 0);
    assert_eq!(wg.waitings(), 0);
}

#[test]
fn test_spin_group_over_done_is_noop() {
    let wg = WaitGroup::new();
    assert_eq!(wg.done(), 0);
    assert_eq!(wg.done(), 0);
    assert_eq!(wg.waitings(), 0);
}

#[test]
fn test_spin_group_from_initial_count() {
    let wg = WaitGroup::from(4);
    assert_eq!(wg.waitings(), 4);
    let other = wg.clone();
    assert_eq!(other.done(), 3);
    assert_eq!(wg.waitings(), 3);
}

#[test]
fn test_spin_group_add_saturates() {
    let wg = WaitGroup::from(usize::MAX - 1);
    wg.add(5);
    assert_eq!(wg.waitings(), usize::MAX);
}
