use wg::counter::add_step;
use wg::counter::done_step;
use wg::counter::poll_transition;
use wg::counter::quiescent;
use wg::counter::still_outstanding;
use wg::counter::try_decrement;
use wg::counter::WaitPoll;

#[test]
fn test_add_step_values() {
    assert_eq!(add_step(0, 0), 0);
    assert_eq!(add_step(3, 4), 7);
    assert_eq!(add_step(usize::MAX - 1, 1), usize::MAX);
    assert_eq!(add_step(usize::MAX, 1), usize::MAX);
    assert_eq!(add_step(usize::MAX, usize::MAX), usize::MAX);
}

#[test]
fn test_done_step_values() {
    assert_eq!(done_step(5), (4, false));
    assert_eq!(done_step(2), (1, false));
    assert_eq!(done_step(1), (0, true));
    assert_eq!(done_step(0), (0, false));
}

#[test]
fn test_try_decrement_values() {
    assert_eq!(try_decrement(0), None);
    assert_eq!(try_decrement(1), Some(0));
    assert_eq!(try_decrement(7), Some(6));
}

#[test]
fn test_quiescence_predicates() {
    assert!(quiescent(0));
    assert!(!quiescent(3));
    assert!(!still_outstanding(0));
    assert!(still_outstanding(3));
}

#[test]
fn test_poll_transition_completes_only_on_zero() {
    assert_eq!(poll_transition(0, false), WaitPoll::Complete);
    assert_eq!(poll_transition(0, true), WaitPoll::Complete);
    assert_eq!(poll_transition(2, false), WaitPoll::Pending { renew: false });
    assert_eq!(poll_transition(2, true), WaitPoll::Pending { renew: true });
}
