use hybridfutex::protocol::{
    amount_of, must_abort_on_drop, must_block, poll_action, registration_state, wakeups_owed,
    PollAction, NOTIFIED, UNPOLLED, WAITING,
};

#[test]
fn waiter_blocks_unless_a_notification_is_stored() {
    assert!(must_block(0));
    assert!(must_block(3));
    assert!(!must_block(-1));
    assert!(!must_block(isize::MIN));
}

#[test]
fn amount_is_count_capped_at_isize_max() {
    assert_eq!(amount_of(0), 0);
    assert_eq!(amount_of(7), 7);
    assert_eq!(amount_of(isize::MAX as usize), isize::MAX);
    assert_eq!(amount_of(isize::MAX as usize + 1), isize::MAX);
    assert_eq!(amount_of(usize::MAX), isize::MAX);
}

#[test]
fn wakeups_are_the_smaller_of_registered_and_asked() {
    assert_eq!(wakeups_owed(5, 5), 5);
    assert_eq!(wakeups_owed(5, 7), 5);
    assert_eq!(wakeups_owed(4, 3), 3);
    assert_eq!(wakeups_owed(0, 3), 0);
    assert_eq!(wakeups_owed(-2, 3), 0);
    assert_eq!(wakeups_owed(4, 0), 0);
    assert_eq!(wakeups_owed(4, -1), 0);
    assert_eq!(wakeups_owed(isize::MAX, isize::MAX), isize::MAX as usize);
}

#[test]
fn poll_actions_follow_the_state() {
    assert_eq!(poll_action(UNPOLLED), PollAction::Register);
    assert_eq!(poll_action(WAITING), PollAction::Pending);
    assert_eq!(poll_action(NOTIFIED), PollAction::Ready);
    assert_eq!(poll_action(42), PollAction::Ready);
}

#[test]
fn registration_waits_or_is_notified() {
    assert_eq!(registration_state(0), WAITING);
    assert_eq!(registration_state(2), WAITING);
    assert_eq!(registration_state(-1), NOTIFIED);
    assert_eq!(NOTIFIED, !0);
}

#[test]
fn only_a_queued_future_aborts_on_drop() {
    assert!(must_abort_on_drop(WAITING));
    assert!(!must_abort_on_drop(UNPOLLED));
    assert!(!must_abort_on_drop(NOTIFIED));
}
