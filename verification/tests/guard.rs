use ddk_server::guard::{LockAcquisition, LockAction, LockEvent, LOCK_RETRY_MILLIS, MAX_LOCK_TRIES};

#[test]
fn the_lock_is_tried_a_hundred_times() {
    assert_eq!(MAX_LOCK_TRIES, 100);
    assert_eq!(LOCK_RETRY_MILLIS, 50);
    let mut acquisition = LockAcquisition::new();
    let mut tries = 0;
    let mut action = acquisition.next_action(LockEvent::Start);
    while action == LockAction::Try {
        tries += 1;
        assert_eq!(acquisition.next_action(LockEvent::Busy), LockAction::Sleep { millis: 50 });
        action = acquisition.next_action(LockEvent::Slept);
    }
    assert_eq!(action, LockAction::TimedOut);
    assert_eq!(tries, 100);
    assert_eq!(acquisition.tries_left, 0);
    assert_eq!(acquisition.next_action(LockEvent::Start), LockAction::TimedOut);
}

#[test]
fn a_free_lock_is_taken_at_the_first_try() {
    let mut acquisition = LockAcquisition::new();
    assert_eq!(acquisition.next_action(LockEvent::Start), LockAction::Try);
    assert_eq!(acquisition.next_action(LockEvent::Locked), LockAction::Load);
    assert_eq!(acquisition.tries_left, 99);
}

#[test]
fn a_lock_that_frees_up_is_taken_later() {
    let mut acquisition = LockAcquisition::new();
    assert_eq!(acquisition.next_action(LockEvent::Start), LockAction::Try);
    assert_eq!(acquisition.next_action(LockEvent::Busy), LockAction::Sleep { millis: 50 });
    assert_eq!(acquisition.next_action(LockEvent::Slept), LockAction::Try);
    assert_eq!(acquisition.next_action(LockEvent::Locked), LockAction::Load);
    assert_eq!(acquisition.tries_left, 98);
}
