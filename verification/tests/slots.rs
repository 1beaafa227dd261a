use keep_backend::backend::error::ConstructionError;
use keep_backend::backend::slots::Slots;

#[test]
fn claims_succeed_up_to_the_limit_and_fail_after() {
    let mut slots = Slots::new(3);
    assert_eq!(slots.limit(), 3);
    assert_eq!(slots.live(), 0);
    assert_eq!(slots.claim(), Ok(()));
    assert_eq!(slots.claim(), Ok(()));
    assert_eq!(slots.claim(), Ok(()));
    assert_eq!(slots.live(), 3);
    for _ in 0..5 {
        assert_eq!(slots.claim(), Err(ConstructionError::ResourceExhausted));
        assert_eq!(slots.live(), 3);
    }
}

#[test]
fn no_room_at_all() {
    let mut slots = Slots::new(0);
    assert!(slots.idle());
    assert_eq!(slots.claim(), Err(ConstructionError::ResourceExhausted));
    assert_eq!(slots.live(), 0);
    assert!(!slots.release());
}

#[test]
fn a_released_slot_can_be_claimed_again() {
    let mut slots = Slots::new(1);
    assert_eq!(slots.claim(), Ok(()));
    assert!(!slots.idle());
    assert_eq!(slots.claim(), Err(ConstructionError::ResourceExhausted));
    assert!(slots.release());
    assert!(slots.idle());
    assert_eq!(slots.live(), 0);
    assert_eq!(slots.claim(), Ok(()));
    assert_eq!(slots.live(), 1);
}

#[test]
fn release_without_a_thread_changes_nothing() {
    let mut slots = Slots::new(2);
    assert!(!slots.release());
    assert_eq!(slots.live(), 0);
    assert_eq!(slots.limit(), 2);
}

#[test]
fn the_largest_limit_does_not_overflow() {
    let mut slots = Slots::new(usize::MAX);
    assert_eq!(slots.claim(), Ok(()));
    assert_eq!(slots.live(), 1);
    assert_eq!(slots.limit(), usize::MAX);
}
