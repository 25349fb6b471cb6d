use portkeydrop::ui::connection::ConnectionAttempts;

#[test]
fn repeated_connect_starts_one_attempt() {
    let mut attempts = ConnectionAttempts::default();
    let first = attempts.begin().unwrap();
    assert_eq!(attempts.begin(), None);
    assert!(attempts.finish(first));
    assert_ne!(attempts.begin().unwrap(), first);
}

#[test]
fn cancelled_workers_cannot_finish_a_new_attempt() {
    let mut attempts = ConnectionAttempts::default();
    let old = attempts.begin().unwrap();
    assert!(attempts.cancel());
    let current = attempts.begin().unwrap();
    assert!(!attempts.is_current(old));
    assert!(!attempts.finish(old));
    assert!(attempts.is_current(current));
    assert!(attempts.finish(current));
    assert!(!attempts.finish(current));
}

#[test]
fn attempt_numbers_count_up_from_one() {
    let mut attempts = ConnectionAttempts::default();
    assert!(!attempts.cancel());
    assert_eq!(attempts.begin(), Some(1));
    assert!(!attempts.finish(7));
    assert!(attempts.is_current(1));
    assert!(attempts.cancel());
    assert!(!attempts.is_current(1));
    assert_eq!(attempts.begin(), Some(2));
}
