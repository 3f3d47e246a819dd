use serial_monitor::idle::{IdleTracker, Phase};

#[test]
fn a_new_tracker_has_received_nothing() {
    let tracker = IdleTracker::new();
    assert!(!tracker.received_any);
    assert_eq!(tracker.last_received, 0);
}

#[test]
fn recording_sets_the_flag_and_the_time() {
    let mut tracker = IdleTracker::new();
    tracker.record(1234);
    assert_eq!(tracker, IdleTracker { received_any: true, last_received: 1234 });
    tracker.record(99);
    assert_eq!(tracker, IdleTracker { received_any: true, last_received: 99 });
}

#[test]
fn silence_is_the_difference_of_the_clock_readings() {
    let mut tracker = IdleTracker::new();
    tracker.record(1000);
    assert_eq!(tracker.silence(1000), 0);
    assert_eq!(tracker.silence(1001), 1);
    assert_eq!(tracker.silence(1600), 600);
    assert_eq!(tracker.silence(u64::MAX), u64::MAX - 1000);
}

#[test]
fn a_clock_that_ran_backwards_counts_as_no_silence() {
    let mut tracker = IdleTracker::new();
    tracker.record(1000);
    assert_eq!(tracker.silence(999), 0);
    assert_eq!(tracker.silence(0), 0);
    assert!(!tracker.expired(Some(0), 999));
}

#[test]
fn the_timeout_fires_only_when_the_silence_exceeds_it() {
    let mut tracker = IdleTracker::new();
    tracker.record(100);
    assert!(!tracker.expired(Some(500), 100));
    assert!(!tracker.expired(Some(500), 599));
    assert!(!tracker.expired(Some(500), 600));
    assert!(tracker.expired(Some(500), 601));
    assert!(tracker.expired(Some(500), u64::MAX));
}

#[test]
fn the_timeout_never_fires_before_anything_was_received() {
    let tracker = IdleTracker::new();
    assert!(!tracker.expired(Some(0), 0));
    assert!(!tracker.expired(Some(1), 1_000_000));
    assert!(!tracker.expired(Some(500), u64::MAX));
}

#[test]
fn without_a_timeout_nothing_fires() {
    let mut tracker = IdleTracker::new();
    assert!(!tracker.expired(None, u64::MAX));
    tracker.record(0);
    assert!(!tracker.expired(None, u64::MAX));
}

#[test]
fn a_timeout_of_zero_fires_one_millisecond_after_the_last_character() {
    let mut tracker = IdleTracker::new();
    tracker.record(7);
    assert!(!tracker.expired(Some(0), 7));
    assert!(tracker.expired(Some(0), 8));
}

#[test]
fn the_longest_timeout_never_fires() {
    let mut tracker = IdleTracker::new();
    tracker.record(0);
    assert!(!tracker.expired(Some(u64::MAX), u64::MAX));
}

#[test]
fn a_session_waits_until_the_first_character_and_receives_from_then_on() {
    let mut tracker = IdleTracker::new();
    assert_eq!(tracker.phase(), Phase::Waiting);
    tracker.record(3);
    assert_eq!(tracker.phase(), Phase::Receiving);
    tracker.record(1);
    assert_eq!(tracker.phase(), Phase::Receiving);
}
