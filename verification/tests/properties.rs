use cov_mark::Guard;
use cov_mark::Outcome;
use cov_mark::Registry;
use cov_mark::hit;

#[test]
fn at_least_one_hit_passes() {
    let mut reg = Registry::new();
    let guard = Guard::new(&mut reg, "short_date", None);
    hit(&mut reg, "short_date");
    let outcome = guard.exit(&mut reg, false);
    assert!(outcome.is_pass());
    assert_eq!(outcome.failure_message(), None);
}

#[test]
fn many_hits_still_pass_without_expected_count() {
    let mut reg = Registry::new();
    let guard = Guard::new(&mut reg, "short_date", None);
    hit(&mut reg, "short_date");
    hit(&mut reg, "short_date");
    hit(&mut reg, "short_date");
    let outcome = guard.exit(&mut reg, false);
    assert!(outcome.is_pass());
}

#[test]
fn never_hit_fails_with_message() {
    let mut reg = Registry::new();
    let guard = Guard::new(&mut reg, "bad_dashes", None);
    let outcome = guard.exit(&mut reg, false);
    assert!(matches!(
        outcome,
        Outcome::MarkNeverHit { mark: "bad_dashes" }
    ));
    let message = outcome.failure_message();
    assert_eq!(message.as_deref(), Some("bad_dashes mark was not hit"));
}

#[test]
fn exact_count_passes() {
    let mut reg = Registry::new();
    let guard = Guard::new(&mut reg, "retry", Some(3));
    hit(&mut reg, "retry");
    hit(&mut reg, "retry");
    hit(&mut reg, "retry");
    let outcome = guard.exit(&mut reg, false);
    assert!(outcome.is_pass());
}

#[test]
fn zero_expected_passes_without_hits() {
    let mut reg = Registry::new();
    let guard = Guard::new(&mut reg, "never_taken", Some(0));
    let outcome = guard.exit(&mut reg, false);
    assert!(outcome.is_pass());
}

#[test]
fn wrong_count_fails_with_message() {
    let mut reg = Registry::new();
    let guard = Guard::new(&mut reg, "covered_dropper_drops", Some(2));
    hit(&mut reg, "covered_dropper_drops");
    let outcome = guard.exit(&mut reg, false);
    assert!(matches!(
        outcome,
        Outcome::MarkHitWrongCount { mark: "covered_dropper_drops", observed: 1, expected: 2 }
    ));
    let message = outcome.failure_message();
    assert_eq!(
        message.as_deref(),
        Some("covered_dropper_drops mark was hit 1 times, expected 2")
    );
}

#[test]
fn wrong_count_message_renders_multi_digit_counts() {
    let mut reg = Registry::new();
    let guard = Guard::new(&mut reg, "poll", Some(12));
    for _ in 0..10 {
        hit(&mut reg, "poll");
    }
    let outcome = guard.exit(&mut reg, false);
    let message = outcome.failure_message();
    assert_eq!(
        message.as_deref(),
        Some("poll mark was hit 10 times, expected 12")
    );
}

#[test]
fn unmatched_mark_is_not_counted() {
    let mut reg = Registry::new();
    let guard = Guard::new(&mut reg, "short_date", None);
    hit(&mut reg, "bad_dashes");
    let outcome = guard.exit(&mut reg, false);
    assert!(matches!(
        outcome,
        Outcome::MarkNeverHit { mark: "short_date" }
    ));
}

#[test]
fn hit_before_entry_is_not_counted() {
    let mut reg = Registry::new();
    hit(&mut reg, "short_date");
    let guard = Guard::new(&mut reg, "short_date", None);
    let outcome = guard.exit(&mut reg, false);
    assert!(matches!(outcome, Outcome::MarkNeverHit { .. }));
}

#[test]
fn hit_with_no_active_check_is_a_noop() {
    let mut reg = Registry::new();
    hit(&mut reg, "anything");
    assert!(!reg.is_active());
    assert_eq!(reg.record_count(), 0);
}

#[test]
fn nested_checks_on_same_mark_each_observe_every_hit() {
    let mut reg = Registry::new();
    let outer = Guard::new(&mut reg, "shared", Some(2));
    let inner = Guard::new(&mut reg, "shared", Some(1));
    hit(&mut reg, "shared");
    let inner_outcome = inner.exit(&mut reg, false);
    assert!(inner_outcome.is_pass());
    hit(&mut reg, "shared");
    let outer_outcome = outer.exit(&mut reg, false);
    assert!(outer_outcome.is_pass());
}

#[test]
fn thread_isolation_keeps_foreign_hits_invisible() {
    let mut checking_thread = Registry::new();
    let mut producing_thread = Registry::new();
    let guard = Guard::new(&mut checking_thread, "shared", None);
    hit(&mut producing_thread, "shared");
    let outcome = guard.exit(&mut checking_thread, false);
    assert!(matches!(outcome, Outcome::MarkNeverHit { mark: "shared" }));
}

#[test]
fn unwinding_suppresses_the_verdict() {
    let mut reg = Registry::new();
    let guard = Guard::new(&mut reg, "bad_dashes", None);
    let outcome = guard.exit(&mut reg, true);
    assert!(matches!(outcome, Outcome::Suppressed));
    assert_eq!(outcome.failure_message(), None);
    assert!(!reg.is_active());
}

#[test]
fn order_violation_is_reported() {
    let mut reg = Registry::new();
    let outer = Guard::new(&mut reg, "outer_mark", None);
    let inner = Guard::new(&mut reg, "inner_mark", None);
    let outcome = outer.exit(&mut reg, false);
    assert!(matches!(
        outcome,
        Outcome::RegistryOrderViolation { mark: "outer_mark" }
    ));
    let message = outcome.failure_message();
    assert_eq!(
        message.as_deref(),
        Some("outer_mark check guard exited out of order")
    );
    let inner_outcome = inner.exit(&mut reg, false);
    assert!(matches!(
        inner_outcome,
        Outcome::RegistryOrderViolation { mark: "inner_mark" }
    ));
}

#[test]
fn order_violation_is_reported_even_while_unwinding() {
    let mut reg = Registry::new();
    let outer = Guard::new(&mut reg, "outer_mark", None);
    let _inner = Guard::new(&mut reg, "inner_mark", None);
    let outcome = outer.exit(&mut reg, true);
    assert!(matches!(
        outcome,
        Outcome::RegistryOrderViolation { mark: "outer_mark" }
    ));
}

#[test]
fn gate_tracks_active_checks() {
    let mut reg = Registry::new();
    assert!(!reg.is_active());
    let outer = Guard::new(&mut reg, "a", None);
    assert!(reg.is_active());
    assert_eq!(reg.record_count(), 1);
    let inner = Guard::new(&mut reg, "b", None);
    assert_eq!(reg.record_count(), 2);
    let _ = inner.exit(&mut reg, true);
    assert!(reg.is_active());
    let _ = outer.exit(&mut reg, true);
    assert!(!reg.is_active());
    assert_eq!(reg.record_count(), 0);
}
