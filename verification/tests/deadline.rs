//! Integration tests for `agent_deadline`.

use agent_deadline::{Deadline, DeadlineExceeded, Duration};
use std::collections::HashSet;
use std::time::{Duration as StdDuration, Instant};

/// Waits until at least `millis` milliseconds have passed on the monotonic
/// clock.
fn wait_millis(millis: u64) {
    let start = Instant::now();
    while start.elapsed() < StdDuration::from_millis(millis) {
        std::hint::spin_loop();
    }
}

// ---------- factories ----------

#[test]
fn after_not_expired_when_in_future() {
    let d = Deadline::after(Duration::from_secs(3600));
    assert!(!d.expired());
    assert!(d.remaining() > Duration::zero());
    assert!(d.check_or_err().is_ok());
}

#[test]
fn after_max_falls_back_to_never() {
    let d = Deadline::after(Duration::max_value());
    assert!(d.is_never());
}

#[test]
fn never_basics() {
    let d = Deadline::never();
    assert!(d.is_never());
    assert!(!d.expired());
    assert_eq!(d.remaining(), Duration::max_value());
    assert!(d.check_or_err().is_ok());
    assert_eq!(d.instant(), None);
}

#[test]
fn lib_default_is_never() {
    assert!(Deadline::default().is_never());
}

#[test]
fn at_past_is_expired_and_remaining_zero() {
    let past = Instant::now() - StdDuration::from_secs(1);
    let d = Deadline::at(past);
    assert!(d.expired());
    assert_eq!(d.remaining(), Duration::zero());
}

#[test]
fn intersect_picks_earlier() {
    let parent = Deadline::after(Duration::from_secs(3600));
    let child = parent.intersect(&Deadline::after(Duration::from_secs(1)));
    assert!(child.remaining() <= Duration::from_secs(1));
    assert!(child.instant() < parent.instant());
}

#[test]
fn intersect_with_never_is_identity() {
    let parent = Deadline::after(Duration::from_secs(5));
    let child = parent.intersect(&Deadline::never());
    assert_eq!(child.instant(), parent.instant());
}

#[test]
fn equality_by_instant() {
    let target = Instant::now() + StdDuration::from_secs(5);
    assert_eq!(Deadline::at(target), Deadline::at(target));
    assert_eq!(Deadline::never(), Deadline::never());
    assert_ne!(Deadline::never(), Deadline::after(Duration::from_secs(1)));
}

#[test]
fn lib_deadline_is_copy() {
    let d = Deadline::after(Duration::from_secs(5));
    let copied = d;
    assert_eq!(d.instant(), copied.instant());
}

#[test]
fn after_sets_instant_relative_to_monotonic() {
    let before = Instant::now();
    let d = Deadline::after(Duration::from_millis(500));
    let after = Instant::now();
    let at = d.instant().expect("finite deadline has an instant");
    assert!(
        at >= before + StdDuration::from_millis(500),
        "deadline must not fire earlier than `before + duration`"
    );
    assert!(
        at <= after + StdDuration::from_millis(500) + StdDuration::from_micros(1),
        "deadline must not fire later than `after + duration` (slack 1us)"
    );
}

#[test]
fn after_zero_gives_already_expired_deadline() {
    let d = Deadline::after(Duration::zero());
    assert!(d.expired());
    assert_eq!(d.remaining(), Duration::zero());
}

#[test]
fn after_with_max_duration_falls_back_to_never() {
    let d = Deadline::after(Duration::max_value());
    assert!(d.is_never(), "overflow should fall back to never");
}

#[test]
fn never_is_not_expired_and_remaining_is_max() {
    let d = Deadline::never();
    assert!(d.is_never());
    assert!(!d.expired());
    assert_eq!(d.remaining(), Duration::max_value());
}

#[test]
fn never_check_or_err_is_noop() {
    let d = Deadline::never();
    for _ in 0..5 {
        d.check_or_err().expect("never should never error");
    }
}

#[test]
fn at_with_future_instant_constructs_finite_deadline() {
    let target = Instant::now() + StdDuration::from_secs(1);
    let d = Deadline::at(target);
    assert_eq!(d.instant(), Some(target));
    assert!(!d.expired());
}

#[test]
fn deadline_default_is_never() {
    let d: Deadline = Deadline::default();
    assert!(d.is_never());
}

// ---------- expired ----------

#[test]
fn expired_false_when_in_future() {
    let d = Deadline::after(Duration::from_secs(10));
    assert!(!d.expired());
}

#[test]
fn expired_true_when_past() {
    let d = Deadline::after(Duration::from_millis(1));
    wait_millis(15);
    assert!(d.expired());
}

// ---------- remaining ----------

#[test]
fn remaining_positive_when_in_future() {
    let d = Deadline::after(Duration::from_secs(1));
    let r = d.remaining();
    assert!(r > Duration::zero());
    assert!(r <= Duration::from_secs(1));
}

#[test]
fn remaining_zero_when_expired() {
    let d = Deadline::after(Duration::from_millis(1));
    wait_millis(15);
    assert_eq!(d.remaining(), Duration::zero());
}

#[test]
fn remaining_saturates_at_zero_not_negative() {
    let past = Instant::now() - StdDuration::from_secs(1);
    let d = Deadline::at(past);
    assert_eq!(d.remaining(), Duration::zero());
}

// ---------- check_or_err ----------

#[test]
fn check_or_err_ok_when_in_future() {
    let d = Deadline::after(Duration::from_secs(5));
    d.check_or_err().expect("should not error");
}

#[test]
fn check_or_err_errs_when_past() {
    let d = Deadline::after(Duration::from_millis(1));
    wait_millis(15);
    let err = d.check_or_err().expect_err("should have errored");
    assert!(err.elapsed > Duration::zero());
}

// ---------- elapsed ----------

#[test]
fn elapsed_counts_up() {
    let d = Deadline::after(Duration::from_secs(10));
    let e1 = d.elapsed();
    wait_millis(20);
    let e2 = d.elapsed();
    assert!(e2 > e1);
    assert!(e2.checked_sub(e1).unwrap() >= Duration::from_millis(15));
}

#[test]
fn elapsed_starts_near_zero() {
    let d = Deadline::after(Duration::from_secs(10));
    assert!(d.elapsed() < Duration::from_millis(50));
}

// ---------- intersect ----------

#[test]
fn intersect_picks_tighter_when_other_sooner() {
    let parent = Deadline::after(Duration::from_secs(60));
    let child_target = Deadline::after(Duration::from_secs(1));
    let child = parent.intersect(&child_target);
    assert!(child.remaining() <= Duration::from_secs(1));
    assert!(child.instant() < parent.instant());
}

#[test]
fn intersect_keeps_parent_when_other_later() {
    let parent = Deadline::after(Duration::from_secs(1));
    let later = Deadline::after(Duration::from_secs(60));
    let child = parent.intersect(&later);
    assert_eq!(child.instant(), parent.instant());
}

#[test]
fn intersect_with_never_keeps_self() {
    let parent = Deadline::after(Duration::from_secs(5));
    let child = parent.intersect(&Deadline::never());
    assert_eq!(child.instant(), parent.instant());
}

#[test]
fn intersect_never_with_finite_picks_finite() {
    let never = Deadline::never();
    let finite = Deadline::after(Duration::from_secs(5));
    let out = never.intersect(&finite);
    assert_eq!(out.instant(), finite.instant());
}

#[test]
fn intersect_two_nevers_is_never() {
    let a = Deadline::never();
    let b = Deadline::never();
    let out = a.intersect(&b);
    assert!(out.is_never());
}

#[test]
fn intersect_preserves_created_at_for_elapsed() {
    let parent = Deadline::after(Duration::from_secs(60));
    wait_millis(20);
    let child = parent.intersect(&Deadline::after(Duration::from_secs(1)));
    assert!(child.elapsed() >= Duration::from_millis(15));
}

#[test]
fn intersect_after_is_sugar_for_intersect_with_after() {
    let parent = Deadline::after(Duration::from_secs(60));
    let child = parent.intersect_after(Duration::from_millis(100));
    assert!(child.remaining() <= Duration::from_millis(100));
}

// ---------- equality ----------

#[test]
fn deadlines_with_same_at_are_equal() {
    let target = Instant::now() + StdDuration::from_secs(5);
    let a = Deadline::at(target);
    let b = Deadline::at(target);
    assert_eq!(a, b);
}

#[test]
fn two_nevers_are_equal() {
    assert_eq!(Deadline::never(), Deadline::never());
}

#[test]
fn never_is_not_equal_to_finite() {
    let finite = Deadline::after(Duration::from_secs(1));
    assert_ne!(Deadline::never(), finite);
}

// ---------- copy / clone ----------

#[test]
fn deadline_deadline_is_copy() {
    let d = Deadline::after(Duration::from_secs(5));
    let copied = d;
    assert_eq!(d.instant(), copied.instant());
}

// ---------- decisions at a given reading of the clock ----------

#[test]
fn remaining_at_subtracts_the_reading() {
    let fire = Instant::now() + StdDuration::from_secs(5);
    let d = Deadline::at(fire);
    assert_eq!(d.remaining_at(fire - StdDuration::from_secs(3)), Duration::from_secs(3));
    assert_eq!(d.remaining_at(fire), Duration::zero());
    assert_eq!(d.remaining_at(fire + StdDuration::from_secs(4)), Duration::zero());
    assert_eq!(Deadline::never().remaining_at(fire), Duration::max_value());
}

#[test]
fn expired_at_fires_exactly_at_the_instant() {
    let fire = Instant::now() + StdDuration::from_secs(5);
    let d = Deadline::at(fire);
    assert!(!d.expired_at(fire - StdDuration::from_nanos(1)));
    assert!(d.expired_at(fire));
    assert!(d.expired_at(fire + StdDuration::from_secs(1)));
    assert!(!Deadline::never().expired_at(fire));
}

#[test]
fn elapsed_at_measures_from_creation() {
    let d = Deadline::after(Duration::from_secs(10));
    let start = d.instant().unwrap() - StdDuration::from_secs(10);
    assert_eq!(d.elapsed_at(start + StdDuration::from_millis(250)), Duration::from_millis(250));
    assert_eq!(d.elapsed_at(start - StdDuration::from_secs(1)), Duration::zero());
}

#[test]
fn check_at_carries_the_reading() {
    let d = Deadline::after(Duration::from_millis(10));
    let start = d.instant().unwrap() - StdDuration::from_millis(10);
    assert_eq!(d.check_at(start + StdDuration::from_millis(9)), Ok(()));
    assert_eq!(
        d.check_at(start + StdDuration::from_millis(12)),
        Err(DeadlineExceeded { elapsed: Duration::from_millis(12) })
    );
}

#[test]
fn expired_exactly_when_nothing_remains() {
    let fire = Instant::now() + StdDuration::from_secs(5);
    let d = Deadline::at(fire);
    for secs in 0..10u64 {
        let now = fire - StdDuration::from_secs(5) + StdDuration::from_secs(secs);
        assert_eq!(d.expired_at(now), d.remaining_at(now).is_zero());
    }
}

#[test]
fn remaining_never_exceeds_the_budget() {
    let d = Deadline::after(Duration::from_millis(250));
    assert!(d.remaining() <= Duration::from_millis(250));
}

#[test]
fn intersect_tightens_remaining_for_both() {
    let a = Deadline::after(Duration::from_secs(60));
    let b = Deadline::after(Duration::from_secs(5));
    let both = a.intersect(&b);
    assert!(both.remaining() <= a.remaining());
    assert!(both.remaining() <= Duration::from_secs(5));
}

#[test]
fn intersect_is_symmetric_in_the_fire_instant() {
    let a = Deadline::after(Duration::from_secs(60));
    let b = Deadline::after(Duration::from_secs(5));
    assert_eq!(a.intersect(&b).instant(), b.intersect(&a).instant());
    assert_eq!(a.intersect(&b), b.intersect(&a));
    assert_eq!(a.intersect(&Deadline::never()), Deadline::never().intersect(&a));
}

#[test]
fn intersect_with_itself_is_itself() {
    let a = Deadline::after(Duration::from_secs(30));
    assert_eq!(a.intersect(&a).instant(), a.instant());
}

// ---------- snapshots ----------

#[test]
fn snapshot_of_never_is_none_and_restores_never() {
    let d = Deadline::never();
    assert_eq!(d.snapshot(), None);
    assert!(Deadline::from_snapshot(None).is_never());
}

#[test]
fn snapshot_of_finite_restores_the_remaining_time() {
    let d = Deadline::after(Duration::from_secs(5));
    let snap = d.snapshot().expect("finite deadline has a snapshot");
    assert!(snap <= Duration::from_secs(5));
    let back = Deadline::from_snapshot(Some(snap));
    assert!(!back.is_never());
    let diff = if back.remaining() > d.remaining() {
        back.remaining().checked_sub(d.remaining()).unwrap()
    } else {
        d.remaining().checked_sub(back.remaining()).unwrap()
    };
    assert!(diff < Duration::from_secs(1));
}

// ---------- hashing ----------

#[test]
fn equal_deadlines_hash_alike() {
    let target = Instant::now() + StdDuration::from_secs(5);
    let mut set = HashSet::new();
    set.insert(Deadline::at(target));
    assert!(set.contains(&Deadline::at(target)));
    set.insert(Deadline::never());
    assert!(set.contains(&Deadline::never()));
    assert_eq!(set.len(), 2);
}

#[test]
fn distinct_instants_are_not_equal() {
    let now = Instant::now();
    assert_ne!(Deadline::at(now), Deadline::at(now + StdDuration::from_nanos(1)));
}

// ---------- the documented usage ----------

#[test]
fn documented_usage_keeps_within_the_caps() {
    let deadline = Deadline::after(Duration::from_secs(30));
    deadline.check_or_err().unwrap();
    let remaining = deadline.remaining();
    assert!(remaining <= Duration::from_secs(30));
    let retry = deadline.intersect(&Deadline::after(Duration::from_secs(5)));
    assert!(retry.remaining() <= Duration::from_secs(5));
}

// ---------- properties at concrete readings ----------

#[test]
fn expiry_is_permanent_and_remaining_never_grows() {
    let d = Deadline::after(Duration::from_secs(5));
    let start = d.instant().unwrap() - StdDuration::from_secs(5);
    let mut last = d.remaining_at(start);
    let mut was_expired = false;
    for millis in (0..10_000u64).step_by(250) {
        let e = start + StdDuration::from_millis(millis);
        let now_expired = d.expired_at(e);
        assert!(!was_expired || now_expired);
        was_expired = now_expired;
        let r = d.remaining_at(e);
        assert!(r <= last);
        last = r;
    }
    assert!(was_expired);
}

#[test]
fn intersect_associates() {
    let a = Deadline::after(Duration::from_secs(20));
    let b = Deadline::after(Duration::from_secs(3));
    let c = Deadline::after(Duration::from_secs(9));
    let left = a.intersect(&b).intersect(&c);
    let right = a.intersect(&b.intersect(&c));
    assert_eq!(left.instant(), right.instant());
    assert_eq!(left.instant(), b.instant());
}

#[test]
fn snapshot_at_is_the_remaining_time_at_the_reading() {
    let fire = Instant::now() + StdDuration::from_secs(5);
    let d = Deadline::at(fire);
    assert_eq!(d.snapshot_at(fire - StdDuration::from_secs(2)), Some(Duration::from_secs(2)));
    assert_eq!(Deadline::never().snapshot_at(fire), None);
}
