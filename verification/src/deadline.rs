//! The cooperative deadline and the error it reports once it has passed.
//!
//! Contracts place instants on the clock's timeline by their position
//! ([`instant_position`]). Every function that reads the clock has a
//! counterpart that takes the reading as an argument and is exact; the
//! reading function itself states that its result is the counterpart's for
//! some reading.
use crate::clock::{
    clock_now, hash_optional_instant, ClockReading, instant_at_or_after, instant_checked_add,
    instant_checked_sum, instant_earlier_of, instant_position, instant_same,
    instant_saturating_duration_since,
};
use crate::duration::{Duration, MAX_NANOS};
use std::time::Instant;
use vstd::prelude::*;
use vstd::std_specs::cmp::PartialEqSpecImpl;

verus! {

/// Returned by [`Deadline::check_or_err`] when a deadline has been exceeded.
#[derive(Debug, Clone, Copy, PartialEq, Eq, Structural)]
pub struct DeadlineExceeded {
    /// How long had elapsed since the deadline was created when it fired.
    pub elapsed: Duration,
}

/// A cooperative per-task deadline.
///
/// A `Deadline` is a point in time (an `Instant`), or the sentinel
/// [`Deadline::never`] that never expires. It does not cancel work:
/// [`Deadline::check_or_err`] returns `Err(DeadlineExceeded)` so callers can
/// stop voluntarily.
///
/// Equality compares the fire instant only (equal instants are those at the
/// same position on the clock); two `never` deadlines are equal, and `never`
/// is never equal to a finite deadline.
#[derive(Debug, Clone, Copy)]
pub struct Deadline {
    /// When this deadline was created: a reading of the clock taken when it
    /// was made. Used by [`Deadline::elapsed`].
    created_at: ClockReading,
    /// The instant at which this deadline fires, or `None` for `never`.
    at: Option<Instant>,
}

/// The position of an optional instant on the clock.
pub open spec fn position_of(instant: Option<Instant>) -> Option<int> {
    match instant {
        Some(i) => Some(instant_position(i)),
        None => None,
    }
}

/// Whether a deadline that fires at position `fire` has passed when the
/// clock reads position `now`. `never` (`None`) has not.
pub open spec fn expired_model(fire: Option<int>, now: int) -> bool {
    match fire {
        Some(f) => f <= now,
        None => false,
    }
}

/// The nanoseconds left before a deadline that fires at position `fire`
/// when the clock reads position `now`: zero once it has passed, and the
/// longest duration for `never`.
pub open spec fn remaining_model(fire: Option<int>, now: int) -> int {
    match fire {
        Some(f) => if f <= now {
            0
        } else {
            f - now
        },
        None => MAX_NANOS as int,
    }
}

/// The nanoseconds from position `from` to position `now`, zero where `now`
/// lies before.
pub open spec fn elapsed_model(from: int, now: int) -> int {
    if from <= now {
        now - from
    } else {
        0
    }
}

/// The earlier of two optional instants, the first where they lie at the
/// same position; `None` (`never`) is the identity.
pub open spec fn earlier_instant(a: Option<Instant>, b: Option<Instant>) -> Option<Instant> {
    match (a, b) {
        (Some(x), Some(y)) => Some(
            if instant_position(y) < instant_position(x) {
                y
            } else {
                x
            },
        ),
        (Some(x), None) => Some(x),
        (None, Some(y)) => Some(y),
        (None, None) => None,
    }
}

impl Deadline {
    /// The instant at which the deadline fires; `None` for `never`.
    pub closed spec fn fire_instant(self) -> Option<Instant> {
        self.at
    }

    /// The instant at which the deadline was created.
    pub closed spec fn created_at(self) -> Instant {
        self.created_at.read_instant()
    }

    /// The position on the clock at which the deadline fires; `None` for
    /// `never`.
    pub open spec fn fire_position(self) -> Option<int> {
        position_of(self.fire_instant())
    }

    /// The nanoseconds elapsed since the deadline's creation when the clock
    /// reads `now`.
    pub open spec fn elapsed_until(self, now: Instant) -> int {
        elapsed_model(instant_position(self.created_at()), instant_position(now))
    }

    /// What [`Deadline::after`] returns for `duration`: it fires at the sum
    /// that `Instant::checked_add` gives for its creation instant and
    /// `duration`, which lies `duration` after the creation; it is `never`
    /// exactly when that sum cannot be represented.
    pub open spec fn after_outcome(self, duration: Duration) -> bool {
        &&& self.fire_instant() == instant_checked_sum(self.created_at(), duration.std_form())
        &&& self.fire_instant() matches Some(t) ==> instant_position(t) == instant_position(
            self.created_at(),
        ) + duration@
        &&& duration@ == 0 ==> self.fire_instant() is Some
    }

    /// What intersecting `a` with `b` returns: `a`'s creation instant and the
    /// earlier of the two fire instants.
    pub open spec fn intersect_outcome(a: Deadline, b: Deadline, r: Deadline) -> bool {
        &&& r.created_at() == a.created_at()
        &&& r.fire_instant() == earlier_instant(a.fire_instant(), b.fire_instant())
    }

    /// What a check when the clock reads `now` returns: an error exactly when
    /// the deadline has passed, carrying the time elapsed since creation.
    pub open spec fn check_outcome(self, now: Instant, r: Result<(), DeadlineExceeded>) -> bool {
        &&& r is Err <==> expired_model(self.fire_position(), instant_position(now))
        &&& r matches Err(e) ==> e.elapsed@ == self.elapsed_until(now)
    }

    /// Create a deadline that fires `duration` from now.
    ///
    /// If adding `duration` to the current instant overflows (for example
    /// [`Duration::max_value`]), the deadline falls back to
    /// [`never`](Deadline::never). Which sums overflow is up to `std`.
    pub fn after(duration: Duration) -> (r: Deadline)
        ensures
            r.after_outcome(duration),
    {
        let created_at = ClockReading::take();
        let at = instant_checked_add(&created_at.instant(), duration.to_std());
        Deadline { created_at, at }
    }

    /// Create a deadline that fires at the absolute instant `at`.
    pub fn at(at: Instant) -> (r: Deadline)
        ensures
            r.fire_instant() == Some(at),
    {
        Deadline { created_at: ClockReading::take(), at: Some(at) }
    }

    /// Create a deadline that never fires.
    pub fn never() -> (r: Deadline)
        ensures
            r.fire_instant() is None,
    {
        Deadline { created_at: ClockReading::take(), at: None }
    }

    /// True when this is the [`never`](Deadline::never) deadline.
    pub fn is_never(&self) -> (r: bool)
        ensures
            r == (self.fire_instant() is None),
    {
        self.at.is_none()
    }

    /// The instant at which this deadline fires, or `None` for `never`.
    pub fn instant(&self) -> (r: Option<Instant>)
        ensures
            r == self.fire_instant(),
    {
        self.at
    }

    /// Time elapsed since this deadline was created, when the clock reads
    /// `now`; zero where `now` lies before the creation.
    pub fn elapsed_at(&self, now: Instant) -> (r: Duration)
        ensures
            r@ == self.elapsed_until(now),
    {
        Duration::from_std(instant_saturating_duration_since(&now, &self.created_at.instant()))
    }

    /// Time elapsed since this deadline was created, read from the clock now.
    pub fn elapsed(&self) -> (r: Duration)
        ensures
            exists|now: Instant| #[trigger] self.elapsed_until(now) == r@,
    {
        let now = clock_now();
        let r = self.elapsed_at(now);
        assert(self.elapsed_until(now) == r@);
        r
    }

    /// True when the clock reading `now` has reached the deadline. Always
    /// `false` for `never`.
    pub fn expired_at(&self, now: Instant) -> (r: bool)
        ensures
            r == expired_model(self.fire_position(), instant_position(now)),
    {
        match self.at {
            Some(at) => instant_at_or_after(&now, &at),
            None => false,
        }
    }

    /// True once the current time has passed the deadline.
    ///
    /// Always `false` for [`never`](Deadline::never).
    pub fn expired(&self) -> (r: bool)
        ensures
            exists|now: Instant| #[trigger] expired_model(self.fire_position(), instant_position(now)) == r,
    {
        let now = clock_now();
        let r = self.expired_at(now);
        assert(expired_model(self.fire_position(), instant_position(now)) == r);
        r
    }

    /// Time remaining when the clock reads `now`, saturating at zero; the
    /// longest duration for `never`.
    pub fn remaining_at(&self, now: Instant) -> (r: Duration)
        ensures
            r@ == remaining_model(self.fire_position(), instant_position(now)),
    {
        match self.at {
            Some(at) => Duration::from_std(instant_saturating_duration_since(&at, &now)),
            None => Duration::max_value(),
        }
    }

    /// Time remaining until the deadline, saturating at zero.
    ///
    /// Returns the longest duration for [`never`](Deadline::never).
    pub fn remaining(&self) -> (r: Duration)
        ensures
            exists|now: Instant| #[trigger] remaining_model(self.fire_position(), instant_position(now)) == r@,
    {
        let now = clock_now();
        let r = self.remaining_at(now);
        assert(remaining_model(self.fire_position(), instant_position(now)) == r@);
        r
    }

    /// `Err(DeadlineExceeded)` if the clock reading `now` has reached the
    /// deadline, carrying the time elapsed since creation at `now`;
    /// `Ok(())` otherwise.
    pub fn check_at(&self, now: Instant) -> (r: Result<(), DeadlineExceeded>)
        ensures
            self.check_outcome(now, r),
    {
        if self.expired_at(now) {
            Err(DeadlineExceeded { elapsed: self.elapsed_at(now) })
        } else {
            Ok(())
        }
    }

    /// Return `Err(DeadlineExceeded)` if the deadline has been exceeded.
    ///
    /// A no-op (always `Ok`) for [`never`](Deadline::never). The clock is
    /// read once, and the error carries the time elapsed at that reading.
    pub fn check_or_err(&self) -> (r: Result<(), DeadlineExceeded>)
        ensures
            exists|now: Instant| #[trigger] self.check_outcome(now, r),
    {
        let now = clock_now();
        self.check_at(now)
    }

    /// Return a deadline that fires at the earlier of `self` and `other`.
    ///
    /// The returned deadline keeps `self`'s creation time, so
    /// [`elapsed`](Deadline::elapsed) keeps measuring from the original start.
    /// [`never`](Deadline::never) acts as the identity: intersecting with
    /// `never` never tightens the deadline.
    pub fn intersect(&self, other: &Deadline) -> (r: Deadline)
        ensures
            Deadline::intersect_outcome(*self, *other, r),
    {
        let at = match (self.at, other.at) {
            (Some(a), Some(b)) => Some(instant_earlier_of(&a, &b)),
            (Some(a), None) => Some(a),
            (None, Some(b)) => Some(b),
            (None, None) => None,
        };
        Deadline { created_at: self.created_at, at }
    }

    /// Sugar for `self.intersect(&Deadline::after(duration))`.
    pub fn intersect_after(&self, duration: Duration) -> (r: Deadline)
        ensures
            exists|other: Deadline|
                #![trigger other.after_outcome(duration), Deadline::intersect_outcome(*self, other, r)]
                other.after_outcome(duration) && Deadline::intersect_outcome(*self, other, r),
    {
        let other = Deadline::after(duration);
        self.intersect(&other)
    }

    /// The serialized form of a deadline when the clock reads `now`: `None`
    /// for `never`, otherwise the time remaining at `now`.
    pub fn snapshot_at(&self, now: Instant) -> (r: Option<Duration>)
        ensures
            r is Some <==> self.fire_instant() is Some,
            r matches Some(d) ==> d@ == remaining_model(self.fire_position(), instant_position(now)),
    {
        match self.at {
            Some(_) => Some(self.remaining_at(now)),
            None => None,
        }
    }

    /// The serialized form of a deadline: `None` for `never`, otherwise a
    /// snapshot of the remaining time, read from the clock now.
    pub fn snapshot(&self) -> (r: Option<Duration>)
        ensures
            r is Some <==> self.fire_instant() is Some,
            r matches Some(d) ==> exists|now: Instant| #[trigger] remaining_model(self.fire_position(), instant_position(now)) == d@,
    {
        let now = clock_now();
        let r = self.snapshot_at(now);
        assert(r matches Some(d) ==> remaining_model(self.fire_position(), instant_position(now)) == d@);
        r
    }

    /// The deadline that a snapshot describes: one that fires the snapshot's
    /// remaining time from now, or `never`.
    pub fn from_snapshot(snapshot: Option<Duration>) -> (r: Deadline)
        ensures
            snapshot is None ==> r.fire_instant() is None,
            snapshot matches Some(d) ==> r.after_outcome(d),
    {
        match snapshot {
            Some(remaining) => Deadline::after(remaining),
            None => Deadline::never(),
        }
    }
}

impl Default for Deadline {
    /// The default deadline is [`never`](Deadline::never).
    fn default() -> (r: Deadline)
        ensures
            r.fire_instant() is None,
    {
        Deadline::never()
    }
}

impl PartialEq for Deadline {
    /// Equality is by the fire instant only; creation time is ignored.
    fn eq(&self, other: &Deadline) -> (r: bool) {
        match (self.at, other.at) {
            (Some(a), Some(b)) => instant_same(&a, &b),
            (None, None) => true,
            _ => false,
        }
    }
}

impl PartialEqSpecImpl for Deadline {
    open spec fn obeys_eq_spec() -> bool {
        true
    }

    open spec fn eq_spec(&self, other: &Deadline) -> bool {
        self.fire_position() == other.fire_position()
    }
}

impl Eq for Deadline {

}

impl std::hash::Hash for Deadline {
    /// Hashes the fire instant only, consistently with equality.
    fn hash<H: std::hash::Hasher>(&self, state: &mut H) {
        hash_optional_instant(&self.at, state);
    }
}

} // verus!
