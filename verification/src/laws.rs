//! Properties of deadlines that span several calls or every reading of the
//! clock, stated over the same models that the functions' contracts use.
use crate::clock::instant_position;
use crate::deadline::{
    earlier_instant, elapsed_model, expired_model, position_of, remaining_model, Deadline,
};
use crate::duration::{Duration, MAX_NANOS};
use std::time::Instant;
use vstd::prelude::*;
use vstd::std_specs::cmp::PartialEqSpec;

verus! {

/// A deadline has passed exactly when no time remains before it.
pub proof fn lemma_expired_iff_nothing_remains(fire: Option<int>, now: int)
    ensures
        expired_model(fire, now) <==> remaining_model(fire, now) == 0,
{
}

/// Once a deadline has passed it stays passed: a later reading of the clock
/// finds it passed too.
pub proof fn lemma_expiry_is_permanent(fire: Option<int>, earlier_reading: int, later_reading: int)
    requires
        earlier_reading <= later_reading,
        expired_model(fire, earlier_reading),
    ensures
        expired_model(fire, later_reading),
{
}

/// The remaining time never grows as the clock advances.
pub proof fn lemma_remaining_never_grows(fire: Option<int>, earlier_reading: int, later_reading: int)
    requires
        earlier_reading <= later_reading,
    ensures
        remaining_model(fire, later_reading) <= remaining_model(fire, earlier_reading),
{
}

/// The elapsed time counts up with the clock: between two readings at or
/// after the creation it grows by exactly the time between them.
pub proof fn lemma_elapsed_counts_up(d: Deadline, first: Instant, second: Instant)
    requires
        instant_position(d.created_at()) <= instant_position(first) <= instant_position(second),
    ensures
        d.elapsed_until(first) <= d.elapsed_until(second),
        d.elapsed_until(second) - d.elapsed_until(first) == instant_position(second)
            - instant_position(first),
{
}

/// A deadline made by `after(duration)` that did not fall back to `never`
/// never has more than `duration` remaining at any reading from its creation
/// on.
pub proof fn lemma_remaining_within_budget(d: Deadline, duration: Duration, now: Instant)
    requires
        d.after_outcome(duration),
        d.fire_instant() is Some,
        instant_position(d.created_at()) <= instant_position(now),
    ensures
        remaining_model(d.fire_position(), instant_position(now)) <= duration@,
{
}

/// A deadline made by `after(duration)` has passed exactly when `duration`
/// has elapsed since its creation, unless it fell back to `never`.
pub proof fn lemma_after_expires_after_duration(d: Deadline, duration: Duration, now: Instant)
    requires
        d.after_outcome(duration),
        d.fire_instant() is Some,
        instant_position(d.created_at()) <= instant_position(now),
    ensures
        expired_model(d.fire_position(), instant_position(now)) <==> duration@ <= d.elapsed_until(
            now,
        ),
{
}

/// `after(Duration::zero())` has passed at every reading from its creation on.
pub proof fn lemma_after_zero_is_expired(d: Deadline, duration: Duration, now: Instant)
    requires
        d.after_outcome(duration),
        duration@ == 0,
        instant_position(d.created_at()) <= instant_position(now),
    ensures
        expired_model(d.fire_position(), instant_position(now)),
        remaining_model(d.fire_position(), instant_position(now)) == 0,
{
}

/// A longer duration, taken no earlier, never fires sooner.
pub proof fn lemma_after_is_monotone(a: Deadline, da: Duration, b: Deadline, db: Duration)
    requires
        a.after_outcome(da),
        b.after_outcome(db),
        a.fire_instant() is Some,
        b.fire_instant() is Some,
        da@ <= db@,
        instant_position(a.created_at()) <= instant_position(b.created_at()),
    ensures
        instant_position(a.fire_instant().unwrap()) <= instant_position(b.fire_instant().unwrap()),
{
}

/// A deadline at an instant has passed exactly when the clock has reached
/// that instant; one in the past has nothing remaining.
pub proof fn lemma_at_fires_at_its_instant(d: Deadline, at: Instant, now: Instant)
    requires
        d.fire_instant() == Some(at),
    ensures
        expired_model(d.fire_position(), instant_position(now)) <==> instant_position(at)
            <= instant_position(now),
        instant_position(at) <= instant_position(now) ==> remaining_model(
            d.fire_position(),
            instant_position(now),
        ) == 0,
{
}

/// `never` never expires, always has the longest duration remaining, and its
/// check always succeeds.
pub proof fn lemma_never_never_fires(d: Deadline, now: Instant, r: Result<(), crate::deadline::DeadlineExceeded>)
    requires
        d.fire_instant() is None,
        d.check_outcome(now, r),
    ensures
        !expired_model(d.fire_position(), instant_position(now)),
        remaining_model(d.fire_position(), instant_position(now)) == MAX_NANOS,
        r is Ok,
{
}

/// A failed check carries at least the time from creation to the fire
/// instant.
pub proof fn lemma_check_error_carries_elapsed(
    d: Deadline,
    now: Instant,
    r: Result<(), crate::deadline::DeadlineExceeded>,
)
    requires
        d.check_outcome(now, r),
        r is Err,
    ensures
        d.fire_instant() is Some,
        r matches Err(e) ==> e.elapsed@ == d.elapsed_until(now),
        r matches Err(e) ==> elapsed_model(
            instant_position(d.created_at()),
            instant_position(d.fire_instant().unwrap()),
        ) <= e.elapsed@,
{
}

/// Intersecting with `never` keeps the deadline as it is, and `never`
/// intersected with a deadline takes that deadline's fire instant.
pub proof fn lemma_intersect_never_is_identity(a: Deadline, b: Deadline, r: Deadline)
    requires
        Deadline::intersect_outcome(a, b, r),
    ensures
        b.fire_instant() is None ==> r.fire_instant() == a.fire_instant(),
        a.fire_instant() is None ==> r.fire_instant() == b.fire_instant(),
        r.fire_instant() is None <==> (a.fire_instant() is None && b.fire_instant() is None),
{
}

/// The intersection keeps the creation time of its first deadline, so its
/// elapsed time is the first deadline's at every reading.
pub proof fn lemma_intersect_keeps_elapsed(a: Deadline, b: Deadline, r: Deadline, now: Instant)
    requires
        Deadline::intersect_outcome(a, b, r),
    ensures
        r.elapsed_until(now) == a.elapsed_until(now),
{
}

/// The intersection fires no later than either deadline, at one of their
/// two instants.
pub proof fn lemma_intersect_is_no_later(a: Deadline, b: Deadline, r: Deadline)
    requires
        Deadline::intersect_outcome(a, b, r),
    ensures
        a.fire_instant() matches Some(x) ==> (r.fire_instant() matches Some(y) && instant_position(y)
            <= instant_position(x)),
        b.fire_instant() matches Some(x) ==> (r.fire_instant() matches Some(y) && instant_position(y)
            <= instant_position(x)),
        r.fire_instant() == a.fire_instant() || r.fire_instant() == b.fire_instant(),
{
}

/// At every reading, the intersection has no more time remaining than either
/// deadline, and it has passed exactly when one of them has.
pub proof fn lemma_intersect_tightens(a: Deadline, b: Deadline, r: Deadline, now: int)
    requires
        Deadline::intersect_outcome(a, b, r),
        a.fire_position() matches Some(f) ==> f - now <= MAX_NANOS,
        b.fire_position() matches Some(f) ==> f - now <= MAX_NANOS,
    ensures
        remaining_model(r.fire_position(), now) <= remaining_model(a.fire_position(), now),
        remaining_model(r.fire_position(), now) <= remaining_model(b.fire_position(), now),
        expired_model(r.fire_position(), now) <==> (expired_model(a.fire_position(), now)
            || expired_model(b.fire_position(), now)),
{
}

/// Intersecting a deadline with itself keeps its fire instant.
pub proof fn lemma_intersect_idempotent(a: Option<Instant>)
    ensures
        earlier_instant(a, a) == a,
{
}

/// The order of intersection does not matter: intersecting `a` with `b` and
/// `b` with `a` give equal deadlines (they fire at the same instant; each
/// keeps its own receiver's creation time).
pub proof fn lemma_intersect_commutes(a: Deadline, b: Deadline, r_ab: Deadline, r_ba: Deadline)
    requires
        Deadline::intersect_outcome(a, b, r_ab),
        Deadline::intersect_outcome(b, a, r_ba),
    ensures
        r_ab.eq_spec(&r_ba),
        position_of(earlier_instant(a.fire_instant(), b.fire_instant())) == position_of(
            earlier_instant(b.fire_instant(), a.fire_instant()),
        ),
{
}

/// Nesting intersections either way round gives the same fire instant.
pub proof fn lemma_intersect_associates(a: Option<Instant>, b: Option<Instant>, c: Option<Instant>)
    ensures
        earlier_instant(earlier_instant(a, b), c) == earlier_instant(a, earlier_instant(b, c)),
{
}

/// Two deadlines are equal exactly when they fire at the same position on
/// the clock; so `never` equals `never` and no finite deadline, and a
/// deadline equals itself.
pub proof fn lemma_equality_by_instant(a: Deadline, b: Deadline)
    ensures
        a.eq_spec(&a),
        a.fire_instant() is None ==> (a.eq_spec(&b) <==> b.fire_instant() is None),
        a.fire_instant() == b.fire_instant() ==> a.eq_spec(&b),
{
}

/// A deadline restored from a snapshot taken when the clock read `taken`
/// has, at its own creation, as much time remaining as the original had at
/// `taken`; so it is expired right away exactly when the original was.
pub proof fn lemma_snapshot_round_trip(
    d: Deadline,
    taken: Instant,
    snapshot: Duration,
    restored: Deadline,
)
    requires
        d.fire_instant() is Some,
        snapshot@ == remaining_model(d.fire_position(), instant_position(taken)),
        restored.after_outcome(snapshot),
        restored.fire_instant() is Some,
    ensures
        remaining_model(restored.fire_position(), instant_position(restored.created_at()))
            == remaining_model(d.fire_position(), instant_position(taken)),
        expired_model(restored.fire_position(), instant_position(restored.created_at()))
            <==> expired_model(d.fire_position(), instant_position(taken)),
{
}

} // verus!
