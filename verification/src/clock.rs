//! The monotonic clock and the `std::time` calls that the deadline logic makes.
//!
//! Each function here is trusted: Verus believes its contract and does not
//! read its body. Instants are placed on a timeline by
//! [`instant_position`], and a `std` duration has a length in nanoseconds,
//! [`std_duration_nanos`]; the contracts state what `std` documents of its
//! calls over these two names. A reading of the clock depends on the time, so
//! nothing is promised of which instant it returns.
use std::time::Duration as StdDuration;
use std::time::Instant;
use vstd::prelude::*;

verus! {

/// `std::time::Instant`, a reading of the monotonic clock, carried opaquely.
#[verifier::external_type_specification]
#[verifier::external_body]
pub struct ExInstant(std::time::Instant);

/// The position of an instant on the monotonic clock, in nanoseconds from an
/// unspecified origin. `std` compares and subtracts instants by it.
pub uninterp spec fn instant_position(instant: Instant) -> int;

/// The length of a `std::time::Duration` in nanoseconds.
pub uninterp spec fn std_duration_nanos(span: StdDuration) -> nat;

/// What `Duration::new` of `std` returns for `secs` and `nanos`.
pub uninterp spec fn std_duration_of(secs: u64, nanos: u32) -> StdDuration;

/// What `Instant::checked_add` returns for `instant` and `span`.
pub uninterp spec fn instant_checked_sum(instant: Instant, span: StdDuration) -> Option<Instant>;

/// Calls `Instant::now`: the current reading of the monotonic clock.
/// Nothing is promised of the reading.
#[verifier::external_body]
pub fn clock_now() -> (r: Instant) {
    Instant::now()
}

/// A reading of the monotonic clock. Its instant is private and only
/// [`ClockReading::take`] makes one, so every value of this type holds an
/// instant that `Instant::now` returned, never one built by arithmetic.
#[derive(Debug, Clone, Copy)]
pub struct ClockReading {
    instant: Instant,
}

impl ClockReading {
    /// The instant that the clock returned.
    pub closed spec fn read_instant(self) -> Instant {
        self.instant
    }

    /// Reads the clock now.
    pub fn take() -> (r: ClockReading) {
        ClockReading { instant: clock_now() }
    }

    /// The instant that the clock returned.
    pub fn instant(&self) -> (r: Instant)
        ensures
            r == self.read_instant(),
    {
        self.instant
    }
}

/// Calls `Instant::checked_add`: `Some(t)` where `t`, the time `instant +
/// span`, can be represented as an `Instant`, and `None` otherwise. Which
/// sums can be represented depends on the platform, so that is not stated;
/// adding a zero span gives back a representable instant.
#[verifier::external_body]
pub fn instant_checked_add(instant: &Instant, span: StdDuration) -> (r: Option<Instant>)
    ensures
        r == instant_checked_sum(*instant, span),
        r matches Some(t) ==> instant_position(t) == instant_position(*instant)
            + std_duration_nanos(span),
        std_duration_nanos(span) == 0 ==> r is Some,
{
    instant.checked_add(span)
}

/// Calls `Instant::saturating_duration_since`: how far `later` lies after
/// `earlier`, or zero where it lies before.
#[verifier::external_body]
pub fn instant_saturating_duration_since(later: &Instant, earlier: &Instant) -> (r: StdDuration)
    ensures
        std_duration_nanos(r) == (if instant_position(*earlier) <= instant_position(*later) {
            instant_position(*later) - instant_position(*earlier)
        } else {
            0
        }),
{
    later.saturating_duration_since(*earlier)
}

/// Calls `>=` on two instants: whether `later` lies at or after `earlier` on
/// the clock.
#[verifier::external_body]
pub fn instant_at_or_after(later: &Instant, earlier: &Instant) -> (r: bool)
    ensures
        r == (instant_position(*earlier) <= instant_position(*later)),
{
    *later >= *earlier
}

/// Calls `Ord::min` on two instants: the earlier one, and the first where the
/// two compare equal.
#[verifier::external_body]
pub fn instant_earlier_of(first: &Instant, second: &Instant) -> (r: Instant)
    ensures
        r == (if instant_position(*second) < instant_position(*first) {
            *second
        } else {
            *first
        }),
{
    (*first).min(*second)
}

/// Calls `==` on two instants. `Instant` derives `PartialEq` over its
/// fields, so the comparison is true exactly when the two values are the same;
/// and `Instant`'s `Ord` agrees with its `Eq`, so it is true exactly when the
/// two lie at the same position on the clock.
#[verifier::external_body]
pub fn instant_same(a: &Instant, b: &Instant) -> (r: bool)
    ensures
        r == (*a == *b),
        r == (instant_position(*a) == instant_position(*b)),
{
    a.eq(b)
}

/// Calls `Duration::new` of `std`: `secs` seconds and `nanos` nanoseconds.
/// With `nanos` below one billion no carry can overflow, so it does not panic.
#[verifier::external_body]
pub fn std_duration_new(secs: u64, nanos: u32) -> (r: StdDuration)
    requires
        nanos < 1_000_000_000,
    ensures
        r == std_duration_of(secs, nanos),
        std_duration_nanos(r) == secs * 1_000_000_000 + nanos,
{
    StdDuration::new(secs, nanos)
}

/// Calls `Duration::as_secs` of `std`: the whole seconds of the span.
#[verifier::external_body]
pub fn std_duration_secs(span: &StdDuration) -> (r: u64)
    ensures
        r == std_duration_nanos(*span) / 1_000_000_000,
{
    span.as_secs()
}

/// Calls `Duration::subsec_nanos` of `std`: the fractional part of the span
/// in nanoseconds, which is less than one billion.
#[verifier::external_body]
pub fn std_duration_subsec_nanos(span: &StdDuration) -> (r: u32)
    ensures
        r == std_duration_nanos(*span) % 1_000_000_000,
{
    span.subsec_nanos()
}

/// Calls `Hash::hash` of an optional instant, feeding it to `state`.
#[verifier::external_body]
pub fn hash_optional_instant<H: std::hash::Hasher>(value: &Option<Instant>, state: &mut H) {
    std::hash::Hash::hash(value, state)
}

} // verus!
