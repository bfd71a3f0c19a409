//! A span of time held as a plain count of nanoseconds.
//!
//! `Duration` has the range of `std::time::Duration`: up to `u64::MAX` whole
//! seconds plus 999_999_999 nanoseconds. Its view is the number of
//! nanoseconds, so contracts can speak of it with ordinary arithmetic.
use crate::clock::{
    std_duration_nanos, std_duration_new, std_duration_of, std_duration_secs,
    std_duration_subsec_nanos,
};
use std::time::Duration as StdDuration;
use vstd::prelude::*;

verus! {

/// Nanoseconds in one second.
pub const NANOS_PER_SEC: u128 = 1_000_000_000u128;

/// The longest span a [`Duration`] holds, in nanoseconds
/// (`u64::MAX` seconds plus 999_999_999 nanoseconds).
pub const MAX_NANOS: u128 = 18_446_744_073_709_551_615_999_999_999u128;

/// A span of time, in nanoseconds.
#[derive(Clone, Copy, Debug, PartialEq, Eq, PartialOrd, Ord, Hash, Structural)]
pub struct Duration {
    nanos: u128,
}

impl View for Duration {
    type V = nat;

    closed spec fn view(&self) -> nat {
        self.nanos as nat
    }
}

impl Duration {
    #[verifier::type_invariant]
    spec fn within_range(self) -> bool {
        self.nanos <= MAX_NANOS
    }

    /// `secs` whole seconds plus `nanos` nanoseconds; the nanoseconds may
    /// exceed one second and carry into the seconds.
    ///
    /// The total must fit the range of a `Duration`.
    pub fn new(secs: u64, nanos: u32) -> (r: Duration)
        requires
            secs * NANOS_PER_SEC + nanos <= MAX_NANOS,
        ensures
            r@ == secs * NANOS_PER_SEC + nanos,
    {
        Duration { nanos: secs as u128 * NANOS_PER_SEC + nanos as u128 }
    }

    /// The empty span.
    pub fn zero() -> (r: Duration)
        ensures
            r@ == 0,
    {
        Duration { nanos: 0 }
    }

    /// The longest span, [`MAX_NANOS`] nanoseconds.
    pub fn max_value() -> (r: Duration)
        ensures
            r@ == MAX_NANOS,
    {
        Duration { nanos: MAX_NANOS }
    }

    /// `secs` whole seconds.
    pub fn from_secs(secs: u64) -> (r: Duration)
        ensures
            r@ == secs * NANOS_PER_SEC,
    {
        Duration { nanos: secs as u128 * NANOS_PER_SEC }
    }

    /// `millis` milliseconds.
    pub fn from_millis(millis: u64) -> (r: Duration)
        ensures
            r@ == millis * 1_000_000,
    {
        Duration { nanos: millis as u128 * 1_000_000u128 }
    }

    /// `micros` microseconds.
    pub fn from_micros(micros: u64) -> (r: Duration)
        ensures
            r@ == micros * 1_000,
    {
        Duration { nanos: micros as u128 * 1_000u128 }
    }

    /// `nanos` nanoseconds.
    pub fn from_nanos(nanos: u64) -> (r: Duration)
        ensures
            r@ == nanos,
    {
        Duration { nanos: nanos as u128 }
    }

    /// The total number of nanoseconds.
    pub fn as_nanos(&self) -> (r: u128)
        ensures
            r == self@,
            r <= MAX_NANOS,
    {
        proof {
            use_type_invariant(self);
        }
        self.nanos
    }

    /// The whole seconds.
    pub fn as_secs(&self) -> (r: u64)
        ensures
            r == self@ / (NANOS_PER_SEC as nat),
    {
        proof {
            use_type_invariant(self);
        }
        let n: u128 = self.nanos;
        assert(n / 1_000_000_000u128 <= 18_446_744_073_709_551_615u128) by (nonlinear_arith)
            requires
                n <= 18_446_744_073_709_551_615_999_999_999u128,
        ;
        (n / NANOS_PER_SEC) as u64
    }

    /// The nanoseconds beyond the whole seconds, always below one billion.
    pub fn subsec_nanos(&self) -> (r: u32)
        ensures
            r == self@ % (NANOS_PER_SEC as nat),
            r < NANOS_PER_SEC,
    {
        (self.nanos % NANOS_PER_SEC) as u32
    }

    /// True for the empty span.
    pub fn is_zero(&self) -> (r: bool)
        ensures
            r == (self@ == 0),
    {
        self.nanos == 0
    }

    /// The sum of two spans, or `None` when it exceeds [`MAX_NANOS`].
    pub fn checked_add(&self, other: Duration) -> (r: Option<Duration>)
        ensures
            r is Some <==> self@ + other@ <= MAX_NANOS,
            r matches Some(s) ==> s@ == self@ + other@,
    {
        proof {
            use_type_invariant(self);
            use_type_invariant(&other);
        }
        if self.nanos <= MAX_NANOS - other.nanos {
            Some(Duration { nanos: self.nanos + other.nanos })
        } else {
            None
        }
    }

    /// The difference `self - other`, or `None` when `other` is longer.
    pub fn checked_sub(&self, other: Duration) -> (r: Option<Duration>)
        ensures
            r is Some <==> other@ <= self@,
            r matches Some(s) ==> s@ == self@ - other@,
    {
        proof {
            use_type_invariant(self);
        }
        if other.nanos <= self.nanos {
            Some(Duration { nanos: self.nanos - other.nanos })
        } else {
            None
        }
    }

    /// The difference `self - other`, or zero when `other` is longer.
    pub fn saturating_sub(&self, other: Duration) -> (r: Duration)
        ensures
            r@ == (if other@ <= self@ { self@ - other@ } else { 0 }),
    {
        proof {
            use_type_invariant(self);
        }
        if other.nanos <= self.nanos {
            Duration { nanos: self.nanos - other.nanos }
        } else {
            Duration { nanos: 0 }
        }
    }

    /// The `std::time::Duration` that [`Duration::to_std`] builds: `std`'s
    /// `Duration::new` of the whole seconds and the nanoseconds beyond them.
    pub open spec fn std_form(self) -> StdDuration {
        std_duration_of((self@ / (NANOS_PER_SEC as nat)) as u64, (self@ % (NANOS_PER_SEC as nat)) as u32)
    }

    /// The same span as a `std::time::Duration`, built by `Duration::new` of
    /// `std` from the whole seconds and the nanoseconds beyond them.
    pub fn to_std(&self) -> (r: StdDuration)
        ensures
            r == self.std_form(),
            std_duration_nanos(r) == self@,
    {
        let secs = self.as_secs();
        let nanos = self.subsec_nanos();
        let r = std_duration_new(secs, nanos);
        assert(secs * 1_000_000_000 + nanos == self@) by (nonlinear_arith)
            requires
                secs == self@ / 1_000_000_000,
                nanos == self@ % 1_000_000_000,
        ;
        r
    }

    /// The span of a `std::time::Duration`, read through its whole seconds
    /// and the nanoseconds beyond them.
    pub fn from_std(span: StdDuration) -> (r: Duration)
        ensures
            r@ == std_duration_nanos(span),
    {
        let secs = std_duration_secs(&span);
        let nanos = std_duration_subsec_nanos(&span);
        let ghost n = std_duration_nanos(span);
        assert(secs * 1_000_000_000 + nanos == n && nanos < 1_000_000_000) by (nonlinear_arith)
            requires
                secs == n / 1_000_000_000,
                nanos == n % 1_000_000_000,
                n >= 0,
        ;
        assert(secs * NANOS_PER_SEC + nanos <= MAX_NANOS);
        Duration::new(secs, nanos)
    }
}

} // verus!
