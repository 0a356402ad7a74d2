//! The clock that the loop reads: a source of instants and of the time between two of them.

use vstd::prelude::*;

verus! {

/// A source of instants, and of the nanoseconds between two of them.
pub trait TimeTrait: Copy + Sized {
    /// The instant now.
    fn now() -> Self;

    /// Nanoseconds from `other` to `self`, as a clock measures them.
    spec fn spec_sub(&self, other: &Self) -> u64;

    /// Nanoseconds from `other` to `self`; zero where `other` is the later one.
    fn sub(&self, other: &Self) -> (r: u64)
        ensures
            r == self.spec_sub(other),
    ;

    /// Whether the host can block the current thread for a while.
    spec fn spec_supports_sleep() -> bool;

    /// Whether the host can block the current thread for a while.
    fn supports_sleep() -> (r: bool)
        ensures
            r == Self::spec_supports_sleep(),
    ;
}

#[verifier::external_type_specification]
#[verifier::external_body]
pub struct ExInstant(std::time::Instant);

/// Relies on std::time::Instant::now: a reading of the monotonic clock.
#[verifier::external_body]
fn instant_now() -> std::time::Instant {
    std::time::Instant::now()
}

/// The span between two clock readings, as std measures it.
pub uninterp spec fn span_between(later: std::time::Instant, earlier: std::time::Instant) -> std::time::Duration;

/// The whole nanoseconds of a span.
pub uninterp spec fn nanos_of(d: std::time::Duration) -> u128;

/// Relies on std::time::Instant::saturating_duration_since: the span between two
/// readings, zero (and no panic) where `earlier` is in fact the later one; it
/// depends on the two readings alone.
pub assume_specification[ std::time::Instant::saturating_duration_since ](
    i: &std::time::Instant,
    earlier: std::time::Instant,
) -> (r: std::time::Duration)
    ensures
        r == span_between(*i, earlier),
;

/// Relies on std::time::Duration::as_nanos: the whole nanoseconds of a span,
/// which depend on the span alone.
pub assume_specification[ std::time::Duration::as_nanos ](d: &std::time::Duration) -> (r: u128)
    ensures
        r == nanos_of(*d),
;

/// The clock of the native host: std's monotonic `Instant`.
#[derive(Clone, Copy)]
pub struct Time(std::time::Instant);

/// The nanoseconds of a span, or `u64::MAX` for a span too long to count in a `u64`.
pub open spec fn nanos_in_u64(n: u128) -> u64 {
    if n > u64::MAX as u128 {
        u64::MAX
    } else {
        n as u64
    }
}

/// The nanoseconds of a span in a `u64`, held at `u64::MAX`.
fn saturate_nanos(n: u128) -> (r: u64)
    ensures
        r == nanos_in_u64(n),
{
    if n > u64::MAX as u128 {
        u64::MAX
    } else {
        n as u64
    }
}

impl TimeTrait for Time {
    fn now() -> Self {
        Time(instant_now())
    }

    closed spec fn spec_sub(&self, other: &Self) -> u64 {
        nanos_in_u64(nanos_of(span_between(self.0, other.0)))
    }

    fn sub(&self, other: &Self) -> (r: u64) {
        let span = self.0.saturating_duration_since(other.0);
        saturate_nanos(span.as_nanos())
    }

    open spec fn spec_supports_sleep() -> bool {
        true
    }

    fn supports_sleep() -> (r: bool) {
        true
    }
}

} // verus!
