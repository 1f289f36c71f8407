//! Timing an operation on the monotonic clock.

use vstd::prelude::*;
use std::time::{Duration, Instant};

verus! {

#[verifier::external_type_specification]
#[verifier::external_body]
pub struct ExInstant(Instant);

/// Relies on std::time::Instant::now: a reading of the monotonic clock.
#[verifier::external_body]
fn clock_now() -> (r: Instant) {
    Instant::now()
}

/// Relies on std::time::Instant::duration_since: the time from `start` to
/// `end`, zero when `end` is the earlier.
#[verifier::external_body]
fn time_between(start: &Instant, end: &Instant) -> (r: Duration) {
    end.duration_since(*start)
}

/// Relies on std::time::Duration::as_nanos: the whole nanoseconds of `d`.
#[verifier::external_body]
fn whole_nanos(d: &Duration) -> (r: u128) {
    d.as_nanos()
}

/// Runs `operation` once and returns its result unchanged, together with the
/// elapsed time in nanoseconds measured around the call.
pub fn time_it<T, F: Fn() -> T>(operation: F) -> (r: (T, u128))
    requires
        operation.requires(()),
    ensures
        operation.ensures((), r.0),
{
    let start = clock_now();
    let result = operation();
    let end = clock_now();
    let elapsed = whole_nanos(&time_between(&start, &end));
    (result, elapsed)
}

} // verus!
