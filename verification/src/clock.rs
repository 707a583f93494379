//! The passing of time, as the plugin sees it: how old a thing is, and whether that is too old.

use std::time::{Duration, Instant};

use vstd::prelude::*;

verus! {

/// `std::time::Instant`, carried through unread: a moment of the machine's monotonic clock.
#[verifier::external_type_specification]
#[verifier::external_body]
pub struct ExInstant(std::time::Instant);

/// The length of a `std::time::Duration` in nanoseconds, as `Duration::as_nanos` gives it.
pub uninterp spec fn duration_nanos(d: std::time::Duration) -> u128;

/// Is `i` a moment that was read off the clock? Every reading is one, so there are many.
pub uninterp spec fn clock_reading(i: std::time::Instant) -> bool;

/// `std::time::Instant::now`: the present moment, read off the clock. Which one depends on when it
/// is asked for, so nothing more is claimed of it.
pub assume_specification[ std::time::Instant::now ]() -> (r: std::time::Instant)
    ensures
        clock_reading(r),
;

/// Can `d` be the time passed since `start`? It is for whoever asks at the right moment, so there
/// are many such times for one start.
pub uninterp spec fn passed_since(start: std::time::Instant, d: std::time::Duration) -> bool;

/// `std::time::Instant::elapsed`: a time passed since the moment. Which one depends on when it is
/// asked for, so nothing more is claimed of it.
pub assume_specification[ std::time::Instant::elapsed ](i: &std::time::Instant) -> (r:
    std::time::Duration)
    ensures
        passed_since(*i, r),
;

/// `std::time::Duration::as_nanos`: the length in nanoseconds.
pub assume_specification[ std::time::Duration::as_nanos ](d: &std::time::Duration) -> (r: u128)
    ensures
        r == duration_nanos(*d),
;

/// `std::time::Duration::from_millis`: a duration of so many milliseconds, which are a million
/// nanoseconds each.
pub assume_specification[ std::time::Duration::from_millis ](millis: u64) -> (r:
    std::time::Duration)
    ensures
        duration_nanos(r) == millis * 1_000_000,
;

/// Can something that began at `start` be `age` nanoseconds old?
pub open spec fn can_be_aged(start: Instant, age: u128) -> bool {
    exists|d: Duration| #[trigger] passed_since(start, d) && duration_nanos(d) == age
}

/// The time passed since `start`, in nanoseconds.
pub fn age_of(start: &Instant) -> (r: u128)
    ensures
        can_be_aged(*start, r),
{
    start.elapsed().as_nanos()
}

/// Has something `age` nanoseconds old outlived the lifetime `ttl`? At its very end it has.
pub fn outlived(age: u128, ttl: Duration) -> (r: bool)
    ensures
        r == (age >= duration_nanos(ttl)),
{
    age >= ttl.as_nanos()
}

} // verus!
