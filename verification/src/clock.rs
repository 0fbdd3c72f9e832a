//! Clocks.

use core::time::Duration;
use std::time::{Instant, SystemTime, SystemTimeError};
use vstd::prelude::*;

verus! {

#[verifier::external_type_specification]
#[verifier::external_body]
pub struct ExInstant(Instant);

#[verifier::external_type_specification]
#[verifier::external_body]
pub struct ExSystemTime(SystemTime);

#[verifier::external_type_specification]
#[verifier::external_body]
pub struct ExSystemTimeError(SystemTimeError);

/// The nanoseconds in a duration.
pub uninterp spec fn duration_nanos(d: Duration) -> u128;

/// `Duration::as_nanos`: the nanoseconds in a duration, which are a function of it
/// alone.
pub assume_specification[ Duration::as_nanos ](d: &Duration) -> (r: u128)
    ensures
        r == duration_nanos(*d),
;

/// `Instant::now`: nothing is claimed of the time that it gives.
pub assume_specification[ Instant::now ]() -> Instant
;

/// `Instant::elapsed`: nothing is claimed of the time that has passed.
pub assume_specification[ Instant::elapsed ](i: &Instant) -> Duration
;

/// `SystemTime::now`: nothing is claimed of the time that it gives.
pub assume_specification[ SystemTime::now ]() -> SystemTime
;

/// Where a time of the system clock lies, in nanoseconds from a fixed one.
pub uninterp spec fn time_nanos(t: SystemTime) -> int;

/// `SystemTime::duration_since`: the time from `earlier` to `t`, and an error where
/// `earlier` is the later one.
pub assume_specification[ SystemTime::duration_since ](t: &SystemTime, earlier: SystemTime) -> (r:
    Result<Duration, SystemTimeError>)
    ensures
        r is Ok <==> time_nanos(*t) >= time_nanos(earlier),
        r is Ok ==> duration_nanos(r->Ok_0) == time_nanos(*t) - time_nanos(earlier),
;

/// Starts a clock.
pub fn start_clock() -> Instant {
    Instant::now()
}

/// The nanoseconds since a clock was started.
pub fn nanos_since(start: &Instant) -> u128 {
    start.elapsed().as_nanos()
}

} // verus!
