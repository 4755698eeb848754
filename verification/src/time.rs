//! The clock and `std::time` values, as far as the pool reads them.
//!
//! Nothing in this file is proved. Each item states what the standard
//! library documents, so that the rest of the crate can be verified against it.

use std::time::Duration;
use std::time::Instant;
use vstd::prelude::*;

verus! {

/// `std::time::Instant`, opaque to the verifier: instants are stored and handed
/// back to the clock, never inspected.
#[verifier::external_type_specification]
#[verifier::external_body]
pub struct ExInstant(Instant);

/// The whole seconds held by a duration: what `Duration::as_secs` returns.
pub uninterp spec fn duration_secs(d: Duration) -> u64;

/// The whole milliseconds held by a duration: what `Duration::as_millis` returns.
pub uninterp spec fn duration_millis(d: Duration) -> u128;

/// The whole nanoseconds held by a duration: what `Duration::as_nanos` returns.
pub uninterp spec fn duration_nanos(d: Duration) -> u128;

/// `Duration::as_secs` returns the number of whole seconds of the duration.
pub assume_specification[ Duration::as_secs ](d: &Duration) -> (secs: u64)
    ensures
        secs == duration_secs(*d),
;

/// `Duration::as_millis` returns the number of whole milliseconds of the duration.
pub assume_specification[ Duration::as_millis ](d: &Duration) -> (millis: u128)
    ensures
        millis == duration_millis(*d),
;

/// `Duration::as_nanos` returns the number of whole nanoseconds of the duration.
pub assume_specification[ Duration::as_nanos ](d: &Duration) -> (nanos: u128)
    ensures
        nanos == duration_nanos(*d),
;

/// `Duration::from_secs` builds the duration of exactly `secs` whole seconds.
pub assume_specification[ Duration::from_secs ](secs: u64) -> (d: Duration)
    ensures
        duration_secs(d) == secs,
        duration_millis(d) == secs * 1000,
        duration_nanos(d) == secs * 1_000_000_000,
;

/// `Duration::from_millis` builds the duration of exactly `millis` whole
/// milliseconds.
pub assume_specification[ Duration::from_millis ](millis: u64) -> (d: Duration)
    ensures
        duration_millis(d) == millis,
        duration_nanos(d) == millis * 1_000_000,
;

/// `Duration::from_nanos` builds the duration of exactly `nanos` nanoseconds.
pub assume_specification[ Duration::from_nanos ](nanos: u64) -> (d: Duration)
    ensures
        duration_nanos(d) == nanos,
;

/// `Instant::elapsed` reads the clock; nothing is claimed of the time that has
/// passed.
pub assume_specification[ Instant::elapsed ](t: &Instant) -> (d: Duration);

/// `Instant::now` reads the clock; nothing is claimed of the instant returned.
#[verifier::external_body]
pub(crate) fn clock_now() -> (t: Instant) {
    Instant::now()
}

} // verus!
