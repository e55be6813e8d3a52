//! The monotonic clock the manager measures debounce intervals with.

use std::time::Instant;
use vstd::prelude::*;

verus! {

/// `std::time::Instant`, carried as an opaque value.
#[verifier::external_type_specification]
#[verifier::external_body]
pub struct ExInstant(Instant);

/// Reads the monotonic clock with `Instant::now`. Nothing is claimed about the
/// instant that comes back.
#[verifier::external_body]
pub(crate) fn clock_origin() -> (origin: Instant) {
    Instant::now()
}

/// Time that has passed on the monotonic clock since `origin`, read with
/// `Instant::elapsed` and handed on as a count of nanoseconds. The reading
/// depends on when the call is made, so nothing is claimed about it.
#[verifier::external_body]
pub(crate) fn nanos_since(origin: &Instant) -> (nanos: u128) {
    origin.elapsed().as_nanos()
}

} // verus!
