//! The monotonic clock, read in milliseconds from a starting instant: when a notice was raised
//! or a task began. It only moves forward, so setting the system clock does not change how long
//! a toast stays up.
use std::time::Instant;
use vstd::prelude::*;

verus! {

#[verifier::external_type_specification]
#[verifier::external_body]
pub struct ExInstant(Instant);

/// `std`'s `Instant::now`: the current moment on the monotonic clock. It depends on the moment
/// of the call, so nothing is stated of it.
#[verifier::external_body]
pub(crate) fn instant_now() -> Instant {
    Instant::now()
}

/// Milliseconds since `start` on the monotonic clock (`Instant::elapsed`), held at `u64::MAX`
/// past it. The value depends on the moment of the call, so nothing is stated of it.
#[verifier::external_body]
pub(crate) fn elapsed_ms(start: &Instant) -> u64 {
    u64::try_from(start.elapsed().as_millis()).unwrap_or(u64::MAX)
}

} // verus!
