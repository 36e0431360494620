//! The monotonic clock of the standard library, by which evaluations are
//! timed. A reading depends on the moment it is taken: nothing is claimed
//! of any of them.

use vstd::prelude::*;

verus! {

/// `std::time::Instant`: a reading of the monotonic clock. Opaque to the
/// verifier.
#[verifier::external_type_specification]
#[verifier::external_body]
pub struct ExInstant(std::time::Instant);

/// `Instant::now`: the current reading of the monotonic clock.
pub assume_specification[ std::time::Instant::now ]() -> (now: std::time::Instant);

/// `Instant::elapsed`: the time that has passed since the reading.
pub assume_specification[ std::time::Instant::elapsed ](start: &std::time::Instant) -> (passed:
    core::time::Duration);

/// `Duration::as_micros`: the whole microseconds of a duration.
pub assume_specification[ core::time::Duration::as_micros ](
    duration: &core::time::Duration,
) -> (micros: u128);

/// Microseconds that have passed since `start`, capped at `u64::MAX`.
pub(crate) fn micros_since(start: &std::time::Instant) -> (elapsed_us: u64) {
    let micros: u128 = start.elapsed().as_micros();
    cap_micros(micros)
}

/// The count of microseconds `micros` as it is recorded: itself where it
/// fits in 64 bits, and `u64::MAX` where it does not.
pub open spec fn capped_micros(micros: u128) -> u64 {
    if micros > u64::MAX {
        u64::MAX
    } else {
        micros as u64
    }
}

/// Brings a reading of the clock, in microseconds, to the width in which
/// durations are recorded.
pub fn cap_micros(micros: u128) -> (capped: u64)
    ensures
        capped == capped_micros(micros),
{
    if micros > u64::MAX as u128 {
        u64::MAX
    } else {
        micros as u64
    }
}

} // verus!
