//! Readings of the machine: elapsed time and the processor count.
//!
//! Nothing here is proved. Each item states what this library takes for
//! granted about a function it does not own; verified code treats every
//! reading as an arbitrary value of its type.

use vstd::prelude::*;

verus! {

/// `std::time::Instant`, a point on the monotonic clock. Its inside is not
/// visible to proofs: an instant is only ever carried and asked for the time
/// that has passed since it.
#[verifier::external_type_specification]
#[verifier::external_body]
pub struct ExInstant(std::time::Instant);

/// `std::time::Instant::now` reads the monotonic clock. Nothing is claimed
/// of the instant it returns.
pub assume_specification[ std::time::Instant::now ]() -> (now: std::time::Instant);

/// `std::time::Instant::elapsed` measures the time since the instant was
/// taken. Nothing is claimed of the duration it returns.
pub assume_specification[ std::time::Instant::elapsed ](
    instant: &std::time::Instant,
) -> (elapsed: std::time::Duration);

/// `std::time::Duration::as_nanos` gives a duration as a whole number of
/// nanoseconds. Nothing is claimed of the number.
pub assume_specification[ std::time::Duration::as_nanos ](
    duration: &std::time::Duration,
) -> (nanos: u128);

/// Calls `num_cpus::get`, the number of logical processors available to this
/// process. The result depends on the machine, so nothing is claimed of it.
#[verifier::external_body]
pub(crate) fn logical_cores() -> (cores: usize) {
    num_cpus::get()
}

/// A reading in nanoseconds cut to 64 bits: readings beyond about 584 years
/// are reported as the largest value.
pub open spec fn spec_saturate(nanos: u128) -> u64 {
    if nanos > u64::MAX {
        u64::MAX
    } else {
        nanos as u64
    }
}

#[verifier::when_used_as_spec(spec_saturate)]
pub fn saturate(nanos: u128) -> (cut: u64)
    ensures
        cut == spec_saturate(nanos),
{
    if nanos > u64::MAX as u128 {
        u64::MAX
    } else {
        nanos as u64
    }
}

/// The nanoseconds that have passed since `instant`, cut to 64 bits.
pub fn nanos_since(instant: &std::time::Instant) -> (nanos: u64) {
    let elapsed = instant.elapsed();
    saturate(elapsed.as_nanos())
}

} // verus!
