//! Scaling raw samples from the random source into bounded durations.
//!
//! The random source hands out unsigned 32-bit values. The protocol keeps only
//! the low byte of a sample and divides it down, so every duration falls into a
//! small fixed range: think and eat intervals into 0..=2 milliseconds, the
//! bounded wait for the second fork into 0..=36 milliseconds. The divisors are
//! tunables, not correctness-bearing values; only the bounds matter.

use vstd::prelude::*;

verus! {

/// One more than the largest value a sample keeps after truncation to a byte.
pub const BYTE_SPAN: u32 = 256;

/// Half the byte range: divides a sample byte into a short think or eat interval.
pub const MEAL_DIVISOR: u32 = 255 / 2;

/// A thirty-second of the byte range: divides a sample byte into the bounded
/// wait for the second fork.
pub const WAIT_DIVISOR: u32 = 255 / 32;

/// The think interval, in milliseconds, scaled from a raw sample.
pub open spec fn spec_think_millis(sample: u32) -> u64 {
    (((sample % BYTE_SPAN) / MEAL_DIVISOR) as u64)
}

/// The eat interval, in milliseconds, scaled from a raw sample.
pub open spec fn spec_eat_millis(sample: u32) -> u64 {
    (((sample % BYTE_SPAN) / MEAL_DIVISOR) as u64)
}

/// The second-fork wait allowance, in milliseconds, scaled from a raw sample.
pub open spec fn spec_wait_millis(sample: u32) -> u64 {
    (((sample % BYTE_SPAN) / WAIT_DIVISOR) as u64)
}

/// Scale a raw sample into a think interval: keep the low byte, divide by half
/// the byte range. The result never exceeds 2 milliseconds.
pub fn think_millis(sample: u32) -> (r: u64)
    ensures
        r == spec_think_millis(sample),
        r <= 2,
{
    let byte: u32 = sample % BYTE_SPAN;
    (byte / MEAL_DIVISOR) as u64
}

/// Scale a raw sample into an eat interval: the same scaling as a think
/// interval. The result never exceeds 2 milliseconds.
pub fn eat_millis(sample: u32) -> (r: u64)
    ensures
        r == spec_eat_millis(sample),
        r <= 2,
{
    let byte: u32 = sample % BYTE_SPAN;
    (byte / MEAL_DIVISOR) as u64
}

/// Scale a raw sample into the allowance an agent grants its second fork before
/// giving up. The result never exceeds 36 milliseconds.
pub fn wait_millis(sample: u32) -> (r: u64)
    ensures
        r == spec_wait_millis(sample),
        r <= 36,
{
    let byte: u32 = sample % BYTE_SPAN;
    (byte / WAIT_DIVISOR) as u64
}

} // verus!
