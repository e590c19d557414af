//! The running total of the time spent working.

use std::time::{Duration, Instant};
use vstd::prelude::*;

verus! {

/// `std::time::Instant`, a reading of the clock. The proofs see nothing of
/// what it holds.
#[verifier::external_type_specification]
#[verifier::external_body]
pub struct ExInstant(Instant);

/// The total after `elapsed` more nanoseconds: the sum, or `u128::MAX` where
/// the sum does not fit.
pub open spec fn cpu_time_after(total: u128, elapsed: u128) -> u128 {
    if total + elapsed <= u128::MAX {
        (total + elapsed) as u128
    } else {
        u128::MAX
    }
}

/// `Instant::elapsed`: the time that has passed since `start`. It depends on
/// the clock, so nothing is claimed of it.
#[verifier::external_body]
fn elapsed_since(start: Instant) -> Duration {
    start.elapsed()
}

/// How many nanoseconds the duration `d` lasts.
pub uninterp spec fn duration_nanos(d: Duration) -> u128;

/// `Duration::as_nanos`: the whole duration in nanoseconds.
#[verifier::external_body]
fn nanos_of(d: Duration) -> (nanos: u128)
    ensures
        nanos == duration_nanos(d),
{
    d.as_nanos()
}

/// Adds `elapsed` nanoseconds to the running total, stopping at `u128::MAX`.
pub fn add_cpu_time(total_cpu_time: &mut u128, elapsed: u128)
    ensures
        *final(total_cpu_time) == cpu_time_after(*old(total_cpu_time), elapsed),
{
    if *total_cpu_time <= u128::MAX - elapsed {
        *total_cpu_time = *total_cpu_time + elapsed;
    } else {
        *total_cpu_time = u128::MAX;
    }
}

/// Adds the time that has passed since `start` to the running total of
/// nanoseconds. How much that is depends on the clock; the total never
/// shrinks.
pub fn update_cpu_time(total_cpu_time: &mut u128, start: Instant)
    ensures
        exists|elapsed: Duration|
            *final(total_cpu_time) == cpu_time_after(
                *old(total_cpu_time),
                #[trigger] duration_nanos(elapsed),
            ),
        *old(total_cpu_time) <= *final(total_cpu_time),
{
    let elapsed = elapsed_since(start);
    add_cpu_time(total_cpu_time, nanos_of(elapsed));
}

} // verus!
