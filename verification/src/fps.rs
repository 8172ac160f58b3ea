//! Trusted declarations for the instruction-per-second meter.

use vstd::prelude::*;

verus! {

#[verifier::external_type_specification]
#[verifier::external_body]
pub struct ExFPSCounter(fps_counter::FPSCounter);

/// Relies on fps_counter::FPSCounter::new: a meter with no frames recorded.
#[verifier::external_body]
pub fn fps_counter_new() -> fps_counter::FPSCounter {
    fps_counter::FPSCounter::new()
}

/// Relies on fps_counter::FPSCounter::tick: records one frame and returns
/// how many frames fell into the last second, at least the one just
/// recorded. The count depends on the clock, so no more is stated.
#[verifier::external_body]
pub fn fps_counter_tick(counter: &mut fps_counter::FPSCounter) -> (r: usize)
    ensures
        r >= 1,
{
    counter.tick()
}

} // verus!
