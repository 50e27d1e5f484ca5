//! Measuring how long a send takes until its acknowledgement is in.
use std::time::Duration;
use std::time::Instant;
use vstd::prelude::*;

verus! {

#[verifier::external_type_specification]
#[verifier::external_body]
pub struct ExInstant(std::time::Instant);

/// Relies on `Instant::now`: a reading of the monotonic clock. Nothing is
/// promised of its value.
#[verifier::external_body]
fn clock_now() -> (r: Instant) {
    Instant::now()
}

/// Relies on `Instant::elapsed`: the time since `start`, zero where the
/// clock reads earlier; it does not panic.
#[verifier::external_body]
fn clock_elapsed(start: &Instant) -> (r: Duration) {
    start.elapsed()
}

/// Runs `f` once and returns how long it took: the clock is read right
/// before the call and right after it returns. The duration depends on the
/// clock, so nothing is stated of it beyond the call having been made.
pub fn time_roundtrip<F: FnMut()>(mut f: F) -> (r: Duration)
    requires
        f.requires(()),
    ensures
        f.ensures((), ()),
{
    let start = clock_now();
    f();
    clock_elapsed(&start)
}

} // verus!
