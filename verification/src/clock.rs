//! The monotonic clock.
use std::time::Instant;
use vstd::prelude::*;

verus! {

#[verifier::external_type_specification]
#[verifier::external_body]
pub struct ExInstant(Instant);

/// `Instant::now` reads the clock. Nothing is claimed of a reading.
pub assume_specification[ Instant::now ]() -> Instant
;

/// `Instant::elapsed` reads the clock again. Nothing is claimed of a reading.
pub assume_specification[ Instant::elapsed ](start: &Instant) -> std::time::Duration
;

/// `Duration::as_micros` counts the whole microseconds. Nothing is claimed of the count, which
/// stems from a clock.
pub assume_specification[ std::time::Duration::as_micros ](d: &std::time::Duration) -> u128
;

/// Whether the clock showed this many microseconds since `start`: some call of `Instant::elapsed` gave
/// a duration of which `Duration::as_micros` gave this count.
pub open spec fn showed(start: Instant, micros: u128) -> bool {
    exists|elapsed: std::time::Duration| #[trigger]
        call_ensures(Instant::elapsed, (&start,), elapsed) && call_ensures(
            std::time::Duration::as_micros,
            (&elapsed,),
            micros,
        )
}

/// Calls a function.
fn called<A, B, F: Fn(A) -> B>(f: F, a: A) -> (r: B)
    requires
        call_requires(f, (a,)),
    ensures
        call_ensures(f, (a,), r),
{
    f(a)
}

/// What the clock shows now, in microseconds since `start`.
pub fn reading(start: &Instant) -> (micros: u128)
    ensures
        showed(*start, micros),
{
    let elapsed = called(Instant::elapsed, start);
    called(std::time::Duration::as_micros, &elapsed)
}

} // verus!
