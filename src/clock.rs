use vstd::prelude::*;
use std::time::Instant;

verus! {

#[verifier::external_type_specification]
#[verifier::external_body]
pub struct ExInstant(std::time::Instant);

/// Relies on std::time::Instant::now: reads the monotonic clock.
#[verifier::external_body]
fn instant_now() -> (r: Instant) {
    Instant::now()
}

/// Relies on std::time::Instant::elapsed: the time since `origin`, in whole nanoseconds.
#[verifier::external_body]
fn nanos_since(origin: &Instant) -> (r: u128) {
    origin.elapsed().as_nanos()
}

/// A monotonic clock that reports nanoseconds since it was started.
#[derive(Debug, Clone, Copy)]
pub struct Clock {
    origin: Instant,
}

impl Clock {
    pub fn start() -> (r: Clock) {
        Clock { origin: instant_now() }
    }

    /// Nanoseconds since the clock was started.
    pub fn now(&self) -> (r: u128) {
        nanos_since(&self.origin)
    }
}

} // verus!
