use vstd::prelude::*;

use crate::time::Timestamp;

verus! {

#[verifier::external_type_specification]
#[verifier::external_body]
pub struct ExInstant(std::time::Instant);

/// Relies on std::time::Instant::now: a reading of the host's monotonic clock.
#[verifier::external_body]
fn instant_now() -> std::time::Instant {
    std::time::Instant::now()
}

/// Relies on std::time::Instant::elapsed: the time that has passed since `origin`.
#[verifier::external_body]
fn elapsed_since(origin: &std::time::Instant) -> std::time::Duration {
    origin.elapsed()
}

/// Relies on std::time::Duration::as_millis: the whole milliseconds of a span.
#[verifier::external_body]
fn whole_millis(d: &std::time::Duration) -> u128 {
    d.as_millis()
}

/// The host's monotonic clock, read as milliseconds since the clock was started.
#[derive(Debug)]
pub struct Clock {
    origin: std::time::Instant,
}

impl Clock {
    /// A clock whose origin is the present moment.
    pub fn start() -> (r: Clock) {
        Clock { origin: instant_now() }
    }

    /// The present moment. Readings beyond the range of `u64` are held at its largest value.
    pub fn now(&self) -> (r: Timestamp) {
        let d = elapsed_since(&self.origin);
        let ms = whole_millis(&d);
        if ms > u64::MAX as u128 {
            Timestamp { millis: u64::MAX }
        } else {
            Timestamp { millis: ms as u64 }
        }
    }
}

} // verus!
