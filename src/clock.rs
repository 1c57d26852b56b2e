use vstd::prelude::*;
use std::time::Instant;

verus! {

#[verifier::external_type_specification]
#[verifier::external_body]
pub struct ExInstant(Instant);

/// Relies on `Instant::now`: a reading of the monotonic clock. Nothing is promised of its value.
#[verifier::external_body]
pub(crate) fn now() -> Instant {
    Instant::now()
}

/// Relies on `Instant::elapsed`: the whole seconds since `start`, whatever the clock reads.
#[verifier::external_body]
pub(crate) fn secs_since(start: &Instant) -> u64 {
    start.elapsed().as_secs()
}

/// Relies on `Instant::saturating_duration_since`: the whole seconds from `start` to `end`,
/// zero when `end` is the earlier one.
#[verifier::external_body]
pub(crate) fn secs_between(start: &Instant, end: &Instant) -> u64 {
    end.saturating_duration_since(*start).as_secs()
}

} // verus!
