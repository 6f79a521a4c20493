use vstd::prelude::*;

use core::time::Duration;
use std::time::Instant;

verus! {

/// std's monotonic clock instant, declared so a session's start time can be
/// held in a field; values of it are opaque here.
#[verifier::external_type_specification]
#[verifier::external_body]
pub struct ExInstant(Instant);

/// Relies on std::time::Instant::now: an opaque reading of the monotonic
/// clock. Nothing is promised of the value: what time it is depends on the
/// world outside.
pub assume_specification[ Instant::now ]() -> Instant;

/// Relies on std::time::Instant::elapsed: the time since this instant, as an
/// opaque duration. Its documentation promises no panic and no negative
/// duration, but the magnitude depends on the machine's clock, so nothing is
/// promised of the value.
pub assume_specification[ Instant::elapsed ](i: &Instant) -> Duration;

/// Relies on core::time::Duration::as_secs: the whole-second part of a
/// duration. The duration is opaque here, so nothing is promised of the
/// value.
pub assume_specification[ Duration::as_secs ](d: &Duration) -> u64;

} // verus!
