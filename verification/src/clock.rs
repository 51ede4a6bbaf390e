//! The system clock, read as whole seconds since the Unix epoch.
//!
//! Nothing is known in advance of what the clock reads, so the trusted items
//! here promise nothing about their results. What the library does with a
//! reading is stated, and proved, for every possible reading.

use std::time::{Duration, SystemTime, SystemTimeError};
use vstd::prelude::*;

verus! {

/// `std::time::SystemTime`, an instant of the system clock. Opaque.
#[verifier::external_type_specification]
#[verifier::external_body]
pub struct ExSystemTime(SystemTime);

/// `std::time::SystemTimeError`, the error of `SystemTime::duration_since`
/// when the second instant is the later one. Opaque.
#[verifier::external_type_specification]
#[verifier::external_body]
pub struct ExSystemTimeError(SystemTimeError);

/// `SystemTime::now`: the current reading of the system clock. Nothing is
/// claimed of it.
pub assume_specification[ SystemTime::now ]() -> SystemTime;

/// `SystemTime::duration_since`: the time elapsed from `earlier` to `t`, or an
/// error if `earlier` is the later of the two. Nothing is claimed of which.
pub assume_specification[ SystemTime::duration_since ](
    t: &SystemTime,
    earlier: SystemTime,
) -> Result<Duration, SystemTimeError>;

/// `Duration::as_secs`: the whole seconds in a duration. Nothing is claimed
/// of the number.
pub assume_specification[ Duration::as_secs ](d: &Duration) -> u64;

/// `std::time::UNIX_EPOCH`: the instant 1970-01-01 00:00:00 UTC.
#[verifier::external_body]
fn unix_epoch() -> SystemTime {
    std::time::UNIX_EPOCH
}

/// The whole seconds that have passed since the Unix epoch, by the system
/// clock; `None` if the clock is set to a time before the epoch.
///
/// Two calls may differ, and nothing is promised of either.
pub(crate) fn unix_seconds() -> Option<u64> {
    let now = SystemTime::now();
    match now.duration_since(unix_epoch()) {
        Ok(elapsed) => Some(elapsed.as_secs()),
        Err(_) => None,
    }
}

} // verus!
