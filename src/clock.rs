//! The wall clock.

use vstd::prelude::*;

verus! {

/// Relies on `std::time::SystemTime::now`: milliseconds since the Unix epoch
/// (`0` if the clock reads earlier). Nothing is promised of the value.
#[verifier::external_body]
pub(crate) fn current_time_ms() -> u64 {
    std::time::SystemTime::now()
        .duration_since(std::time::UNIX_EPOCH)
        .unwrap_or_default()
        .as_millis() as u64
}

} // verus!
