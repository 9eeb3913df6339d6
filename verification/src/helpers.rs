//! Small helpers around the host environment.

use vstd::prelude::*;

verus! {

/// Relies on `std::time::SystemTime`: `now` reads the system clock and
/// `duration_since(UNIX_EPOCH)` measures from the epoch, failing when the
/// clock is earlier. The result depends on the clock alone, so nothing is
/// promised of it.
#[verifier::external_body]
fn unix_seconds_now() -> (r: Option<u64>) {
    match std::time::SystemTime::now().duration_since(std::time::UNIX_EPOCH) {
        Ok(d) => Some(d.as_secs()),
        Err(_) => None,
    }
}

/// Seconds since the Unix epoch, or `None` when the system clock reads
/// before the epoch. Of a clock reading nothing more can be stated.
pub fn get_unix_timestamp_now() -> Option<u64> {
    unix_seconds_now()
}

} // verus!
