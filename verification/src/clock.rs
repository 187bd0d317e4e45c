//! Reading the wall clock.

use vstd::prelude::*;
use std::time::{Duration, SystemTimeError, UNIX_EPOCH};

verus! {

/// The error that std returns when the system clock stands before the moment
/// it is compared with.
#[verifier::external_type_specification]
#[verifier::external_body]
pub struct ExSystemTimeError(SystemTimeError);

/// Trusted: `SystemTime::elapsed` of std, on `UNIX_EPOCH`: the time that has
/// passed since the Unix epoch, or the error that std gives when the system
/// clock stands before it.
///
/// Nothing is claimed of the result: it is whatever the clock says.
#[verifier::external_body]
fn since_unix_epoch() -> (elapsed: Result<Duration, SystemTimeError>) {
    UNIX_EPOCH.elapsed()
}

/// Trusted: `Duration::as_millis` of std, the whole milliseconds in `elapsed`.
///
/// Nothing is claimed of the result, as a `Duration` is opaque here.
#[verifier::external_body]
fn whole_millis(elapsed: &Duration) -> (millis: u128) {
    elapsed.as_millis()
}

/// Reads the wall clock: the milliseconds that have passed since the Unix
/// epoch, or why they could not be told.
pub(crate) fn read_clock() -> (reading: Result<u128, String>) {
    match since_unix_epoch() {
        Ok(elapsed) => Ok(whole_millis(&elapsed)),
        Err(failure) => Err(failure.to_string()),
    }
}

} // verus!
