//! The system clock, as far as event files need it.
//!
//! Events carry their wall time in seconds since the Unix epoch as a 64-bit
//! float, and file names carry the time of their creation in whole seconds.
//! A time before the epoch has no such measure.

use std::time::{Duration, SystemTime, SystemTimeError};
use vstd::prelude::*;

verus! {

/// `std::time::SystemTime`: a point in time, opaque to the verifier.
#[verifier::external_type_specification]
#[verifier::external_body]
pub struct ExSystemTime(SystemTime);

/// `std::time::SystemTimeError`: the error of a time that lies before the
/// one it is measured from, opaque to the verifier.
#[verifier::external_type_specification]
#[verifier::external_body]
pub struct ExSystemTimeError(SystemTimeError);

/// The time elapsed from the Unix epoch to `time`, as
/// `SystemTime::duration_since` measures it: `None` if `time` lies before
/// the epoch.
pub uninterp spec fn since_epoch(time: SystemTime) -> Option<Duration>;

/// The bit pattern of `elapsed` in seconds as a 64-bit float, as
/// `Duration::as_secs_f64` computes it.
pub uninterp spec fn double_seconds(elapsed: Duration) -> u64;

/// The whole seconds of `elapsed`, as `Duration::as_secs` gives them.
pub uninterp spec fn whole_seconds(elapsed: Duration) -> u64;

/// Whether `time` lies before the Unix epoch.
pub open spec fn before_epoch(time: SystemTime) -> bool {
    since_epoch(time) is None
}

/// The wall time of an event at `time`: seconds since the Unix epoch as a
/// 64-bit float, by its bits. A time before the epoch has none.
pub open spec fn wall_time(time: SystemTime) -> Option<u64> {
    match since_epoch(time) {
        Some(elapsed) => Some(double_seconds(elapsed)),
        None => None,
    }
}

/// The time of creation in the name of a file created at `time`: whole
/// seconds since the Unix epoch, and zero for a time before the epoch.
pub open spec fn creation_seconds(time: SystemTime) -> u64 {
    match since_epoch(time) {
        Some(elapsed) => whole_seconds(elapsed),
        None => 0,
    }
}

/// Reads the system clock by `SystemTime::now`. Nothing is known of the
/// result.
#[verifier::external_body]
pub(crate) fn system_now() -> SystemTime {
    SystemTime::now()
}

/// The time elapsed from the Unix epoch to `time`, by
/// `SystemTime::duration_since`. It fails exactly if `time` lies before the
/// epoch, and depends on `time` alone.
#[verifier::external_body]
pub(crate) fn elapsed_since_epoch(time: &SystemTime) -> (elapsed: Result<
    Duration,
    SystemTimeError,
>)
    ensures
        match elapsed {
            Ok(elapsed) => since_epoch(*time) == Some(elapsed),
            Err(_) => since_epoch(*time) is None,
        },
{
    time.duration_since(std::time::UNIX_EPOCH)
}

/// The bit pattern of `elapsed` in seconds as a 64-bit float, by
/// `Duration::as_secs_f64`. It depends on `elapsed` alone.
#[verifier::external_body]
pub(crate) fn seconds_bits(elapsed: &Duration) -> (bits: u64)
    ensures
        bits == double_seconds(*elapsed),
{
    elapsed.as_secs_f64().to_bits()
}

/// The whole seconds of `elapsed`, by `Duration::as_secs`. They depend on
/// `elapsed` alone.
#[verifier::external_body]
pub(crate) fn seconds_of(elapsed: &Duration) -> (seconds: u64)
    ensures
        seconds == whole_seconds(*elapsed),
{
    elapsed.as_secs()
}

/// Seconds from the Unix epoch to `time` as a 64-bit float, by its bits, or
/// `None` if `time` lies before the epoch.
pub fn wall_time_bits(time: &SystemTime) -> (bits: Option<u64>)
    ensures
        bits == wall_time(*time),
        bits is None <==> before_epoch(*time),
{
    match elapsed_since_epoch(time) {
        Ok(elapsed) => Some(seconds_bits(&elapsed)),
        Err(_) => None,
    }
}

/// Whole seconds from the Unix epoch to now, or zero if the clock stands
/// before the epoch.
pub(crate) fn seconds_since_epoch() -> (seconds: u64)
    ensures
        exists|now: SystemTime| seconds == #[trigger] creation_seconds(now),
{
    let now = system_now();
    let seconds = match elapsed_since_epoch(&now) {
        Ok(elapsed) => seconds_of(&elapsed),
        Err(_) => 0,
    };
    assert(seconds == creation_seconds(now));
    seconds
}

} // verus!
