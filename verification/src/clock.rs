//! The wall clock, read in milliseconds since the Unix epoch.

use crate::text::{decimal_string, decimal_text};
use std::time::{Duration, SystemTime, SystemTimeError, UNIX_EPOCH};
use vstd::prelude::*;

verus! {

/// `std::time::SystemTime`, a reading of the system's clock.  Nothing inside
/// it is visible here.
#[verifier::external_type_specification]
#[verifier::external_body]
pub struct ExSystemTime(SystemTime);

/// `std::time::SystemTimeError`, the error of a clock that stands before the
/// time it is compared with.  Nothing inside it is visible here.
#[verifier::external_type_specification]
#[verifier::external_body]
pub struct ExSystemTimeError(SystemTimeError);

/// `SystemTime::now`: the time of the system's clock.  Nothing is claimed of
/// it.
pub assume_specification[ SystemTime::now ]() -> SystemTime
;

/// `SystemTime::duration_since`, asked of `time` with the Unix epoch: the
/// time that passed from the epoch to `time`, or an error where `time` lies
/// before the epoch.  Nothing is claimed of which it is.
#[verifier::external_body]
fn elapsed_since_epoch(time: &SystemTime) -> (elapsed: Result<Duration, SystemTimeError>) {
    time.duration_since(UNIX_EPOCH)
}

/// `Duration::as_secs`: the whole seconds of a duration.
pub assume_specification[ Duration::as_secs ](duration: &Duration) -> u64
;

/// `Duration::subsec_millis`: the part of a duration below one second, in
/// whole milliseconds, which is less than one thousand.
pub assume_specification[ Duration::subsec_millis ](duration: &Duration) -> (millis: u32)
    ensures
        millis < 1000,
;

/// Why the clock gave no time.
#[derive(Clone, Copy, Debug, PartialEq, Eq, Structural)]
pub enum ClockError {
    /// The clock stands before the Unix epoch.
    BeforeEpoch,
    /// The time does not fit the type that holds a timestamp.
    OutOfRange,
}

/// The milliseconds in `secs` seconds and `subsec_millis` milliseconds.
pub open spec fn millis_of(secs: u64, subsec_millis: u32) -> int {
    secs * 1000 + subsec_millis
}

/// A reading of the clock as a timestamp: the milliseconds in `secs` seconds
/// and `subsec_millis` milliseconds, where they fit.
pub fn timestamp_millis(secs: u64, subsec_millis: u32) -> (millis: Result<i64, ClockError>)
    ensures
        match millis {
            Ok(t) => t == millis_of(secs, subsec_millis),
            Err(e) => e == ClockError::OutOfRange && millis_of(secs, subsec_millis) > i64::MAX,
        },
{
    let total: u128 = secs as u128 * 1000 + subsec_millis as u128;
    if total > i64::MAX as u128 {
        Err(ClockError::OutOfRange)
    } else {
        Ok(total as i64)
    }
}

/// A reading of the clock as decimal text: the milliseconds in `secs` seconds
/// and `subsec_millis` milliseconds.
pub fn millis_text(secs: u64, subsec_millis: u32) -> (text: String)
    ensures
        text@ == decimal_text(millis_of(secs, subsec_millis) as nat),
{
    decimal_string(secs as u128 * 1000 + subsec_millis as u128)
}

/// Reads the clock: the seconds since the Unix epoch and the milliseconds
/// below the second.
pub fn since_epoch() -> (reading: Result<(u64, u32), ClockError>)
    ensures
        match reading {
            Ok((_, subsec_millis)) => subsec_millis < 1000,
            Err(e) => e == ClockError::BeforeEpoch,
        },
{
    let now = SystemTime::now();
    let elapsed = elapsed_since_epoch(&now);
    // Whether the clock stands after the epoch is the clock's to say; what
    // its answer means is said by `reading_since_epoch`.
    reading_since_epoch(elapsed)
}

/// The time of the system's clock as a timestamp: the milliseconds since the
/// Unix epoch.
pub fn read_millis() -> (millis: Result<i64, ClockError>)
    ensures
        match millis {
            Ok(t) => 0 <= t,
            Err(_) => true,
        },
{
    let (secs, subsec_millis) = since_epoch()?;
    timestamp_millis(secs, subsec_millis)
}

/// What the comparison of a time with the Unix epoch gives as a reading: the
/// seconds and the milliseconds below the second of the time that passed,
/// where the time lies after the epoch, and else the failure that it lies
/// before it.
pub fn reading_since_epoch(elapsed: Result<Duration, SystemTimeError>) -> (reading: Result<
    (u64, u32),
    ClockError,
>)
    ensures
        match reading {
            Ok((_, subsec_millis)) => elapsed is Ok && subsec_millis < 1000,
            Err(e) => elapsed is Err && e == ClockError::BeforeEpoch,
        },
{
    match elapsed {
        Ok(passed) => Ok((passed.as_secs(), passed.subsec_millis())),
        Err(_) => Err(ClockError::BeforeEpoch),
    }
}

/// Whether `text` is some count of milliseconds in decimal.
pub open spec fn is_millis_text(text: Seq<char>) -> bool {
    exists|secs: u64, subsec_millis: u32|
        subsec_millis < 1000 && text == decimal_text(
            #[trigger] millis_of(secs, subsec_millis) as nat,
        )
}

/// The time of the system's clock, in milliseconds since the Unix epoch, as
/// decimal text.
pub fn system_time() -> (stamp: Result<String, ClockError>)
    ensures
        match stamp {
            Ok(text) => is_millis_text(text@),
            Err(e) => e == ClockError::BeforeEpoch,
        },
{
    match since_epoch() {
        Ok((secs, subsec_millis)) => {
            let text = millis_text(secs, subsec_millis);
            assert(text@ == decimal_text(millis_of(secs, subsec_millis) as nat));
            Ok(text)
        },
        Err(e) => Err(e),
    }
}

} // verus!
