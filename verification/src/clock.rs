//! Time as the store keeps it: whole seconds since the Unix epoch.

use vstd::prelude::*;
use std::time::Duration;
use std::time::SystemTime;
use std::time::SystemTimeError;
use std::time::UNIX_EPOCH;
use crate::bits::i64_to_u64;
use crate::bits::spec_i64_to_u64;
use crate::bits::u64_to_i64;
use crate::errors::DVError;
use crate::errors::DVResult;

verus! {

/// The latest second that a record can carry: the largest value of the
/// signed column that persists it.
pub const MAX_TIMESTAMP: u64 = 0x7fff_ffff_ffff_ffff;

/// `std::time::SystemTime`, a reading of the clock.
#[verifier::external_type_specification]
#[verifier::external_body]
pub struct ExSystemTime(SystemTime);

/// `SystemTime::now` reads the clock; nothing is known of what it reads.
pub assume_specification[ SystemTime::now ]() -> SystemTime;

/// `Duration::as_secs` gives the whole seconds of a duration.
pub assume_specification[ Duration::as_secs ](d: &Duration) -> u64;

/// How long after the Unix epoch `time` lies, by
/// `SystemTime::duration_since`; an error where it lies before the epoch.
#[verifier::external_body]
fn since_epoch(time: &SystemTime) -> Result<Duration, SystemTimeError> {
    time.duration_since(UNIX_EPOCH)
}

/// The whole seconds from the epoch to `time`.
pub fn to_timestamp(time: SystemTime) -> Result<u64, SystemTimeError> {
    match since_epoch(&time) {
        Ok(elapsed) => Ok(elapsed.as_secs()),
        Err(err) => Err(err),
    }
}

/// The seconds from the epoch to `time`, in the signed form of the store.
pub fn time2sql(time: SystemTime) -> Result<i64, SystemTimeError> {
    match to_timestamp(time) {
        Ok(secs) => Ok(u64_to_i64(secs)),
        Err(err) => Err(err),
    }
}

/// The seconds that a persisted time stands for, if they can be represented.
pub open spec fn spec_sql2time(time: i64) -> DVResult<u64> {
    let secs = spec_i64_to_u64(time);
    if secs <= MAX_TIMESTAMP {
        Ok(secs)
    } else {
        Err(DVError::TimeConversionErrorFromSecs(secs))
    }
}

/// Reads a persisted time. The column is read by its bit pattern; a value
/// past [`MAX_TIMESTAMP`] is refused.
pub fn sql2time(time: i64) -> (res: DVResult<u64>)
    ensures
        res == spec_sql2time(time),
{
    let secs = i64_to_u64(time);
    if secs <= MAX_TIMESTAMP {
        Ok(secs)
    } else {
        Err(DVError::TimeConversionErrorFromSecs(secs))
    }
}

/// The current time in whole seconds since the epoch.
pub fn now_unix() -> (res: DVResult<u64>)
    ensures
        res matches Err(err) ==> err is SystemTimeError,
{
    match to_timestamp(SystemTime::now()) {
        Ok(secs) => Ok(secs),
        Err(err) => Err(DVError::SystemTimeError(err)),
    }
}

/// A persisted time is accepted exactly when it is not negative, and is then
/// read as itself.
pub proof fn lemma_sql2time_accepts_non_negative(time: i64)
    ensures
        time >= 0 <==> spec_sql2time(time) is Ok,
        time >= 0 ==> spec_sql2time(time) == Ok::<u64, DVError>(time as u64),
{
}

} // verus!
