//! Time stamps in whole seconds since the Unix epoch.

use std::time::{Duration, SystemTime, SystemTimeError};

use vstd::prelude::*;

verus! {

/// `std::time::SystemTime`, opaque.
#[verifier::external_type_specification]
#[verifier::external_body]
pub struct ExSystemTime(std::time::SystemTime);

/// `std::time::SystemTimeError`, opaque.
#[verifier::external_type_specification]
#[verifier::external_body]
pub struct ExSystemTimeError(std::time::SystemTimeError);

/// `SystemTime::now`: whatever the clock shows.
pub assume_specification[ SystemTime::now ]() -> (now: SystemTime);

/// `SystemTime::duration_since`: the distance to an earlier time, or an error where that time is
/// the later one. Nothing is said of how far apart the two are.
pub assume_specification[ SystemTime::duration_since ](
    time: &SystemTime,
    earlier: SystemTime,
) -> (res: Result<Duration, SystemTimeError>);

/// `Duration::as_secs`: the whole seconds of a duration. Nothing is said of how many they are.
pub assume_specification[ Duration::as_secs ](duration: &Duration) -> (secs: u64);

/// `std::time::UNIX_EPOCH`.
#[verifier::external_body]
fn unix_epoch() -> (epoch: SystemTime) {
    std::time::UNIX_EPOCH
}

/// The stamp for the seconds passed since the epoch: 0 for a clock set before it, and the two's
/// complement of what is beyond the range of the stamp.
pub open spec fn stamp(elapsed_secs: Option<u64>) -> i64 {
    match elapsed_secs {
        Some(secs) => secs as i64,
        None => 0,
    }
}

pub fn stamp_of(elapsed_secs: Option<u64>) -> (res: i64)
    ensures
        res == stamp(elapsed_secs),
        elapsed_secs matches Some(secs) ==> secs <= i64::MAX ==> res == secs,
{
    match elapsed_secs {
        Some(secs) => #[verifier::truncate]
        (secs as i64),
        None => 0,
    }
}

/// `elapsed_secs` is what lies between `epoch` and `time` in whole seconds, or nothing where
/// `time` is the earlier one.
spec fn is_elapsed(time: SystemTime, epoch: SystemTime, elapsed_secs: Option<u64>) -> bool {
    exists|since: Result<Duration, SystemTimeError>|
        {
            &&& #[trigger] call_ensures(SystemTime::duration_since, (&time, epoch), since)
            &&& match since {
                Ok(elapsed) => elapsed_secs is Some && call_ensures(
                    Duration::as_secs,
                    (&elapsed,),
                    elapsed_secs->0,
                ),
                Err(_) => elapsed_secs is None,
            }
        }
}

/// `elapsed_secs` was read off the clock: it is what has passed since the Unix epoch.
pub closed spec fn is_clock_reading(elapsed_secs: Option<u64>) -> bool {
    exists|time: SystemTime, epoch: SystemTime|
        {
            &&& call_ensures(SystemTime::now, (), time)
            &&& call_ensures(unix_epoch, (), epoch)
            &&& #[trigger] is_elapsed(time, epoch, elapsed_secs)
        }
}

/// The current time: the stamp of a reading of the clock. What the clock shows is not stated.
pub fn unix_now() -> (res: i64)
    ensures
        exists|elapsed_secs: Option<u64>|
            #[trigger] is_clock_reading(elapsed_secs) && res == stamp(elapsed_secs),
{
    let time = SystemTime::now();
    let epoch = unix_epoch();
    let elapsed_secs: Option<u64> = match time.duration_since(epoch) {
        Ok(elapsed) => Some(elapsed.as_secs()),
        Err(_) => None,
    };
    assert(is_elapsed(time, epoch, elapsed_secs));
    assert(is_clock_reading(elapsed_secs));
    stamp_of(elapsed_secs)
}

/// The moment `secs` seconds after `now`, held within the range of a stamp.
pub open spec fn later(now: i64, secs: u64) -> int {
    let wait: int = if secs <= i64::MAX {
        secs as int
    } else {
        i64::MAX as int
    };
    if now + wait <= i64::MAX {
        now + wait
    } else {
        i64::MAX as int
    }
}

pub fn expires_at(now: i64, secs: u64) -> (res: i64)
    ensures
        res == later(now, secs),
{
    let wait: i64 = if secs <= i64::MAX as u64 {
        secs as i64
    } else {
        i64::MAX
    };
    if now <= i64::MAX - wait {
        now + wait
    } else {
        i64::MAX
    }
}

/// A stamp never expires before it was made, and waits exactly as long as asked where the range
/// allows it.
pub proof fn expiry_is_never_early(now: i64, secs: u64)
    ensures
        now <= later(now, secs) <= i64::MAX,
        now + secs <= i64::MAX && secs <= i64::MAX ==> later(now, secs) == now + secs,
{
}

/// A stamp counts the seconds since the epoch, as far as it can hold them, and is 0 before it.
pub proof fn stamps_count_the_seconds(elapsed_secs: Option<u64>, res: i64)
    requires
        call_ensures(stamp_of, (elapsed_secs,), res),
    ensures
        elapsed_secs matches Some(secs) ==> secs <= i64::MAX ==> res == secs,
        elapsed_secs is None ==> res == 0,
{
}

/// An expiry is the sum of the moment and the wait, or the last stamp where one of them is out of
/// range.
pub proof fn an_expiry_is_the_sum_or_the_last_stamp(now: i64, secs: u64, res: i64)
    requires
        call_ensures(expires_at, (now, secs), res),
    ensures
        secs <= i64::MAX && now + secs <= i64::MAX ==> res == now + secs,
        secs <= i64::MAX && now + secs > i64::MAX ==> res == i64::MAX,
        secs > i64::MAX && now >= 0 ==> res == i64::MAX,
        secs > i64::MAX && now < 0 ==> res == now + i64::MAX,
{
}

/// Waiting longer, or from a later moment, never ends earlier.
pub proof fn longer_waits_end_no_earlier(
    now: (i64, i64),
    secs: (u64, u64),
    res: (i64, i64),
)
    requires
        call_ensures(expires_at, (now.0, secs.0), res.0),
        call_ensures(expires_at, (now.1, secs.1), res.1),
        now.0 <= now.1,
        secs.0 <= secs.1,
    ensures
        res.0 <= res.1,
{
}

} // verus!
