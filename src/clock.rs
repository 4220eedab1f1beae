//! Reading the system clock in milliseconds since the Unix epoch.
use vstd::prelude::*;

use crate::error::SnowflakeError;
use crate::layout::TIMESTAMP_LIMIT;

verus! {

/// A reading of std's system clock, carried through without looking inside.
#[verifier::external_type_specification]
#[verifier::external_body]
pub struct ExSystemTime(std::time::SystemTime);

/// Relies on `std::time::SystemTime::now`: a reading of the system clock.
#[verifier::external_body]
fn system_now() -> (r: std::time::SystemTime) {
    std::time::SystemTime::now()
}

/// Relies on `std::time::SystemTime::duration_since` with `UNIX_EPOCH`: the time
/// elapsed since the epoch, or `None` where the reading lies before it.
#[verifier::external_body]
fn since_unix_epoch(t: &std::time::SystemTime) -> (r: Option<std::time::Duration>) {
    t.duration_since(std::time::UNIX_EPOCH).ok()
}

/// Relies on `std::time::Duration::as_millis`: the whole milliseconds of a duration.
#[verifier::external_body]
fn whole_millis(d: &std::time::Duration) -> (r: u128) {
    d.as_millis()
}

/// Relies on `std::hint::spin_loop`: a processor hint inside a busy-wait loop.
#[verifier::external_body]
fn spin_hint() {
    std::hint::spin_loop()
}

/// The signed reading that a clock reading gives: `millis` is the number of
/// whole milliseconds since the Unix epoch, or `None` for a reading before it.
pub fn timestamp_from_reading(millis: Option<u128>) -> (r: Result<i64, SnowflakeError>)
    ensures
        millis is None ==> r == Err::<i64, SnowflakeError>(SnowflakeError::ClockBeforeEpoch),
        millis is Some && millis->0 < 0x8000_0000_0000_0000 ==> r == Ok::<i64, SnowflakeError>(
            millis->0 as i64,
        ),
        millis is Some && millis->0 >= 0x8000_0000_0000_0000 ==> r == Err::<i64, SnowflakeError>(
            SnowflakeError::ClockOutOfRange,
        ),
{
    match millis {
        None => Err(SnowflakeError::ClockBeforeEpoch),
        Some(m) => {
            if m < 0x8000_0000_0000_0000u128 {
                Ok(m as i64)
            } else {
                Err(SnowflakeError::ClockOutOfRange)
            }
        },
    }
}

/// The current time in milliseconds since the Unix epoch.
pub fn get_time_millis() -> (r: Result<i64, SnowflakeError>)
    ensures
        r matches Ok(t) ==> t >= 0,
        r is Err ==> r == Err::<i64, SnowflakeError>(SnowflakeError::ClockBeforeEpoch) || r
            == Err::<i64, SnowflakeError>(SnowflakeError::ClockOutOfRange),
{
    let now = system_now();
    let millis = match since_unix_epoch(&now) {
        Some(d) => Some(whole_millis(&d)),
        None => None,
    };
    timestamp_from_reading(millis)
}

/// A clock reading as a timestamp of the identifier layout, or
/// `TimestampOverflow` where it does not fit the timestamp bits.
pub fn fitted_timestamp(now: i64) -> (r: Result<i64, SnowflakeError>)
    ensures
        0 <= now < TIMESTAMP_LIMIT ==> r == Ok::<i64, SnowflakeError>(now),
        !(0 <= now < TIMESTAMP_LIMIT) ==> r == Err::<i64, SnowflakeError>(
            SnowflakeError::TimestampOverflow,
        ),
{
    if 0 <= now && now < TIMESTAMP_LIMIT {
        Ok(now)
    } else {
        Err(SnowflakeError::TimestampOverflow)
    }
}

/// Polls the clock, with a spin hint between polls, until it reads past `floor`,
/// and returns that reading. Loops must end here, so the wait gives up with
/// `ClockStalled` after as many polls as a `u64` counts, which in practice is
/// never.
pub fn wait_past(floor: i64) -> (r: Result<i64, SnowflakeError>)
    ensures
        r matches Ok(t) ==> floor < t,
        r is Err ==> r == Err::<i64, SnowflakeError>(SnowflakeError::ClockBeforeEpoch) || r
            == Err::<i64, SnowflakeError>(SnowflakeError::ClockOutOfRange) || r == Err::<
            i64,
            SnowflakeError,
        >(SnowflakeError::ClockStalled),
{
    let mut polls: u64 = 0;
    while polls < u64::MAX
        decreases u64::MAX - polls,
    {
        let now = get_time_millis()?;
        if now > floor {
            return Ok(now);
        }
        spin_hint();
        polls = polls + 1;
    }
    Err(SnowflakeError::ClockStalled)
}

} // verus!
