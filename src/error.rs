//! Errors of the library.
use vstd::prelude::*;

verus! {

/// Why an identifier or a generator could not be produced.
#[derive(Copy, Clone, Debug, PartialEq, Eq, Structural)]
pub enum SnowflakeError {
    /// The address does not have four dot-separated parts whose last two are
    /// decimal octets.
    InvalidAddress,
    /// The machine identifier derived from the address does not fit its bits.
    MachineIdOutOfRange,
    /// The system clock reports a time before the Unix epoch.
    ClockBeforeEpoch,
    /// The system clock reports a time past what an `i64` of milliseconds holds.
    ClockOutOfRange,
    /// A clock reading does not fit the timestamp bits of the identifier layout.
    TimestampOverflow,
    /// The system clock did not advance in as many polls as a `u64` counts.
    ClockStalled,
}

/// An error that only a clock reading, or the wait for one, brings.
pub open spec fn is_clock_error(e: SnowflakeError) -> bool {
    ||| e == SnowflakeError::ClockBeforeEpoch
    ||| e == SnowflakeError::ClockOutOfRange
    ||| e == SnowflakeError::ClockStalled
    ||| e == SnowflakeError::TimestampOverflow
}

} // verus!
