//! The generator: a plain mutable record of the last timestamp, the machine
//! identifier and the sequence. It is not synchronised: each instance has one
//! writer at a time.
use vstd::prelude::*;

use crate::address::{address_machine_id, machine_id_of};
use crate::clock::{fitted_timestamp, get_time_millis, wait_past};
use crate::error::{is_clock_error, SnowflakeError};
use crate::layout::{
    capacity, fields_fit, machine_of, pack, pack_fields, sequence_of, timestamp_of, unpack_fields,
    Snowflake, MACHINE_LIMIT, SEQUENCE_CAPACITY, TIMESTAMP_LIMIT,
};

verus! {

/// A UTC instant as whole seconds since the Unix epoch.
#[derive(Copy, Clone, Debug, PartialEq, Eq, Structural)]
pub struct UtcTime {
    pub seconds: i64,
}

/// Issues identifiers for one machine.
#[derive(Copy, Clone, Debug)]
pub struct SnowflakeIdGenerator {
    /// The timestamp of the most recent batch of sequence values.
    pub last_time_millis: i64,
    /// The machine identifier, fixed for the generator's lifetime.
    pub machine_bits: i64,
    /// The sequence value of the most recent identifier.
    pub idx: u16,
}

/// One call of `generate` that issued an identifier: the sequence advances, and
/// the timestamp moves forward exactly when the sequence wraps to zero.
pub open spec fn basic_step(a: SnowflakeIdGenerator, b: SnowflakeIdGenerator) -> bool {
    &&& b.machine_bits == a.machine_bits
    &&& b.idx as int == (a.idx as int + 1) % capacity()
    &&& if b.idx == 0 {
        b.last_time_millis > a.last_time_millis
    } else {
        b.last_time_millis == a.last_time_millis
    }
}

/// One call of `real_time_generate` that issued an identifier: either a later
/// timestamp with sequence zero, or the same timestamp with the next sequence
/// value short of the capacity.
pub open spec fn real_time_step(a: SnowflakeIdGenerator, b: SnowflakeIdGenerator) -> bool {
    &&& b.machine_bits == a.machine_bits
    &&& {
        ||| b.idx == 0 && b.last_time_millis > a.last_time_millis
        ||| a.idx + 1 < capacity() && b.idx == a.idx + 1 && b.last_time_millis
            == a.last_time_millis
    }
}

/// One call of any of the three strategies that issued an identifier.
pub open spec fn issue_step(a: SnowflakeIdGenerator, b: SnowflakeIdGenerator) -> bool {
    basic_step(a, b) || real_time_step(a, b) || b == a.lazy_next()
}

impl SnowflakeIdGenerator {
    /// The fields fit their reserved widths.
    pub open spec fn wf(&self) -> bool {
        fields_fit(self.last_time_millis as int, self.machine_bits as int, self.idx as int)
    }

    /// The identifier that the current state stands for: the one most recently
    /// issued, if any.
    pub open spec fn current_id(&self) -> int {
        pack(self.last_time_millis as int, self.machine_bits as int, self.idx as int)
    }

    /// The state after one call of `lazy_generate`.
    pub open spec fn lazy_next(&self) -> SnowflakeIdGenerator {
        if self.idx + 1 == capacity() {
            SnowflakeIdGenerator {
                last_time_millis: (self.last_time_millis + 1) as i64,
                idx: 0,
                ..*self
            }
        } else {
            SnowflakeIdGenerator { idx: (self.idx + 1) as u16, ..*self }
        }
    }

    /// A generator for the machine that a dotted-quad address names: the third
    /// and fourth parts give the machine identifier `(third << 8) | fourth`, the
    /// clock gives the starting timestamp, and the sequence starts at zero.
    pub fn new_from_ip(ip: String) -> (r: Result<SnowflakeIdGenerator, SnowflakeError>)
        ensures
            address_machine_id(vstd::utf8::encode_utf8(ip@)) is None ==> r == Err::<
                SnowflakeIdGenerator,
                SnowflakeError,
            >(SnowflakeError::InvalidAddress),
            address_machine_id(vstd::utf8::encode_utf8(ip@)) matches Some(m) && m >= MACHINE_LIMIT
                ==> r == Err::<SnowflakeIdGenerator, SnowflakeError>(
                SnowflakeError::MachineIdOutOfRange,
            ),
            address_machine_id(vstd::utf8::encode_utf8(ip@)) matches Some(m) && m < MACHINE_LIMIT
                ==> r is Ok || r == Err::<SnowflakeIdGenerator, SnowflakeError>(
                SnowflakeError::ClockBeforeEpoch,
            ) || r == Err::<SnowflakeIdGenerator, SnowflakeError>(
                SnowflakeError::ClockOutOfRange,
            ) || r == Err::<SnowflakeIdGenerator, SnowflakeError>(
                SnowflakeError::TimestampOverflow,
            ),
            r matches Ok(g) ==> g.wf() && g.idx == 0 && Some(g.machine_bits as int)
                == address_machine_id(vstd::utf8::encode_utf8(ip@)),
    {
        let machine_bits = match machine_id_of(ip.as_str().as_bytes()) {
            Some(m) => m,
            None => {
                return Err(SnowflakeError::InvalidAddress);
            },
        };
        if machine_bits >= MACHINE_LIMIT {
            return Err(SnowflakeError::MachineIdOutOfRange);
        }
        let last_time_millis = fitted_timestamp(get_time_millis()?)?;
        Ok(SnowflakeIdGenerator { last_time_millis, machine_bits, idx: 0 })
    }

    /// The timestamp that `generate` takes when the sequence wraps, given a fresh
    /// reading `now`: the reading where it is past the stored timestamp `last`;
    /// `None` where the clock has to be waited for.
    pub fn refreshed(last: i64, now: i64) -> (r: Option<i64>)
        ensures
            now > last ==> r == Some(now),
            now <= last ==> r is None,
    {
        if now > last {
            Some(now)
        } else {
            None
        }
    }

    /// Issues the next identifier, reading the clock only when the sequence wraps
    /// to zero; then the timestamp moves past the one stored, waiting for the
    /// clock if need be. Between wraps the stored timestamp may lag the clock.
    pub fn generate(&mut self) -> (r: Result<i64, SnowflakeError>)
        requires
            old(self).wf(),
        ensures
            final(self).wf(),
            (old(self).idx + 1) % capacity() != 0 ==> r is Ok,
            r matches Ok(id) ==> basic_step(*old(self), *final(self)) && id
                == final(self).current_id(),
            r matches Err(e) ==> *final(self) == *old(self) && is_clock_error(e),
    {
        let idx = (self.idx + 1) % SEQUENCE_CAPACITY;
        let mut last = self.last_time_millis;
        if idx == 0 {
            let now = get_time_millis()?;
            let later = match Self::refreshed(last, now) {
                Some(t) => t,
                None => wait_past(last)?,
            };
            last = fitted_timestamp(later)?;
        }
        self.last_time_millis = last;
        self.idx = idx;
        Ok(pack_fields(last, self.machine_bits, idx))
    }

    /// The state that `real_time_generate` moves to, given the reading `now` taken
    /// at the call: a reading past the stored timestamp is taken with the sequence
    /// restarted at zero; otherwise the sequence advances, and `None` says that it
    /// is used up and the clock has to be waited for.
    pub fn real_time_next(&self, now: i64) -> (r: Option<SnowflakeIdGenerator>)
        requires
            self.wf(),
            0 <= now < TIMESTAMP_LIMIT,
        ensures
            now > self.last_time_millis ==> r == Some(
                SnowflakeIdGenerator { last_time_millis: now, idx: 0, ..*self },
            ),
            now <= self.last_time_millis && self.idx + 1 < capacity() ==> r == Some(
                SnowflakeIdGenerator { idx: (self.idx + 1) as u16, ..*self },
            ),
            now <= self.last_time_millis && self.idx + 1 == capacity() ==> r is None,
    {
        if now > self.last_time_millis {
            Some(SnowflakeIdGenerator { last_time_millis: now, idx: 0, ..*self })
        } else if self.idx + 1 < SEQUENCE_CAPACITY {
            Some(SnowflakeIdGenerator { idx: self.idx + 1, ..*self })
        } else {
            None
        }
    }

    /// Issues the next identifier stamped with the clock read at this call. When
    /// the clock has moved past the stored timestamp, that reading is taken and
    /// the sequence restarts at zero; otherwise the sequence advances, and when it
    /// wraps the call waits for the clock to move past the stored timestamp.
    pub fn real_time_generate(&mut self) -> (r: Result<i64, SnowflakeError>)
        requires
            old(self).wf(),
        ensures
            final(self).wf(),
            r matches Ok(id) ==> real_time_step(*old(self), *final(self)) && id
                == final(self).current_id(),
            r matches Err(e) ==> *final(self) == *old(self) && is_clock_error(e),
    {
        let now = fitted_timestamp(get_time_millis()?)?;
        let next = match self.real_time_next(now) {
            Some(g) => g,
            None => {
                let later = fitted_timestamp(wait_past(self.last_time_millis)?)?;
                SnowflakeIdGenerator { last_time_millis: later, idx: 0, ..*self }
            },
        };
        *self = next;
        Ok(pack_fields(self.last_time_millis, self.machine_bits, self.idx))
    }

    /// Issues the next identifier without reading the clock: when the sequence
    /// wraps to zero the stored timestamp moves forward by one.
    pub fn lazy_generate(&mut self) -> (r: i64)
        requires
            old(self).wf(),
            old(self).lazy_next().wf(),
        ensures
            *final(self) == old(self).lazy_next(),
            r == final(self).current_id(),
    {
        self.idx = (self.idx + 1) % SEQUENCE_CAPACITY;
        if self.idx == 0 {
            self.last_time_millis = self.last_time_millis + 1;
        }
        pack_fields(self.last_time_millis, self.machine_bits, self.idx)
    }

    /// The smallest identifier of this machine at a given timestamp, in the
    /// layout's milliseconds: a bound for range queries, not an issued identifier.
    pub fn generate_with_unix(&self, timestamp: i64) -> (r: i64)
        requires
            0 <= self.machine_bits < MACHINE_LIMIT,
            0 <= timestamp < TIMESTAMP_LIMIT,
        ensures
            r == pack(timestamp as int, self.machine_bits as int, 0),
    {
        pack_fields(timestamp, self.machine_bits, 0)
    }

    /// The smallest identifier of this machine at a UTC instant: its whole
    /// seconds, in milliseconds, are the timestamp field.
    pub fn generate_with_timestmap(&self, timestamp: UtcTime) -> (r: i64)
        requires
            0 <= self.machine_bits < MACHINE_LIMIT,
            0 <= timestamp.seconds * 1000 < TIMESTAMP_LIMIT,
        ensures
            r == pack(timestamp.seconds * 1000, self.machine_bits as int, 0),
    {
        self.generate_with_unix(timestamp.seconds * 1000)
    }

    /// Decodes an identifier into its timestamp, machine and sequence fields.
    pub fn reverse(&self, snowflake: u64) -> (r: Snowflake)
        ensures
            r.timestamp as int == timestamp_of(snowflake as int),
            r.machine_bits as int == machine_of(snowflake as int),
            r.idx as int == sequence_of(snowflake as int),
    {
        unpack_fields(snowflake)
    }
}

} // verus!
