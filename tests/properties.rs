use snowflake::address::{machine_id_of, numerize};
use snowflake::clock::{fitted_timestamp, timestamp_from_reading, wait_past};
use snowflake::layout::{pack_fields, unpack_fields, SEQUENCE_CAPACITY};
use snowflake::{get_time_millis, Snowflake, SnowflakeError, SnowflakeIdGenerator, UtcTime};

const CAPACITY: usize = SEQUENCE_CAPACITY as usize;

fn generator_at(last_time_millis: i64) -> SnowflakeIdGenerator {
    SnowflakeIdGenerator { last_time_millis, machine_bits: 635, idx: 0 }
}

#[test]
fn address_gives_machine_id_and_first_sequence() {
    let mut g = SnowflakeIdGenerator::new_from_ip("102.65.2.123".to_string()).unwrap();
    assert_eq!(g.machine_bits, 635);
    assert_eq!(g.idx, 0);
    let id = g.generate().unwrap();
    let decoded = g.reverse(id as u64);
    assert_eq!(decoded.machine_bits, 635);
    assert_eq!(decoded.idx, 1);
}

#[test]
fn full_capacity_burst_is_unique_for_each_strategy() {
    let mut g = SnowflakeIdGenerator::new_from_ip("10.0.1.7".to_string()).unwrap();
    for strategy in 0..3 {
        let mut ids: Vec<i64> = Vec::new();
        for _ in 0..CAPACITY {
            let id = match strategy {
                0 => g.generate().unwrap(),
                1 => g.real_time_generate().unwrap(),
                _ => g.lazy_generate(),
            };
            ids.push(id);
        }
        for w in ids.windows(2) {
            assert!(w[0] < w[1]);
        }
        ids.sort();
        ids.dedup();
        assert_eq!(ids.len(), CAPACITY);
    }
}

#[test]
fn every_issued_id_decodes_to_the_state() {
    let mut g = SnowflakeIdGenerator::new_from_ip("102.65.2.123".to_string()).unwrap();
    for k in 0..3 * CAPACITY {
        let id = match k % 3 {
            0 => g.generate().unwrap(),
            1 => g.real_time_generate().unwrap(),
            _ => g.lazy_generate(),
        };
        assert!(id >= 0);
        let decoded = g.reverse(id as u64);
        assert_eq!(
            decoded,
            Snowflake { timestamp: g.last_time_millis, machine_bits: g.machine_bits, idx: g.idx }
        );
    }
}

#[test]
fn timestamps_never_decrease() {
    let mut g = SnowflakeIdGenerator::new_from_ip("102.65.2.123".to_string()).unwrap();
    let first_id = g.generate().unwrap();
    let mut previous = g.reverse(first_id as u64).timestamp;
    for k in 0..5 * CAPACITY {
        let id = if k % 2 == 0 { g.generate().unwrap() } else { g.real_time_generate().unwrap() };
        let t = g.reverse(id as u64).timestamp;
        assert!(t >= previous);
        previous = t;
    }
}

#[test]
fn generate_moves_timestamp_after_capacity_calls() {
    // The stored timestamp is ahead of the clock, as if the clock stood still.
    let start = get_time_millis().unwrap() + 30;
    let mut g = generator_at(start);
    let first_id = g.generate().unwrap();
    let first = g.reverse(first_id as u64).timestamp;
    assert_eq!(first, start);
    for _ in 1..CAPACITY - 1 {
        let id = g.generate().unwrap();
        assert_eq!(g.reverse(id as u64).timestamp, first);
    }
    let id = g.generate().unwrap();
    assert_eq!(g.reverse(id as u64).idx, 0);
    assert!(g.reverse(id as u64).timestamp > first);
    let next = g.generate().unwrap();
    assert!(g.reverse(next as u64).timestamp > first);
}

#[test]
fn real_time_restarts_sequence_on_a_later_clock() {
    let mut g = generator_at(1000);
    g.idx = 17;
    let id = g.real_time_generate().unwrap();
    assert_eq!(g.idx, 0);
    assert!(g.last_time_millis > 1000);
    assert_eq!(g.reverse(id as u64).idx, 0);
}

#[test]
fn real_time_waits_when_sequence_wraps() {
    let start = get_time_millis().unwrap() + 20;
    let mut g = generator_at(start);
    g.idx = SEQUENCE_CAPACITY - 2;
    let id = g.real_time_generate().unwrap();
    assert_eq!(g.last_time_millis, start);
    assert_eq!(g.reverse(id as u64).idx, SEQUENCE_CAPACITY - 1);
    let id = g.real_time_generate().unwrap();
    assert!(g.last_time_millis > start);
    assert_eq!(g.reverse(id as u64).idx, 0);
}

#[test]
fn lazy_generate_advances_by_one_per_capacity() {
    let mut g = generator_at(1000);
    for k in 1..=3i64 {
        for _ in 0..CAPACITY {
            g.lazy_generate();
        }
        assert_eq!(g.last_time_millis, 1000 + k);
        assert_eq!(g.idx, 0);
    }
}

#[test]
fn lazy_generate_exact_values() {
    let mut g = generator_at(1);
    assert_eq!(g.lazy_generate(), (1 << 22) | (635 << 12) | 1);
    g.idx = SEQUENCE_CAPACITY - 1;
    assert_eq!(g.lazy_generate(), (2 << 22) | (635 << 12));
}

#[test]
fn generate_without_wrap_keeps_timestamp() {
    let mut g = generator_at(77);
    let id = g.generate().unwrap();
    assert_eq!(id, (77 << 22) | (635 << 12) | 1);
    assert_eq!(g.last_time_millis, 77);
}

#[test]
fn generate_with_unix_packs_zero_sequence() {
    let g = generator_at(5);
    assert_eq!(g.generate_with_unix(1), 6795264);
    assert_eq!(g.generate_with_unix(0), 635 << 12);
}

#[test]
fn generate_with_timestamp_uses_seconds() {
    let g = generator_at(5);
    assert_eq!(g.generate_with_timestmap(UtcTime { seconds: 1 }), (1000 << 22) | (635 << 12));
    assert_eq!(g.generate_with_timestmap(UtcTime { seconds: 1 }), 4196904960);
}

#[test]
fn pack_and_unpack_exact() {
    let id = pack_fields(0x1ff_ffff_ffff, 1023, 4095);
    assert_eq!(id, i64::MAX);
    assert_eq!(
        unpack_fields(id as u64),
        Snowflake { timestamp: 0x1ff_ffff_ffff, machine_bits: 1023, idx: 4095 }
    );
    assert_eq!(
        unpack_fields(u64::MAX),
        Snowflake { timestamp: 0x1ff_ffff_ffff, machine_bits: 1023, idx: 4095 }
    );
    assert_eq!(pack_fields(3, 2, 1), (3 << 22) | (2 << 12) | 1);
}

#[test]
fn invalid_addresses_are_rejected() {
    for ip in ["1.2.3", "1.2.3.4.5", "a.b.c.d", "1.2.3.256", "1.2..4", "1.2.3.", "1.2.+3.4", ""] {
        assert_eq!(
            SnowflakeIdGenerator::new_from_ip(ip.to_string()).unwrap_err(),
            SnowflakeError::InvalidAddress
        );
    }
}

#[test]
fn machine_id_too_wide_is_rejected() {
    assert_eq!(
        SnowflakeIdGenerator::new_from_ip("10.0.4.0".to_string()).unwrap_err(),
        SnowflakeError::MachineIdOutOfRange
    );
    let g = SnowflakeIdGenerator::new_from_ip("10.0.3.255".to_string()).unwrap();
    assert_eq!(g.machine_bits, 1023);
}

#[test]
fn machine_id_parsing() {
    assert_eq!(machine_id_of(b"102.65.2.123"), Some(635));
    assert_eq!(machine_id_of(b"x.y.007.0255"), Some(7 * 256 + 255));
    assert_eq!(machine_id_of(b"1.2.300.4"), None);
    assert_eq!(numerize(b"12.255", 3, 6), Some(255));
    assert_eq!(numerize(b"12.256", 3, 6), None);
    assert_eq!(numerize(b"12.256", 2, 2), None);
    assert_eq!(numerize(b"0000000000000000000009", 0, 22), Some(9));
}

#[test]
fn clock_readings() {
    assert_eq!(timestamp_from_reading(None), Err(SnowflakeError::ClockBeforeEpoch));
    assert_eq!(timestamp_from_reading(Some(5)), Ok(5));
    assert_eq!(timestamp_from_reading(Some(1 << 41)), Ok(1 << 41));
    assert_eq!(timestamp_from_reading(Some((1 << 63) - 1)), Ok(i64::MAX));
    assert_eq!(timestamp_from_reading(Some(1 << 63)), Err(SnowflakeError::ClockOutOfRange));
    assert_eq!(fitted_timestamp(5), Ok(5));
    assert_eq!(fitted_timestamp((1 << 41) - 1), Ok((1 << 41) - 1));
    assert_eq!(fitted_timestamp(1 << 41), Err(SnowflakeError::TimestampOverflow));
    assert_eq!(fitted_timestamp(-1), Err(SnowflakeError::TimestampOverflow));
    let now = get_time_millis().unwrap();
    // 2020-01-01 in milliseconds since the epoch.
    assert!(now > 1_577_836_800_000);
}

#[test]
fn refreshed_takes_a_later_reading_only() {
    assert_eq!(SnowflakeIdGenerator::refreshed(10, 11), Some(11));
    assert_eq!(SnowflakeIdGenerator::refreshed(10, 10), None);
    assert_eq!(SnowflakeIdGenerator::refreshed(10, 3), None);
}

#[test]
fn real_time_next_decides_by_the_reading() {
    let mut g = generator_at(100);
    g.idx = 7;
    let later = g.real_time_next(150).unwrap();
    assert_eq!((later.last_time_millis, later.idx, later.machine_bits), (150, 0, 635));
    let same = g.real_time_next(100).unwrap();
    assert_eq!((same.last_time_millis, same.idx), (100, 8));
    let behind = g.real_time_next(40).unwrap();
    assert_eq!((behind.last_time_millis, behind.idx), (100, 8));
    g.idx = SEQUENCE_CAPACITY - 1;
    assert!(g.real_time_next(100).is_none());
    assert!(g.real_time_next(99).is_none());
    assert_eq!(g.real_time_next(101).unwrap().idx, 0);
}

#[test]
fn wait_past_returns_a_later_reading() {
    let now = get_time_millis().unwrap();
    let t = wait_past(now + 2).unwrap();
    assert!(t > now + 2);
}
