//! The 64-bit identifier layout.
//!
//! From the most significant bit down: one sign bit that stays clear, 41 bits of
//! milliseconds, 10 bits of machine identifier and 12 bits of sequence.
use vstd::prelude::*;

verus! {

/// Per-millisecond capacity: how many sequence values one timestamp carries.
pub const SEQUENCE_CAPACITY: u16 = 4096;

/// Exclusive upper bound of a machine identifier.
pub const MACHINE_LIMIT: i64 = 1024;

/// Exclusive upper bound of a timestamp.
pub const TIMESTAMP_LIMIT: i64 = 0x200_0000_0000;

pub open spec fn capacity() -> int {
    SEQUENCE_CAPACITY as int
}

/// The three fields fit their reserved widths.
pub open spec fn fields_fit(timestamp: int, machine: int, sequence: int) -> bool {
    &&& 0 <= timestamp < TIMESTAMP_LIMIT
    &&& 0 <= machine < MACHINE_LIMIT
    &&& 0 <= sequence < capacity()
}

/// The packed value of three fields.
pub open spec fn pack(timestamp: int, machine: int, sequence: int) -> int {
    timestamp * 0x40_0000 + machine * 0x1000 + sequence
}

/// The timestamp field of a packed value.
pub open spec fn timestamp_of(id: int) -> int {
    (id / 0x40_0000) % (TIMESTAMP_LIMIT as int)
}

/// The machine field of a packed value.
pub open spec fn machine_of(id: int) -> int {
    (id / 0x1000) % (MACHINE_LIMIT as int)
}

/// The sequence field of a packed value.
pub open spec fn sequence_of(id: int) -> int {
    id % capacity()
}

/// The decoded fields of an identifier.
#[derive(Copy, Clone, Debug, PartialEq, Eq, Structural)]
pub struct Snowflake {
    pub timestamp: i64,
    pub machine_bits: i64,
    pub idx: u16,
}

proof fn lemma_pack_bits(t: u64, m: u64, s: u64)
    by (bit_vector)
    requires
        t < 0x200_0000_0000,
        m < 1024,
        s < 4096,
    ensures
        (t << 22u64) | (m << 12u64) | s == t * 0x40_0000 + m * 0x1000 + s,
        t * 0x40_0000 + m * 0x1000 + s < 0x8000_0000_0000_0000u64,
{
}

proof fn lemma_unpack_bits(x: u64)
    by (bit_vector)
    ensures
        (x >> 22u64) & 0x1ff_ffff_ffff == (x / 0x40_0000) % 0x200_0000_0000,
        (x >> 12u64) & 0x3ff == (x / 0x1000) % 1024,
        x & 0xfff == x % 4096,
{
}

/// Packs three fields that fit their widths into one non-negative identifier.
pub fn pack_fields(timestamp: i64, machine: i64, sequence: u16) -> (r: i64)
    requires
        fields_fit(timestamp as int, machine as int, sequence as int),
    ensures
        r as int == pack(timestamp as int, machine as int, sequence as int),
        r >= 0,
{
    let t = timestamp as u64;
    let m = machine as u64;
    let s = sequence as u64;
    proof {
        lemma_pack_bits(t, m, s);
    }
    ((t << 22u64) | (m << 12u64) | s) as i64
}

/// Splits an identifier into its three fields.
pub fn unpack_fields(id: u64) -> (r: Snowflake)
    ensures
        r.timestamp as int == timestamp_of(id as int),
        r.machine_bits as int == machine_of(id as int),
        r.idx as int == sequence_of(id as int),
{
    proof {
        lemma_unpack_bits(id);
    }
    let timestamp = ((id >> 22u64) & 0x1ff_ffff_ffff) as i64;
    let machine = ((id >> 12u64) & 0x3ff) as i64;
    let sequence = (id & 0xfff) as u16;
    Snowflake { timestamp, machine_bits: machine, idx: sequence }
}

/// Decoding a packed value gives back the fields that were packed.
pub proof fn lemma_unpack_pack(timestamp: int, machine: int, sequence: int)
    requires
        fields_fit(timestamp, machine, sequence),
    ensures
        timestamp_of(pack(timestamp, machine, sequence)) == timestamp,
        machine_of(pack(timestamp, machine, sequence)) == machine,
        sequence_of(pack(timestamp, machine, sequence)) == sequence,
{
    let id = pack(timestamp, machine, sequence);
    assert(id == (timestamp * 1024 + machine) * 0x1000 + sequence) by (nonlinear_arith)
        requires
            id == timestamp * 0x40_0000 + machine * 0x1000 + sequence,
    ;
    assert(id == timestamp * 0x40_0000 + (machine * 0x1000 + sequence));
    vstd::arithmetic::div_mod::lemma_fundamental_div_mod_converse(
        id, 0x1000, timestamp * 1024 + machine, sequence);
    vstd::arithmetic::div_mod::lemma_fundamental_div_mod_converse(
        id, 0x40_0000, timestamp, machine * 0x1000 + sequence);
    vstd::arithmetic::div_mod::lemma_fundamental_div_mod_converse(
        timestamp * 1024 + machine, 1024, timestamp, machine);
    vstd::arithmetic::div_mod::lemma_small_mod(timestamp as nat, TIMESTAMP_LIMIT as nat);
}

} // verus!
