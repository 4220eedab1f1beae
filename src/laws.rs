//! Properties that relate several calls of the generator.
use vstd::prelude::*;

use crate::generator::{basic_step, issue_step, real_time_step, SnowflakeIdGenerator};
use crate::layout::{
    capacity, lemma_unpack_pack, machine_of, pack, sequence_of, timestamp_of, TIMESTAMP_LIMIT,
};

verus! {

/// Every step that issues an identifier moves to a strictly larger identifier
/// and never moves the timestamp back.
proof fn lemma_issue_step_increases(a: SnowflakeIdGenerator, b: SnowflakeIdGenerator)
    requires
        a.wf(),
        b.wf(),
        issue_step(a, b),
    ensures
        a.current_id() < b.current_id(),
        a.last_time_millis <= b.last_time_millis,
{
    let m = a.machine_bits as int;
    let ta = a.last_time_millis as int;
    let tb = b.last_time_millis as int;
    assert(b.machine_bits == a.machine_bits);
    if tb > ta {
        assert(pack(ta, m, a.idx as int) < pack(tb, m, b.idx as int)) by (nonlinear_arith)
            requires
                tb >= ta + 1,
                0 <= m < 1024,
                0 <= a.idx < capacity(),
                0 <= b.idx,
        ;
    } else {
        assert(b.idx == a.idx + 1);
    }
}

proof fn lemma_increase_between(gens: Seq<SnowflakeIdGenerator>, i: int, j: int)
    requires
        forall|k: int| 0 <= k < gens.len() ==> #[trigger] gens[k].wf(),
        forall|k: int| 0 <= k < gens.len() - 1 ==> issue_step(#[trigger] gens[k], gens[k + 1]),
        0 <= i < j < gens.len(),
    ensures
        gens[i].current_id() < gens[j].current_id(),
        gens[i].last_time_millis <= gens[j].last_time_millis,
    decreases j - i,
{
    lemma_issue_step_increases(gens[j - 1], gens[j]);
    if i < j - 1 {
        lemma_increase_between(gens, i, j - 1);
    }
}

/// Identifiers issued one after another, by any mix of the three strategies,
/// strictly increase; so any run of them, a full-capacity burst included, holds
/// no duplicate. The timestamps of the states never decrease.
pub proof fn lemma_issued_ids_increase(gens: Seq<SnowflakeIdGenerator>)
    requires
        forall|i: int| 0 <= i < gens.len() ==> #[trigger] gens[i].wf(),
        forall|i: int| 0 <= i < gens.len() - 1 ==> issue_step(#[trigger] gens[i], gens[i + 1]),
    ensures
        forall|i: int, j: int|
            0 <= i < j < gens.len() ==> #[trigger] gens[i].current_id()
                < #[trigger] gens[j].current_id(),
        forall|i: int, j: int|
            0 <= i < j < gens.len() ==> #[trigger] gens[i].last_time_millis
                <= #[trigger] gens[j].last_time_millis,
        forall|i: int, j: int|
            0 <= i < j < gens.len() ==> #[trigger] gens[i].current_id()
                != #[trigger] gens[j].current_id(),
{
    assert forall|i: int, j: int| 0 <= i < j < gens.len() implies #[trigger] gens[i].current_id()
        < #[trigger] gens[j].current_id() by {
        lemma_increase_between(gens, i, j);
    }
    assert forall|i: int, j: int| 0 <= i < j < gens.len() implies #[trigger] gens[i].last_time_millis
        <= #[trigger] gens[j].last_time_millis by {
        lemma_increase_between(gens, i, j);
    }
}

/// The fields of the current state are what decoding its identifier gives back;
/// after a call that issued an identifier, that identifier is the current one.
pub proof fn lemma_round_trip(g: SnowflakeIdGenerator)
    requires
        g.wf(),
    ensures
        0 <= g.current_id() < 0x8000_0000_0000_0000,
        timestamp_of(g.current_id()) == g.last_time_millis,
        machine_of(g.current_id()) == g.machine_bits,
        sequence_of(g.current_id()) == g.idx,
{
    let t = g.last_time_millis as int;
    let m = g.machine_bits as int;
    let s = g.idx as int;
    lemma_unpack_pack(t, m, s);
    assert(pack(t, m, s) < 0x8000_0000_0000_0000) by (nonlinear_arith)
        requires
            0 <= t < TIMESTAMP_LIMIT,
            0 <= m < 1024,
            0 <= s < 4096,
    ;
    assert(pack(t, m, s) >= 0) by (nonlinear_arith)
        requires
            0 <= t,
            0 <= m,
            0 <= s,
    ;
}

/// The timestamps of successive states of `generate` and `real_time_generate`
/// never decrease.
pub proof fn lemma_timestamps_monotone(gens: Seq<SnowflakeIdGenerator>)
    requires
        forall|i: int| 0 <= i < gens.len() ==> #[trigger] gens[i].wf(),
        forall|i: int|
            0 <= i < gens.len() - 1 ==> basic_step(#[trigger] gens[i], gens[i + 1])
                || real_time_step(gens[i], gens[i + 1]),
    ensures
        forall|i: int, j: int|
            0 <= i < j < gens.len() ==> #[trigger] gens[i].last_time_millis
                <= #[trigger] gens[j].last_time_millis,
{
    assert forall|i: int| 0 <= i < gens.len() - 1 implies issue_step(
        #[trigger] gens[i],
        gens[i + 1],
    ) by {}
    lemma_issued_ids_increase(gens);
}

proof fn lemma_wrap_within(gens: Seq<SnowflakeIdGenerator>, k: int)
    requires
        forall|i: int| 0 <= i < gens.len() ==> #[trigger] gens[i].wf(),
        forall|i: int| 0 <= i < gens.len() - 1 ==> basic_step(#[trigger] gens[i], gens[i + 1]),
        0 <= k < gens.len(),
    ensures
        gens[k].last_time_millis > gens[0].last_time_millis || (gens[k].last_time_millis
            == gens[0].last_time_millis && gens[k].idx == gens[0].idx + k),
    decreases k,
{
    if k > 0 {
        lemma_wrap_within(gens, k - 1);
        let a = gens[k - 1];
        let b = gens[k];
        assert(a.wf() && b.wf() && basic_step(a, b));
        if a.idx + 1 < capacity() {
            vstd::arithmetic::div_mod::lemma_small_mod((a.idx + 1) as nat, capacity() as nat);
            assert(b.idx == a.idx + 1);
        } else {
            assert(b.idx == 0);
        }
    }
}

/// Over as many calls of `generate` as the sequence capacity, whatever the clock
/// reads, the sequence wraps once and the timestamp moves strictly forward: the
/// state after the last call has a later timestamp than the state before the
/// first.
pub proof fn lemma_capacity_wraparound(gens: Seq<SnowflakeIdGenerator>)
    requires
        gens.len() == capacity() + 1,
        forall|i: int| 0 <= i < gens.len() ==> #[trigger] gens[i].wf(),
        forall|i: int| 0 <= i < gens.len() - 1 ==> basic_step(#[trigger] gens[i], gens[i + 1]),
    ensures
        gens[capacity()].last_time_millis > gens[0].last_time_millis,
{
    lemma_wrap_within(gens, capacity());
    assert(gens[capacity()].wf());
}

proof fn lemma_next_div_mod(a: int)
    requires
        a >= 0,
    ensures
        a % capacity() + 1 < capacity() ==> (a + 1) % capacity() == a % capacity() + 1 && (a + 1)
            / capacity() == a / capacity(),
        a % capacity() + 1 == capacity() ==> (a + 1) % capacity() == 0 && (a + 1) / capacity() == a
            / capacity() + 1,
{
    let d = capacity();
    let q = a / d;
    let r = a % d;
    vstd::arithmetic::div_mod::lemma_fundamental_div_mod(a, d);
    assert(a == q * d + r) by (nonlinear_arith)
        requires
            a == d * q + r,
    ;
    if r + 1 < d {
        vstd::arithmetic::div_mod::lemma_fundamental_div_mod_converse(a + 1, d, q, r + 1);
    } else {
        assert(a + 1 == (q + 1) * d + 0) by (nonlinear_arith)
            requires
                a == q * d + r,
                r + 1 == d,
        ;
        vstd::arithmetic::div_mod::lemma_fundamental_div_mod_converse(a + 1, d, q + 1, 0);
    }
}

proof fn lemma_lazy_closed_form(gens: Seq<SnowflakeIdGenerator>, j: int)
    requires
        forall|i: int| 0 <= i < gens.len() ==> #[trigger] gens[i].wf(),
        forall|i: int| 0 <= i < gens.len() - 1 ==> gens[i + 1] == (#[trigger] gens[i]).lazy_next(),
        0 <= j < gens.len(),
    ensures
        gens[j].machine_bits == gens[0].machine_bits,
        gens[j].last_time_millis == gens[0].last_time_millis + (gens[0].idx + j) / capacity(),
        gens[j].idx == (gens[0].idx + j) % capacity(),
    decreases j,
{
    if j > 0 {
        lemma_lazy_closed_form(gens, j - 1);
        assert(gens[0].wf() && gens[j - 1].wf() && gens[j].wf());
        let a = gens[0].idx as int + j - 1;
        lemma_next_div_mod(a);
        assert(gens[j] == gens[j - 1].lazy_next());
    } else {
        assert(gens[0].wf());
        vstd::arithmetic::div_mod::lemma_fundamental_div_mod_converse(
            gens[0].idx as int, capacity(), 0, gens[0].idx as int);
    }
}

/// `lazy_generate` called `k` times the sequence capacity moves the timestamp
/// forward by exactly `k` and brings the sequence back to where it was.
pub proof fn lemma_lazy_advance(gens: Seq<SnowflakeIdGenerator>, k: nat)
    requires
        gens.len() == k * capacity() + 1,
        forall|i: int| 0 <= i < gens.len() ==> #[trigger] gens[i].wf(),
        forall|i: int| 0 <= i < gens.len() - 1 ==> gens[i + 1] == (#[trigger] gens[i]).lazy_next(),
    ensures
        gens[k * capacity()].last_time_millis == gens[0].last_time_millis + k,
        gens[k * capacity()].idx == gens[0].idx,
{
    let n = k * capacity();
    assert(gens[0].wf());
    lemma_lazy_closed_form(gens, n);
    vstd::arithmetic::div_mod::lemma_fundamental_div_mod_converse(
        gens[0].idx + n, capacity(), k as int, gens[0].idx as int);
}

} // verus!
