//! Deriving a machine identifier from a dotted-quad address.
use vstd::prelude::*;

verus! {

/// The byte `.`.
pub const DOT: u8 = 46;

/// The dot-separated parts of a byte string, in order; one part more than there
/// are dots.
pub open spec fn address_parts(s: Seq<u8>) -> Seq<Seq<u8>>
    decreases s.len(),
{
    if s.len() == 0 {
        seq![Seq::<u8>::empty()]
    } else {
        let p = address_parts(s.drop_last());
        if s.last() == DOT {
            p.push(Seq::<u8>::empty())
        } else {
            p.update(p.len() - 1, p.last().push(s.last()))
        }
    }
}

pub open spec fn is_digit(b: u8) -> bool {
    48 <= b <= 57
}

/// The value of a string of decimal digits, most significant first.
pub open spec fn decimal_value(s: Seq<u8>) -> int
    decreases s.len(),
{
    if s.len() == 0 {
        0
    } else {
        decimal_value(s.drop_last()) * 10 + (s.last() - 48)
    }
}

/// A non-empty string of decimal digits whose value is at most 255.
pub open spec fn is_octet(s: Seq<u8>) -> bool {
    &&& s.len() > 0
    &&& forall|i: int| 0 <= i < s.len() ==> is_digit(#[trigger] s[i])
    &&& decimal_value(s) <= 255
}

/// The machine identifier of an address: with four dot-separated parts whose
/// third and fourth are decimal octets, the third shifted left by eight bits
/// over the fourth.
pub open spec fn address_machine_id(s: Seq<u8>) -> Option<int> {
    let p = address_parts(s);
    if p.len() == 4 && is_octet(p[2]) && is_octet(p[3]) {
        Some(decimal_value(p[2]) * 256 + decimal_value(p[3]))
    } else {
        None
    }
}

proof fn lemma_parts_nonempty(s: Seq<u8>)
    ensures
        address_parts(s).len() >= 1,
    decreases s.len(),
{
    if s.len() > 0 {
        lemma_parts_nonempty(s.drop_last());
    }
}

/// The value of the decimal octet `s[start..end]`, or `None` where that is no
/// decimal octet.
pub fn numerize(s: &[u8], start: usize, end: usize) -> (r: Option<i64>)
    requires
        start <= end <= s@.len(),
    ensures
        is_octet(s@.subrange(start as int, end as int)) ==> r == Some(
            decimal_value(s@.subrange(start as int, end as int)) as i64,
        ),
        !is_octet(s@.subrange(start as int, end as int)) ==> r is None,
        r matches Some(v) ==> 0 <= v <= 255,
{
    let ghost part = s@.subrange(start as int, end as int);
    if start == end {
        return None;
    }
    let mut acc: i64 = 0;
    let mut i: usize = start;
    while i < end
        invariant
            start <= i <= end <= s@.len(),
            part == s@.subrange(start as int, end as int),
            forall|k: int| start <= k < i ==> is_digit(#[trigger] s@[k]),
            0 <= acc <= 256,
            acc == if decimal_value(s@.subrange(start as int, i as int)) < 256 {
                decimal_value(s@.subrange(start as int, i as int))
            } else {
                256
            },
        decreases end - i,
    {
        let b = s[i];
        if !(48 <= b && b <= 57) {
            assert(part[i - start] == b);
            return None;
        }
        let ghost prev = s@.subrange(start as int, i as int);
        assert(s@.subrange(start as int, i + 1).drop_last() == prev);
        assert(decimal_value(prev) >= 0) by {
            lemma_decimal_nonnegative(prev);
        }
        acc = acc * 10 + (b - 48) as i64;
        if acc > 256 {
            acc = 256;
        }
        i = i + 1;
    }
    assert(s@.subrange(start as int, i as int) == part);
    if acc > 255 {
        None
    } else {
        Some(acc)
    }
}

proof fn lemma_decimal_nonnegative(s: Seq<u8>)
    requires
        forall|i: int| 0 <= i < s.len() ==> is_digit(#[trigger] s[i]),
    ensures
        decimal_value(s) >= 0,
    decreases s.len(),
{
    if s.len() > 0 {
        let t = s.drop_last();
        assert forall|i: int| 0 <= i < t.len() implies is_digit(#[trigger] t[i]) by {
            assert(t[i] == s[i]);
        }
        lemma_decimal_nonnegative(t);
    }
}

/// The machine identifier of an address given as bytes, or `None` where the
/// address is not of the accepted shape.
pub fn machine_id_of(s: &[u8]) -> (r: Option<i64>)
    ensures
        r == match address_machine_id(s@) {
            Some(m) => Some(m as i64),
            None => None::<i64>,
        },
        address_machine_id(s@) matches Some(m) ==> 0 <= m < 0x1_0000,
{
    let mut dots: usize = 0;
    let mut cur_start: usize = 0;
    let mut third_start: usize = 0;
    let mut third_end: usize = 0;
    let mut i: usize = 0;
    while i < s.len()
        invariant
            0 <= i <= s@.len(),
            cur_start <= i,
            dots <= i,
            address_parts(s@.take(i as int)).len() == dots + 1,
            address_parts(s@.take(i as int)).last() == s@.subrange(cur_start as int, i as int),
            dots == 2 ==> third_start == cur_start,
            dots >= 3 ==> third_start <= third_end <= i && address_parts(s@.take(i as int))[2]
                == s@.subrange(third_start as int, third_end as int),
        decreases s@.len() - i,
    {
        let ghost before = s@.take(i as int);
        let ghost p = address_parts(before);
        assert(s@.take(i + 1).drop_last() == before);
        assert(s@.take(i + 1).last() == s@[i as int]);
        proof {
            lemma_parts_nonempty(before);
        }
        if s[i] == DOT {
            if dots == 1 {
                third_start = i + 1;
            } else if dots == 2 {
                third_end = i;
            }
            dots = dots + 1;
            cur_start = i + 1;
            assert(address_parts(s@.take(i + 1)) == p.push(Seq::<u8>::empty()));
            assert(s@.subrange(cur_start as int, i + 1) == Seq::<u8>::empty());
        } else {
            assert(s@.subrange(cur_start as int, i + 1) == s@.subrange(cur_start as int, i as int).push(
                s@[i as int],
            ));
        }
        i = i + 1;
    }
    assert(s@.take(i as int) == s@);
    if dots != 3 {
        return None;
    }
    let ghost p = address_parts(s@);
    assert(p[3] == s@.subrange(cur_start as int, s@.len() as int));
    assert(p[2] == s@.subrange(third_start as int, third_end as int));
    let third = numerize(s, third_start, third_end);
    let fourth = numerize(s, cur_start, s.len());
    match (third, fourth) {
        (Some(a), Some(b)) => {
            proof {
                lemma_decimal_nonnegative(p[2]);
                lemma_decimal_nonnegative(p[3]);
            }
            Some(a * 256 + b)
        },
        _ => {
            None
        },
    }
}

} // verus!
