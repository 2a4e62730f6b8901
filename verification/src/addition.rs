//! Sums of 256-bit amounts, limb by limb with carries.
use vstd::arithmetic::div_mod::lemma_fundamental_div_mod_converse;
use vstd::prelude::*;

use crate::u256::{split_limb_sum, u256_bound, U256};

verus! {

/// The 32-bit limb of a number at a position, least significant first.
pub open spec fn limb32(x: U256, k: int) -> int {
    if k == 0 {
        x.0 as int % 0x1_0000_0000
    } else if k == 1 {
        x.0 as int / 0x1_0000_0000
    } else if k == 2 {
        x.1 as int % 0x1_0000_0000
    } else if k == 3 {
        x.1 as int / 0x1_0000_0000
    } else if k == 4 {
        x.2 as int % 0x1_0000_0000
    } else if k == 5 {
        x.2 as int / 0x1_0000_0000
    } else if k == 6 {
        x.3 as int % 0x1_0000_0000
    } else {
        x.3 as int / 0x1_0000_0000
    }
}

fn limb(x: &U256, k: usize) -> (r: u64)
    requires
        k < 8,
    ensures
        r == limb32(*x, k as int),
        r < 0x1_0000_0000,
{
    let w: u64 = if k < 2 {
        x.0
    } else if k < 4 {
        x.1
    } else if k < 6 {
        x.2
    } else {
        x.3
    };
    if k % 2 == 0 {
        w % 0x1_0000_0000
    } else {
        w / 0x1_0000_0000
    }
}

/// The sum of the numbers.
pub open spec fn sum_of(s: Seq<U256>) -> nat
    decreases s.len(),
{
    if s.len() == 0 {
        0
    } else {
        sum_of(s.drop_last()) + s.last().value()
    }
}

/// The sum of the limbs at one position.
pub open spec fn column_of(s: Seq<U256>, k: int) -> int
    decreases s.len(),
{
    if s.len() == 0 {
        0
    } else {
        column_of(s.drop_last(), k) + limb32(s.last(), k)
    }
}

/// Eight columns, weighed.
pub open spec fn weigh(
    c0: int,
    c1: int,
    c2: int,
    c3: int,
    c4: int,
    c5: int,
    c6: int,
    c7: int,
) -> int {
    c0 + c1 * 0x1_0000_0000 + c2 * 0x1_0000_0000_0000_0000 + c3
        * 0x1_0000_0000_0000_0000_0000_0000 + c4
        * 0x1_0000_0000_0000_0000_0000_0000_0000_0000int + c5
        * 0x1_0000_0000_0000_0000_0000_0000_0000_0000_0000_0000int + c6
        * 0x1_0000_0000_0000_0000_0000_0000_0000_0000_0000_0000_0000_0000int + c7
        * 0x1_0000_0000_0000_0000_0000_0000_0000_0000_0000_0000_0000_0000_0000_0000int
}

/// The sum of the numbers is the weighed sum of the columns.
proof fn lemma_columns(s: Seq<U256>)
    ensures
        sum_of(s) == weigh(
            column_of(s, 0),
            column_of(s, 1),
            column_of(s, 2),
            column_of(s, 3),
            column_of(s, 4),
            column_of(s, 5),
            column_of(s, 6),
            column_of(s, 7),
        ),
    decreases s.len(),
{
    if s.len() > 0 {
        lemma_columns(s.drop_last());
    }
}

/// The column of the input and the chain at one position.
fn column(input: &U256, chain: &[U256], k: usize) -> (r: u64)
    requires
        k < 8,
        chain@.len() < 0x7fff_ffff,
    ensures
        r == limb32(*input, k as int) + column_of(chain@, k as int),
        r < 0x8000_0000_0000_0000,
{
    let mut sum: u64 = limb(input, k);
    let mut i: usize = 0;
    while i < chain.len()
        invariant
            k < 8,
            i <= chain@.len(),
            chain@.len() < 0x7fff_ffff,
            sum == limb32(*input, k as int) + column_of(chain@.take(i as int), k as int),
            sum <= (i + 1) * 0xffff_ffff,
        decreases chain@.len() - i,
    {
        sum = sum + limb(&chain[i], k);
        i += 1;
        assert(chain@.take(i as int).drop_last() =~= chain@.take(i - 1));
    }
    assert(chain@.take(i as int) =~= chain@);
    sum
}

/// Returns `input + sum(chain)` modulo `2^256`: limb by limb from the least
/// significant one, with carries; the last carry is dropped.
pub fn u256_addition_chain(input: &U256, chain: &[U256]) -> (r: U256)
    requires
        chain@.len() < 0x7fff_ffff,
    ensures
        r.value() == (input.value() + sum_of(chain@)) % u256_bound(),
{
    let s0 = split_limb_sum(column(input, chain, 0));
    let s1 = split_limb_sum(column(input, chain, 1) + s0.carry);
    let s2 = split_limb_sum(column(input, chain, 2) + s1.carry);
    let s3 = split_limb_sum(column(input, chain, 3) + s2.carry);
    let s4 = split_limb_sum(column(input, chain, 4) + s3.carry);
    let s5 = split_limb_sum(column(input, chain, 5) + s4.carry);
    let s6 = split_limb_sum(column(input, chain, 6) + s5.carry);
    let s7 = split_limb_sum(column(input, chain, 7) + s6.carry);
    let r = U256(
        s0.limb + s1.limb * 0x1_0000_0000,
        s2.limb + s3.limb * 0x1_0000_0000,
        s4.limb + s5.limb * 0x1_0000_0000,
        s6.limb + s7.limb * 0x1_0000_0000,
    );
    proof {
        lemma_columns(chain@);
        let total = (input.value() + sum_of(chain@)) as int;
        assert(total == r.value() + s7.carry * u256_bound());
        lemma_fundamental_div_mod_converse(
            total,
            u256_bound() as int,
            s7.carry as int,
            r.value() as int,
        );
    }
    r
}

/// The sum of the numbers, or `None` if it does not fit in 256 bits.
pub fn checked_sum(s: &[U256]) -> (r: Option<U256>)
    ensures
        r is Some <==> sum_of(s@) < u256_bound(),
        r matches Some(t) ==> t.value() == sum_of(s@),
{
    let mut total = U256::zero();
    let mut i: usize = 0;
    while i < s.len()
        invariant
            i <= s@.len(),
            total.value() == sum_of(s@.take(i as int)),
        decreases s@.len() - i,
    {
        assert(s@.take(i + 1).drop_last() =~= s@.take(i as int));
        match total.checked_add(s[i]) {
            Some(t) => {
                total = t;
            },
            None => {
                proof {
                    lemma_sum_prefix(s@, i + 1);
                }
                return None;
            },
        }
        i += 1;
    }
    assert(s@.take(i as int) =~= s@);
    Some(total)
}

/// A sum of some of the numbers is no more than the sum of all.
proof fn lemma_sum_prefix(s: Seq<U256>, n: int)
    requires
        0 <= n <= s.len(),
    ensures
        sum_of(s.take(n)) <= sum_of(s),
    decreases s.len() - n,
{
    if n < s.len() {
        lemma_sum_prefix(s, n + 1);
        assert(s.take(n + 1).drop_last() =~= s.take(n));
    } else {
        assert(s.take(n) =~= s);
    }
}

} // verus!
