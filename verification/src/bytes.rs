//! Little-endian byte strings as integers.
use vstd::arithmetic::mul::{
    lemma_mul_is_associative, lemma_mul_is_commutative, lemma_mul_is_distributive_add,
};
use vstd::arithmetic::power::{lemma_pow0, lemma_pow1, lemma_pow_adds, lemma_pow_positive, pow};
use vstd::prelude::*;

verus! {

/// The integer that a byte string holds, least significant byte first.
pub open spec fn bytes_value(b: Seq<u8>) -> nat
    decreases b.len(),
{
    if b.len() == 0 {
        0
    } else {
        (bytes_value(b.drop_last()) + b.last() * pow(256, (b.len() - 1) as nat)) as nat
    }
}

/// A byte string of length `n` holds an integer below `256^n`.
pub proof fn lemma_bytes_value_bound(b: Seq<u8>)
    ensures
        0 <= bytes_value(b) < pow(256, b.len()),
    decreases b.len(),
{
    if b.len() == 0 {
        lemma_pow0(256);
    } else {
        let k = (b.len() - 1) as nat;
        lemma_bytes_value_bound(b.drop_last());
        lemma_pow_adds(256, k, 1);
        lemma_pow1(256);
        lemma_pow_positive(256, k);
        let p = pow(256, k);
        let last = b.last() as int;
        assert(last * p <= 255 * p) by (nonlinear_arith)
            requires
                last <= 255,
                p > 0,
        ;
        assert(0 <= last * p) by (nonlinear_arith)
            requires
                0 <= last,
                p > 0,
        ;
        assert(p * 256 == 255 * p + p);
    }
}

/// A byte string is its first `k` bytes plus `256^k` times the rest.
pub proof fn lemma_bytes_value_split(b: Seq<u8>, k: nat)
    requires
        k <= b.len(),
    ensures
        bytes_value(b) == bytes_value(b.take(k as int)) + pow(256, k) * bytes_value(
            b.skip(k as int),
        ),
    decreases b.len(),
{
    let t = b.take(k as int);
    let s = b.skip(k as int);
    if k == b.len() {
        assert(t =~= b);
        assert(s.len() == 0);
        assert(pow(256, k) * bytes_value(s) == 0) by (nonlinear_arith)
            requires
                bytes_value(s) == 0,
        ;
    } else {
        lemma_bytes_value_split(b.drop_last(), k);
        assert(b.drop_last().take(k as int) =~= t);
        assert(b.drop_last().skip(k as int) =~= s.drop_last());
        assert(b.last() == s.last());
        let m = (s.len() - 1) as nat;
        lemma_pow_adds(256, k, m);
        let last = b.last() as int;
        lemma_pow_positive(256, m);
        lemma_pow_positive(256, k + m);
        assert(last * pow(256, m) >= 0 && last * pow(256, k + m) >= 0) by (nonlinear_arith)
            requires
                last >= 0,
                pow(256, m) > 0,
                pow(256, k + m) > 0,
        ;
        lemma_mul_is_distributive_add(pow(256, k), bytes_value(s.drop_last()) as int, last * pow(256, m));
        lemma_mul_is_associative(pow(256, k), last, pow(256, m));
        lemma_mul_is_commutative(pow(256, k), last);
        lemma_mul_is_associative(last, pow(256, k), pow(256, m));
    }
}

/// A byte string holds zero exactly when every byte is zero.
pub proof fn lemma_bytes_value_zero(b: Seq<u8>)
    ensures
        bytes_value(b) == 0 <==> (forall|i: int| 0 <= i < b.len() ==> b[i] == 0),
    decreases b.len(),
{
    if b.len() > 0 {
        let k = (b.len() - 1) as nat;
        lemma_bytes_value_zero(b.drop_last());
        lemma_pow_positive(256, k);
        let last = b.last() as int;
        let p = pow(256, k);
        assert(last * p == 0 <==> last == 0) by (nonlinear_arith)
            requires
                p > 0,
        ;
        assert(0 <= last * p) by (nonlinear_arith)
            requires
                0 <= last,
                p > 0,
        ;
        assert(forall|i: int| 0 <= i < k ==> b.drop_last()[i] == b[i]);
        if bytes_value(b) == 0 {
            assert forall|i: int| 0 <= i < b.len() implies b[i] == 0 by {
                if i < k {
                    assert(b.drop_last()[i] == 0);
                }
            }
        }
    }
}

/// The eight bytes of a 64-bit integer, least significant first.
pub open spec fn u64_le(x: u64) -> Seq<u8> {
    seq![
        (x & 0xff) as u8,
        ((x >> 8) & 0xff) as u8,
        ((x >> 16) & 0xff) as u8,
        ((x >> 24) & 0xff) as u8,
        ((x >> 32) & 0xff) as u8,
        ((x >> 40) & 0xff) as u8,
        ((x >> 48) & 0xff) as u8,
        ((x >> 56) & 0xff) as u8,
    ]
}

/// The 64-bit integer of eight bytes, least significant first.
pub open spec fn u64_of_le(b: Seq<u8>) -> u64 {
    (b[0] as u64) | ((b[1] as u64) << 8) | ((b[2] as u64) << 16) | ((b[3] as u64) << 24) | ((
    b[4] as u64) << 32) | ((b[5] as u64) << 40) | ((b[6] as u64) << 48) | ((b[7] as u64) << 56)
}

/// Reading the bytes of an integer gives the integer back.
pub proof fn lemma_u64_le_roundtrip(x: u64)
    ensures
        u64_of_le(u64_le(x)) == x,
        u64_le(x).len() == 8,
{
    assert((((x & 0xff) as u8) as u64) | (((((x >> 8) & 0xff) as u8) as u64) << 8) | (((((x >> 16)
        & 0xff) as u8) as u64) << 16) | (((((x >> 24) & 0xff) as u8) as u64) << 24) | (((((x >> 32)
        & 0xff) as u8) as u64) << 32) | (((((x >> 40) & 0xff) as u8) as u64) << 40) | (((((x >> 48)
        & 0xff) as u8) as u64) << 48) | (((((x >> 56) & 0xff) as u8) as u64) << 56) == x)
        by (bit_vector);
}

/// Writes the bytes of an integer into a buffer.
pub fn write_u64_le<const N: usize>(out: &mut [u8; N], at: usize, x: u64)
    requires
        at + 8 <= N,
    ensures
        final(out)@ == old(out)@.take(at as int) + u64_le(x) + old(out)@.skip(at + 8),
{
    out[at] = (x & 0xff) as u8;
    out[at + 1] = ((x >> 8) & 0xff) as u8;
    out[at + 2] = ((x >> 16) & 0xff) as u8;
    out[at + 3] = ((x >> 24) & 0xff) as u8;
    out[at + 4] = ((x >> 32) & 0xff) as u8;
    out[at + 5] = ((x >> 40) & 0xff) as u8;
    out[at + 6] = ((x >> 48) & 0xff) as u8;
    out[at + 7] = ((x >> 56) & 0xff) as u8;
    assert(out@ =~= old(out)@.take(at as int) + u64_le(x) + old(out)@.skip(at + 8));
}

/// Reads an integer from a buffer.
pub fn read_u64_le(b: &[u8], at: usize) -> (x: u64)
    requires
        at + 8 <= b@.len(),
    ensures
        x == u64_of_le(b@.subrange(at as int, at + 8)),
{
    (b[at] as u64) | ((b[at + 1] as u64) << 8) | ((b[at + 2] as u64) << 16) | ((b[at + 3] as u64)
        << 24) | ((b[at + 4] as u64) << 32) | ((b[at + 5] as u64) << 40) | ((b[at + 6] as u64)
        << 48) | ((b[at + 7] as u64) << 56)
}

} // verus!
