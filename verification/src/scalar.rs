//! Integers modulo the order of the signature group, on five 64-bit limbs.
use vstd::arithmetic::div_mod::{
    lemma_div_denominator, lemma_fundamental_div_mod_converse, lemma_hoist_over_denominator,
    lemma_mod_twice, lemma_small_mod,
};
use vstd::arithmetic::mul::{lemma_mul_is_associative, lemma_mul_is_commutative};
use vstd::arithmetic::power::{lemma_pow_adds, pow};
use vstd::arithmetic::power2::{lemma2_to64, lemma2_to64_rest, lemma_pow2_adds, lemma_pow2_pos, pow2};
use vstd::bits::{lemma_u64_shl_is_mul, lemma_u64_shr_is_div};
use vstd::prelude::*;
use vstd::slice::slice_subrange;

use crate::arith::{
    lemma_cong_add, lemma_cong_mul, lemma_cong_multiple, lemma_mul_swap, lemma_weighted_sum_times,
};

verus! {

use crate::bytes::{
    bytes_value, lemma_bytes_value_bound, lemma_bytes_value_split, lemma_bytes_value_zero,
};

/// Number of bits of a reduced scalar.
pub const SCALAR_BITS: usize = 319;

/// The order of the group: a prime slightly below `2^319`.
pub open spec fn group_order() -> nat {
    0x7ffffffd800000077ffffff1000000167fffffe6cfb80639e8885c39d724a09ce80fd996948bffe1nat
}

/// The integer held by five little-endian 64-bit limbs.
pub open spec fn limbs_value(l: [u64; 5]) -> nat {
    (l[0] + l[1] * 0x1_0000_0000_0000_0000 + l[2] * 0x1_0000_0000_0000_0000_0000_0000_0000_0000int
        + l[3] * 0x1_0000_0000_0000_0000_0000_0000_0000_0000_0000_0000_0000_0000int + l[4]
        * 0x1_0000_0000_0000_0000_0000_0000_0000_0000_0000_0000_0000_0000_0000_0000_0000_0000int) as nat
}

/// `2^320`, one more than the largest integer five limbs can hold.
pub open spec fn limbs_bound() -> nat {
    0x1_0000_0000_0000_0000_0000_0000_0000_0000_0000_0000_0000_0000_0000_0000_0000_0000_0000_0000_0000_0000nat
}

proof fn lemma_split_u128(z: u128)
    ensures
        z == ((z >> 64) as u64) * 0x1_0000_0000_0000_0000 + (z as u64),
        (z >> 64) < 0x1_0000_0000_0000_0000,
{
    assert(z == ((z >> 64) as u64) * 0x1_0000_0000_0000_0000 + (z as u64)) by (bit_vector);
    assert((z >> 64) < 0x1_0000_0000_0000_0000) by (bit_vector);
}

/// Adds two limbs and a carry.
fn add_carry(a: u64, b: u64, c: u64) -> (r: (u64, u64))
    requires
        c <= 1,
    ensures
        a + b + c == r.0 + r.1 * 0x1_0000_0000_0000_0000,
        r.1 <= 1,
{
    let z: u128 = (a as u128) + (b as u128) + (c as u128);
    proof {
        lemma_split_u128(z);
    }
    (z as u64, (z >> 64) as u64)
}

/// Subtracts a limb and a borrow from a limb.
fn sub_borrow(a: u64, b: u64, c: u64) -> (r: (u64, u64))
    requires
        c <= 1,
    ensures
        a - b - c == r.0 - r.1 * 0x1_0000_0000_0000_0000,
        r.1 <= 1,
{
    let z: u128 = (a as u128).wrapping_sub(b as u128).wrapping_sub(c as u128);
    proof {
        let d: int = a - b - c;
        if d < 0 {
            assert(z == d + 0x1_0000_0000_0000_0000_0000_0000_0000_0000int);
        } else {
            assert(z == d);
        }
        lemma_split_u128(z);
        let h: u64 = (z >> 64) as u64;
        assert(h & 1 == h % 2) by (bit_vector);
    }
    (z as u64, ((z >> 64) as u64) & 1)
}

/// Multiplies two limbs and adds two more.
fn mul_add_carry(a: u64, m: u64, r: u64, c: u64) -> (z: (u64, u64))
    ensures
        a * m + r + c == z.0 + z.1 * 0x1_0000_0000_0000_0000,
{
    proof {
        assert(a * m <= 0xffff_ffff_ffff_ffff * 0xffff_ffff_ffff_ffff) by (nonlinear_arith)
            requires
                0 <= a <= 0xffff_ffff_ffff_ffff,
                0 <= m <= 0xffff_ffff_ffff_ffff,
        ;
    }
    let z: u128 = (a as u128) * (m as u128) + (r as u128) + (c as u128);
    proof {
        lemma_split_u128(z);
    }
    (z as u64, (z >> 64) as u64)
}

/// The limb times a multiplicand plus an accumulator, made divisible by `2^64`
/// by adding `f` times the modulus.
proof fn lemma_reduction_limb(lo: u64, f: u64, z: u64, c: u64)
    requires
        f == (lo * ORDER_NEG_INV) % 0x1_0000_0000_0000_0000,
        f * ORDER[0] + lo == z + c * 0x1_0000_0000_0000_0000,
    ensures
        z == 0,
{
    let b: int = 0x1_0000_0000_0000_0000;
    let (l, i, n, k) = (lo as int, ORDER_NEG_INV as int, ORDER[0] as int, 0xc3642966c3aef4ceint);
    // f * n is congruent to lo * (i * n), that is to -lo
    lemma_small_mod(f as nat, b as nat);
    lemma_cong_mul(f as int, l * i, n, b);
    lemma_mul_is_associative(l, i, n);
    assert(i * n == k * b - 1);
    assert(l * (k * b - 1) == (l * k) * b - l) by (nonlinear_arith);
    lemma_cong_multiple(-l, l * k, b);
    lemma_cong_add(f * n, -l, l, l, b);
    lemma_cong_multiple(z as int, c as int, b);
    lemma_small_mod(z as nat, b as nat);
}

proof fn lemma_limbs_times(l: [u64; 5], m: int)
    ensures
        limbs_value(l) * m == l[0] * m + (l[1] * m) * 0x1_0000_0000_0000_0000 + (l[2] * m)
            * 0x1_0000_0000_0000_0000_0000_0000_0000_0000int + (l[3] * m)
            * 0x1_0000_0000_0000_0000_0000_0000_0000_0000_0000_0000_0000_0000int + (l[4] * m)
            * 0x1_0000_0000_0000_0000_0000_0000_0000_0000_0000_0000_0000_0000_0000_0000_0000_0000int,
{
    lemma_weighted_sum_times(
        (l[0] as int, l[1] as int, l[2] as int, l[3] as int, l[4] as int),
        0x1_0000_0000_0000_0000int,
        0x1_0000_0000_0000_0000_0000_0000_0000_0000int,
        0x1_0000_0000_0000_0000_0000_0000_0000_0000_0000_0000_0000_0000int,
        0x1_0000_0000_0000_0000_0000_0000_0000_0000_0000_0000_0000_0000_0000_0000_0000_0000int,
        m,
    );
}

proof fn lemma_round_bound(r: int, a: int, m: int, f: int, n: int, b: int)
    requires
        0 <= r < 2 * n,
        0 <= a < n,
        0 <= m < b,
        0 <= f < b,
    ensures
        r + a * m + f * n < (2 * n) * b,
{
    assert(a * m <= (n - 1) * (b - 1)) by (nonlinear_arith)
        requires
            0 <= a <= n - 1,
            0 <= m <= b - 1,
    ;
    assert(f * n <= (b - 1) * n) by (nonlinear_arith)
        requires
            0 <= f <= b - 1,
            n > 0,
    ;
    assert((n - 1) * (b - 1) + (b - 1) * n + 2 * n <= (2 * n) * b) by (nonlinear_arith)
        requires
            b >= 1,
            n >= 1,
    ;
}

/// One round of Montgomery multiplication: `(r + a*m + f*n) / 2^64`, with `f`
/// the limb that makes the division exact.
fn montgomery_round(a: Scalar, m: u64, r: Scalar) -> (res: (Scalar, Ghost<nat>))
    requires
        a.reduced(),
        r.value() < 2 * group_order(),
    ensures
        res.0.value() < 2 * group_order(),
        res.0.value() * 0x1_0000_0000_0000_0000 == r.value() + a.value() * m + res.1@
            * group_order(),
{
    let f: u64 = a.0[0].wrapping_mul(m).wrapping_add(r.0[0]).wrapping_mul(ORDER_NEG_INV);
    let (lo0, a0) = mul_add_carry(a.0[0], m, r.0[0], 0);
    let (z0, c0) = mul_add_carry(f, ORDER[0], lo0, 0);
    let (lo1, a1) = mul_add_carry(a.0[1], m, r.0[1], a0);
    let (z1, c1) = mul_add_carry(f, ORDER[1], lo1, c0);
    let (lo2, a2) = mul_add_carry(a.0[2], m, r.0[2], a1);
    let (z2, c2) = mul_add_carry(f, ORDER[2], lo2, c1);
    let (lo3, a3) = mul_add_carry(a.0[3], m, r.0[3], a2);
    let (z3, c3) = mul_add_carry(f, ORDER[3], lo3, c2);
    let (lo4, a4) = mul_add_carry(a.0[4], m, r.0[4], a3);
    let (z4, c4) = mul_add_carry(f, ORDER[4], lo4, c3);
    proof {
        lemma_constants();
        let b: int = 0x1_0000_0000_0000_0000;
        lemma_montgomery_factor(a.0[0], m, r.0[0], lo0, a0, f);
        lemma_reduction_limb(lo0, f, z0, c0);
        lemma_limbs_times(a.0, m as int);
        lemma_limbs_times(ORDER, f as int);
        lemma_mul_is_commutative(ORDER[0] as int, f as int);
        lemma_mul_is_commutative(ORDER[1] as int, f as int);
        lemma_mul_is_commutative(ORDER[2] as int, f as int);
        lemma_mul_is_commutative(ORDER[3] as int, f as int);
        lemma_mul_is_commutative(ORDER[4] as int, f as int);
        let n: int = group_order() as int;
        lemma_mul_is_commutative(n, f as int);
        let total: int = r.value() + a.value() * m + f * n;
        lemma_round_bound(r.value() as int, a.value() as int, m as int, f as int, n, b);
        let top: int = a4 + c4;
        assert(total == z1 * 0x1_0000_0000_0000_0000int + z2 * 0x1_0000_0000_0000_0000_0000_0000_0000_0000int + z3
            * 0x1_0000_0000_0000_0000_0000_0000_0000_0000_0000_0000_0000_0000int + z4
            * 0x1_0000_0000_0000_0000_0000_0000_0000_0000_0000_0000_0000_0000_0000_0000_0000_0000int + top
            * 0x1_0000_0000_0000_0000_0000_0000_0000_0000_0000_0000_0000_0000_0000_0000_0000_0000_0000_0000_0000_0000int);
    }
    let r4: u64 = a4.wrapping_add(c4);
    (Scalar([z1, z2, z3, z4, r4]), Ghost(f as nat))
}

/// The factor that the round computes from the lowest limbs.
proof fn lemma_montgomery_factor(a: u64, m: u64, r: u64, lo: u64, hi: u64, f: u64)
    requires
        a * m + r + 0 == lo + hi * 0x1_0000_0000_0000_0000,
        f == a.wrapping_mul(m).wrapping_add(r).wrapping_mul(ORDER_NEG_INV),
    ensures
        f == (lo * ORDER_NEG_INV) % 0x1_0000_0000_0000_0000,
{
    let b: int = 0x1_0000_0000_0000_0000;
    let p: u64 = a.wrapping_mul(m);
    assert(p == (a * m) % b);
    let s: u64 = p.wrapping_add(r);
    assert(s == (p + r) % b);
    lemma_fundamental_div_mod_converse(a * m + r, b, hi as int, lo as int);
    vstd::arithmetic::div_mod::lemma_add_mod_noop(a * m, r as int, b);
    vstd::arithmetic::div_mod::lemma_small_mod(r as nat, b as nat);
    assert(s == lo);
    assert(f == (s * ORDER_NEG_INV) % b);
}

/// A scalar (integer modulo the prime group order n), as five 64-bit limbs in
/// little-endian order.
#[derive(Clone, Copy, Debug, Eq)]
pub struct Scalar(pub [u64; 5]);

impl PartialEq for Scalar {
    fn eq(&self, other: &Self) -> (r: bool) {
        self.0[0] == other.0[0] && self.0[1] == other.0[1] && self.0[2] == other.0[2] && self.0[3]
            == other.0[3] && self.0[4] == other.0[4]
    }
}

impl vstd::std_specs::cmp::PartialEqSpecImpl for Scalar {
    open spec fn obeys_eq_spec() -> bool {
        true
    }

    open spec fn eq_spec(&self, other: &Self) -> bool {
        self.0[0] == other.0[0] && self.0[1] == other.0[1] && self.0[2] == other.0[2] && self.0[3]
            == other.0[3] && self.0[4] == other.0[4]
    }
}

/// The modulus in limbs.
const ORDER: [u64; 5] = [
    0xE80FD996948BFFE1,
    0xE8885C39D724A09C,
    0x7FFFFFE6CFB80639,
    0x7FFFFFF100000016,
    0x7FFFFFFD80000007,
];

/// `-1/n mod 2^64`.
const ORDER_NEG_INV: u64 = 0xD78BEF72057B7BDF;

/// `2^640 mod n`.
const R2: [u64; 5] = [
    0xA01001DCE33DC739,
    0x6C3228D33F62ACCF,
    0xD1D796CC91CF8525,
    0xAADFFF5D1574C1D8,
    0x4ACA13B28CA251F5,
];

/// `2^632 mod n`.
const T632: [u64; 5] = [
    0x2B0266F317CA91B3,
    0xEC1D26528E984773,
    0x8651D7865E12DB94,
    0xDA2ADFF5941574D0,
    0x53CACA12110CA256,
];

proof fn lemma_constants()
    ensures
        limbs_value(ORDER) == group_order(),
        limbs_value(R2) < group_order(),
        limbs_value(T632) < group_order(),
{
}

proof fn lemma_limb_bit(l: [u64; 5], q: nat, s: nat)
    requires
        q < 5,
        s < 64,
    ensures
        ((l[q as int] >> s as usize) & 1 == 1) == ((limbs_value(l) / pow2(64 * q + s)) % 2 == 1),
{
    let x: u64 = l[q as int];
    let k: u64 = s as u64;
    let su: usize = s as usize;
    lemma_u64_shr_is_div(x, k);
    assert(x >> su == x >> k);
    let sh: u64 = x >> k;
    assert(sh & 1 == sh % 2) by (bit_vector);
    lemma_limb_weights();
    let v = limbs_value(l) as int;
    let (l0, l1, l2, l3, l4) = (l[0] as int, l[1] as int, l[2] as int, l[3] as int, l[4] as int);
    if q == 0 {
        lemma_bit_of_limb(v, 0, l0, l1 + l2 * 0x1_0000_0000_0000_0000int + l3 * 0x1_0000_0000_0000_0000_0000_0000_0000_0000int + l4 * 0x1_0000_0000_0000_0000_0000_0000_0000_0000_0000_0000_0000_0000int, 1, 0, s);
    } else if q == 1 {
        lemma_bit_of_limb(v, l0, l1, l2 + l3 * 0x1_0000_0000_0000_0000int + l4 * 0x1_0000_0000_0000_0000_0000_0000_0000_0000int, 0x1_0000_0000_0000_0000int, 64, s);
    } else if q == 2 {
        lemma_bit_of_limb(v, l0 + l1 * 0x1_0000_0000_0000_0000int, l2, l3 + l4 * 0x1_0000_0000_0000_0000int, 0x1_0000_0000_0000_0000_0000_0000_0000_0000int, 128, s);
    } else if q == 3 {
        lemma_bit_of_limb(v, l0 + l1 * 0x1_0000_0000_0000_0000int + l2 * 0x1_0000_0000_0000_0000_0000_0000_0000_0000int, l3, l4, 0x1_0000_0000_0000_0000_0000_0000_0000_0000_0000_0000_0000_0000int, 192, s);
    } else {
        lemma_bit_of_limb(v, l0 + l1 * 0x1_0000_0000_0000_0000int + l2 * 0x1_0000_0000_0000_0000_0000_0000_0000_0000int + l3 * 0x1_0000_0000_0000_0000_0000_0000_0000_0000_0000_0000_0000_0000int, l4, 0, 0x1_0000_0000_0000_0000_0000_0000_0000_0000_0000_0000_0000_0000_0000_0000_0000_0000int, 256, s);
    }
}

/// A bit of an integer, found in the limb that holds it.
proof fn lemma_bit_of_limb(v: int, lo: int, x: int, hi: int, w: int, e: nat, s: nat)
    requires
        w == pow2(e),
        0 <= lo < w,
        0 <= x,
        0 <= hi,
        s < 64,
        v == lo + x * w + (hi * 0x1_0000_0000_0000_0000int) * w,
    ensures
        (v / (pow2(e + s) as int)) % 2 == (x / (pow2(s) as int)) % 2,
{
    let b: int = 0x1_0000_0000_0000_0000int;
    let t: int = x + hi * b;
    assert(v == t * w + lo) by (nonlinear_arith)
        requires
            v == lo + x * w + (hi * b) * w,
            t == x + hi * b,
    ;
    lemma_fundamental_div_mod_converse(v, w, t, lo);
    let p = pow2(s) as int;
    lemma_pow2_adds(e, s);
    lemma_pow2_pos(s);
    lemma_div_denominator(v, w, p);
    // t / 2^s is x / 2^s plus an even number
    let rest = pow2((63 - s) as nat) as int;
    lemma_pow2_adds(s, (63 - s) as nat);
    lemma_pow2_adds(63, 1);
    lemma2_to64();
    assert(hi * b == p * (2 * (rest * hi))) by (nonlinear_arith)
        requires
            b == 2 * (p * rest),
    ;
    let j: int = 2 * (rest * hi);
    lemma_hoist_over_denominator(x, j, p as nat);
    assert(p * j == j * p) by (nonlinear_arith);
    assert(j % 2 == 0);
}

/// Setting one byte of the limbs above all bytes set so far.
proof fn lemma_place_byte(r: [u64; 5], done: Seq<u8>, b: u8, i: usize, limb: usize, shift: u32)
    requires
        i < 40,
        done.len() == i,
        limbs_value(r) == bytes_value(done),
        limb == i >> 3,
        shift == ((i as u32) & 7) << 3,
    ensures
        limb < 5,
        shift < 64,
        forall|r2: [u64; 5]|
            r2@ == r@.update(limb as int, r[limb as int] | ((b as u64) << shift))
                ==> #[trigger] limbs_value(r2) == bytes_value(done.push(b)),
{
    let k: nat = (i % 8) as nat;
    assert(i >> 3 == i / 8) by (bit_vector);
    let iw: u32 = i as u32;
    assert((iw & 7) << 3 == 8 * (iw % 8)) by (bit_vector);
    assert(shift == 8 * k);
    lemma_byte_weights(limb as nat, k);
    lemma_bytes_value_bound(done);
    let w: int = pow(256, (8 * limb) as nat);
    let p: int = pow(256, k);
    lemma_pow_adds(256, (8 * limb) as nat, k);
    let x: u64 = r[limb as int];
    // nothing is set at or above the byte in question
    assert(x < p) by {
        if x >= p {
            assert(x * w >= p * w) by (nonlinear_arith)
                requires
                    x >= p,
                    w > 0,
            ;
            lemma_mul_is_commutative(p, w);
        }
    }
    let y: u64 = (b as u64) << shift;
    let s64: u64 = shift as u64;
    assert((b as u64) << s64 == y);
    assert(b * p <= 255 * 0x100_0000_0000_0000) by (nonlinear_arith)
        requires
            0 <= b <= 255,
            0 < p <= 0x100_0000_0000_0000,
    ;
    lemma_u64_shl_is_mul(b as u64, s64);
    assert(x | y == x + y) by (bit_vector)
        requires
            y == (b as u64) << s64,
            s64 <= 56,
            x < (1u64 << s64),
    ;
    assert(y == b * p);
    assert(done.push(b).drop_last() =~= done);
    assert((b * p) * w == b * (w * p)) by (nonlinear_arith);
    assert forall|r2: [u64; 5]| r2@ == r@.update(limb as int, x | y) implies #[trigger] limbs_value(r2)
        == bytes_value(done.push(b)) by {
        assert(r2[0] == r2@[0] && r2[1] == r2@[1] && r2[2] == r2@[2] && r2[3] == r2@[3] && r2[4]
            == r2@[4]);
    }
}

/// The weights of the limbs, and of the bytes within a limb.
proof fn lemma_byte_weights(limb: nat, k: nat)
    requires
        limb < 5,
        k < 8,
    ensures
        pow(256, 8 * limb) == (if limb == 0 {
            1
        } else if limb == 1 {
            0x1_0000_0000_0000_0000int
        } else if limb == 2 {
            0x1_0000_0000_0000_0000_0000_0000_0000_0000int
        } else if limb == 3 {
            0x1_0000_0000_0000_0000_0000_0000_0000_0000_0000_0000_0000_0000int
        } else {
            0x1_0000_0000_0000_0000_0000_0000_0000_0000_0000_0000_0000_0000_0000_0000_0000_0000int
        }),
        pow(256, k) == pow2(8 * k),
        0 < pow(256, k) <= 0x100_0000_0000_0000,
        k <= 7 ==> (1u64 << ((8 * k) as u64)) == pow(256, k),
        8 * k <= 56,
{
    reveal_with_fuel(pow, 9);
    assert(pow(256, 8) == 0x1_0000_0000_0000_0000);
    lemma_pow_adds(256, 8, 8);
    lemma_pow_adds(256, 16, 8);
    lemma_pow_adds(256, 24, 8);
    lemma2_to64();
    lemma2_to64_rest();
    lemma_u64_shl_is_mul(1, (8 * k) as u64);
}

proof fn lemma_limb_weights()
    ensures
        pow2(0) == 1,
        pow2(64) == 0x1_0000_0000_0000_0000int,
        pow2(128) == 0x1_0000_0000_0000_0000_0000_0000_0000_0000int,
        pow2(192) == 0x1_0000_0000_0000_0000_0000_0000_0000_0000_0000_0000_0000_0000int,
        pow2(256) == 0x1_0000_0000_0000_0000_0000_0000_0000_0000_0000_0000_0000_0000_0000_0000_0000_0000int,
{
    lemma2_to64();
    lemma_pow2_adds(64, 64);
    lemma_pow2_adds(128, 64);
    lemma_pow2_adds(192, 64);
}

/// What the first forty bytes and the test for the others say of the whole.
proof fn lemma_decoded_value(buf: Seq<u8>, extra: u8)
    requires
        extra == 0 <==> (forall|j: int| 40 <= j < buf.len() ==> buf[j] == 0),
    ensures
        buf.len() <= 39 ==> bytes_value(buf) < group_order(),
        buf.len() >= 40 ==> (if extra == 0 {
            bytes_value(buf) == bytes_value(buf.take(40))
        } else {
            bytes_value(buf) >= group_order()
        }),
{
    lemma_bytes_value_bound(buf);
    lemma_byte_weights(4, 7);
    lemma_pow_adds(256, 32, 7);
    lemma_pow_adds(256, 32, 8);
    lemma_byte_weights(1, 0);
    lemma_byte_weights(4, 0);
    if buf.len() <= 39 {
        vstd::arithmetic::power::lemma_pow_increases(256, buf.len(), 39);
        reveal_with_fuel(pow, 9);
    } else {
        let rest = buf.skip(40);
        lemma_bytes_value_split(buf, 40);
        lemma_bytes_value_zero(rest);
        assert(forall|j: int| 0 <= j < rest.len() ==> rest[j] == buf[j + 40]);
        if extra == 0 {
            assert(bytes_value(rest) == 0);
        } else {
            let j = choose|j: int| 40 <= j < buf.len() && buf[j] != 0;
            assert(rest[j - 40] != 0);
            let v = bytes_value(rest) as int;
            assert(pow(256, 40) * v >= pow(256, 40)) by (nonlinear_arith)
                requires
                    v >= 1,
                    pow(256, 40) > 0,
            ;
        }
    }
}

/// A Montgomery multiplication by `2^632` shifts by 39 bytes.
proof fn lemma_chunk(high: int, acc: int, shifted: int, b: int)
    requires
        0 <= high,
        0 <= shifted < group_order(),
        acc == high % (group_order() as int),
        (shifted * limbs_bound()) % (group_order() as int) == (acc * limbs_value(T632)) % (
        group_order() as int),
    ensures
        (shifted + b) % (group_order() as int) == (b + pow(256, 39) * high) % (group_order() as int),
{
    let n: int = group_order() as int;
    let l: int = limbs_bound() as int;
    let x: int = limbs_value(T632) as int;
    let inv: int = 0x3e48b90839622cffcc3e68b9872381be9ac322bef265189aec41f9947d5941b1b5cd839d4f621868int;
    let j: int = 0x7c917212e19b9456b4010817f339d900f4425e0b5cdd0e2958bcef3f3d2c510ed78bef72057b7bdfint;
    let q: int = 0x20000000a0000001400000009ffffffd7ffffff9cc11fe71fe91d998040bac1fc3ddc128d76ebedint;
    let m: int = pow(256, 39);
    lemma_byte_weights(4, 7);
    lemma_pow_adds(256, 32, 7);
    reveal_with_fuel(pow, 9);
    assert(l * inv == 1 + j * n);
    assert(m * l == x + q * n);
    // shifted * l is congruent to (m * high) * l
    lemma_mod_twice(high, n);
    lemma_cong_mul(acc, high, x, n);
    lemma_mul_is_commutative(high, x);
    lemma_cong_multiple(x, q, n);
    lemma_cong_mul(x, m * l, high, n);
    lemma_mul_swap(m, l, high);
    // multiply by the inverse of l
    lemma_cong_mul(shifted * l, (m * high) * l, inv, n);
    lemma_mul_is_associative(shifted, l, inv);
    lemma_mul_is_associative(m * high, l, inv);
    lemma_cong_multiple(1, j, n);
    lemma_cong_mul(l * inv, 1, shifted, n);
    lemma_cong_mul(l * inv, 1, m * high, n);
    lemma_cong_add(shifted, m * high, b, b, n);
}

/// Two Montgomery multiplications, by `2^640` and by `b`, make a plain product.
proof fn lemma_montgomery_square(a: int, b: int, t: int, r: int)
    requires
        0 <= r < group_order(),
        (t * limbs_bound()) % (group_order() as int) == (a * limbs_value(R2)) % (group_order() as int),
        (r * limbs_bound()) % (group_order() as int) == (t * b) % (group_order() as int),
    ensures
        r == (a * b) % (group_order() as int),
{
    let n: int = group_order() as int;
    let l: int = limbs_bound() as int;
    let x: int = limbs_value(R2) as int;
    // l * l == x + q * n, and inv is the inverse of l modulo n
    let q: int = 0x20000000a0000001400000009ffffffd7ffffff9cc11fe71fe91d998040bac1fc3ddc128d76ebeda7int;
    let inv: int = 0x3e48b90839622cffcc3e68b9872381be9ac322bef265189aec41f9947d5941b1b5cd839d4f621868int;
    let j: int = 0x7c917212e19b9456b4010817f339d900f4425e0b5cdd0e2958bcef3f3d2c510ed78bef72057b7bdfint;
    assert(l * l == x + q * n);
    assert(l * inv == 1 + j * n);
    // (r * l) * l is congruent to (a * b) * (l * l)
    lemma_cong_mul(r * l, t * b, l, n);
    lemma_mul_swap(t, b, l);
    lemma_cong_mul(t * l, a * x, b, n);
    lemma_mul_swap(a, x, b);
    lemma_cong_multiple(x, q, n);
    lemma_cong_mul(x, l * l, a * b, n);
    lemma_mul_is_associative(r, l, l);
    // multiply both sides by the square of the inverse
    let one: int = (l * l) * (inv * inv);
    lemma_cong_mul(r * (l * l), (a * b) * (l * l), inv * inv, n);
    lemma_mul_is_associative(r, l * l, inv * inv);
    lemma_mul_is_associative(a * b, l * l, inv * inv);
    assert(one == (l * inv) * (l * inv)) by (nonlinear_arith)
        requires
            one == (l * l) * (inv * inv),
    ;
    lemma_cong_multiple(1, j, n);
    lemma_cong_mul(1 + j * n, 1, 1 + j * n, n);
    lemma_cong_mul(one, 1, r, n);
    lemma_cong_mul(one, 1, a * b, n);
    lemma_small_mod(r as nat, n as nat);
}

impl Scalar {
    /// The scalar zero.
    pub fn zero() -> (r: Scalar)
        ensures
            r.value() == 0,
    {
        Scalar([0, 0, 0, 0, 0])
    }

    /// The scalar one.
    pub fn one() -> (r: Scalar)
        ensures
            r.value() == 1,
    {
        Scalar([1, 0, 0, 0, 0])
    }

    /// The integer this scalar holds.
    pub open spec fn value(self) -> nat {
        limbs_value(self.0)
    }

    /// Whether the scalar is the least representative of its class.
    pub open spec fn reduced(self) -> bool {
        self.value() < group_order()
    }

    /// Whether the scalar is the least representative of its class.
    pub fn is_reduced(&self) -> (r: bool)
        ensures
            r == self.reduced(),
    {
        proof {
            lemma_constants();
        }
        if self.0[4] != ORDER[4] {
            self.0[4] < ORDER[4]
        } else if self.0[3] != ORDER[3] {
            self.0[3] < ORDER[3]
        } else if self.0[2] != ORDER[2] {
            self.0[2] < ORDER[2]
        } else if self.0[1] != ORDER[1] {
            self.0[1] < ORDER[1]
        } else {
            self.0[0] < ORDER[0]
        }
    }

    /// Adds the limbs; the carry out of the top limb is dropped.
    pub fn add_inner(self, a: Self) -> (r: Self)
        ensures
            r.value() == (self.value() + a.value()) % limbs_bound(),
    {
        let (r0, c0) = add_carry(self.0[0], a.0[0], 0);
        let (r1, c1) = add_carry(self.0[1], a.0[1], c0);
        let (r2, c2) = add_carry(self.0[2], a.0[2], c1);
        let (r3, c3) = add_carry(self.0[3], a.0[3], c2);
        let (r4, c4) = add_carry(self.0[4], a.0[4], c3);
        let r = Scalar([r0, r1, r2, r3, r4]);
        proof {
            assert(r.value() + c4 * limbs_bound() == self.value() + a.value());
            lemma_fundamental_div_mod_converse(
                (self.value() + a.value()) as int,
                limbs_bound() as int,
                c4 as int,
                r.value() as int,
            );
        }
        r
    }

    /// Subtracts the limbs; the second component is 1 when a borrow is left
    /// over, that is when `a` is the larger of the two.
    pub fn sub_inner(self, a: Self) -> (r: (Self, u64))
        ensures
            r.1 == (if self.value() < a.value() { 1u64 } else { 0u64 }),
            r.0.value() == self.value() - a.value() + r.1 * limbs_bound(),
    {
        let (r0, c0) = sub_borrow(self.0[0], a.0[0], 0);
        let (r1, c1) = sub_borrow(self.0[1], a.0[1], c0);
        let (r2, c2) = sub_borrow(self.0[2], a.0[2], c1);
        let (r3, c3) = sub_borrow(self.0[3], a.0[3], c2);
        let (r4, c4) = sub_borrow(self.0[4], a.0[4], c3);
        let r = Scalar([r0, r1, r2, r3, r4]);
        assert(r.value() == self.value() - a.value() + c4 * limbs_bound());
        assert(r.value() < limbs_bound());
        (r, c4)
    }

    /// Sum modulo the group order.
    pub fn add_mod(self, a: Self) -> (r: Self)
        requires
            self.reduced(),
            a.reduced(),
        ensures
            r.reduced(),
            r.value() == (self.value() + a.value()) % group_order(),
    {
        let t = self.add_inner(a);
        let (w, cc) = t.sub_inner(Scalar(ORDER));
        proof {
            lemma_constants();
            assert(t.value() == self.value() + a.value());
            let q: int = if cc == 0 { 1 } else { 0 };
            lemma_fundamental_div_mod_converse(
                t.value() as int,
                group_order() as int,
                q,
                t.value() - q * group_order(),
            );
        }
        if cc == 0 {
            w
        } else {
            t
        }
    }

    /// Difference modulo the group order.
    pub fn sub_mod(self, a: Self) -> (r: Self)
        requires
            self.reduced(),
            a.reduced(),
        ensures
            r.reduced(),
            r.value() == (self.value() - a.value()) % (group_order() as int),
    {
        let (t, cc) = self.sub_inner(a);
        proof {
            lemma_constants();
            let d = self.value() - a.value();
            let q: int = if cc == 0 { 0 } else { -1 };
            lemma_fundamental_div_mod_converse(d, group_order() as int, q, d - q * group_order());
        }
        if cc == 0 {
            t
        } else {
            t.add_inner(Scalar(ORDER))
        }
    }

    /// Opposite modulo the group order.
    pub fn neg_mod(self) -> (r: Self)
        requires
            self.reduced(),
        ensures
            r.reduced(),
            r.value() == (-self.value()) % (group_order() as int),
    {
        Scalar([0, 0, 0, 0, 0]).sub_mod(self)
    }

    /// Montgomery multiplication: returns `(self*rhs)/2^320 mod n`.
    pub fn montymul(self, rhs: Self) -> (r: Self)
        requires
            self.reduced(),
        ensures
            r.reduced(),
            (r.value() * limbs_bound()) % group_order() == (self.value() * rhs.value())
                % group_order(),
    {
        let (r1, f0) = montgomery_round(self, rhs.0[0], Scalar([0, 0, 0, 0, 0]));
        let (r2, f1) = montgomery_round(self, rhs.0[1], r1);
        let (r3, f2) = montgomery_round(self, rhs.0[2], r2);
        let (r4, f3) = montgomery_round(self, rhs.0[3], r3);
        let (r5, f4) = montgomery_round(self, rhs.0[4], r4);
        let (w, cc) = r5.sub_inner(Scalar(ORDER));
        let r = if cc == 0 {
            w
        } else {
            r5
        };
        proof {
            lemma_constants();
            let n = group_order() as int;
            let b1: int = 0x1_0000_0000_0000_0000;
            let b2: int = 0x1_0000_0000_0000_0000_0000_0000_0000_0000int;
            let b3: int = 0x1_0000_0000_0000_0000_0000_0000_0000_0000_0000_0000_0000_0000int;
            let b4: int = 0x1_0000_0000_0000_0000_0000_0000_0000_0000_0000_0000_0000_0000_0000_0000_0000_0000int;
            let a = self.value() as int;
            lemma_limbs_times(rhs.0, a);
            let k: int = f0@ + f1@ * b1 + f2@ * b2 + f3@ * b3 + f4@ * b4;
            lemma_weighted_sum_times(
                (f0@ as int, f1@ as int, f2@ as int, f3@ as int, f4@ as int),
                b1,
                b2,
                b3,
                b4,
                n,
            );
            lemma_mul_is_commutative(rhs.0[0] as int, a);
            lemma_mul_is_commutative(rhs.0[1] as int, a);
            lemma_mul_is_commutative(rhs.0[2] as int, a);
            lemma_mul_is_commutative(rhs.0[3] as int, a);
            lemma_mul_is_commutative(rhs.0[4] as int, a);
            assert(rhs.value() * a == a * rhs.value()) by (nonlinear_arith);
            assert(r5.value() * limbs_bound() == a * rhs.value() + k * n);
            let e: int = if cc == 0 { k - limbs_bound() } else { k };
            assert(r.value() * limbs_bound() == a * rhs.value() + e * n) by (nonlinear_arith)
                requires
                    r5.value() * limbs_bound() == a * rhs.value() + k * n,
                    cc == 0 ==> r.value() == r5.value() - n && e == k - limbs_bound(),
                    cc != 0 ==> r.value() == r5.value() && e == k,
            ;
            vstd::arithmetic::div_mod::lemma_mod_multiples_vanish(e, a * rhs.value(), n);
            assert(n * e == e * n) by (nonlinear_arith);
        }
        r
    }

    /// The bits of the scalar, least significant first. The top bit of the top
    /// limb is not among them.
    pub fn to_bit_arr(self) -> (bits: [bool; 319])
        ensures
            forall|i: int| 0 <= i < 319 ==> #[trigger] bits[i] == ((self.value() / pow2(i as nat)) % 2 == 1),
    {
        let mut bits = [false; 319];
        for i in 0..SCALAR_BITS
            invariant
                forall|j: int|
                    0 <= j < i ==> #[trigger] bits[j] == ((self.value() / pow2(j as nat)) % 2 == 1),
        {
            let limb: usize = i / 64;
            let bit: usize = i % 64;
            proof {
                lemma_limb_bit(self.0, limb as nat, bit as nat);
            }
            bits[i] = (self.0[limb] >> bit) & 1 == 1;
        }
        bits
    }

    /// Decode the provided byte slice into a scalar. The bytes are
    /// interpreted into an integer in little-endian unsigned convention.
    /// All slice bytes are read. Returns `Some(scalar)` if the decoded
    /// integer is lower than the group order, `None` otherwise.
    pub fn decode(buf: &[u8]) -> (r: Option<Self>)
        ensures
            r is Some <==> bytes_value(buf@) < group_order(),
            r matches Some(s) ==> s.reduced() && s.value() == bytes_value(buf@),
    {
        let n: usize = buf.len();
        let mut r: [u64; 5] = [0, 0, 0, 0, 0];
        let mut extra: u8 = 0;
        let mut i: usize = 0;
        while i < n
            invariant
                i <= n,
                n == buf@.len(),
                limbs_value(r) == bytes_value(buf@.take(if i < 40 { i as int } else { 40 })),
                extra == 0 <==> (forall|j: int| 40 <= j < i ==> buf@[j] == 0),
            decreases n - i,
        {
            let b: u8 = buf[i];
            if i < 40 {
                let limb: usize = i >> 3;
                let shift: u32 = ((i as u32) & 7) << 3;
                proof {
                    assert(buf@.take(i + 1) =~= buf@.take(i as int).push(b));
                    lemma_place_byte(r, buf@.take(i as int), b, i, limb, shift);
                }
                r[limb] = r[limb] | ((b as u64) << shift);
            } else {
                proof {
                    let e: u8 = extra;
                    assert((e | b) == 0 <==> e == 0 && b == 0) by (bit_vector);
                }
                extra = extra | b;
            }
            i += 1;
        }
        proof {
            lemma_decoded_value(buf@, extra);
        }
        if n <= 39 {
            proof {
                assert(buf@.take(n as int) =~= buf@);
            }
            return Some(Scalar(r));
        }
        let (_, c) = Scalar(r).sub_inner(Scalar(ORDER));
        let valid: u64 = c & ((extra as u64).wrapping_add(0xFF) >> 8).wrapping_sub(1);
        proof {
            lemma_constants();
            let e: u64 = (extra as u64).wrapping_add(0xFF);
            assert(e == extra + 0xFF);
            assert(e >> 8 == (if extra == 0 { 0u64 } else { 1u64 })) by (bit_vector)
                requires
                    e == extra + 0xFF,
            ;
            assert(c & 0xffff_ffff_ffff_ffff == c) by (bit_vector);
            assert(c & 0 == 0) by (bit_vector);
        }
        if valid != 0 {
            Some(Scalar(r))
        } else {
            None
        }
    }

    /// Decode the provided byte slice into a scalar. The bytes are
    /// interpreted into an integer in little-endian unsigned convention.
    /// All slice bytes are read, and the value is REDUCED modulo n. This
    /// function never fails; it accepts arbitrary input values.
    pub fn decode_reduce(buf: &[u8]) -> (r: Self)
        ensures
            r.reduced(),
            r.value() == bytes_value(buf@) % group_order(),
    {
        let n: usize = buf.len();
        if n <= 39 {
            proof {
                lemma_decoded_value(buf@, 0);
                lemma_small_mod(bytes_value(buf@), group_order());
            }
            proof {
                assert(buf@.subrange(0, n as int) =~= buf@);
            }
            return Self::decode_short(buf, 0, n);
        }
        // The value is taken in chunks of 39 bytes from the top. The chunks so far
        // are multiplied by 2^312 by a Montgomery multiplication by 2^632.
        let mut k: usize = ((n - 1) / 39) * 39;
        let mut acc = Self::decode_short(buf, k, n);
        proof {
            assert(buf@.subrange(k as int, n as int) =~= buf@.skip(k as int));
            lemma_small_mod(acc.value(), group_order());
        }
        while k > 0
            invariant
                n == buf@.len(),
                k <= n,
                k % 39 == 0,
                acc.reduced(),
                acc.value() == bytes_value(buf@.skip(k as int)) % group_order(),
            decreases k,
        {
            let top = k;
            k -= 39;
            let b = Self::decode_short(buf, k, top);
            proof {
                lemma_constants();
            }
            let shifted = acc.montymul(Scalar(T632));
            proof {
                let s = buf@.skip(k as int);
                lemma_bytes_value_split(s, 39);
                assert(s.take(39) =~= buf@.subrange(k as int, top as int));
                assert(s.skip(39) =~= buf@.skip(top as int));
                lemma_chunk(
                    bytes_value(buf@.skip(top as int)) as int,
                    acc.value() as int,
                    shifted.value() as int,
                    b.value() as int,
                );
            }
            acc = shifted.add_mod(b);
        }
        proof {
            assert(buf@.skip(0) =~= buf@);
        }
        acc
    }

    /// At most 39 bytes, which always hold an integer below the group order.
    fn decode_short(buf: &[u8], from: usize, to: usize) -> (r: Self)
        requires
            from <= to <= buf@.len(),
            to - from <= 39,
        ensures
            r.reduced(),
            r.value() == bytes_value(buf@.subrange(from as int, to as int)),
    {
        let part = slice_subrange(buf, from, to);
        proof {
            lemma_decoded_value(part@, 0);
        }
        match Self::decode(part) {
            Some(s) => s,
            None => Scalar([0, 0, 0, 0, 0]),
        }
    }

    /// Product modulo the group order.
    pub fn mul_mod(self, rhs: Self) -> (r: Self)
        requires
            self.reduced(),
        ensures
            r.reduced(),
            r.value() == (self.value() * rhs.value()) % group_order(),
    {
        let t = self.montymul(Scalar(R2));
        let r = t.montymul(rhs);
        proof {
            lemma_montgomery_square(self.value() as int, rhs.value() as int, t.value() as int, r.value() as int);
        }
        r
    }
}

impl core::ops::Add for Scalar {
    type Output = Scalar;

    fn add(self, rhs: Scalar) -> (r: Scalar)
        ensures
            r.reduced(),
            r.value() == (self.value() + rhs.value()) % group_order(),
    {
        self.add_mod(rhs)
    }
}

impl vstd::std_specs::ops::AddSpecImpl for Scalar {
    open spec fn obeys_add_spec() -> bool {
        false
    }

    open spec fn add_req(self, rhs: Scalar) -> bool {
        self.reduced() && rhs.reduced()
    }

    open spec fn add_spec(self, rhs: Scalar) -> Scalar {
        arbitrary()
    }
}

impl core::ops::Mul for Scalar {
    type Output = Scalar;

    fn mul(self, rhs: Scalar) -> (r: Scalar)
        ensures
            r.reduced(),
            r.value() == (self.value() * rhs.value()) % group_order(),
    {
        self.mul_mod(rhs)
    }
}

impl vstd::std_specs::ops::MulSpecImpl for Scalar {
    open spec fn obeys_mul_spec() -> bool {
        false
    }

    open spec fn mul_req(self, rhs: Scalar) -> bool {
        self.reduced()
    }

    open spec fn mul_spec(self, rhs: Scalar) -> Scalar {
        arbitrary()
    }
}

impl core::ops::Neg for Scalar {
    type Output = Scalar;

    fn neg(self) -> (r: Scalar)
        ensures
            r.reduced(),
            r.value() == (-self.value()) % (group_order() as int),
    {
        self.neg_mod()
    }
}

impl vstd::std_specs::ops::NegSpecImpl for Scalar {
    open spec fn obeys_neg_spec() -> bool {
        false
    }

    open spec fn neg_req(self) -> bool {
        self.reduced()
    }

    open spec fn neg_spec(self) -> Scalar {
        arbitrary()
    }
}

} // verus!
