//! Signatures verify.
use vstd::arithmetic::div_mod::{lemma_fundamental_div_mod, lemma_small_mod};
use vstd::arithmetic::power2::{lemma2_to64, lemma_pow2_adds, pow2};
use vstd::prelude::*;

use crate::ecgfp5::{compressed, generator_point, multiple, point_add};
use crate::field::F;
use crate::generator_multiples::{lemma_can_multiply, lemma_generator_multiple};
use crate::generator_order::{lemma_generator_order, lemma_generator_proper};
use crate::group_law::lemma_sum_proper;
use crate::multiples::{
    lemma_times_add, lemma_times_of_order, lemma_times_times, times,
};
use crate::proper::lemma_proper_regular;
use crate::scalar::{group_order, Scalar};
use crate::schnorr::{
    can_sign, can_verify, challenge_value, is_signature, lemma_signature_equation,
    signature_holds, PrivateKey, Signature,
};

verus! {

/// A scalar below the group order keeps all its bits.
pub(crate) proof fn lemma_scalar_bits(k: nat)
    requires
        k < group_order(),
    ensures
        k % pow2(319) == k,
{
    lemma2_to64();
    lemma_pow2_adds(64, 64);
    assert(pow2(128) == 0x1_0000_0000_0000_0000_0000_0000_0000_0000nat);
    lemma_pow2_adds(128, 64);
    assert(pow2(192) == 0x1_0000_0000_0000_0000_0000_0000_0000_0000_0000_0000_0000_0000nat);
    lemma_pow2_adds(192, 64);
    assert(pow2(256)
        == 0x1_0000_0000_0000_0000_0000_0000_0000_0000_0000_0000_0000_0000_0000_0000_0000_0000nat);
    lemma_pow2_adds(256, 32);
    lemma_pow2_adds(288, 31);
    lemma_small_mod(k, pow2(319));
}

/// Multiples of the generator depend on the factor modulo the group order alone.
pub proof fn lemma_times_modulo_order(a: nat)
    ensures
        times(generator_point(), a) == times(generator_point(), a % group_order()),
{
    let g = generator_point();
    let n = group_order();
    let (q, r) = (a / n, a % n);
    lemma_fundamental_div_mod(a as int, n as int);
    lemma_generator_proper();
    lemma_generator_order();
    lemma_times_of_order(g, n, q);
    lemma_times_add(g, n * q, r);
}

/// The sum of two multiples of the generator is the multiple by the sum of the
/// factors modulo the group order: the generator makes a cyclic group.
pub proof fn lemma_generator_adds(a: nat, b: nat)
    ensures
        point_add(times(generator_point(), a), times(generator_point(), b)) == times(
            generator_point(),
            (a + b) % group_order(),
        ),
{
    lemma_generator_proper();
    lemma_times_add(generator_point(), a, b);
    lemma_times_modulo_order(a + b);
}

/// A signature made with a reduced private key and a reduced nonce can be verified
/// under its public key, and verifies.
pub proof fn lemma_signature_verifies<H: Fn(Vec<F>, usize) -> Vec<F>>(
    h: H,
    key: PrivateKey,
    k: Scalar,
    m: Seq<F>,
    sig: Signature,
)
    requires
        can_sign(key, k),
        is_signature(h, key, m, k, sig),
    ensures
        can_verify(h, key.public_point(), m, sig),
        signature_holds(h, key.public_point(), m, sig),
{
    let g = generator_point();
    let n = group_order();
    let d = key.0.value();
    let q = key.public_point();
    let e = challenge_value(h, compressed(sig.r), compressed(q), m);
    let (s, t) = (sig.s.value(), k.value());
    lemma_scalar_bits(d);
    lemma_scalar_bits(s);
    lemma_scalar_bits(e);
    lemma_scalar_bits(t);
    lemma_generator_proper();
    // all points as sums of the generator
    lemma_generator_multiple(d);
    lemma_generator_multiple(s);
    lemma_generator_multiple(t);
    lemma_can_multiply(q, e);
    lemma_sum_proper(multiple(g, s), multiple(q, e));
    lemma_times_times(g, d, e);
    lemma_generator_adds(s, d * e);
    lemma_signature_equation(t, d, e);
    let sum = point_add(multiple(g, s), multiple(q, e));
    if !sum.at_inf {
        lemma_proper_regular(sum);
    }
}

} // verus!
