//! What a signature binds: its challenge is the hash of all of the message, natively
//! and on wires, and it verifies exactly where its scalars meet one equation.
use vstd::arithmetic::div_mod::{
    lemma_div_denominator, lemma_mod_bound, lemma_small_mod,
};
use vstd::arithmetic::power2::{lemma2_to64, lemma_pow2_adds, lemma_pow2_pos, pow2};
use vstd::prelude::*;

use crate::arith::lemma_cong_add;
use crate::chain_laws::{key_selectors, spelled, unit};
use crate::ecgfp5::{
    compressed, generator_point, infinity, multiple, point_add, CompressedPoint, PointEw,
};
use crate::field::F;
use crate::gate_laws::{is_bit, lemma_row_selectors, row_holds};
use crate::gates::DoubleAdd4xTargets;
use crate::generator_multiples::{
    lemma_can_multiply, lemma_generated, lemma_generator_multiple,
    lemma_no_smaller_order,
};
use crate::generator_order::lemma_generator_proper;
use crate::group_law::{lemma_opposite_proper, lemma_sum_cancel, lemma_sum_proper};
use crate::hash::{squeeze, HashOutput};
use crate::multiples::{lemma_times_add, lemma_times_proper, lemma_times_times, times};
use crate::proper::{lemma_encode_decode, lemma_proper_regular, proper};
use crate::quintic::QuinticExtension;
use crate::scalar::{group_order, Scalar};
use crate::schnorr::{
    challenge_input, challenge_value, lemma_signature_equation, schnorr_challenge, schnorr_sign,
    schnorr_verify, signing_possible, verification_possible, CompPubKey, PrivateKey, PublicKey,
    Signature,
};
use crate::schnorr_gadget::{
    bit_of, challenge_bits, challenge_limb, challenge_matches,
    conditional_schnorr_verify_gadget, schnorr_holds, SchnorrTargets,
};
use crate::schnorr_gadget_laws::{lemma_bit_sum, lemma_compressed_canonical};
use crate::signature_laws::{lemma_generator_adds, lemma_scalar_bits};
use crate::signature_wires::lemma_decodes_unique;

verus! {

/// The input of a challenge: the coefficients of `R`, those of `Q`, and then the whole
/// message, element by element.
pub proof fn lemma_challenge_input(r: QuinticExtension, q: QuinticExtension, m: Seq<F>)
    ensures
        challenge_input(r, q, m).len() == 10 + m.len(),
        challenge_input(r, q, m).take(10) == seq![
            r.c0,
            r.c1,
            r.c2,
            r.c3,
            r.c4,
            q.c0,
            q.c1,
            q.c2,
            q.c3,
            q.c4,
        ],
        challenge_input(r, q, m).skip(10) == m,
        forall|i: int| 0 <= i < m.len() ==> challenge_input(r, q, m)[10 + i] == #[trigger] m[i],
{
    let x = challenge_input(r, q, m);
    assert(x.take(10) =~= seq![r.c0, r.c1, r.c2, r.c3, r.c4, q.c0, q.c1, q.c2, q.c3, q.c4]);
    assert(x.skip(10) =~= m);
}

/// Challenges with the same input are those of the same points and the same message.
pub proof fn lemma_challenge_binds(
    r1: QuinticExtension,
    q1: QuinticExtension,
    m1: Seq<F>,
    r2: QuinticExtension,
    q2: QuinticExtension,
    m2: Seq<F>,
)
    requires
        challenge_input(r1, q1, m1) == challenge_input(r2, q2, m2),
    ensures
        r1 == r2,
        q1 == q2,
        m1 == m2,
{
    lemma_challenge_input(r1, q1, m1);
    lemma_challenge_input(r2, q2, m2);
    let (x, y) = (challenge_input(r1, q1, m1).take(10), challenge_input(r2, q2, m2).take(10));
    assert(x[0] == y[0] && x[1] == y[1] && x[2] == y[2] && x[3] == y[3] && x[4] == y[4] && x[5]
        == y[5] && x[6] == y[6] && x[7] == y[7] && x[8] == y[8] && x[9] == y[9]);
}

/// The challenge is the integer of the five elements that the sponge returns for the
/// points and the message: 64 bits of each, and 62 of the last one.
pub proof fn lemma_challenge_value<H: Fn(Vec<F>, usize) -> Vec<F>>(
    h: H,
    cr: &CompressedPoint,
    cq: &CompressedPoint,
    m: &[F],
    e: Scalar,
)
    requires
        call_ensures(schnorr_challenge::<H>, (&h, cr, cq, m), e),
    ensures
        ({
            let (r, q) = (cr.w, cq.w);
            let x = seq![r.c0, r.c1, r.c2, r.c3, r.c4, q.c0, q.c1, q.c2, q.c3, q.c4] + m@;
            let y = squeeze(h, x, 5);
            e.value() == (y[0]@ + y[1]@ * 0x1_0000_0000_0000_0000 + y[2]@
                * 0x1_0000_0000_0000_0000_0000_0000_0000_0000int + y[3]@
                * 0x1_0000_0000_0000_0000_0000_0000_0000_0000_0000_0000_0000_0000int + (y[4]@
                % 0x4000_0000_0000_0000)
                * 0x1_0000_0000_0000_0000_0000_0000_0000_0000_0000_0000_0000_0000_0000_0000_0000_0000int) as nat
        }),
        e.value() < group_order(),
{
    let (r, q) = (cr.w, cq.w);
    let x = seq![r.c0, r.c1, r.c2, r.c3, r.c4, q.c0, q.c1, q.c2, q.c3, q.c4] + m@;
    assert(challenge_input(r, q, m@) =~= x);
}

/// A public key is the multiple of the generator by the private key.
pub proof fn lemma_public_key_is(key: &PrivateKey, q: PublicKey)
    requires
        key.0.reduced(),
        call_ensures(PrivateKey::public_key, (key,), q),
    ensures
        q.0 == times(generator_point(), key.0.value()),
{
    lemma_scalar_bits(key.0.value());
    lemma_generator_multiple(key.0.value());
}

/// Multiples of the generator by different reduced scalars are different.
pub proof fn lemma_multiples_differ(a: nat, b: nat)
    requires
        a < b < group_order(),
    ensures
        times(generator_point(), a) != times(generator_point(), b),
{
    let g = generator_point();
    lemma_generator_proper();
    lemma_times_proper(g, a);
    lemma_times_proper(g, (b - a) as nat);
    lemma_times_add(g, (b - a) as nat, a);
    lemma_generated(1);
    assert(times(g, 1) == g) by {
        assert(times(g, 0) == infinity());
    }
    if times(g, a) == times(g, b) {
        let (p, q) = (times(g, (b - a) as nat), times(g, a));
        lemma_sum_cancel(p, q);
        lemma_opposite_proper(q);
        lemma_no_smaller_order(g, (b - a) as nat);
    }
}

/// Points of the group with the same compressed form are the same.
pub proof fn lemma_same_compressed(p: PointEw, q: PointEw)
    requires
        proper(p),
        proper(q),
        compressed(p) == compressed(q),
    ensures
        p == q,
{
    if !p.at_inf {
        lemma_encode_decode(p);
    }
    if !q.at_inf {
        lemma_encode_decode(q);
    }
    if !p.at_inf && !q.at_inf {
        lemma_proper_regular(p);
        lemma_compressed_canonical(p);
        lemma_decodes_unique(compressed(p), p, q);
    }
}

/// Verification, for a key `d*G` and a signature with `R == k*G`: it accepts exactly
/// where `s + e d == k` modulo the group order, for the challenge `e` of the message.
pub proof fn lemma_verify_equation<H: Fn(Vec<F>, usize) -> Vec<F>>(
    h: H,
    key: &PrivateKey,
    k: nat,
    m: &[F],
    q: &PublicKey,
    sig: &Signature,
    cr: &CompressedPoint,
    cq: &CompressedPoint,
    e: Scalar,
    r: bool,
)
    requires
        key.0.reduced(),
        k < group_order(),
        sig.s.reduced(),
        call_ensures(PrivateKey::public_key, (key,), *q),
        sig.r == times(generator_point(), k),
        cr.w == compressed(sig.r),
        cq.w == compressed(q.0),
        call_ensures(schnorr_challenge::<H>, (&h, cr, cq, m), e),
        call_ensures(schnorr_verify::<H>, (&h, q, m, sig), r),
    ensures
        r == ((sig.s.value() + e.value() * key.0.value()) % group_order() == k),
{
    let g = generator_point();
    let n = group_order();
    let (d, s, c) = (key.0.value(), sig.s.value(), e.value());
    lemma_public_key_is(key, *q);
    assert(c == challenge_value(h, cr.w, cq.w, m@));
    lemma_scalar_bits(s);
    lemma_scalar_bits(c);
    lemma_generator_proper();
    lemma_generator_multiple(s);
    lemma_generated(d);
    lemma_can_multiply(q.0, c);
    lemma_times_times(g, d, c);
    lemma_generator_adds(s, d * c);
    assert(d * c == c * d) by (nonlinear_arith);
    let t = (s + c * d) % n;
    lemma_mod_bound((s + c * d) as int, n as int);
    let sum = point_add(multiple(g, s), multiple(q.0, c));
    assert(sum == times(g, t));
    lemma_times_proper(g, t);
    lemma_times_proper(g, k);
    if compressed(sum) == compressed(sig.r) {
        lemma_same_compressed(sum, sig.r);
    }
    if t < k {
        lemma_multiples_differ(t, k);
    } else if k < t {
        lemma_multiples_differ(k, t);
    }
}

/// What signing returns: the point `k*G`, and the reduced scalar `s` with
/// `s + e d == k` modulo the group order.
pub proof fn lemma_sign_equation<H: Fn(Vec<F>, usize) -> Vec<F>>(
    h: H,
    key: &PrivateKey,
    k: Scalar,
    m: &[F],
    q: PublicKey,
    sig: Signature,
    cr: &CompressedPoint,
    cq: &CompressedPoint,
    e: Scalar,
)
    requires
        key.0.reduced(),
        k.reduced(),
        call_ensures(PrivateKey::public_key, (key,), q),
        call_ensures(schnorr_sign::<H>, (&h, key, m, k), sig),
        cr.w == compressed(sig.r),
        cq.w == compressed(q.0),
        call_ensures(schnorr_challenge::<H>, (&h, cr, cq, m), e),
    ensures
        sig.r == times(generator_point(), k.value()),
        sig.s.value() < group_order(),
        (sig.s.value() + e.value() * key.0.value()) % group_order() == k.value(),
{
    let (d, c) = (key.0.value(), e.value());
    lemma_scalar_bits(k.value());
    lemma_generator_multiple(k.value());
    assert(c == challenge_value(h, cr.w, cq.w, m@));
    lemma_signature_equation(k.value(), d, c);
    assert(d * c == c * d) by (nonlinear_arith);
}

/// A signature of one message verifies for another exactly where the key is zero or both
/// messages have the same challenge.
pub proof fn lemma_other_message<H: Fn(Vec<F>, usize) -> Vec<F>>(
    h: H,
    key: &PrivateKey,
    k: Scalar,
    m1: &[F],
    m2: &[F],
    q: &PublicKey,
    sig: &Signature,
    cr: &CompressedPoint,
    cq: &CompressedPoint,
    e1: Scalar,
    e2: Scalar,
    r: bool,
)
    requires
        key.0.reduced(),
        k.reduced(),
        call_ensures(PrivateKey::public_key, (key,), *q),
        call_ensures(schnorr_sign::<H>, (&h, key, m1, k), *sig),
        cr.w == compressed(sig.r),
        cq.w == compressed(q.0),
        call_ensures(schnorr_challenge::<H>, (&h, cr, cq, m1), e1),
        call_ensures(schnorr_challenge::<H>, (&h, cr, cq, m2), e2),
        call_ensures(schnorr_verify::<H>, (&h, q, m2, sig), r),
    ensures
        r == (key.0.value() == 0 || e1.value() == e2.value()),
        m1@ == m2@ ==> r,
{
    let g = generator_point();
    let n = group_order();
    let (d, a, b, s) = (key.0.value(), e1.value(), e2.value(), sig.s.value());
    lemma_sign_equation(h, key, k, m1, *q, *sig, cr, cq, e1);
    lemma_verify_equation(h, key, k.value(), m2, q, sig, cr, cq, e2, r);
    if d == 0 {
        assert(a * d == 0 && b * d == 0);
    } else if r && a != b {
        // both equations, so d (a - b) is a multiple of the order
        let (lo, hi) = if a < b {
            (a, b)
        } else {
            (b, a)
        };
        let x = (hi - lo) as nat;
        assert((s + lo * d) % n == (s + hi * d) % n);
        lemma_cong_add(
            (s + lo * d) as int,
            (s + hi * d) as int,
            -((s + lo * d) as int),
            -((s + lo * d) as int),
            n as int,
        );
        assert(hi * d - lo * d == x * d) by (nonlinear_arith)
            requires
                x == hi - lo,
        ;
        assert(((x * d) as int) % (n as int) == 0) by {
            lemma_small_mod(0, n);
        }
        lemma_generator_proper();
        lemma_times_times(g, d, x);
        assert(d * x == x * d) by (nonlinear_arith);
        crate::signature_laws::lemma_times_modulo_order(d * x);
        assert(times(g, 0) == infinity());
        lemma_generated(d);
        lemma_generated(1);
        assert(times(g, 1) == g);
        lemma_no_smaller_order(g, d);
        lemma_no_smaller_order(times(g, d), x);
    }
}

/// The integer of the first selectors is that of all, shifted.
proof fn lemma_spelled_shift(bits: Seq<F>, n: nat, j: nat)
    requires
        j <= n,
    ensures
        spelled(bits, n) / pow2(j) == spelled(bits, (n - j) as nat),
    decreases j,
{
    lemma2_to64();
    if j == 0 {
        vstd::arithmetic::div_mod::lemma_div_basics(spelled(bits, n) as int);
    } else {
        let i = (j - 1) as nat;
        lemma_spelled_shift(bits, n, i);
        lemma_pow2_pos(i);
        lemma_pow2_adds(i, 1);
        lemma_div_denominator(spelled(bits, n) as int, pow2(i) as int, 2);
        let m = (n - i) as nat;
        assert(spelled(bits, m) == 2 * spelled(bits, (m - 1) as nat) + unit(bits[m - 1]));
    }
}

/// The bits that the rows hold are those of the integer that their selectors spell.
proof fn lemma_rows_bits(rows: Seq<DoubleAdd4xTargets>)
    requires
        rows.len() == 80,
        forall|i: int| 0 <= i < 80 ==> (#[trigger] rows[i]).canonical(),
        forall|i: int| 0 <= i < 80 ==> row_holds(#[trigger] rows[i]),
    ensures
        forall|i: int|
            0 <= i < 320 ==> #[trigger] challenge_bits(rows)[i] == F::of(
                if bit_of(spelled(key_selectors(rows), 319), i as nat) {
                    1
                } else {
                    0
                },
            ),
{
    let ks = key_selectors(rows);
    let e = spelled(ks, 319);
    assert(F::of(0) != F::of(1));
    assert forall|i: int| 0 <= i < 320 implies #[trigger] challenge_bits(rows)[i] == F::of(
        if bit_of(e, i as nat) {
            1
        } else {
            0
        },
    ) by {
        lemma_spelled_shift(ks, 319, if i < 319 {
            i as nat
        } else {
            319
        });
        if i < 319 {
            let m = (319 - i) as nat;
            assert(spelled(ks, m) == 2 * spelled(ks, (m - 1) as nat) + unit(ks[m - 1]));
            let (k, j) = (i + 1, 318 - i);
            assert(j / 4 == 79 - k / 4 && j % 4 == 3 - k % 4);
            let row = rows[j / 4];
            assert(row.canonical() && row_holds(row));
            lemma_row_selectors(row);
            assert(challenge_bits(rows)[i] == ks[j]);
            assert(is_bit(ks[j]));
        } else {
            assert(spelled(ks, 0) == 0);
        }
    }
}

/// A limb of the rows is a limb of the integer that their selectors spell.
proof fn lemma_rows_limb(rows: Seq<DoubleAdd4xTargets>, k: int)
    requires
        rows.len() == 80,
        forall|i: int| 0 <= i < 80 ==> (#[trigger] rows[i]).canonical(),
        forall|i: int| 0 <= i < 80 ==> row_holds(#[trigger] rows[i]),
        0 <= k < 5,
    ensures
        challenge_limb(rows, k) == F::of(
            ((spelled(key_selectors(rows), 319) / pow2((64 * k) as nat)) % pow2(64)) as int,
        ),
{
    let e = spelled(key_selectors(rows), 319);
    let bits = challenge_bits(rows).subrange(64 * k, 64 * k + 64);
    lemma_rows_bits(rows);
    assert forall|i: int| 0 <= i < 64 implies #[trigger] bits[i] == F::of(
        if bit_of(e, ((64 * k) as nat + i) as nat) {
            1
        } else {
            0
        },
    ) by {
        assert(bits[i] == challenge_bits(rows)[64 * k + i]);
    }
    lemma_bit_sum(bits, e, (64 * k) as nat, 64);
}

/// Whether the selectors of `Q` on the wires of a signature spell the challenge
/// `H(R || Q || message)`: limb by limb in the field, and the last limb up to its top
/// two bits.
pub open spec fn spells_challenge<H: Fn(Vec<F>, usize) -> Vec<F>>(
    h: H,
    key: CompPubKey,
    message: HashOutput,
    t: SchnorrTargets,
) -> bool {
    let e = spelled(key_selectors(t.da4x@), 319);
    let (r, q) = (t.cr, key.0.w);
    let x = seq![r.c0, r.c1, r.c2, r.c3, r.c4, q.c0, q.c1, q.c2, q.c3, q.c4]
        + seq![message.0, message.1, message.2, message.3];
    let y = squeeze(h, x, 5);
    &&& F::of(((e / pow2(0)) % pow2(64)) as int) == y[0]
    &&& F::of(((e / pow2(64)) % pow2(64)) as int) == y[1]
    &&& F::of(((e / pow2(128)) % pow2(64)) as int) == y[2]
    &&& F::of(((e / pow2(192)) % pow2(64)) as int) == y[3]
    &&& exists|j: int|
        0 <= j < 4 && y[4] - F::of(((e / pow2(256)) % pow2(64)) as int) == #[trigger] F::of(
            j * 0x4000_0000_0000_0000,
        )
}

/// Wires that meet the conditions of a signature with the check of the challenge have
/// selectors that spell the challenge of the message under the key.
pub proof fn lemma_held_challenge<H: Fn(Vec<F>, usize) -> Vec<F>>(
    h: H,
    message: HashOutput,
    key: CompPubKey,
    t: SchnorrTargets,
)
    requires
        schnorr_holds(h, message, key, true, t),
        forall|i: int| 0 <= i < 80 ==> (#[trigger] t.da4x@[i]).canonical(),
    ensures
        spells_challenge(h, key, message, t),
{
    let rows = t.da4x@;
    let e = spelled(key_selectors(rows), 319);
    let (r, q) = (t.cr, key.0.w);
    let x = seq![r.c0, r.c1, r.c2, r.c3, r.c4, q.c0, q.c1, q.c2, q.c3, q.c4]
        + seq![message.0, message.1, message.2, message.3];
    assert(challenge_input(r, q, message.elements()) =~= x);
    let y = squeeze(h, x, 5);
    reveal(challenge_matches);
    lemma_rows_limb(rows, 0);
    lemma_rows_limb(rows, 1);
    lemma_rows_limb(rows, 2);
    lemma_rows_limb(rows, 3);
    lemma_rows_limb(rows, 4);
    let d = y[4] - challenge_limb(rows, 4);
    let j: int = if d == F::of(0) {
        0
    } else if d == F::of(0x4000_0000_0000_0000) {
        1
    } else if d == F::of(0x8000_0000_0000_0000) {
        2
    } else {
        3
    };
    assert(d == F::of(j * 0x4000_0000_0000_0000));
}

/// The same of what the check of a signature on wires accepts.
pub proof fn lemma_gadget_challenge<H: Fn(Vec<F>, usize) -> Vec<F>>(
    h: H,
    message: &HashOutput,
    key: &CompPubKey,
    t: &SchnorrTargets,
)
    requires
        call_ensures(
            conditional_schnorr_verify_gadget::<H>,
            (&h, message, key, true, t),
            true,
        ),
        forall|i: int| 0 <= i < 80 ==> (#[trigger] t.da4x@[i]).canonical(),
    ensures
        spells_challenge(h, *key, *message, *t),
{
    lemma_held_challenge(h, *message, *key, *t);
}

/// A signature can be made with every secret and every nonce below the group order,
/// and with no other.
pub proof fn lemma_signing_possible(key: &PrivateKey, k: &Scalar, r: bool)
    requires
        call_ensures(signing_possible, (key, k), r),
    ensures
        r == (key.0.value() < group_order() && k.value() < group_order()),
{
}

/// A signature whose point is a multiple of the generator and whose scalar is below
/// the group order can be checked against every public key.
pub proof fn lemma_verification_possible<H: Fn(Vec<F>, usize) -> Vec<F>>(
    h: H,
    key: &PrivateKey,
    k: nat,
    m: &[F],
    q: &PublicKey,
    sig: &Signature,
    r: bool,
)
    requires
        key.0.reduced(),
        k < group_order(),
        sig.s.reduced(),
        call_ensures(PrivateKey::public_key, (key,), *q),
        sig.r == times(generator_point(), k),
        call_ensures(verification_possible::<H>, (&h, q, m, sig), r),
    ensures
        r,
{
    let g = generator_point();
    let (d, s) = (key.0.value(), sig.s.value());
    let c = challenge_value(h, compressed(sig.r), compressed(q.0), m@);
    lemma_public_key_is(key, *q);
    lemma_scalar_bits(s);
    lemma_scalar_bits(c);
    lemma_generator_proper();
    lemma_generator_multiple(s);
    lemma_generated(d);
    lemma_can_multiply(q.0, c);
    lemma_times_times(g, d, c);
    lemma_sum_proper(multiple(g, s), multiple(q.0, c));
    lemma_times_proper(g, k);
    lemma_times_proper(g, d);
    let sum = point_add(multiple(g, s), multiple(q.0, c));
    if !sum.at_inf {
        lemma_proper_regular(sum);
    }
    if !sig.r.at_inf {
        lemma_proper_regular(sig.r);
    }
    if !q.0.at_inf {
        lemma_proper_regular(q.0);
    }
}

} // verus!
