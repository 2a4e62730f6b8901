//! What the wires of a signature promise: those of a signature that verifies meet
//! the conditions, and wires that meet the conditions end at `s*G + e*Q`.
use vstd::arithmetic::div_mod::{lemma_div_denominator, lemma_small_mod};
use vstd::arithmetic::power2::{lemma2_to64, lemma_pow2_adds, lemma_pow2_pos, pow2};
use vstd::prelude::*;

use crate::chain_laws::{
    chain_of, generator_selectors, key_selectors, lemma_chain_computes, lemma_last_run_adds,
    lemma_mixed_start, lemma_run_adds, lemma_selectors_at, lemma_spelled_row, marked_last,
    mixed, spelled, unit,
};
use crate::curve_group::{belongs, curve_sum, lemma_curve_sum_belongs};
use crate::ecgfp5::{can_encode, compressed, generator_point, on_curve, point_add, PointEw};
use crate::field::F;
use crate::gate_laws::{
    all_canonical, lemma_compression, lemma_compression_encodes, row_regular,
};
use crate::gates::DoubleAdd4xTargets;
use crate::generator_order::lemma_generator_proper;
use crate::group_law::{lemma_group_sum, lemma_sum_proper};
use crate::hash::{squeeze, HashOutput};
use crate::multiples::{
    curve_times, lemma_curve_times_belongs, lemma_group_times, lemma_multiple_is_times,
    lemma_times_proper, times,
};
use crate::offset_order::{lemma_offset_proper, start};
use crate::proper::{lemma_decoded_proper, lemma_proper_regular, proper};
use crate::schnorr::{can_verify, challenge_input, signature_holds, CompPubKey, Signature};
use crate::schnorr_gadget::{
    accumulator, can_run_chain, can_run_row, chain_row, linked, points_compressed, rows_linked, run_of_row,
    schnorr_holds, schnorr_wires, selector, selectors, SchnorrTargets,
};
use crate::schnorr_gadget_laws::{
    chain_regular, lemma_chain_satisfied, lemma_hash_limbs, lemma_signature_satisfied,
};
use crate::signature_laws::lemma_scalar_bits;
use crate::signature_wires::{
    can_fake, can_wire, decodes_as, fake_end, fake_wires, lemma_decodes_unique, real_wires,
    tx_challenge,
};

verus! {

/// The selectors of a scalar spell it, as far as they go.
proof fn lemma_spelled_scalar(bits: Seq<F>, v: nat, filler: bool, n: nat)
    requires
        n <= 319,
        v < pow2(319),
        forall|i: int| 0 <= i < 319 ==> #[trigger] bits[i] == selector(v, i, filler),
    ensures
        spelled(bits, n) == v / pow2((319 - n) as nat),
    decreases n,
{
    lemma_pow2_pos(319);
    if n == 0 {
        vstd::arithmetic::div_mod::lemma_basic_div(v as int, pow2(319) as int);
    } else {
        let m = (319 - n) as nat;
        lemma_spelled_scalar(bits, v, filler, (n - 1) as nat);
        lemma_pow2_pos(m);
        lemma_pow2_adds(m, 1);
        lemma2_to64();
        lemma_div_denominator(v as int, pow2(m) as int, 2);
        let x = v / pow2(m);
        assert(v / pow2(m + 1) == x / 2);
        assert(bits[n - 1] == selector(v, n - 1, filler));
        assert(318 - (n - 1) == m);
        assert(F::of(0) != F::of(1));
        assert(unit(bits[n - 1]) == x % 2);
    }
}

/// The rows computed for two scalars.
pub open spec fn rows_for(q: PointEw, e: nat, s: nat) -> Seq<DoubleAdd4xTargets> {
    Seq::new(80, |i: int| chain_row(q, e, s, i as nat))
}

proof fn lemma_rows_spell(q: PointEw, e: nat, s: nat)
    requires
        e < pow2(319),
        s < pow2(319),
    ensures
        spelled(key_selectors(rows_for(q, e, s)), 319) == e,
        spelled(generator_selectors(rows_for(q, e, s)), 319) == s,
{
    let rows = rows_for(q, e, s);
    let (x, y) = (key_selectors(rows), generator_selectors(rows));
    assert forall|i: int| 0 <= i < 319 implies #[trigger] x[i] == selector(e, i, false) by {
        let r = i / 4;
        assert(rows[r] == chain_row(q, e, s, r as nat));
        assert(rows[r].sp == selectors(e, r, false));
        assert(i == 4 * r + i % 4);
    }
    assert forall|i: int| 0 <= i < 319 implies #[trigger] y[i] == selector(s, i, true) by {
        let r = i / 4;
        assert(rows[r] == chain_row(q, e, s, r as nat));
        assert(rows[r].sg == selectors(s, r, true));
        assert(i == 4 * r + i % 4);
    }
    lemma_spelled_scalar(x, e, false, 319);
    lemma_spelled_scalar(y, s, true, 319);
    lemma2_to64();
    vstd::arithmetic::div_mod::lemma_div_basics(e as int);
    vstd::arithmetic::div_mod::lemma_div_basics(s as int);
}

/// The accumulator before a row of the chain computed for two scalars.
proof fn lemma_accumulator_before(q: PointEw, e: nat, s: nat, row: nat)
    requires
        belongs(q),
        can_run_chain(q, e, s),
        row < 80,
    ensures
        accumulator(q, e, s, row) == mixed(
            start(),
            pow2(4 * row),
            q,
            spelled(key_selectors(rows_for(q, e, s)), 4 * row),
            spelled(generator_selectors(rows_for(q, e, s)), 4 * row),
        ),
    decreases row,
{
    let rows = rows_for(q, e, s);
    lemma_offset_proper();
    lemma2_to64();
    if row == 0 {
        lemma_mixed_start(start(), q);
    } else {
        let k = (row - 1) as nat;
        let (x, y) = (key_selectors(rows), generator_selectors(rows));
        lemma_accumulator_before(q, e, s, k);
        assert(can_run_row(q, e, s, k));
        assert(rows[k as int] == chain_row(q, e, s, k));
        lemma_run_adds(
            selectors(e, k as int, false),
            selectors(s, k as int, true),
            q,
            accumulator(q, e, s, k),
            false,
            start(),
            pow2(4 * k),
            spelled(x, 4 * k),
            spelled(y, 4 * k),
        );
        lemma_spelled_row(x, k);
        lemma_spelled_row(y, k);
        lemma_selectors_at(rows, k);
        lemma_pow2_adds(4 * k, 4);
        assert(16 * pow2(4 * k) == pow2(4 * row)) by (nonlinear_arith)
            requires
                pow2(4 * row) == pow2(4 * k) * 16,
        ;
        assert(accumulator(q, e, s, row) == run_of_row(q, e, s, k).acco4);
    }
}

/// The chain of gates computed for a point of the curve and two scalars ends at
/// `s*G + e*Q`, where it meets no division by zero.
pub proof fn lemma_accumulator_on_curve(q: PointEw, e: nat, s: nat)
    requires
        belongs(q),
        e < pow2(319),
        s < pow2(319),
        can_run_chain(q, e, s),
    ensures
        accumulator(q, e, s, 80) == curve_sum(curve_times(generator_point(), s), curve_times(q, e)),
        belongs(accumulator(q, e, s, 80)),
{
    let rows = rows_for(q, e, s);
    let (x, y) = (key_selectors(rows), generator_selectors(rows));
    lemma_accumulator_before(q, e, s, 79);
    assert(can_run_row(q, e, s, 79));
    assert(rows[79] == chain_row(q, e, s, 79));
    assert(selector(e, 319, false) == F::of(0));
    assert(selector(s, 319, true) == F::of(1));
    lemma_last_run_adds(
        selectors(e, 79, false),
        selectors(s, 79, true),
        q,
        accumulator(q, e, s, 79),
        spelled(x, 316),
        spelled(y, 316),
    );
    lemma_spelled_row(x, 79);
    lemma_spelled_row(y, 79);
    lemma_selectors_at(rows, 79);
    lemma_rows_spell(q, e, s);
    assert(accumulator(q, e, s, 80) == run_of_row(q, e, s, 79).acco4);
    lemma_generator_proper();
    lemma_curve_times_belongs(generator_point(), s);
    lemma_curve_times_belongs(q, e);
    lemma_curve_sum_belongs(curve_times(generator_point(), s), curve_times(q, e));
}

/// For a point of the group, `s*G + e*Q` needs no vertical tangent.
proof fn lemma_end_on_group(q: PointEw, e: nat, s: nat)
    requires
        proper(q),
    ensures
        curve_sum(curve_times(generator_point(), s), curve_times(q, e)) == point_add(
            times(generator_point(), s),
            times(q, e),
        ),
        proper(point_add(times(generator_point(), s), times(q, e))),
{
    let g = generator_point();
    lemma_generator_proper();
    lemma_group_times(g, s);
    lemma_group_times(q, e);
    lemma_times_proper(g, s);
    lemma_times_proper(q, e);
    lemma_group_sum(times(g, s), times(q, e));
    lemma_sum_proper(times(g, s), times(q, e));
}

/// The chain of gates computed for a point of the group and two scalars ends at
/// `s*G + e*Q`, where it meets no division by zero.
pub proof fn lemma_accumulator_end(q: PointEw, e: nat, s: nat)
    requires
        proper(q),
        e < pow2(319),
        s < pow2(319),
        can_run_chain(q, e, s),
    ensures
        accumulator(q, e, s, 80) == point_add(times(generator_point(), s), times(q, e)),
        proper(accumulator(q, e, s, 80)),
        can_encode(accumulator(q, e, s, 80)),
{
    lemma_accumulator_on_curve(q, e, s);
    lemma_end_on_group(q, e, s);
    if !accumulator(q, e, s, 80).at_inf {
        lemma_proper_regular(accumulator(q, e, s, 80));
    }
}

/// Whether the sponge answers a challenge with five canonical elements.
pub open spec fn answers<H: Fn(Vec<F>, usize) -> Vec<F>>(
    h: H,
    key: CompPubKey,
    tx_hash: HashOutput,
    sig: Signature,
) -> bool {
    let hash = squeeze(h, challenge_input(compressed(sig.r), key.0.w, tx_hash.elements()), 5);
    hash.len() == 5 && all_canonical(hash)
}

/// What a key that stands for a point other than infinity is.
proof fn lemma_key_point(key: CompPubKey, q: PointEw)
    requires
        key.0.w.canonical(),
        decodes_as(key.0.w, q),
        !q.at_inf,
    ensures
        proper(q),
        on_curve(q),
        q.canonical(),
        can_encode(q),
        key.0.w == compressed(q),
{
    lemma_decoded_proper(key.0.w, q);
    lemma_proper_regular(q);
    crate::compression::lemma_decode_encode(key.0.w, q);
}

/// The wires computed for a real signature meet the conditions, with the check of
/// the challenge and without, where the chain meets no vertical line.
pub proof fn lemma_real_wires_hold<H: Fn(Vec<F>, usize) -> Vec<F>>(
    h: H,
    key: CompPubKey,
    tx_hash: HashOutput,
    sig: Signature,
    q: PointEw,
    apply_check: bool,
    t: SchnorrTargets,
)
    requires
        key.0.w.canonical(),
        !q.at_inf,
        can_wire(h, key, tx_hash, sig, q),
        real_wires(h, key, tx_hash, sig, t),
        answers(h, key, tx_hash, sig),
        sig.s.reduced(),
        chain_regular(q, tx_challenge(h, key, tx_hash, sig), sig.s.value()),
    ensures
        schnorr_holds(h, tx_hash, key, apply_check, t),
{
    let e = tx_challenge(h, key, tx_hash, sig);
    let s = sig.s.value();
    let p = choose|p: PointEw| #[trigger]
        decodes_as(key.0.w, p) && schnorr_wires(t, p, compressed(sig.r), e, s);
    lemma_decodes_unique(key.0.w, p, q);
    lemma_key_point(key, q);
    lemma_hash_limbs(squeeze(h, challenge_input(compressed(sig.r), key.0.w, tx_hash.elements()), 5));
    lemma_reduced_bits(s);
    lemma_accumulator_end(q, e, s);
    lemma_chain_satisfied(q, e, s, 79);
    lemma_signature_satisfied(h, tx_hash, key, apply_check, t, q, e, s);
}

/// The wires computed for a fake signature meet the conditions without the check
/// of the challenge, where the chain meets no vertical line.
pub proof fn lemma_fake_wires_hold<H: Fn(Vec<F>, usize) -> Vec<F>>(
    h: H,
    key: CompPubKey,
    tx_hash: HashOutput,
    e: nat,
    s: nat,
    q: PointEw,
    t: SchnorrTargets,
)
    requires
        key.0.w.canonical(),
        !q.at_inf,
        e < pow2(319),
        s < pow2(319),
        can_fake(key, e, s, q),
        fake_wires(key, e, s, t),
        chain_regular(q, e, s),
    ensures
        schnorr_holds(h, tx_hash, key, false, t),
{
    let p = choose|p: PointEw| #[trigger]
        decodes_as(key.0.w, p) && schnorr_wires(t, p, compressed(fake_end(p, e, s)), e, s);
    lemma_decodes_unique(key.0.w, p, q);
    lemma_key_point(key, q);
    lemma_accumulator_end(q, e, s);
    lemma_chain_satisfied(q, e, s, 79);
    lemma_signature_satisfied(h, tx_hash, key, false, t, q, e, s);
}

proof fn lemma_reduced_bits(k: nat)
    requires
        k < crate::scalar::group_order(),
    ensures
        k < pow2(319),
{
    lemma_scalar_bits(k);
    lemma_pow2_pos(319);
    vstd::arithmetic::div_mod::lemma_mod_bound(k as int, pow2(319) as int);
}

/// The wires of a signature that verifies can be computed, where the chain meets no
/// division by zero.
pub proof fn lemma_verified_has_wires<H: Fn(Vec<F>, usize) -> Vec<F>>(
    h: H,
    key: CompPubKey,
    tx_hash: HashOutput,
    sig: Signature,
    q: PointEw,
)
    requires
        key.0.w.canonical(),
        decodes_as(key.0.w, q),
        !q.at_inf,
        sig.s.reduced(),
        answers(h, key, tx_hash, sig),
        can_verify(h, q, tx_hash.elements(), sig),
        signature_holds(h, q, tx_hash.elements(), sig),
        can_run_chain(q, tx_challenge(h, key, tx_hash, sig), sig.s.value()),
    ensures
        can_wire(h, key, tx_hash, sig, q),
{
    let g = generator_point();
    let e = tx_challenge(h, key, tx_hash, sig);
    let s = sig.s.value();
    lemma_key_point(key, q);
    lemma_hash_limbs(squeeze(h, challenge_input(compressed(sig.r), key.0.w, tx_hash.elements()), 5));
    lemma_reduced_bits(s);
    lemma_small_mod(e, pow2(319));
    lemma_small_mod(s, pow2(319));
    lemma_accumulator_end(q, e, s);
    lemma_generator_proper();
    lemma_multiple_is_times(g, s);
    lemma_multiple_is_times(q, e);
}

/// The rows of wires that meet the conditions of a signature make a chain.
proof fn lemma_rows_chain<H: Fn(Vec<F>, usize) -> Vec<F>>(
    h: H,
    key: CompPubKey,
    tx_hash: HashOutput,
    apply_check: bool,
    t: SchnorrTargets,
)
    requires
        schnorr_holds(h, tx_hash, key, apply_check, t),
        forall|i: int| 0 <= i < 80 ==> (#[trigger] t.da4x@[i]).canonical(),
        forall|i: int| 0 <= i < 80 ==> row_regular(#[trigger] t.da4x@[i]),
        forall|i: int| 0 <= i < 79 ==> (#[trigger] t.da4x@[i]).lgs != F::of(1),
        marked_last(t.da4x@[79]),
    ensures
        chain_of(t.da4x@, t.q.point()),
{
    let rows = t.da4x@;
    reveal(rows_linked);
    assert forall|i: int| 0 <= i < 79 implies (#[trigger] rows[i]).acco4 == rows[i + 1].accin by {
        assert(linked(rows, i));
    }
}

/// Wires that meet the conditions of a signature end at `s*G + e*Q`, where `e` and
/// `s` are the integers that the selectors spell: the compressed forms are those of
/// that sum and of `Q`. Both must have one, the last row alone must be marked, and no
/// row may meet a vertical line.
pub proof fn lemma_held_wires<H: Fn(Vec<F>, usize) -> Vec<F>>(
    h: H,
    key: CompPubKey,
    tx_hash: HashOutput,
    apply_check: bool,
    t: SchnorrTargets,
)
    requires
        key.0.w.canonical(),
        t.cr.canonical(),
        t.q.canonical(),
        schnorr_holds(h, tx_hash, key, apply_check, t),
        can_encode(t.q.point()),
        can_encode(t.da4x@[79].acco4.point()),
        forall|i: int| 0 <= i < 80 ==> (#[trigger] t.da4x@[i]).canonical(),
        forall|i: int| 0 <= i < 80 ==> row_regular(#[trigger] t.da4x@[i]),
        forall|i: int| 0 <= i < 79 ==> (#[trigger] t.da4x@[i]).lgs != F::of(1),
        marked_last(t.da4x@[79]),
    ensures
        key.0.w == compressed(t.q.point()),
        t.cr == compressed(
            curve_sum(
                curve_times(generator_point(), spelled(generator_selectors(t.da4x@), 319)),
                curve_times(t.q.point(), spelled(key_selectors(t.da4x@), 319)),
            ),
        ),
{
    let rows = t.da4x@;
    let q = t.q.point();
    lemma_rows_chain(h, key, tx_hash, apply_check, t);
    let end = rows[79].acco4;
    reveal(points_compressed);
    assert(rows[79].canonical());
    lemma_compression(t.cr, end.x, end.y);
    lemma_compression(key.0.w, q.x, q.y);
    lemma_chain_computes(rows, q);
    lemma_compression_encodes(t.cr, end.point());
    lemma_compression_encodes(key.0.w, q);
}

/// The same for a point of the group: both compressed forms are there.
pub proof fn lemma_held_wires_on_group<H: Fn(Vec<F>, usize) -> Vec<F>>(
    h: H,
    key: CompPubKey,
    tx_hash: HashOutput,
    apply_check: bool,
    t: SchnorrTargets,
)
    requires
        key.0.w.canonical(),
        t.cr.canonical(),
        schnorr_holds(h, tx_hash, key, apply_check, t),
        proper(t.q.point()),
        forall|i: int| 0 <= i < 80 ==> (#[trigger] t.da4x@[i]).canonical(),
        forall|i: int| 0 <= i < 80 ==> row_regular(#[trigger] t.da4x@[i]),
        forall|i: int| 0 <= i < 79 ==> (#[trigger] t.da4x@[i]).lgs != F::of(1),
        marked_last(t.da4x@[79]),
    ensures
        key.0.w == compressed(t.q.point()),
        t.cr == compressed(
            point_add(
                times(generator_point(), spelled(generator_selectors(t.da4x@), 319)),
                times(t.q.point(), spelled(key_selectors(t.da4x@), 319)),
            ),
        ),
{
    let rows = t.da4x@;
    let q = t.q.point();
    let (e, s) = (spelled(key_selectors(rows), 319), spelled(generator_selectors(rows), 319));
    lemma_rows_chain(h, key, tx_hash, apply_check, t);
    lemma_chain_computes(rows, q);
    lemma_end_on_group(q, e, s);
    lemma_proper_regular(q);
    lemma_proper_regular(rows[79].acco4.point());
    lemma_held_wires(h, key, tx_hash, apply_check, t);
}

} // verus!
