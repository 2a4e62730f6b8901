//! The wires computed for a signature meet the conditions of the signature.
use vstd::arithmetic::div_mod::{
    lemma_div_basics, lemma_div_denominator, lemma_fundamental_div_mod_converse, lemma_mod_breakdown,
    lemma_small_mod,
};
use vstd::arithmetic::power2::{lemma2_to64, lemma_pow2_adds, lemma_pow2_pos, lemma_pow2_unfold, pow2};
use vstd::prelude::*;

use crate::curve_laws::lemma_quotient_times;
use crate::ecgfp5::{
    can_encode, chord_slope, chord_sum, compressed, generator_point, lemma_difference_zero,
    on_curve, point_double, PointEw,
};
use crate::field::F;
use crate::gate_laws::{
    all_canonical, is_bit, last_point, lemma_compression, lemma_compression_encodes,
    lemma_fixed_points_canonical, lemma_row, regular, row_bits, row_computes, row_holds,
    row_regular, selected,
};
use crate::gates::{generator_coordinates, Bits, DoubleAdd4xTargets};
use crate::hash::{squeeze, HashOutput};
use crate::primes::goldilocks;
use crate::quintic_power::lemma_mul_canonical;
use crate::schnorr::{challenge_input, hash_value, CompressedPublicKey};
use crate::schnorr_gadget::{
    accumulator, bit_of, bit_sum, can_run, can_run_chain, can_run_row, can_step, chain_row,
    challenge_bits, challenge_limb, challenge_matches, end_point, gate_run, linked,
    points_compressed, row_steps, row_wires, rows_linked, run_of_row, schnorr_holds, schnorr_wires,
    selectors, step_double, step_of, SchnorrTargets, SCHNORR_ROWS,
};

verus! {

/// A step without vertical lines adds along chords.
proof fn lemma_step(acc: PointEw, p: PointEw, p2: PointEw, b0: bool, b1: bool, keep: bool)
    requires
        acc.canonical(),
        p.canonical(),
        p2.canonical(),
        !acc.at_inf,
        !p.at_inf,
        !p2.at_inf,
        can_step(acc, p, p2, b0, b1, keep),
        regular(step_double(acc, keep), p, p2, b0, b1),
    ensures
        ({
            let s = step_of(acc, p, p2, b0, b1, keep);
            &&& s.accdbl.canonical() && !s.accdbl.at_inf
            &&& s.acco.canonical() && !s.acco.at_inf
            &&& s.lambda.canonical()
            &&& s.acco == selected(s.accdbl, p, p2, b0, b1)
        }),
{
    let d = step_double(acc, keep);
    lemma_double_canonical(acc);
    lemma_difference_zero(p.x, d.x);
    lemma_mul_canonical(p.x, d.x);
    lemma_mul_canonical(p.y, d.y);
    lemma_quotient_times(p.y - d.y, p.x - d.x);
    lemma_chord_canonical(d, p);
    lemma_chord_canonical(d, p2);
    lemma_chord_canonical(chord_sum(d, p), p2);
}

proof fn lemma_double_canonical(p: PointEw)
    ensures
        point_double(p).canonical(),
        !point_double(p).at_inf,
{
    let l = crate::ecgfp5::tangent_slope(p);
    let x3 = l * l - p.x - p.x;
    lemma_mul_canonical(l * l - p.x, p.x);
    lemma_mul_canonical(l * (p.x - x3), p.y);
}

proof fn lemma_chord_canonical(p: PointEw, q: PointEw)
    ensures
        chord_sum(p, q).canonical(),
        !chord_sum(p, q).at_inf,
{
    let l = chord_slope(p, q);
    let x3 = l * l - p.x - q.x;
    lemma_mul_canonical(l * l - p.x, q.x);
    lemma_mul_canonical(l * (p.x - x3), p.y);
}

/// The wires computed for a row satisfy the constraints, where the row meets no vertical
/// line.
pub proof fn lemma_row_satisfied(sp: Bits, sg: Bits, p: PointEw, accin: PointEw, is_last: bool)
    requires
        p.canonical(),
        accin.canonical(),
        !p.at_inf,
        !accin.at_inf,
        is_bit(sp.0) && is_bit(sp.1) && is_bit(sp.2) && is_bit(sp.3),
        is_bit(sg.0) && is_bit(sg.1) && is_bit(sg.2) && is_bit(sg.3),
        can_run(sp, sg, p, accin, is_last),
        row_regular(row_wires(p, accin, sp, sg, is_last, gate_run(sp, sg, p, accin, is_last))),
    ensures
        row_holds(row_wires(p, accin, sp, sg, is_last, gate_run(sp, sg, p, accin, is_last))),
        row_wires(p, accin, sp, sg, is_last, gate_run(sp, sg, p, accin, is_last)).canonical(),
        gate_run(sp, sg, p, accin, is_last).acco4.canonical(),
        !gate_run(sp, sg, p, accin, is_last).acco4.at_inf,
{
    let one = F::of(1);
    let w = gate_run(sp, sg, p, accin, is_last);
    let t = row_wires(p, accin, sp, sg, is_last, w);
    let (s1, s2, s3, s4) = row_steps(sp, sg, p, accin, is_last);
    let g = generator_point();
    let e = end_point(is_last);
    lemma_fixed_points_canonical();
    assert(generator_coordinates().point() == g);
    assert(F::of(0) != F::of(1));
    assert(last_point(t.lgs).point() == e);
    lemma_double_canonical(accin);
    lemma_step(accin, p, g, sp.0 == one, sg.0 == one, false);
    lemma_double_canonical(s1.acco);
    lemma_step(s1.acco, p, g, sp.1 == one, sg.1 == one, false);
    lemma_double_canonical(s2.acco);
    lemma_step(s2.acco, p, g, sp.2 == one, sg.2 == one, false);
    lemma_double_canonical(s3.acco);
    lemma_step(s3.acco, p, e, sp.3 == one, sg.3 == one, is_last);
    assert(t.canonical()) by {
        lemma_bits_canonical();
    }
    assert(row_bits(t));
    assert(t.p.point() == p);
    assert(t.accin.point() == accin);
    assert(t.acco1.point() == s1.acco);
    assert(t.acco2.point() == s2.acco);
    assert(t.acco3.point() == s3.acco);
    assert(t.acco4.point() == s4.acco);
    assert(t.accdblin.point() == s1.accdbl);
    assert(t.accdblo1.point() == s2.accdbl);
    assert(t.accdblo2.point() == s3.accdbl);
    assert(t.accdblo3.point() == s4.accdbl);
    assert(row_computes(t));
    lemma_row(t);
}

proof fn lemma_bits_canonical()
    ensures
        F::of(0).canonical(),
        F::of(1).canonical(),
{
}

/// Whether no row of a chain meets a vertical line.
pub open spec fn chain_regular(q: PointEw, e: nat, s: nat) -> bool {
    forall|row: nat| row < 80 ==> row_regular(#[trigger] chain_row(q, e, s, row))
}

/// The rows of a chain satisfy the constraints.
pub(crate) proof fn lemma_chain_satisfied(q: PointEw, e: nat, s: nat, row: nat)
    requires
        row < 80,
        q.canonical(),
        !q.at_inf,
        can_run_chain(q, e, s),
        chain_regular(q, e, s),
    ensures
        row_holds(chain_row(q, e, s, row)),
        chain_row(q, e, s, row).canonical(),
        accumulator(q, e, s, row).canonical(),
        !accumulator(q, e, s, row).at_inf,
        accumulator(q, e, s, row + 1).canonical(),
        !accumulator(q, e, s, row + 1).at_inf,
    decreases row,
{
    let acc = accumulator(q, e, s, row);
    if row == 0 {
        lemma_fixed_points_canonical();
    } else {
        lemma_chain_satisfied(q, e, s, (row - 1) as nat);
    }
    assert(can_run_row(q, e, s, row));
    assert(row_regular(chain_row(q, e, s, row)));
    let sp = selectors(e, row as int, false);
    let sg = selectors(s, row as int, true);
    assert(run_of_row(q, e, s, row) == gate_run(sp, sg, q, acc, row == 79));
    assert(accumulator(q, e, s, row + 1) == run_of_row(q, e, s, row).acco4);
    lemma_row_satisfied(sp, sg, q, acc, row == 79);
}

/// Bits from a position on spell what is left of the integer.
pub(crate) proof fn lemma_bit_sum(bits: Seq<F>, v: nat, a: nat, n: nat)
    requires
        bits.len() == n,
        forall|i: int|
            0 <= i < n ==> #[trigger] bits[i] == F::of(
                if bit_of(v, (a + i) as nat) {
                    1
                } else {
                    0
                },
            ),
    ensures
        bit_sum(bits) == (v / pow2(a)) % pow2(n),
    decreases n,
{
    lemma_pow2_pos(a);
    lemma_pow2_pos(n);
    if n == 0 {
        lemma2_to64();
        assert((v / pow2(a)) % 1 == 0);
    } else {
        let rest = bits.drop_first();
        let m = (n - 1) as nat;
        assert forall|i: int| 0 <= i < m implies #[trigger] rest[i] == F::of(
            if bit_of(v, (a + 1 + i) as nat) {
                1
            } else {
                0
            },
        ) by {
            assert(rest[i] == bits[i + 1]);
        }
        lemma_bit_sum(rest, v, a + 1, m);
        let x = v / pow2(a);
        lemma_pow2_adds(a, 1);
        lemma2_to64();
        lemma_div_denominator(v as int, pow2(a) as int, 2);
        assert(v / pow2(a + 1) == x / 2);
        lemma_pow2_pos(m);
        lemma_pow2_unfold(n);
        lemma_mod_breakdown(x as int, 2, pow2(m) as int);
        assert(bits[0] == F::of(
            if bit_of(v, (a + 0) as nat) {
                1
            } else {
                0
            },
        ));
        assert(bits[0]@ == x % 2);
    }
}

/// The bits of the challenge in the rows are those of the scalar.
proof fn lemma_challenge_bits(rows: Seq<DoubleAdd4xTargets>, q: PointEw, e: nat, s: nat)
    requires
        rows.len() == SCHNORR_ROWS,
        forall|i: int| 0 <= i < SCHNORR_ROWS ==> #[trigger] rows[i] == chain_row(q, e, s, i as nat),
        e < pow2(319),
    ensures
        forall|i: int|
            0 <= i < 320 ==> #[trigger] challenge_bits(rows)[i] == F::of(
                if bit_of(e, i as nat) {
                    1
                } else {
                    0
                },
            ),
{
    assert forall|i: int| 0 <= i < 320 implies #[trigger] challenge_bits(rows)[i] == F::of(
        if bit_of(e, i as nat) {
            1
        } else {
            0
        },
    ) by {
        if i < 319 {
            let k = i + 1;
            let r = 79 - k / 4;
            let c = 3 - k % 4;
            assert(rows[r] == chain_row(q, e, s, r as nat));
            assert(4 * r + c == 318 - i);
            assert(rows[r].sp == selectors(e, r, false));
        } else {
            lemma_div_basics(e as int);
            vstd::arithmetic::div_mod::lemma_basic_div(e as int, pow2(319) as int);
        }
    }
}

/// A limb of the rows is a limb of the scalar.
proof fn lemma_challenge_limb(rows: Seq<DoubleAdd4xTargets>, q: PointEw, e: nat, s: nat, k: int)
    requires
        rows.len() == SCHNORR_ROWS,
        forall|i: int| 0 <= i < SCHNORR_ROWS ==> #[trigger] rows[i] == chain_row(q, e, s, i as nat),
        e < pow2(319),
        0 <= k < 5,
    ensures
        challenge_limb(rows, k) == F::of(((e / pow2((64 * k) as nat)) % pow2(64)) as int),
{
    let bits = challenge_bits(rows).subrange(64 * k, 64 * k + 64);
    lemma_challenge_bits(rows, q, e, s);
    assert forall|i: int| 0 <= i < 64 implies #[trigger] bits[i] == F::of(
        if bit_of(e, ((64 * k) as nat + i) as nat) {
            1
        } else {
            0
        },
    ) by {
        assert(bits[i] == challenge_bits(rows)[64 * k + i]);
    }
    lemma_bit_sum(bits, e, (64 * k) as nat, 64);
}

/// The limbs of the integer of a hash.
pub(crate) proof fn lemma_hash_limbs(e: Seq<F>)
    requires
        e.len() == 5,
        all_canonical(e),
    ensures
        hash_value(e) < pow2(319),
        (hash_value(e) / pow2(0)) % pow2(64) == e[0]@,
        (hash_value(e) / pow2(64)) % pow2(64) == e[1]@,
        (hash_value(e) / pow2(128)) % pow2(64) == e[2]@,
        (hash_value(e) / pow2(192)) % pow2(64) == e[3]@,
        (hash_value(e) / pow2(256)) % pow2(64) == e[4]@ % 0x4000_0000_0000_0000,
{
    assert(e[0].canonical() && e[1].canonical() && e[2].canonical() && e[3].canonical()
        && e[4].canonical());
    lemma2_to64();
    lemma_pow2_adds(64, 64);
    lemma_pow2_adds(128, 64);
    lemma_pow2_adds(192, 64);
    lemma_pow2_adds(256, 63);
    vstd::arithmetic::power2::lemma2_to64_rest();
    let b: int = 0x1_0000_0000_0000_0000;
    assert(pow2(64) == b);
    assert(pow2(128) == 0x1_0000_0000_0000_0000_0000_0000_0000_0000int);
    assert(pow2(192) == 0x1_0000_0000_0000_0000_0000_0000_0000_0000_0000_0000_0000_0000int);
    assert(pow2(256)
        == 0x1_0000_0000_0000_0000_0000_0000_0000_0000_0000_0000_0000_0000_0000_0000_0000_0000int);
    let (e0, e1, e2, e3) = (e[0]@, e[1]@, e[2]@, e[3]@);
    let e4 = e[4]@ % 0x4000_0000_0000_0000;
    let v = hash_value(e) as int;
    let v1 = e1 + e2 * b + e3 * 0x1_0000_0000_0000_0000_0000_0000_0000_0000int + e4
        * 0x1_0000_0000_0000_0000_0000_0000_0000_0000_0000_0000_0000_0000int;
    let v2 = e2 + e3 * b + e4 * 0x1_0000_0000_0000_0000_0000_0000_0000_0000int;
    let v3 = e3 + e4 * b;
    lemma_fundamental_div_mod_converse(v, b, v1, e0);
    lemma_fundamental_div_mod_converse(v1, b, v2, e1);
    lemma_fundamental_div_mod_converse(v2, b, v3, e2);
    lemma_fundamental_div_mod_converse(v3, b, e4, e3);
    lemma_div_denominator(v, b, b);
    lemma_div_denominator(v, 0x1_0000_0000_0000_0000_0000_0000_0000_0000int, b);
    lemma_div_denominator(v, 0x1_0000_0000_0000_0000_0000_0000_0000_0000_0000_0000_0000_0000int, b);
    lemma_div_basics(v);
    lemma_small_mod(e4 as nat, b as nat);
}

/// The bits in the rows of a signature match the challenge that the scalar is.
proof fn lemma_challenge_matches(
    rows: Seq<DoubleAdd4xTargets>,
    q: PointEw,
    hash: Seq<F>,
    s: nat,
)
    requires
        rows.len() == SCHNORR_ROWS,
        hash.len() == 5,
        all_canonical(hash),
        forall|i: int|
            0 <= i < SCHNORR_ROWS ==> #[trigger] rows[i] == chain_row(
                q,
                hash_value(hash),
                s,
                i as nat,
            ),
    ensures
        challenge_matches(rows, hash),
{
    let e = hash_value(hash);
    lemma_hash_limbs(hash);
    assert(hash[0].canonical() && hash[1].canonical() && hash[2].canonical()
        && hash[3].canonical() && hash[4].canonical());
    assert(challenge_limb(rows, 0) == hash[0]) by {
        lemma_challenge_limb(rows, q, e, s, 0);
        lemma_of_canonical(hash[0]);
    }
    assert(challenge_limb(rows, 1) == hash[1]) by {
        lemma_challenge_limb(rows, q, e, s, 1);
        lemma_of_canonical(hash[1]);
    }
    assert(challenge_limb(rows, 2) == hash[2]) by {
        lemma_challenge_limb(rows, q, e, s, 2);
        lemma_of_canonical(hash[2]);
    }
    assert(challenge_limb(rows, 3) == hash[3]) by {
        lemma_challenge_limb(rows, q, e, s, 3);
        lemma_of_canonical(hash[3]);
    }
    let d = hash[4] - challenge_limb(rows, 4);
    assert(d == F::of(0) || d == F::of(0x4000_0000_0000_0000) || d == F::of(0x8000_0000_0000_0000)
        || d == F::of(0xc000_0000_0000_0000)) by {
        lemma_challenge_limb(rows, q, e, s, 4);
        lemma_top_bits(hash[4]);
    }
    reveal(challenge_matches);
}

proof fn lemma_of_canonical(x: F)
    requires
        x.canonical(),
    ensures
        F::of(x@) == x,
{
    lemma_small_mod(x@ as nat, goldilocks() as nat);
}

/// An element less its low 62 bits.
proof fn lemma_top_bits(x: F)
    requires
        x.canonical(),
    ensures
        ({
            let d = x - F::of(x@ % 0x4000_0000_0000_0000);
            d == F::of(0) || d == F::of(0x4000_0000_0000_0000) || d == F::of(0x8000_0000_0000_0000)
                || d == F::of(0xc000_0000_0000_0000)
        }),
{
    let low = x@ % 0x4000_0000_0000_0000;
    lemma_small_mod(low as nat, goldilocks() as nat);
    let m = x@ / 0x4000_0000_0000_0000;
    assert(x@ == m * 0x4000_0000_0000_0000 + low && 0 <= m <= 3);
}

/// The wires computed for a signature meet its conditions: where the scalar `e`
/// is the challenge, also those of the check. The chain of rows must meet no
/// vertical line, and `Q` and the point at which the chain ends must be points of
/// the curve with a compressed form.
pub proof fn lemma_signature_satisfied<H: Fn(Vec<F>, usize) -> Vec<F>>(
    h: H,
    message: HashOutput,
    pubkey: CompressedPublicKey,
    apply_check: bool,
    t: SchnorrTargets,
    q: PointEw,
    e: nat,
    s: nat,
)
    requires
        q.canonical(),
        !q.at_inf,
        on_curve(q),
        can_encode(q),
        pubkey.0.w == compressed(q),
        can_run_chain(q, e, s),
        chain_regular(q, e, s),
        on_curve(accumulator(q, e, s, 80)),
        can_encode(accumulator(q, e, s, 80)),
        schnorr_wires(t, q, compressed(accumulator(q, e, s, 80)), e, s),
        apply_check ==> {
            let hash = squeeze(h, challenge_input(t.cr, pubkey.0.w, message.elements()), 5);
            hash.len() == 5 && all_canonical(hash) && e == hash_value(hash)
        },
    ensures
        schnorr_holds(h, message, pubkey, apply_check, t),
{
    let rows = t.da4x@;
    let end = accumulator(q, e, s, 80);
    assert forall|i: int| 0 <= i < 80 implies row_holds(#[trigger] rows[i]) by {
        lemma_chain_satisfied(q, e, s, i as nat);
    }
    lemma_chain_satisfied(q, e, s, 79);
    assert(rows_linked(t)) by {
        reveal(rows_linked);
        assert(rows[0] == chain_row(q, e, s, 0));
        assert forall|i: int| 0 <= i < 79 implies #[trigger] linked(rows, i) by {
            assert(rows[i] == chain_row(q, e, s, i as nat));
            assert(rows[i + 1] == chain_row(q, e, s, (i + 1) as nat));
            assert(accumulator(q, e, s, (i + 1) as nat) == run_of_row(q, e, s, i as nat).acco4);
        }
    }
    assert(points_compressed(t, pubkey.0.w)) by {
        reveal(points_compressed);
        assert(rows[79] == chain_row(q, e, s, 79));
        assert(end == run_of_row(q, e, s, 79).acco4);
        lemma_compressed_canonical(end);
        lemma_compressed_canonical(q);
        lemma_compression_encodes(compressed(end), end);
        lemma_compression(compressed(end), end.x, end.y);
        lemma_compression_encodes(compressed(q), q);
        lemma_compression(compressed(q), q.x, q.y);
    }
    if apply_check {
        let hash = squeeze(h, challenge_input(t.cr, pubkey.0.w, message.elements()), 5);
        lemma_challenge_matches(rows, q, hash, s);
    }
}

pub(crate) proof fn lemma_compressed_canonical(p: PointEw)
    requires
        p.canonical(),
        !p.at_inf,
        can_encode(p),
    ensures
        compressed(p).canonical(),
{
    let t = crate::ecgfp5::coeff_a_third();
    crate::quintic::lemma_of_view(
        crate::quintic_ring::Z5 { c0: 6148914689804861441, c1: 0, c2: 0, c3: 0, c4: 0 },
    );
    lemma_difference_zero(t, p.x);
    lemma_mul_canonical(t, p.x);
    lemma_quotient_times(p.y, t - p.x);
}

} // verus!
