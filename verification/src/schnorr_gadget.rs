//! Signature verification as a chain of gates: the rows of wires of a signature,
//! and the conditions that they meet.
use vstd::arithmetic::power2::pow2;
use vstd::prelude::*;

use crate::ecgfp5::{
    can_add, can_double, can_encode, chord_slope, compressed, generator_point, point_add,
    point_double, CompressedPoint, PointEw,
};
use crate::field::F;
use crate::gate_laws::{row_holds, zeros};
use crate::gates::{
    compression, offset, offset_end, offset_neg_319, offset_point, Bits, CompressionGate,
    DoubleAdd4x, DoubleAdd4xTargets, LocalPointEw,
};
use crate::hash::{hash_n_to_m, is_sponge, squeeze, HashOutput};
use crate::quintic::QuinticExtension;
use crate::scalar::Scalar;
use crate::schnorr::{append_coefficients, challenge_input, CompressedPublicKey};

verus! {

/// Number of rows of a signature: 320 steps, four in each row.
pub const SCHNORR_ROWS: usize = 80;

/// The point to which a step adds: doubled, but for the last step of the last row.
pub open spec fn step_double(acc: PointEw, keep: bool) -> PointEw {
    if keep {
        acc
    } else {
        point_double(acc)
    }
}

/// `acc + b0 p + b1 p2`, where the bits select.
pub open spec fn step_sum(acc: PointEw, p: PointEw, p2: PointEw, b0: bool, b1: bool) -> PointEw {
    if b0 {
        if b1 {
            point_add(point_add(acc, p), p2)
        } else {
            point_add(acc, p)
        }
    } else if b1 {
        point_add(acc, p2)
    } else {
        acc
    }
}

/// Whether a step meets no division by zero.
pub open spec fn can_step(
    acc: PointEw,
    p: PointEw,
    p2: PointEw,
    b0: bool,
    b1: bool,
    keep: bool,
) -> bool {
    let d = step_double(acc, keep);
    &&& !keep ==> can_double(acc)
    &&& d.x != p.x
    &&& b0 ==> can_add(d, p)
    &&& b1 ==> can_add(if b0 {
        point_add(d, p)
    } else {
        d
    }, p2)
}

/// What a step computes.
#[derive(Clone, Copy, Debug)]
pub struct Step {
    pub accdbl: PointEw,
    pub acco: PointEw,
    pub lambda: QuinticExtension,
}

/// What a step computes, in contracts.
pub open spec fn step_of(acc: PointEw, p: PointEw, p2: PointEw, b0: bool, b1: bool, keep: bool) -> Step {
    let d = step_double(acc, keep);
    Step { accdbl: d, acco: step_sum(d, p, p2, b0, b1), lambda: chord_slope(d, p) }
}

fn gate_step(acc: &PointEw, p: &PointEw, p2: &PointEw, b0: bool, b1: bool, keep: bool) -> (r: Option<
    Step,
>)
    ensures
        r is Some <==> can_step(*acc, *p, *p2, b0, b1, keep),
        r matches Some(s) ==> s == step_of(*acc, *p, *p2, b0, b1, keep),
{
    let accdbl = if keep {
        *acc
    } else {
        match acc.try_double() {
            Some(d) => d,
            None => {
                return None;
            },
        }
    };
    if accdbl.x == p.x {
        return None;
    }
    let lambda = accdbl.tangent(p);
    let mid = if b0 {
        match accdbl.try_add(p) {
            Some(m) => m,
            None => {
                return None;
            },
        }
    } else {
        accdbl
    };
    let acco = if b1 {
        match mid.try_add(p2) {
            Some(o) => o,
            None => {
                return None;
            },
        }
    } else {
        mid
    };
    Some(Step { accdbl, acco, lambda })
}

/// The points and slopes of a row.
#[derive(Clone, Copy, Debug)]
pub struct DoubleAdd4xGateWitness {
    pub accdblin: PointEw,
    pub acco1: PointEw,
    pub accdblo1: PointEw,
    pub acco2: PointEw,
    pub accdblo2: PointEw,
    pub acco3: PointEw,
    pub accdblo3: PointEw,
    pub acco4: PointEw,
    pub lambda1: QuinticExtension,
    pub lambda2: QuinticExtension,
    pub lambda3: QuinticExtension,
    pub lambda4: QuinticExtension,
}

/// The second point of the last step of a row.
pub open spec fn end_point(is_last: bool) -> PointEw {
    if is_last {
        offset_end().point()
    } else {
        generator_point()
    }
}

/// The steps of a row.
pub open spec fn row_steps(sp: Bits, sg: Bits, p: PointEw, accin: PointEw, is_last: bool) -> (
    Step,
    Step,
    Step,
    Step,
) {
    let one = F::of(1);
    let g = generator_point();
    let s1 = step_of(accin, p, g, sp.0 == one, sg.0 == one, false);
    let s2 = step_of(s1.acco, p, g, sp.1 == one, sg.1 == one, false);
    let s3 = step_of(s2.acco, p, g, sp.2 == one, sg.2 == one, false);
    let s4 = step_of(s3.acco, p, end_point(is_last), sp.3 == one, sg.3 == one, is_last);
    (s1, s2, s3, s4)
}

/// Whether no step of a row meets a division by zero.
pub open spec fn can_run(sp: Bits, sg: Bits, p: PointEw, accin: PointEw, is_last: bool) -> bool {
    let one = F::of(1);
    let g = generator_point();
    let (s1, s2, s3, s4) = row_steps(sp, sg, p, accin, is_last);
    &&& can_step(accin, p, g, sp.0 == one, sg.0 == one, false)
    &&& can_step(s1.acco, p, g, sp.1 == one, sg.1 == one, false)
    &&& can_step(s2.acco, p, g, sp.2 == one, sg.2 == one, false)
    &&& can_step(s3.acco, p, end_point(is_last), sp.3 == one, sg.3 == one, is_last)
}

/// The points and slopes of a row, in contracts.
pub open spec fn gate_run(sp: Bits, sg: Bits, p: PointEw, accin: PointEw, is_last: bool) ->
    DoubleAdd4xGateWitness {
    let (s1, s2, s3, s4) = row_steps(sp, sg, p, accin, is_last);
    DoubleAdd4xGateWitness {
        accdblin: s1.accdbl,
        acco1: s1.acco,
        accdblo1: s2.accdbl,
        acco2: s2.acco,
        accdblo2: s3.accdbl,
        acco3: s3.acco,
        accdblo3: s4.accdbl,
        acco4: s4.acco,
        lambda1: s1.lambda,
        lambda2: s2.lambda,
        lambda3: s3.lambda,
        lambda4: s4.lambda,
    }
}

fn is_set(b: F) -> (r: bool)
    ensures
        r == (b == F::of(1)),
{
    b == F::one()
}

/// Computes the points and slopes of a row from its selectors, the point `P` and
/// the accumulator; `None` where a step divides by zero.
pub fn compute_gate_witness(sp: Bits, sg: Bits, p: &PointEw, accin: &PointEw, is_last: bool) -> (r:
    Option<DoubleAdd4xGateWitness>)
    requires
        is_last ==> sp.3 == F::of(0) && sg.3 == F::of(1),
    ensures
        r is Some <==> can_run(sp, sg, *p, *accin, is_last),
        r matches Some(w) ==> w == gate_run(sp, sg, *p, *accin, is_last),
{
    let g = PointEw::generator();
    let end = if is_last {
        let e = offset_neg_319();
        PointEw { x: e.x, y: e.y, at_inf: false }
    } else {
        g
    };
    let s1 = match gate_step(accin, p, &g, is_set(sp.0), is_set(sg.0), false) {
        Some(s) => s,
        None => {
            return None;
        },
    };
    let s2 = match gate_step(&s1.acco, p, &g, is_set(sp.1), is_set(sg.1), false) {
        Some(s) => s,
        None => {
            return None;
        },
    };
    let s3 = match gate_step(&s2.acco, p, &g, is_set(sp.2), is_set(sg.2), false) {
        Some(s) => s,
        None => {
            return None;
        },
    };
    let s4 = match gate_step(&s3.acco, p, &end, is_set(sp.3), is_set(sg.3), is_last) {
        Some(s) => s,
        None => {
            return None;
        },
    };
    Some(
        DoubleAdd4xGateWitness {
            accdblin: s1.accdbl,
            acco1: s1.acco,
            accdblo1: s2.accdbl,
            acco2: s2.acco,
            accdblo2: s3.accdbl,
            acco3: s3.acco,
            accdblo3: s4.accdbl,
            acco4: s4.acco,
            lambda1: s1.lambda,
            lambda2: s2.lambda,
            lambda3: s3.lambda,
            lambda4: s4.lambda,
        },
    )
}

/// The coordinates of a point.
pub open spec fn coordinates(p: PointEw) -> LocalPointEw {
    LocalPointEw { x: p.x, y: p.y }
}

/// The wires of a row, in contracts.
pub open spec fn row_wires(
    p: PointEw,
    accin: PointEw,
    sp: Bits,
    sg: Bits,
    is_last: bool,
    w: DoubleAdd4xGateWitness,
) -> DoubleAdd4xTargets {
    DoubleAdd4xTargets {
        p: coordinates(p),
        accin: coordinates(accin),
        acco4: coordinates(w.acco4),
        sp,
        sg,
        lgs: if is_last {
            F::of(1)
        } else {
            F::of(0)
        },
        acco1: coordinates(w.acco1),
        acco2: coordinates(w.acco2),
        acco3: coordinates(w.acco3),
        accdblin: coordinates(w.accdblin),
        accdblo1: coordinates(w.accdblo1),
        accdblo2: coordinates(w.accdblo2),
        accdblo3: coordinates(w.accdblo3),
        lambda1: w.lambda1,
        lambda2: w.lambda2,
        lambda3: w.lambda3,
        lambda4: w.lambda4,
    }
}

/// The wires of a row.
pub fn set_dbladd4x_gate_witness(
    p: &PointEw,
    accin: &PointEw,
    sp: Bits,
    sg: Bits,
    lgs: bool,
    w: &DoubleAdd4xGateWitness,
) -> (r: DoubleAdd4xTargets)
    ensures
        r == row_wires(*p, *accin, sp, sg, lgs, *w),
{
    DoubleAdd4xTargets {
        p: LocalPointEw::of_point(p),
        accin: LocalPointEw::of_point(accin),
        acco4: LocalPointEw::of_point(&w.acco4),
        sp,
        sg,
        lgs: F::from_bool(lgs),
        acco1: LocalPointEw::of_point(&w.acco1),
        acco2: LocalPointEw::of_point(&w.acco2),
        acco3: LocalPointEw::of_point(&w.acco3),
        accdblin: LocalPointEw::of_point(&w.accdblin),
        accdblo1: LocalPointEw::of_point(&w.accdblo1),
        accdblo2: LocalPointEw::of_point(&w.accdblo2),
        accdblo3: LocalPointEw::of_point(&w.accdblo3),
        lambda1: w.lambda1,
        lambda2: w.lambda2,
        lambda3: w.lambda3,
        lambda4: w.lambda4,
    }
}

/// A bit of an integer.
pub open spec fn bit_of(v: nat, i: nat) -> bool {
    (v / pow2(i)) % 2 == 1
}

/// The selector of a step: the bits of the scalar from the top down, and after
/// the last one the given filler.
pub open spec fn selector(v: nat, step: int, filler: bool) -> F {
    let b = if step < 319 {
        bit_of(v, (318 - step) as nat)
    } else {
        filler
    };
    F::of(if b {
        1
    } else {
        0
    })
}

/// The selectors of a row.
pub open spec fn selectors(v: nat, row: int, filler: bool) -> Bits {
    Bits(
        selector(v, 4 * row, filler),
        selector(v, 4 * row + 1, filler),
        selector(v, 4 * row + 2, filler),
        selector(v, 4 * row + 3, filler),
    )
}

fn read_selector(bits: &[bool; 319], step: usize, filler: bool, Ghost(v): Ghost<nat>) -> (r: F)
    requires
        step < 320,
        forall|i: int| 0 <= i < 319 ==> #[trigger] bits[i] == bit_of(v, i as nat),
    ensures
        r == selector(v, step as int, filler),
{
    if step < 319 {
        F::from_bool(bits[318 - step])
    } else {
        F::from_bool(filler)
    }
}

fn read_selectors(bits: &[bool; 319], row: usize, filler: bool, Ghost(v): Ghost<nat>) -> (r: Bits)
    requires
        row < 80,
        forall|i: int| 0 <= i < 319 ==> #[trigger] bits[i] == bit_of(v, i as nat),
    ensures
        r == selectors(v, row as int, filler),
{
    Bits(
        read_selector(bits, 4 * row, filler, Ghost(v)),
        read_selector(bits, 4 * row + 1, filler, Ghost(v)),
        read_selector(bits, 4 * row + 2, filler, Ghost(v)),
        read_selector(bits, 4 * row + 3, filler, Ghost(v)),
    )
}

/// The accumulator before a row.
pub open spec fn accumulator(q: PointEw, e: nat, s: nat, row: nat) -> PointEw
    decreases row,
{
    if row == 0 {
        offset_point().point()
    } else {
        let k = (row - 1) as nat;
        run_of_row(q, e, s, k).acco4
    }
}

/// The points and slopes of a row of the chain.
pub open spec fn run_of_row(q: PointEw, e: nat, s: nat, row: nat) -> DoubleAdd4xGateWitness
    decreases row + 1,
{
    gate_run(
        selectors(e, row as int, false),
        selectors(s, row as int, true),
        q,
        if row == 0 {
            offset_point().point()
        } else {
            run_of_row(q, e, s, (row - 1) as nat).acco4
        },
        row == 79,
    )
}

/// Whether a row of the chain meets no division by zero.
pub open spec fn can_run_row(q: PointEw, e: nat, s: nat, row: nat) -> bool {
    can_run(
        selectors(e, row as int, false),
        selectors(s, row as int, true),
        q,
        accumulator(q, e, s, row),
        row == 79,
    )
}

/// Whether no row of the chain meets a division by zero.
pub open spec fn can_run_chain(q: PointEw, e: nat, s: nat) -> bool {
    forall|row: nat| row < 80 ==> #[trigger] can_run_row(q, e, s, row)
}

/// The wires of a row of the chain.
pub open spec fn chain_row(q: PointEw, e: nat, s: nat, row: nat) -> DoubleAdd4xTargets {
    row_wires(
        q,
        accumulator(q, e, s, row),
        selectors(e, row as int, false),
        selectors(s, row as int, true),
        row == 79,
        run_of_row(q, e, s, row),
    )
}

/// All wires of a signature.
pub struct SchnorrTargets {
    /// The point of the public key.
    pub q: LocalPointEw,
    /// Compressed `R`.
    pub cr: QuinticExtension,
    /// The rows.
    pub da4x: Vec<DoubleAdd4xTargets>,
}

/// Whether these are the wires of a signature with the given scalars.
pub open spec fn schnorr_wires(t: SchnorrTargets, q: PointEw, cr: QuinticExtension, e: nat, s: nat) -> bool {
    &&& t.q == coordinates(q)
    &&& t.cr == cr
    &&& t.da4x@.len() == SCHNORR_ROWS
    &&& forall|i: int| 0 <= i < SCHNORR_ROWS ==> #[trigger] t.da4x@[i] == chain_row(q, e, s, i as nat)
}

/// Whether the wires of a signature can be computed: no step divides by zero, and
/// the chain ends at a point with the given compressed form.
pub open spec fn can_set_schnorr(q: PointEw, cr: QuinticExtension, e: nat, s: nat) -> bool {
    &&& can_run_chain(q, e, s)
    &&& can_encode(accumulator(q, e, s, 80))
    &&& compressed(accumulator(q, e, s, 80)) == cr
}

/// Computes the wires of a signature: 80 rows from the bits of the two scalars.
/// `None` where a step divides by zero, or where the chain does not end at the
/// point whose compressed form is `cr`.
pub fn set_schnorr_witness(q: &PointEw, cr: &CompressedPoint, e: &Scalar, s: &Scalar) -> (r: Option<
    SchnorrTargets,
>)
    ensures
        r is Some <==> can_set_schnorr(*q, cr.w, e.value(), s.value()),
        r matches Some(t) ==> schnorr_wires(t, *q, cr.w, e.value(), s.value()),
{
    match schnorr_rows(q, e, s) {
        None => None,
        Some((rows, end)) => {
            if end.has_encoding() && end.encode().w == cr.w {
                Some(SchnorrTargets { q: LocalPointEw::of_point(q), cr: cr.w, da4x: rows })
            } else {
                None
            }
        },
    }
}

/// Computes the rows of a signature, and the point at which they end; `None` where
/// a step divides by zero.
pub fn schnorr_rows(q: &PointEw, e: &Scalar, s: &Scalar) -> (r: Option<
    (Vec<DoubleAdd4xTargets>, PointEw),
>)
    ensures
        r is Some <==> can_run_chain(*q, e.value(), s.value()),
        r matches Some(p) ==> {
            &&& p.0@.len() == SCHNORR_ROWS
            &&& forall|i: int|
                0 <= i < SCHNORR_ROWS ==> #[trigger] p.0@[i] == chain_row(
                    *q,
                    e.value(),
                    s.value(),
                    i as nat,
                )
            &&& p.1 == accumulator(*q, e.value(), s.value(), 80)
        },
{
    let ghost (ev, sv) = (e.value(), s.value());
    let e_bits = e.to_bit_arr();
    let s_bits = s.to_bit_arr();
    let start = offset();
    let mut accin = PointEw { x: start.x, y: start.y, at_inf: false };
    let mut rows: Vec<DoubleAdd4xTargets> = Vec::new();
    let mut i: usize = 0;
    while i < SCHNORR_ROWS
        invariant
            i <= SCHNORR_ROWS,
            ev == e.value(),
            sv == s.value(),
            forall|row: nat| row < i ==> #[trigger] can_run_row(*q, ev, sv, row),
            forall|j: int| 0 <= j < 319 ==> #[trigger] e_bits[j] == bit_of(ev, j as nat),
            forall|j: int| 0 <= j < 319 ==> #[trigger] s_bits[j] == bit_of(sv, j as nat),
            accin == accumulator(*q, ev, sv, i as nat),
            rows@.len() == i,
            forall|j: int| 0 <= j < i ==> #[trigger] rows@[j] == chain_row(*q, ev, sv, j as nat),
        decreases SCHNORR_ROWS - i,
    {
        let sp = read_selectors(&e_bits, i, false, Ghost(ev));
        let sg = read_selectors(&s_bits, i, true, Ghost(sv));
        let w = match compute_gate_witness(sp, sg, q, &accin, i == 79) {
            Some(w) => w,
            None => {
                assert(!can_run_row(*q, ev, sv, i as nat));
                return None;
            },
        };
        proof {
            assert(can_run_row(*q, ev, sv, i as nat));
            assert(w == run_of_row(*q, ev, sv, i as nat));
        }
        rows.push(set_dbladd4x_gate_witness(q, &accin, sp, sg, i == 79, &w));
        accin = w.acco4;
        i += 1;
    }
    Some((rows, accin))
}

/// The bits of the challenge as the rows hold them, least significant first, and
/// a zero on top.
pub open spec fn challenge_bits(rows: Seq<DoubleAdd4xTargets>) -> Seq<F> {
    Seq::new(
        320,
        |i: int|
            if i < 319 {
                let k = i + 1;
                let r = rows[79 - k / 4];
                let c = 3 - k % 4;
                if c == 0 {
                    r.sp.0
                } else if c == 1 {
                    r.sp.1
                } else if c == 2 {
                    r.sp.2
                } else {
                    r.sp.3
                }
            } else {
                F::of(0)
            },
    )
}

/// The integer that elements spell as bits, least significant first.
pub open spec fn bit_sum(bits: Seq<F>) -> int
    decreases bits.len(),
{
    if bits.len() == 0 {
        0
    } else {
        bits[0]@ + 2 * bit_sum(bits.drop_first())
    }
}

/// A 64-bit limb of the challenge as the rows hold it.
pub open spec fn challenge_limb(rows: Seq<DoubleAdd4xTargets>, k: int) -> F {
    F::of(bit_sum(challenge_bits(rows).subrange(64 * k, 64 * k + 64)))
}

/// Whether the bits of the rows are those of the challenge: limb by limb, and up
/// to the top two bits of the last one.
#[verifier::opaque]
pub open spec fn challenge_matches(rows: Seq<DoubleAdd4xTargets>, hash: Seq<F>) -> bool {
    let d = hash[4] - challenge_limb(rows, 4);
    &&& challenge_limb(rows, 0) == hash[0]
    &&& challenge_limb(rows, 1) == hash[1]
    &&& challenge_limb(rows, 2) == hash[2]
    &&& challenge_limb(rows, 3) == hash[3]
    &&& d == F::of(0) || d == F::of(0x4000_0000_0000_0000) || d == F::of(0x8000_0000_0000_0000)
        || d == F::of(0xc000_0000_0000_0000)
}

/// Whether a row ends where the next one starts.
pub open spec fn linked(rows: Seq<DoubleAdd4xTargets>, i: int) -> bool {
    rows[i].acco4 == rows[i + 1].accin
}

/// Whether the rows are linked: each starts where the one before ends, the first
/// one at the offset, and all add the same point.
#[verifier::opaque]
pub open spec fn rows_linked(t: SchnorrTargets) -> bool {
    let rows = t.da4x@;
    &&& rows[0].accin == offset_point()
    &&& forall|i: int| 0 <= i < 79 ==> #[trigger] linked(rows, i)
    &&& forall|i: int| 0 <= i < 80 ==> (#[trigger] rows[i]).p == t.q
}

/// Whether the compressed forms of a signature are those of its points.
#[verifier::opaque]
pub open spec fn points_compressed(t: SchnorrTargets, key: QuinticExtension) -> bool {
    let end = t.da4x@[79].acco4;
    &&& zeros(compression(t.cr, end.x, end.y, F::of(1)))
    &&& zeros(compression(key, t.q.x, t.q.y, F::of(1)))
}

/// The conditions of a signature. The gates, the links, and the compressed forms
/// of `R` and of the public key are always required; that the bits are those of
/// the challenge only where the check applies.
pub open spec fn schnorr_holds<H: Fn(Vec<F>, usize) -> Vec<F>>(
    h: H,
    message: HashOutput,
    pubkey: CompressedPublicKey,
    apply_check: bool,
    t: SchnorrTargets,
) -> bool {
    let rows = t.da4x@;
    &&& rows.len() == SCHNORR_ROWS
    &&& forall|i: int| 0 <= i < 80 ==> row_holds(#[trigger] rows[i])
    &&& rows_linked(t)
    &&& points_compressed(t, pubkey.0.w)
    &&& apply_check ==> challenge_matches(
        rows,
        squeeze(h, challenge_input(t.cr, pubkey.0.w, message.elements()), 5),
    )
}

fn all_zero(c: &Vec<F>) -> (r: bool)
    ensures
        r == zeros(c@),
{
    let mut i: usize = 0;
    while i < c.len()
        invariant
            i <= c@.len(),
            forall|j: int| 0 <= j < i ==> #[trigger] c@[j] == F::of(0),
        decreases c@.len() - i,
    {
        if c[i] != F::zero() {
            return false;
        }
        i += 1;
    }
    true
}

fn check_rows(rows: &Vec<DoubleAdd4xTargets>) -> (r: bool)
    ensures
        r == (forall|i: int| 0 <= i < rows@.len() ==> row_holds(#[trigger] rows@[i])),
{
    let gate = DoubleAdd4x::new();
    let mut i: usize = 0;
    while i < rows.len()
        invariant
            i <= rows@.len(),
            forall|j: int| 0 <= j < i ==> row_holds(#[trigger] rows@[j]),
        decreases rows@.len() - i,
    {
        reveal(row_holds);
        let wires = rows[i].to_row();
        let c = gate.eval_unfiltered(wires.as_slice());
        if !all_zero(&c) {
            assert(!row_holds(rows@[i as int]));
            return false;
        }
        i += 1;
    }
    true
}

fn check_links(t: &SchnorrTargets) -> (r: bool)
    requires
        t.da4x@.len() == SCHNORR_ROWS,
    ensures
        r == rows_linked(*t),
{
    reveal(rows_linked);
    if t.da4x[0].accin != offset() || t.da4x[79].p != t.q {
        return false;
    }
    let mut i: usize = 0;
    while i < 79
        invariant
            i <= 79,
            t.da4x@.len() == SCHNORR_ROWS,
            t.da4x@[0].accin == offset_point(),
            t.da4x@[79].p == t.q,
            forall|j: int| 0 <= j < i ==> #[trigger] linked(t.da4x@, j),
            forall|j: int| 0 <= j < i ==> (#[trigger] t.da4x@[j]).p == t.q,
        decreases 79 - i,
    {
        let same = t.da4x[i].acco4 == t.da4x[i + 1].accin;
        assert(same == linked(t.da4x@, i as int));
        if !same || t.da4x[i].p != t.q {
            assert(!rows_linked(*t)) by {
                reveal(rows_linked);
            }
            return false;
        }
        i += 1;
    }
    true
}

fn challenge_bit(rows: &Vec<DoubleAdd4xTargets>, i: usize) -> (r: F)
    requires
        rows@.len() == SCHNORR_ROWS,
        i < 320,
    ensures
        r == challenge_bits(rows@)[i as int],
{
    if i == 319 {
        return F::zero();
    }
    let k: usize = i + 1;
    let row = rows[79 - k / 4];
    let c: usize = 3 - k % 4;
    if c == 0 {
        row.sp.0
    } else if c == 1 {
        row.sp.1
    } else if c == 2 {
        row.sp.2
    } else {
        row.sp.3
    }
}

/// The sum of the bits from a position on, from the top one down.
fn limb_of_bits(rows: &Vec<DoubleAdd4xTargets>, k: usize) -> (r: F)
    requires
        rows@.len() == SCHNORR_ROWS,
        k < 5,
    ensures
        r == challenge_limb(rows@, k as int),
{
    let ghost bits = challenge_bits(rows@).subrange(64 * k as int, 64 * k + 64);
    let mut sum = F::zero();
    let mut n: usize = 64;
    while n > 0
        invariant
            n <= 64,
            k < 5,
            rows@.len() == SCHNORR_ROWS,
            bits == challenge_bits(rows@).subrange(64 * k as int, 64 * k + 64),
            sum == F::of(bit_sum(bits.skip(n as int))),
        decreases n,
    {
        n -= 1;
        let b = challenge_bit(rows, 64 * k + n);
        let ghost before = bits.skip(n + 1);
        proof {
            assert(bits.skip(n as int).drop_first() =~= before);
            assert(bits.skip(n as int)[0] == b);
            lemma_double_and_add(b, bit_sum(before));
        }
        sum = b + (sum + sum);
    }
    assert(bits.skip(0) =~= bits);
    sum
}

/// `b + 2 x` in the field.
proof fn lemma_double_and_add(b: F, x: int)
    ensures
        b + (F::of(x) + F::of(x)) == F::of(b@ + 2 * x),
{
    let p = crate::primes::goldilocks();
    let v = F::of(x);
    vstd::arithmetic::div_mod::lemma_mod_twice(x, p);
    crate::arith::lemma_cong_add(v@, x, v@, x, p);
    vstd::arithmetic::div_mod::lemma_mod_twice(x + x, p);
    crate::arith::lemma_cong_add(b@, b@, (v@ + v@) % p, x + x, p);
    assert(b@ + (x + x) == b@ + 2 * x);
}

fn check_challenge(rows: &Vec<DoubleAdd4xTargets>, hash: &Vec<F>) -> (r: bool)
    requires
        rows@.len() == SCHNORR_ROWS,
        hash@.len() == 5,
    ensures
        r == challenge_matches(rows@, hash@),
{
    reveal(challenge_matches);
    if limb_of_bits(rows, 0) != hash[0] || limb_of_bits(rows, 1) != hash[1] || limb_of_bits(rows, 2)
        != hash[2] || limb_of_bits(rows, 3) != hash[3] {
        return false;
    }
    let d = hash[4] - limb_of_bits(rows, 4);
    d == F::zero() || d == F::from_canonical_u64(0x4000_0000_0000_0000) || d
        == F::from_canonical_u64(0x8000_0000_0000_0000) || d == F::from_canonical_u64(
        0xc000_0000_0000_0000,
    )
}

fn check_compression(w: &QuinticExtension, p: &LocalPointEw) -> (r: bool)
    ensures
        r == zeros(compression(*w, p.x, p.y, F::of(1))),
{
    let gate = CompressionGate { num_ops: 1 };
    let mut wires: Vec<F> = Vec::new();
    append_coefficients(w, &mut wires);
    append_coefficients(&p.x, &mut wires);
    append_coefficients(&p.y, &mut wires);
    wires.push(F::one());
    let c = gate.eval_unfiltered(wires.as_slice());
    proof {
        reveal_with_fuel(crate::gates::compressions, 2);
        assert(crate::gates::extension_at(wires@, 0) == *w);
        assert(crate::gates::extension_at(wires@, 5) == p.x);
        assert(crate::gates::extension_at(wires@, 10) == p.y);
        assert(crate::gates::compressions(wires@, 0) + compression(*w, p.x, p.y, F::of(1))
            =~= compression(*w, p.x, p.y, F::of(1)));
    }
    all_zero(&c)
}

fn check_points(t: &SchnorrTargets, key: &QuinticExtension) -> (r: bool)
    requires
        t.da4x@.len() == SCHNORR_ROWS,
    ensures
        r == points_compressed(*t, *key),
{
    reveal(points_compressed);
    check_compression(&t.cr, &t.da4x[79].acco4) && check_compression(key, &t.q)
}

/// Whether wires meet the conditions of a signature: `R = s*G + e*Q` by the
/// gates, where `e` is the hash of `R`, `Q` and the message without its top two
/// bits if the check applies.
pub fn conditional_schnorr_verify_gadget<H: Fn(Vec<F>, usize) -> Vec<F>>(
    h: &H,
    message: &HashOutput,
    pubkey: &CompressedPublicKey,
    apply_check: bool,
    t: &SchnorrTargets,
) -> (r: bool)
    requires
        is_sponge(*h),
    ensures
        r == schnorr_holds(*h, *message, *pubkey, apply_check, *t),
{
    if t.da4x.len() != SCHNORR_ROWS {
        return false;
    }
    if !check_rows(&t.da4x) || !check_links(t) {
        return false;
    }
    if !check_points(t, &pubkey.0.w) {
        return false;
    }
    if !apply_check {
        return true;
    }
    let mut input: Vec<F> = Vec::new();
    append_coefficients(&t.cr, &mut input);
    append_coefficients(&pubkey.0.w, &mut input);
    message.append_to(&mut input);
    assert(input@ == challenge_input(t.cr, pubkey.0.w, message.elements()));
    let hash = hash_n_to_m(h, input, 5);
    check_challenge(&t.da4x, &hash)
}

} // verus!
