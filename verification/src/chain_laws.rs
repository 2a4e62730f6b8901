//! What the chain of gates of a signature computes: `s*G + e*Q`.
//!
//! The chain starts at an offset, so that no step meets the point at infinity. Each
//! step doubles and adds what the selectors select; the last one takes the offset,
//! doubled out, away again.
use vstd::arithmetic::power2::{lemma2_to64, lemma_pow2_adds, pow2};
use vstd::prelude::*;

use crate::associativity::lemma_curve_assoc;
use crate::curve_group::{
    belongs, curve_sum, lemma_curve_sum_belongs, lemma_curve_sum_cancel, lemma_curve_sum_comm,
    lemma_curve_sum_is,
};
use crate::ecgfp5::{
    can_double, chord_sum, generator_point, infinity, point_add, point_double, PointEw,
};
use crate::field::F;
use crate::gate_laws::{
    is_bit, last_point, lemma_row, regular, row_computes, row_holds, row_regular, selected, step_holds,
};
use crate::gates::{generator_coordinates, Bits, offset_end, offset_point, DoubleAdd4xTargets};
use crate::generator_order::lemma_generator_proper;
use crate::multiples::{
    curve_times, lemma_curve_times_add, lemma_curve_times_belongs, lemma_group_times,
};
use crate::offset_order::{lemma_offset_end, lemma_offset_proper, start};
use crate::schnorr_gadget::{can_run, can_step, gate_run, row_steps, row_wires, step_of};
use crate::schnorr_gadget_laws::lemma_row_satisfied;

verus! {

/// Two sums added, term by term.
proof fn lemma_interchange(a: PointEw, b: PointEw, c: PointEw, d: PointEw)
    requires
        belongs(a),
        belongs(b),
        belongs(c),
        belongs(d),
    ensures
        curve_sum(curve_sum(a, b), curve_sum(c, d)) == curve_sum(curve_sum(a, c), curve_sum(b, d)),
{
    lemma_curve_sum_belongs(c, d);
    lemma_curve_sum_belongs(b, d);
    lemma_curve_sum_belongs(b, c);
    lemma_curve_assoc(a, b, curve_sum(c, d));
    lemma_curve_assoc(b, c, d);
    lemma_curve_sum_comm(b, c);
    lemma_curve_assoc(c, b, d);
    lemma_curve_assoc(a, c, curve_sum(b, d));
}

/// The last two terms of a sum swapped.
proof fn lemma_swap_last(a: PointEw, b: PointEw, c: PointEw)
    requires
        belongs(a),
        belongs(b),
        belongs(c),
    ensures
        curve_sum(curve_sum(a, b), c) == curve_sum(curve_sum(a, c), b),
{
    lemma_curve_assoc(a, b, c);
    lemma_curve_sum_comm(b, c);
    lemma_curve_assoc(a, c, b);
}

/// What an accumulator is that starts at `o`: `m` times `o`, `a` times `Q` and `b`
/// times the generator.
pub open spec fn mixed(o: PointEw, m: nat, q: PointEw, a: nat, b: nat) -> PointEw {
    curve_sum(curve_sum(curve_times(o, m), curve_times(q, a)), curve_times(generator_point(), b))
}

pub(crate) proof fn lemma_mixed_belongs(o: PointEw, m: nat, q: PointEw, a: nat, b: nat)
    requires
        belongs(o),
        belongs(q),
    ensures
        belongs(curve_times(o, m)),
        belongs(curve_times(q, a)),
        belongs(curve_times(generator_point(), b)),
        belongs(curve_sum(curve_times(o, m), curve_times(q, a))),
        belongs(mixed(o, m, q, a, b)),
{
    let g = generator_point();
    lemma_generator_proper();
    lemma_curve_times_belongs(o, m);
    lemma_curve_times_belongs(q, a);
    lemma_curve_times_belongs(g, b);
    lemma_curve_sum_belongs(curve_times(o, m), curve_times(q, a));
    lemma_curve_sum_belongs(curve_sum(curve_times(o, m), curve_times(q, a)), curve_times(g, b));
}

/// The accumulator doubled.
proof fn lemma_mixed_double(o: PointEw, m: nat, q: PointEw, a: nat, b: nat)
    requires
        belongs(o),
        belongs(q),
    ensures
        curve_sum(mixed(o, m, q, a, b), mixed(o, m, q, a, b)) == mixed(
            o,
            2 * m,
            q,
            2 * a,
            2 * b,
        ),
{
    let g = generator_point();
    let (s, x, y) = (curve_times(o, m), curve_times(q, a), curve_times(g, b));
    lemma_mixed_belongs(o, m, q, a, b);
    lemma_generator_proper();
    lemma_interchange(curve_sum(s, x), y, curve_sum(s, x), y);
    lemma_interchange(s, x, s, x);
    lemma_curve_times_add(o, m, m);
    lemma_curve_times_add(q, a, a);
    lemma_curve_times_add(g, b, b);
}

/// `Q` added to the accumulator.
proof fn lemma_mixed_add_key(o: PointEw, m: nat, q: PointEw, a: nat, b: nat)
    requires
        belongs(o),
        belongs(q),
    ensures
        curve_sum(mixed(o, m, q, a, b), q) == mixed(o, m, q, a + 1, b),
{
    let (s, x, y) = (curve_times(o, m), curve_times(q, a), curve_times(generator_point(), b));
    lemma_mixed_belongs(o, m, q, a, b);
    lemma_swap_last(curve_sum(s, x), y, q);
    lemma_curve_assoc(s, x, q);
}

/// The generator added to the accumulator.
proof fn lemma_mixed_add_generator(o: PointEw, m: nat, q: PointEw, a: nat, b: nat)
    requires
        belongs(o),
        belongs(q),
    ensures
        curve_sum(mixed(o, m, q, a, b), generator_point()) == mixed(o, m, q, a, b + 1),
{
    let (s, x, y) = (curve_times(o, m), curve_times(q, a), curve_times(generator_point(), b));
    lemma_mixed_belongs(o, m, q, a, b);
    lemma_generator_proper();
    lemma_curve_assoc(curve_sum(s, x), y, generator_point());
}

/// An accumulator at its start.
pub(crate) proof fn lemma_mixed_start(o: PointEw, q: PointEw)
    requires
        belongs(o),
    ensures
        mixed(o, 1, q, 0, 0) == o,
{
    assert(curve_times(o, 0) == infinity());
    assert(curve_times(o, 1) == o);
    assert(curve_times(q, 0) == infinity());
    assert(curve_times(generator_point(), 0) == infinity());
}

/// The integer of a selector.
pub open spec fn unit(b: F) -> nat {
    if b == F::of(1) {
        1
    } else {
        0
    }
}

/// What is added to a doubled accumulator without meeting a vertical line.
proof fn lemma_selected(
    o: PointEw,
    m: nat,
    q: PointEw,
    a: nat,
    b: nat,
    d: PointEw,
    b0: bool,
    b1: bool,
)
    requires
        belongs(o),
        belongs(q),
        !q.at_inf,
        d == mixed(o, m, q, a, b),
        !d.at_inf,
        regular(d, q, generator_point(), b0, b1),
    ensures
        selected(d, q, generator_point(), b0, b1) == mixed(
            o,
            m,
            q,
            a + (if b0 { 1nat } else { 0 }),
            b + (if b1 { 1nat } else { 0 }),
        ),
{
    let g = generator_point();
    assert(!g.at_inf);
    lemma_mixed_add_key(o, m, q, a, b);
    lemma_mixed_add_generator(o, m, q, a, b);
    lemma_mixed_add_generator(o, m, q, a + 1, b);
    if b0 {
        assert(curve_sum(d, q) == chord_sum(d, q));
        if b1 {
            assert(curve_sum(chord_sum(d, q), g) == chord_sum(chord_sum(d, q), g));
        }
    } else if b1 {
        assert(curve_sum(d, g) == chord_sum(d, g));
    }
}

/// A step of a row: the accumulator is doubled, and what the selectors select is
/// added.
proof fn lemma_step_adds(
    o: PointEw,
    m: nat,
    q: PointEw,
    a: nat,
    b: nat,
    acc: PointEw,
    sp: F,
    sg: F,
)
    requires
        belongs(o),
        belongs(q),
        !q.at_inf,
        !acc.at_inf,
        can_double(acc),
        acc == mixed(o, m, q, a, b),
        regular(point_double(acc), q, generator_point(), sp == F::of(1), sg == F::of(1)),
    ensures
        selected(point_double(acc), q, generator_point(), sp == F::of(1), sg == F::of(1)) == mixed(
            o,
            2 * m,
            q,
            2 * a + unit(sp),
            2 * b + unit(sg),
        ),
{
    lemma_mixed_double(o, m, q, a, b);
    assert(curve_sum(acc, acc) == point_double(acc));
    lemma_selected(
        o,
        2 * m,
        q,
        2 * a,
        2 * b,
        point_double(acc),
        sp == F::of(1),
        sg == F::of(1),
    );
}

/// The first three steps of a row.
proof fn lemma_three_steps(t: DoubleAdd4xTargets, o: PointEw, m: nat, a: nat, b: nat)
    requires
        belongs(o),
        row_computes(t),
        row_regular(t),
        belongs(t.p.point()),
        t.accin.point() == mixed(o, m, t.p.point(), a, b),
    ensures
        t.acco3.point() == mixed(
            o,
            8 * m,
            t.p.point(),
            2 * (2 * (2 * a + unit(t.sp.0)) + unit(t.sp.1)) + unit(t.sp.2),
            2 * (2 * (2 * b + unit(t.sg.0)) + unit(t.sg.1)) + unit(t.sg.2),
        ),
{
    let q = t.p.point();
    assert(generator_coordinates().point() == generator_point());
    let (a1, b1) = (2 * a + unit(t.sp.0), 2 * b + unit(t.sg.0));
    let (a2, b2) = (2 * a1 + unit(t.sp.1), 2 * b1 + unit(t.sg.1));
    lemma_step_adds(o, m, q, a, b, t.accin.point(), t.sp.0, t.sg.0);
    lemma_step_adds(o, 2 * m, q, a1, b1, t.acco1.point(), t.sp.1, t.sg.1);
    lemma_step_adds(o, 2 * (2 * m), q, a2, b2, t.acco2.point(), t.sp.2, t.sg.2);
    assert(2 * (2 * (2 * m)) == 8 * m);
}

/// A row but the last one: four steps.
proof fn lemma_row_adds(t: DoubleAdd4xTargets, o: PointEw, m: nat, a: nat, b: nat)
    requires
        belongs(o),
        row_computes(t),
        row_regular(t),
        t.lgs != F::of(1),
        belongs(t.p.point()),
        t.accin.point() == mixed(o, m, t.p.point(), a, b),
    ensures
        t.acco4.point() == mixed(
            o,
            16 * m,
            t.p.point(),
            2 * (2 * (2 * (2 * a + unit(t.sp.0)) + unit(t.sp.1)) + unit(t.sp.2)) + unit(t.sp.3),
            2 * (2 * (2 * (2 * b + unit(t.sg.0)) + unit(t.sg.1)) + unit(t.sg.2)) + unit(t.sg.3),
        ),
{
    let q = t.p.point();
    assert(generator_coordinates().point() == generator_point());
    let a3 = 2 * (2 * (2 * a + unit(t.sp.0)) + unit(t.sp.1)) + unit(t.sp.2);
    let b3 = 2 * (2 * (2 * b + unit(t.sg.0)) + unit(t.sg.1)) + unit(t.sg.2);
    lemma_three_steps(t, o, m, a, b);
    lemma_step_adds(o, 8 * m, q, a3, b3, t.acco3.point(), t.sp.3, t.sg.3);
    assert(2 * (8 * m) == 16 * m);
}

/// A step on points: the accumulator is doubled, and what the selectors select is
/// added.
proof fn lemma_step_sums(
    o: PointEw,
    m: nat,
    q: PointEw,
    a: nat,
    b: nat,
    acc: PointEw,
    sp: F,
    sg: F,
)
    requires
        belongs(o),
        belongs(q),
        acc == mixed(o, m, q, a, b),
        can_step(acc, q, generator_point(), sp == F::of(1), sg == F::of(1), false),
    ensures
        step_of(acc, q, generator_point(), sp == F::of(1), sg == F::of(1), false).acco == mixed(
            o,
            2 * m,
            q,
            2 * a + unit(sp),
            2 * b + unit(sg),
        ),
{
    let g = generator_point();
    let d = point_double(acc);
    lemma_mixed_belongs(o, m, q, a, b);
    assert(!acc.at_inf);
    lemma_mixed_double(o, m, q, a, b);
    assert(curve_sum(acc, acc) == d);
    lemma_mixed_belongs(o, 2 * m, q, 2 * a, 2 * b);
    lemma_mixed_add_key(o, 2 * m, q, 2 * a, 2 * b);
    lemma_generator_proper();
    let (b0, b1) = (sp == F::of(1), sg == F::of(1));
    if b0 {
        lemma_curve_sum_is(d, q);
        lemma_mixed_belongs(o, 2 * m, q, 2 * a + 1, 2 * b);
        lemma_mixed_add_generator(o, 2 * m, q, 2 * a + 1, 2 * b);
        if b1 {
            lemma_curve_sum_is(point_add(d, q), g);
        }
    } else if b1 {
        lemma_mixed_add_generator(o, 2 * m, q, 2 * a, 2 * b);
        lemma_curve_sum_is(d, g);
    }
}

/// The steps of a row on points: the first three, and the fourth of a row that is not
/// the last one.
pub(crate) proof fn lemma_run_adds(
    sp: Bits,
    sg: Bits,
    p: PointEw,
    accin: PointEw,
    is_last: bool,
    o: PointEw,
    m: nat,
    a: nat,
    b: nat,
)
    requires
        belongs(o),
        belongs(p),
        accin == mixed(o, m, p, a, b),
        can_run(sp, sg, p, accin, is_last),
    ensures
        gate_run(sp, sg, p, accin, is_last).acco3 == mixed(
            o,
            8 * m,
            p,
            2 * (2 * (2 * a + unit(sp.0)) + unit(sp.1)) + unit(sp.2),
            2 * (2 * (2 * b + unit(sg.0)) + unit(sg.1)) + unit(sg.2),
        ),
        !is_last ==> gate_run(sp, sg, p, accin, is_last).acco4 == mixed(
            o,
            16 * m,
            p,
            2 * (2 * (2 * (2 * a + unit(sp.0)) + unit(sp.1)) + unit(sp.2)) + unit(sp.3),
            2 * (2 * (2 * (2 * b + unit(sg.0)) + unit(sg.1)) + unit(sg.2)) + unit(sg.3),
        ),
{
    let (s1, s2, s3, s4) = row_steps(sp, sg, p, accin, is_last);
    let (a1, b1) = (2 * a + unit(sp.0), 2 * b + unit(sg.0));
    let (a2, b2) = (2 * a1 + unit(sp.1), 2 * b1 + unit(sg.1));
    let (a3, b3) = (2 * a2 + unit(sp.2), 2 * b2 + unit(sg.2));
    lemma_step_sums(o, m, p, a, b, accin, sp.0, sg.0);
    lemma_step_sums(o, 2 * m, p, a1, b1, s1.acco, sp.1, sg.1);
    lemma_step_sums(o, 2 * (2 * m), p, a2, b2, s2.acco, sp.2, sg.2);
    assert(2 * (2 * (2 * m)) == 8 * m);
    if !is_last {
        lemma_step_sums(o, 8 * m, p, a3, b3, s3.acco, sp.3, sg.3);
        assert(2 * (8 * m) == 16 * m);
    }
}

/// What a row computes of any two points of the curve, where it meets no division by
/// zero: sixteen times the accumulator, and `P` and the generator as often as the
/// selectors spell.
/// Where it meets no vertical line either, its wires satisfy the constraints.
pub proof fn lemma_gate_run(sp: Bits, sg: Bits, p: PointEw, accin: PointEw)
    requires
        belongs(p),
        belongs(accin),
        can_run(sp, sg, p, accin, false),
    ensures
        gate_run(sp, sg, p, accin, false).acco4 == curve_sum(
            curve_sum(
                curve_times(accin, 16),
                curve_times(p, 8 * unit(sp.0) + 4 * unit(sp.1) + 2 * unit(sp.2) + unit(sp.3)),
            ),
            curve_times(
                generator_point(),
                8 * unit(sg.0) + 4 * unit(sg.1) + 2 * unit(sg.2) + unit(sg.3),
            ),
        ),
        ({
            let t = row_wires(p, accin, sp, sg, false, gate_run(sp, sg, p, accin, false));
            !p.at_inf && is_bit(sp.0) && is_bit(sp.1) && is_bit(sp.2) && is_bit(sp.3) && is_bit(
                sg.0,
            ) && is_bit(sg.1) && is_bit(sg.2) && is_bit(sg.3) && row_regular(t) ==> row_holds(t)
        }),
{
    let t = row_wires(p, accin, sp, sg, false, gate_run(sp, sg, p, accin, false));
    lemma_mixed_start(accin, p);
    lemma_run_adds(sp, sg, p, accin, false, accin, 1, 0, 0);
    assert(!accin.at_inf);
    if !p.at_inf && is_bit(sp.0) && is_bit(sp.1) && is_bit(sp.2) && is_bit(sp.3) && is_bit(sg.0)
        && is_bit(sg.1) && is_bit(sg.2) && is_bit(sg.3) && row_regular(t) {
        lemma_row_satisfied(sp, sg, p, accin, false);
    }
}

/// What a row that is marked as the last one computes of any two points of the curve,
/// where it meets no division by zero: eight times the accumulator, `P` and the
/// generator as often as the first three selectors spell, and the end of the offset.
/// Where it meets no vertical line either, its wires satisfy the constraints.
pub proof fn lemma_last_gate_run(sp: Bits, sg: Bits, p: PointEw, accin: PointEw)
    requires
        belongs(p),
        belongs(accin),
        can_run(sp, sg, p, accin, true),
        sp.3 == F::of(0),
        sg.3 == F::of(1),
    ensures
        gate_run(sp, sg, p, accin, true).acco4 == curve_sum(
            curve_sum(
                curve_sum(
                    curve_times(accin, 8),
                    curve_times(p, 4 * unit(sp.0) + 2 * unit(sp.1) + unit(sp.2)),
                ),
                curve_times(generator_point(), 4 * unit(sg.0) + 2 * unit(sg.1) + unit(sg.2)),
            ),
            offset_end().point(),
        ),
        ({
            let t = row_wires(p, accin, sp, sg, true, gate_run(sp, sg, p, accin, true));
            !p.at_inf && is_bit(sp.0) && is_bit(sp.1) && is_bit(sp.2) && is_bit(sg.0) && is_bit(
                sg.1,
            ) && is_bit(sg.2) && row_regular(t) ==> row_holds(t)
        }),
{
    let t = row_wires(p, accin, sp, sg, true, gate_run(sp, sg, p, accin, true));
    let (a, b) = (
        4 * unit(sp.0) + 2 * unit(sp.1) + unit(sp.2),
        4 * unit(sg.0) + 2 * unit(sg.1) + unit(sg.2),
    );
    lemma_mixed_start(accin, p);
    lemma_run_adds(sp, sg, p, accin, true, accin, 1, 0, 0);
    lemma_mixed_belongs(accin, 8, p, a, b);
    lemma_offset_end();
    lemma_offset_proper();
    lemma_curve_sum_is(mixed(accin, 8, p, a, b), offset_end().point());
    assert(F::of(0) != F::of(1));
    assert(!accin.at_inf);
    if !p.at_inf && is_bit(sp.0) && is_bit(sp.1) && is_bit(sp.2) && is_bit(sg.0) && is_bit(sg.1)
        && is_bit(sg.2) && row_regular(t) {
        lemma_row_satisfied(sp, sg, p, accin, true);
    }
}

/// The last row of a chain on points: the offset is gone.
pub(crate) proof fn lemma_last_run_adds(
    sp: Bits,
    sg: Bits,
    p: PointEw,
    accin: PointEw,
    a: nat,
    b: nat,
)
    requires
        belongs(p),
        accin == mixed(start(), pow2(316), p, a, b),
        can_run(sp, sg, p, accin, true),
        sp.3 == F::of(0),
        sg.3 == F::of(1),
    ensures
        gate_run(sp, sg, p, accin, true).acco4 == curve_sum(
            curve_times(
                generator_point(),
                2 * (2 * (2 * b + unit(sg.0)) + unit(sg.1)) + unit(sg.2),
            ),
            curve_times(p, 2 * (2 * (2 * a + unit(sp.0)) + unit(sp.1)) + unit(sp.2)),
        ),
{
    let a3 = 2 * (2 * (2 * a + unit(sp.0)) + unit(sp.1)) + unit(sp.2);
    let b3 = 2 * (2 * (2 * b + unit(sg.0)) + unit(sg.1)) + unit(sg.2);
    lemma_offset_proper();
    lemma_run_adds(sp, sg, p, accin, true, start(), pow2(316), a, b);
    lemma_pow2_adds(316, 3);
    lemma2_to64();
    assert(8 * pow2(316) == pow2(319)) by (nonlinear_arith)
        requires
            pow2(319) == pow2(316) * 8,
    ;
    assert(F::of(0) != F::of(1));
    lemma_offset_gone(p, a3, b3);
}

/// The end of the offset takes the offset away.
proof fn lemma_offset_gone(q: PointEw, a: nat, b: nat)
    requires
        belongs(q),
    ensures
        curve_sum(mixed(start(), pow2(319), q, a, b), offset_end().point()) == curve_sum(
            curve_times(generator_point(), b),
            curve_times(q, a),
        ),
{
    lemma_offset_proper();
    lemma_offset_end();
    lemma_group_times(start(), pow2(319));
    lemma_mixed_belongs(start(), pow2(319), q, a, b);
    let (s, x, y) = (curve_times(start(), pow2(319)), curve_times(q, a), curve_times(generator_point(), b));
    lemma_curve_sum_belongs(x, y);
    lemma_curve_assoc(s, x, y);
    lemma_curve_sum_comm(s, curve_sum(x, y));
    lemma_curve_sum_cancel(curve_sum(x, y), s);
    lemma_curve_sum_comm(x, y);
}

/// Whether a row is marked as the last one: the fourth step adds the end of the
/// offset and nothing else.
pub open spec fn marked_last(t: DoubleAdd4xTargets) -> bool {
    t.lgs == F::of(1) && t.sp.3 == F::of(0) && t.sg.3 == F::of(1)
}

/// The last row: three steps, and the offset is gone.
proof fn lemma_last_row_adds(t: DoubleAdd4xTargets, a: nat, b: nat)
    requires
        row_computes(t),
        row_regular(t),
        marked_last(t),
        belongs(t.p.point()),
        t.accin.point() == mixed(start(), pow2(316), t.p.point(), a, b),
    ensures
        t.acco4.point() == curve_sum(
            curve_times(
                generator_point(),
                2 * (2 * (2 * b + unit(t.sg.0)) + unit(t.sg.1)) + unit(t.sg.2),
            ),
            curve_times(t.p.point(), 2 * (2 * (2 * a + unit(t.sp.0)) + unit(t.sp.1)) + unit(t.sp.2)),
        ),
{
    let q = t.p.point();
    let g = generator_point();
    let a3 = 2 * (2 * (2 * a + unit(t.sp.0)) + unit(t.sp.1)) + unit(t.sp.2);
    let b3 = 2 * (2 * (2 * b + unit(t.sg.0)) + unit(t.sg.1)) + unit(t.sg.2);
    let e = offset_end().point();
    lemma_offset_proper();
    lemma_three_steps(t, start(), pow2(316), a, b);
    lemma_pow2_adds(316, 3);
    lemma2_to64();
    assert(8 * pow2(316) == pow2(319)) by (nonlinear_arith)
        requires
            pow2(319) == pow2(316) * 8,
    ;
    let d = t.acco3.point();
    assert(F::of(0) != F::of(1));
    assert(step_holds(t.accdblo3, t.p, last_point(t.lgs), t.acco4, t.lambda4, t.sp.3, t.sg.3));
    assert(t.acco4.point() == chord_sum(d, e));
    assert(curve_sum(d, e) == chord_sum(d, e));
    lemma_offset_gone(q, a3, b3);
}

/// The integer that the first `n` selectors of a list spell, the highest first.
pub open spec fn spelled(bits: Seq<F>, n: nat) -> nat
    decreases n,
{
    if n == 0 {
        0
    } else {
        2 * spelled(bits, (n - 1) as nat) + unit(bits[n - 1])
    }
}

/// The selectors of `Q` in a chain of rows.
pub open spec fn key_selectors(rows: Seq<DoubleAdd4xTargets>) -> Seq<F> {
    Seq::new(
        320,
        |i: int|
            {
                let r = rows[i / 4];
                if i % 4 == 0 {
                    r.sp.0
                } else if i % 4 == 1 {
                    r.sp.1
                } else if i % 4 == 2 {
                    r.sp.2
                } else {
                    r.sp.3
                }
            },
    )
}

/// The selectors of the generator in a chain of rows.
pub open spec fn generator_selectors(rows: Seq<DoubleAdd4xTargets>) -> Seq<F> {
    Seq::new(
        320,
        |i: int|
            {
                let r = rows[i / 4];
                if i % 4 == 0 {
                    r.sg.0
                } else if i % 4 == 1 {
                    r.sg.1
                } else if i % 4 == 2 {
                    r.sg.2
                } else {
                    r.sg.3
                }
            },
    )
}

/// Whether rows make a chain: each row holds and meets no vertical line, starts
/// where the one before ends, the first one at the offset, all add the same point,
/// and the last one alone is marked.
pub open spec fn chain_of(rows: Seq<DoubleAdd4xTargets>, q: PointEw) -> bool {
    &&& rows.len() == 80
    &&& rows[0].accin == offset_point()
    &&& forall|i: int| 0 <= i < 79 ==> (#[trigger] rows[i]).acco4 == rows[i + 1].accin
    &&& forall|i: int|
        0 <= i < 80 ==> {
            &&& (#[trigger] rows[i]).canonical()
            &&& rows[i].p.point() == q
            &&& row_holds(rows[i])
            &&& row_regular(rows[i])
        }
    &&& forall|i: int| 0 <= i < 79 ==> (#[trigger] rows[i]).lgs != F::of(1)
    &&& marked_last(rows[79])
}

/// Four selectors more.
pub(crate) proof fn lemma_spelled_row(bits: Seq<F>, i: nat)
    ensures
        spelled(bits, 4 * i + 3) == 2 * (2 * (2 * spelled(bits, 4 * i) + unit(bits[(4 * i) as int]))
            + unit(bits[(4 * i + 1) as int])) + unit(bits[(4 * i + 2) as int]),
        spelled(bits, 4 * i + 4) == 2 * spelled(bits, 4 * i + 3) + unit(bits[(4 * i + 3) as int]),
{
    reveal_with_fuel(spelled, 5);
}

/// The accumulator before a row of a chain.
proof fn lemma_chain_before(rows: Seq<DoubleAdd4xTargets>, q: PointEw, i: nat)
    requires
        chain_of(rows, q),
        belongs(q),
        i < 80,
    ensures
        rows[i as int].accin.point() == mixed(
            start(),
            pow2(4 * i),
            q,
            spelled(key_selectors(rows), 4 * i),
            spelled(generator_selectors(rows), 4 * i),
        ),
    decreases i,
{
    if i == 0 {
        lemma_offset_proper();
        lemma2_to64();
        lemma_mixed_start(start(), q);
    } else {
        let k = (i - 1) as nat;
        lemma_chain_before(rows, q, k);
        let t = rows[k as int];
        assert(t.canonical() && row_holds(t) && row_regular(t));
        assert(t.lgs != F::of(1));
        assert(t.acco4 == rows[k as int + 1].accin);
        lemma_row(t);
        let (a, b) = (spelled(key_selectors(rows), 4 * k), spelled(generator_selectors(rows), 4 * k));
        lemma_offset_proper();
        lemma_row_adds(t, start(), pow2(4 * k), a, b);
        lemma_pow2_adds(4 * k, 4);
        lemma2_to64();
        assert(16 * pow2(4 * k) == pow2(4 * i)) by (nonlinear_arith)
            requires
                pow2(4 * i) == pow2(4 * k) * 16,
        ;
        lemma_spelled_row(key_selectors(rows), k);
        lemma_spelled_row(generator_selectors(rows), k);
        lemma_selectors_at(rows, k);
    }
}

pub(crate) proof fn lemma_selectors_at(rows: Seq<DoubleAdd4xTargets>, k: nat)
    requires
        k < 80,
    ensures
        ({
            let r = rows[k as int];
            let (x, y) = (key_selectors(rows), generator_selectors(rows));
            &&& x[(4 * k) as int] == r.sp.0 && y[(4 * k) as int] == r.sg.0
            &&& x[(4 * k + 1) as int] == r.sp.1 && y[(4 * k + 1) as int] == r.sg.1
            &&& x[(4 * k + 2) as int] == r.sp.2 && y[(4 * k + 2) as int] == r.sg.2
            &&& x[(4 * k + 3) as int] == r.sp.3 && y[(4 * k + 3) as int] == r.sg.3
        }),
{
    assert((4 * k) / 4 == k && (4 * k + 1) / 4 == k && (4 * k + 2) / 4 == k && (4 * k + 3) / 4
        == k);
    assert((4 * k) % 4 == 0 && (4 * k + 1) % 4 == 1 && (4 * k + 2) % 4 == 2 && (4 * k + 3) % 4
        == 3);
}

/// A chain of rows ends at `s*G + e*Q`, where `e` and `s` are the integers that its
/// selectors spell.
pub proof fn lemma_chain_computes(rows: Seq<DoubleAdd4xTargets>, q: PointEw)
    requires
        chain_of(rows, q),
        belongs(q),
    ensures
        rows[79].acco4.point() == curve_sum(
            curve_times(generator_point(), spelled(generator_selectors(rows), 319)),
            curve_times(q, spelled(key_selectors(rows), 319)),
        ),
        belongs(rows[79].acco4.point()),
{
    lemma_chain_before(rows, q, 79);
    let t = rows[79];
    assert(t.canonical() && row_holds(t) && row_regular(t));
    lemma_row(t);
    let (a, b) = (spelled(key_selectors(rows), 316), spelled(generator_selectors(rows), 316));
    lemma_last_row_adds(t, a, b);
    lemma_spelled_row(key_selectors(rows), 79);
    lemma_spelled_row(generator_selectors(rows), 79);
    lemma_selectors_at(rows, 79);
    lemma_generator_proper();
    let (e, s) = (spelled(key_selectors(rows), 319), spelled(generator_selectors(rows), 319));
    lemma_curve_times_belongs(q, e);
    lemma_curve_times_belongs(generator_point(), s);
    lemma_curve_sum_belongs(curve_times(generator_point(), s), curve_times(q, e));
}

} // verus!
