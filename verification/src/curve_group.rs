//! The points of the curve form a commutative group.
use vstd::prelude::*;

use crate::chords::{
    joins, lemma_curve_canonical, lemma_joins_mirror, lemma_joins_swap, lemma_joins_third,
    lemma_opposite, opposite,
};
use crate::compression::lemma_b_is_no_square;
use crate::curve_laws::{lemma_chord_slope, lemma_has_inverse, lemma_tangent_slope};
use crate::ecgfp5::{
    can_add, can_double, chord_slope, chord_sum, coeff_b, infinity, lemma_difference_zero,
    lemma_quotient, line_sum, on_curve, point_add, tangent_slope, PointEw,
};
use crate::identity::{lemma_identity, lit, v, Expr};
use crate::proper::{lemma_no_zero_divisors, lemma_shift, lemma_vertical_tangent};
use crate::quintic::{lemma_zero_one, QuinticExtension};
use crate::quintic_power::{
    lemma_cancel, lemma_mul_canonical, lemma_one_times, lemma_units_canonical,
};

verus! {

/// Whether a point belongs to the curve.
pub open spec fn belongs(p: PointEw) -> bool {
    if p.at_inf {
        p == infinity()
    } else {
        &&& p.canonical()
        &&& on_curve(p)
    }
}

/// The sum of two points of the curve: a vertical tangent meets the curve at infinity,
/// as a vertical chord does.
pub open spec fn curve_sum(p: PointEw, q: PointEw) -> PointEw {
    if !p.at_inf && !q.at_inf && p.x == q.x && !can_double(p) {
        infinity()
    } else {
        point_add(p, q)
    }
}

/// An element that is its own opposite is zero.
proof fn lemma_own_opposite(y: QuinticExtension)
    requires
        y.canonical(),
        QuinticExtension::nought() - y == y,
    ensures
        y == QuinticExtension::nought(),
{
    if y != QuinticExtension::nought() {
        crate::ecgfp5::lemma_twice_nonzero(y);
        lemma_units_canonical();
        let env = seq![y];
        let (a, b) = ((lit(0) - v(0)) + v(0), lit(0));
        let (c, d) = (v(0) * lit(2), v(0) + v(0));
        reveal_with_fuel(Expr::within, 4);
        reveal_with_fuel(Expr::int_value, 4);
        reveal_with_fuel(Expr::value, 4);
        lemma_identity(a, b, env);
        assert forall|n: Seq<int>| n.len() == env.len() implies #[trigger] c.int_value(n)
            == d.int_value(n) by {
            assert(n[0] * 2 == n[0] + n[0]);
        }
        lemma_identity(c, d, env);
    }
}

/// The opposite of a point of the curve belongs to the curve.
pub proof fn lemma_opposite_belongs(p: PointEw)
    requires
        belongs(p),
    ensures
        belongs(opposite(p)),
        opposite(opposite(p)) == p,
        curve_sum(p, opposite(p)) == infinity(),
{
    lemma_curve_canonical();
    lemma_opposite(p);
    lemma_zero_one(QuinticExtension::nought());
    if p.at_inf {
        assert(opposite(p) == infinity());
    } else if opposite(p) == p {
        lemma_own_opposite(p.y);
    }
}

/// Two points of the curve with the same first coordinate are the same or
/// opposite.
pub proof fn lemma_same_abscissa(p: PointEw, q: PointEw)
    requires
        belongs(p),
        belongs(q),
        !p.at_inf,
        !q.at_inf,
        p.x == q.x,
    ensures
        q == p || q == opposite(p),
{
    let o = QuinticExtension::nought();
    lemma_units_canonical();
    let (y, z) = (p.y, q.y);
    crate::algebra::lemma_difference_of_squares(z, y);
    lemma_mul_canonical(z, z);
    lemma_difference_zero(z * z, y * y);
    lemma_mul_canonical(z, y);
    lemma_no_zero_divisors(z - y, z + y);
    lemma_difference_zero(z, y);
    if z + y == o {
        crate::algebra::lemma_sub_add(z, y);
        assert(z == o - y);
    }
}

/// A line that joins two points is not vertical: the points are not opposite, and
/// where they have the same first coordinate they are the same.
pub proof fn lemma_joined(p: PointEw, q: PointEw, l: QuinticExtension)
    requires
        joins(p, q, l),
    ensures
        q != opposite(p),
        p.x == q.x ==> q == p && can_double(p),
{
    let o = QuinticExtension::nought();
    lemma_curve_canonical();
    lemma_zero_one(p.x);
    lemma_zero_one(l);
    lemma_one_times(p.y);
    if p.x == q.x {
        assert(q.y == p.y);
        if !can_double(p) {
            lemma_vertical_tangent(p);
            lemma_shift();
            lemma_mul_canonical(l, l);
            lemma_zero_one(l * l);
            lemma_zero_one(o);
            assert(coeff_b() == o * o);
            lemma_b_is_no_square(o);
        }
        if q == opposite(p) {
            lemma_own_opposite(p.y);
        }
    }
}

/// The line that joins two points of the curve that are not opposite.
pub proof fn lemma_find_line(p: PointEw, q: PointEw) -> (l: QuinticExtension)
    requires
        belongs(p),
        belongs(q),
        !p.at_inf,
        !q.at_inf,
        q != opposite(p),
    ensures
        joins(p, q, l),
{
    lemma_curve_canonical();
    lemma_zero_one(QuinticExtension::nought());
    if p.x == q.x {
        lemma_same_abscissa(p, q);
        if !can_double(p) {
            assert(opposite(p) == p);
        }
        lemma_tangent_slope(p);
        let l = tangent_slope(p);
        lemma_zero_one(p.x);
        lemma_zero_one(l);
        lemma_one_times(p.y);
        l
    } else {
        lemma_chord_slope(p, q);
        let l = chord_slope(p, q);
        crate::algebra::lemma_sub_add(q.y, p.y);
        l
    }
}

/// Twice an element that is not zero is not zero.
proof fn lemma_twice(y: QuinticExtension)
    requires
        y.canonical(),
        y != QuinticExtension::nought(),
    ensures
        y + y != QuinticExtension::nought(),
{
    crate::ecgfp5::lemma_twice_nonzero(y);
    let env = seq![y];
    let (c, d) = (v(0) * lit(2), v(0) + v(0));
    reveal_with_fuel(Expr::within, 4);
    reveal_with_fuel(Expr::int_value, 4);
    reveal_with_fuel(Expr::value, 4);
    assert forall|n: Seq<int>| n.len() == env.len() implies #[trigger] c.int_value(n)
        == d.int_value(n) by {
        assert(n[0] * 2 == n[0] + n[0]);
    }
    lemma_identity(c, d, env);
}

/// The chord of two points that a line joins.
proof fn lemma_chord_is_line(p: PointEw, q: PointEw, l: QuinticExtension)
    requires
        joins(p, q, l),
        p.x != q.x,
    ensures
        chord_sum(p, q) == line_sum(p, q.x, l),
{
    lemma_curve_canonical();
    let d = q.x - p.x;
    let h = q.y - p.y;
    lemma_mul_canonical(q.x, p.x);
    lemma_difference_zero(q.x, p.x);
    let i = lemma_has_inverse(d);
    lemma_mul_canonical(l, d);
    crate::algebra::lemma_sub_add(l * d, p.y);
    assert(l * d == h);
    lemma_quotient(h, d, l, i);
}

/// The sum of two points that a line joins is the opposite of its third point.
pub proof fn lemma_sum_is_line(p: PointEw, q: PointEw, l: QuinticExtension)
    requires
        joins(p, q, l),
        can_double(p),
    ensures
        !p.at_inf,
        !q.at_inf,
        point_add(p, q) == line_sum(p, q.x, l),
{
    lemma_curve_canonical();
    lemma_zero_one(p.x);
    lemma_zero_one(l);
    lemma_one_times(p.y);
    if p.x == q.x {
        assert(q.y == p.y);
        lemma_tangent_slope(p);
        let t = tangent_slope(p);
        let d = p.y + p.y;
        lemma_mul_canonical(l, l);
        lemma_zero_one(l * l);
        lemma_mul_canonical(l, d);
        lemma_zero_one(l * d);
        assert(l * d == t * d);
        lemma_mul_canonical(p.y, p.y);
        lemma_twice(p.y);
        let i = lemma_has_inverse(d);
        lemma_cancel(d, i, l, t);
    } else {
        lemma_chord_is_line(p, q, l);
    }
}

/// The sum of two points that a line joins is the opposite of its third point.
pub proof fn lemma_curve_sum_is_line(p: PointEw, q: PointEw, l: QuinticExtension)
    requires
        joins(p, q, l),
    ensures
        !p.at_inf,
        !q.at_inf,
        curve_sum(p, q) == line_sum(p, q.x, l),
{
    lemma_joined(p, q, l);
    if can_double(p) {
        lemma_sum_is_line(p, q, l);
    } else {
        lemma_chord_is_line(p, q, l);
    }
}

/// The sum of two points of the curve belongs to the curve.
pub proof fn lemma_curve_sum_belongs(p: PointEw, q: PointEw)
    requires
        belongs(p),
        belongs(q),
    ensures
        belongs(curve_sum(p, q)),
{
    if !p.at_inf && !q.at_inf {
        lemma_opposite_belongs(p);
        if q != opposite(p) {
            let l = lemma_find_line(p, q);
            lemma_curve_sum_is_line(p, q, l);
            lemma_joins_third(p, q, l);
        }
    }
}

/// Where no vertical tangent is needed, the sum is that of the chord or the tangent.
pub proof fn lemma_curve_sum_is(p: PointEw, q: PointEw)
    requires
        belongs(p),
        belongs(q),
        can_add(p, q),
    ensures
        curve_sum(p, q) == point_add(p, q),
{
    if !p.at_inf && !q.at_inf && p.x == q.x && !can_double(p) {
        lemma_same_abscissa(p, q);
        lemma_zero_one(QuinticExtension::nought());
    }
}

/// Addition is commutative.
pub proof fn lemma_curve_sum_comm(p: PointEw, q: PointEw)
    requires
        belongs(p),
        belongs(q),
    ensures
        curve_sum(p, q) == curve_sum(q, p),
{
    if !p.at_inf && !q.at_inf {
        lemma_opposite_belongs(p);
        lemma_opposite_belongs(q);
        if q != opposite(p) {
            let l = lemma_find_line(p, q);
            lemma_curve_sum_is_line(p, q, l);
            lemma_joins_swap(p, q, l);
            lemma_curve_sum_is_line(q, p, l);
            lemma_joins_third(p, q, l);
        }
    }
}

/// What is added can be taken away again.
pub proof fn lemma_curve_sum_cancel(p: PointEw, q: PointEw)
    requires
        belongs(p),
        belongs(q),
    ensures
        curve_sum(curve_sum(p, q), opposite(q)) == p,
{
    let o = QuinticExtension::nought();
    lemma_curve_canonical();
    lemma_zero_one(o);
    lemma_opposite_belongs(q);
    lemma_opposite_belongs(p);
    if p.at_inf {
    } else if q.at_inf {
        assert(opposite(q) == infinity());
    } else if q == opposite(p) {
        assert(opposite(q) == p);
    } else {
        let l = lemma_find_line(p, q);
        lemma_curve_sum_is_line(p, q, l);
        let r = line_sum(p, q.x, l);
        lemma_joins_third(p, q, l);
        lemma_opposite_belongs(r);
        // the mirrored line joins r and the opposite of q
        lemma_joins_mirror(q, opposite(r), l);
        let m = o - l;
        lemma_joins_swap(opposite(q), r, m);
        lemma_curve_sum_is_line(r, opposite(q), m);
        // and its third point is that of p
        lemma_units_canonical();
        let env = seq![p.x, p.y, q.x, l];
        let (e1, f1, e2, el) = (v(0), v(1), v(2), v(3));
        let e3 = (el * el - e1) - e2;
        let f3 = el * (e1 - e3) - f1;
        let em = lit(0) - el;
        reveal_with_fuel(Expr::within, 9);
        reveal_with_fuel(Expr::int_value, 9);
        reveal_with_fuel(Expr::value, 9);
        let x4 = (em * em - e3) - e2;
        assert forall|n: Seq<int>| n.len() == env.len() implies #[trigger] x4.int_value(n)
            == e1.int_value(n) by {
            let k = n[3];
            assert((0 - k) * (0 - k) == k * k) by (nonlinear_arith);
        }
        lemma_identity(x4, e1, env);
        let y4 = em * (e3 - x4) - f3;
        assert forall|n: Seq<int>| n.len() == env.len() implies #[trigger] y4.int_value(n)
            == f1.int_value(n) by {
            let (x, y, z, k) = (n[0], n[1], n[2], n[3]);
            let s = k * k;
            assert((0 - k) * (0 - k) == s) by (nonlinear_arith)
                requires
                    s == k * k,
            ;
            let t = (s - x) - z;
            assert((s - t) - z == x);
            assert((0 - k) * (t - x) - (k * (x - t) - y) == y) by (nonlinear_arith);
        }
        lemma_identity(y4, f1, env);
        assert(line_sum(r, q.x, m) == p);
    }
}

/// The opposite of a sum is the sum of the opposites.
pub proof fn lemma_opposite_curve_sum(p: PointEw, q: PointEw)
    requires
        belongs(p),
        belongs(q),
    ensures
        opposite(curve_sum(p, q)) == curve_sum(opposite(p), opposite(q)),
{
    let o = QuinticExtension::nought();
    lemma_curve_canonical();
    lemma_zero_one(o);
    lemma_opposite_belongs(p);
    lemma_opposite_belongs(q);
    if p.at_inf || q.at_inf {
    } else if q == opposite(p) {
        lemma_curve_sum_comm(p, q);
        assert(opposite(infinity()) == infinity());
    } else {
        let l = lemma_find_line(p, q);
        lemma_curve_sum_is_line(p, q, l);
        lemma_joins_mirror(p, q, l);
        lemma_curve_sum_is_line(opposite(p), opposite(q), o - l);
        lemma_units_canonical();
        let env = seq![p.x, p.y, q.x, l];
        let (e1, f1, e2, el) = (v(0), v(1), v(2), v(3));
        let em = lit(0) - el;
        let e3 = (el * el - e1) - e2;
        let e4 = (em * em - e1) - e2;
        reveal_with_fuel(Expr::within, 9);
        reveal_with_fuel(Expr::int_value, 9);
        reveal_with_fuel(Expr::value, 9);
        assert forall|n: Seq<int>| n.len() == env.len() implies #[trigger] e4.int_value(n)
            == e3.int_value(n) by {
            let k = n[3];
            assert((0 - k) * (0 - k) == k * k) by (nonlinear_arith);
        }
        lemma_identity(e4, e3, env);
        let a = em * (e1 - e3) - (lit(0) - f1);
        let b = lit(0) - (el * (e1 - e3) - f1);
        assert forall|n: Seq<int>| n.len() == env.len() implies #[trigger] a.int_value(n)
            == b.int_value(n) by {
            let (x, y, z, k) = (n[0], n[1], n[2], n[3]);
            let d = x - ((k * k - x) - z);
            assert((0 - k) * d - (0 - y) == 0 - (k * d - y)) by (nonlinear_arith);
        }
        lemma_identity(a, b, env);
    }
}

} // verus!
