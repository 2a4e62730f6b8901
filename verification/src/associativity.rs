//! Addition of points is associative.
//!
//! The three summands and the opposite of their sum are the zeros of a function
//! `x^2 - a y + b x + c`: the product of two lines divided by a vertical one. Either
//! order of summation gives such a function, and the three summands determine it.
use vstd::prelude::*;

use crate::chords::{
    joins, lemma_curve_canonical, lemma_joins_third, lemma_line_meets, lemma_opposite, line_at,
    opposite,
};
use crate::curve_laws::cubic_slope;
use crate::curve_group::{
    belongs, curve_sum, lemma_curve_sum_belongs, lemma_curve_sum_cancel, lemma_curve_sum_comm,
    lemma_curve_sum_is_line, lemma_find_line, lemma_opposite_belongs, lemma_opposite_curve_sum,
    lemma_same_abscissa,
};
use crate::ecgfp5::{coeff_cap_a, lemma_difference_zero, PointEw};
use crate::identity::{lemma_identity, lit, v, Expr};
use crate::proper::lemma_no_zero_divisors;
use crate::quintic::{lemma_zero_one, QuinticExtension};
use crate::quintic_power::{lemma_mul_canonical, lemma_one_times, lemma_units_canonical};

verus! {

/// The coefficients of a function `x^2 - a y + b x + c`.
pub struct Conic {
    pub a: QuinticExtension,
    pub b: QuinticExtension,
    pub c: QuinticExtension,
}

impl Conic {
    pub open spec fn canonical(self) -> bool {
        self.a.canonical() && self.b.canonical() && self.c.canonical()
    }

    /// The value at a point.
    pub open spec fn at(self, p: PointEw) -> QuinticExtension {
        ((p.x * p.x - self.a * p.y) + self.b * p.x) + self.c
    }
}

/// The function with the zeros of a line of slope `l` through the opposite of `p`
/// and of a line of slope `m` through `p`, other than `p` and its opposite.
pub open spec fn conic_of(p: PointEw, l: QuinticExtension, m: QuinticExtension) -> Conic {
    Conic {
        a: l + m,
        b: p.x + l * m,
        c: ((p.x * p.x + coeff_cap_a()) - m * p.y) + (l * p.y - (l * m) * p.x),
    }
}

proof fn lemma_conic_canonical(p: PointEw, l: QuinticExtension, m: QuinticExtension)
    ensures
        conic_of(p, l, m).canonical(),
{
    lemma_mul_canonical(l, m);
    lemma_mul_canonical(p.x, l * m);
    lemma_mul_canonical(
        (p.x * p.x + coeff_cap_a()) - m * p.y,
        l * p.y - (l * m) * p.x,
    );
}

/// The function is zero at the points of the first line.
proof fn lemma_zero_on_first(q: PointEw, p: PointEw, l: QuinticExtension, m: QuinticExtension)
    requires
        joins(q, opposite(p), l),
        p.canonical(),
        m.canonical(),
    ensures
        conic_of(p, l, m).at(q) == QuinticExtension::nought(),
{
    lemma_curve_canonical();
    lemma_units_canonical();
    lemma_opposite(p);
    let (x, y, x4) = (q.x, q.y, p.x);
    let env = seq![x, y, x4, l, m, coeff_cap_a()];
    let (e, f, e4, el, em, ea) = (v(0), v(1), v(2), v(3), v(4), v(5));
    let g = el * (e4 - e) + f;
    let f4 = lit(0) - g;
    reveal_with_fuel(Expr::within, 10);
    reveal_with_fuel(Expr::int_value, 10);
    reveal_with_fuel(Expr::value, 10);
    let left = ((e * e - (el + em) * f) + (e4 + el * em) * e) + (((e4 * e4 + ea) - em * f4) + (el
        * f4 - (el * em) * e4));
    let right = (((e4 * e4 + e * e4) + e * e) + ea) - (el * (f + f) + (el * el) * (e4 - e));
    assert forall|n: Seq<int>| n.len() == env.len() implies #[trigger] left.int_value(n)
        == right.int_value(n) by {
        lemma_first_ints(n[0], n[1], n[2], n[3], n[4], n[5]);
    }
    lemma_identity(left, right, env);
    let s = cubic_slope(x, x4);
    let t = l * (y + y) + (l * l) * (x4 - x);
    lemma_mul_canonical((x4 * x4 + x * x4) + x * x, coeff_cap_a());
    lemma_mul_canonical(l * (y + y), (l * l) * (x4 - x));
    lemma_difference_zero(s, t);
    assert(p.y == QuinticExtension::nought() - (l * (x4 - x) + y));
}

proof fn lemma_first_ints(x: int, y: int, x4: int, l: int, m: int, a: int)
    ensures
        ((x * x - (l + m) * y) + (x4 + l * m) * x) + (((x4 * x4 + a) - m * (0 - (l * (x4 - x)
            + y))) + (l * (0 - (l * (x4 - x) + y)) - (l * m) * x4)) == (((x4 * x4 + x * x4) + x * x)
            + a) - (l * (y + y) + (l * l) * (x4 - x)),
{
    let d = x4 - x;
    let g = l * d + y;
    let k = l * m;
    assert(m * (0 - g) == -(k * d) - m * y) by (nonlinear_arith)
        requires
            g == l * d + y,
            k == l * m,
    ;
    assert(l * (0 - g) == -((l * l) * d) - l * y) by (nonlinear_arith)
        requires
            g == l * d + y,
    ;
    assert((l + m) * y == l * y + m * y) by (nonlinear_arith);
    assert((x4 + k) * x == x4 * x + k * x) by (nonlinear_arith);
    assert(k * d == k * x4 - k * x) by (nonlinear_arith)
        requires
            d == x4 - x,
    ;
    assert(l * (y + y) == l * y + l * y) by (nonlinear_arith);
    assert(x * x4 == x4 * x) by (nonlinear_arith);
}

/// The function is zero at the points of the second line.
proof fn lemma_zero_on_second(q: PointEw, p: PointEw, l: QuinticExtension, m: QuinticExtension)
    requires
        joins(p, q, m),
        l.canonical(),
    ensures
        conic_of(p, l, m).at(q) == QuinticExtension::nought(),
{
    lemma_curve_canonical();
    let (x, x4, y4) = (q.x, p.x, p.y);
    let env = seq![x, x4, y4, l, m, coeff_cap_a()];
    let (e, e4, f4, el, em, ea) = (v(0), v(1), v(2), v(3), v(4), v(5));
    let f = em * (e - e4) + f4;
    reveal_with_fuel(Expr::within, 10);
    reveal_with_fuel(Expr::int_value, 10);
    reveal_with_fuel(Expr::value, 10);
    let left = ((e * e - (el + em) * f) + (e4 + el * em) * e) + (((e4 * e4 + ea) - em * f4) + (el
        * f4 - (el * em) * e4));
    let right = (((e * e + e4 * e) + e4 * e4) + ea) - (em * (f4 + f4) + (em * em) * (e - e4));
    assert forall|n: Seq<int>| n.len() == env.len() implies #[trigger] left.int_value(n)
        == right.int_value(n) by {
        lemma_second_ints(n[0], n[1], n[2], n[3], n[4], n[5]);
    }
    lemma_identity(left, right, env);
    let s = cubic_slope(x4, x);
    let t = m * (y4 + y4) + (m * m) * (x - x4);
    lemma_mul_canonical((x * x + x4 * x) + x4 * x4, coeff_cap_a());
    lemma_mul_canonical(m * (y4 + y4), (m * m) * (x - x4));
    lemma_difference_zero(s, t);
}

proof fn lemma_second_ints(x: int, x4: int, y4: int, l: int, m: int, a: int)
    ensures
        ((x * x - (l + m) * (m * (x - x4) + y4)) + (x4 + l * m) * x) + (((x4 * x4 + a) - m * y4) + (
        l * y4 - (l * m) * x4)) == (((x * x + x4 * x) + x4 * x4) + a) - (m * (y4 + y4) + (m * m) * (
        x - x4)),
{
    let d = x - x4;
    let k = l * m;
    let f = m * d + y4;
    assert((l + m) * f == k * d + (m * m) * d + l * y4 + m * y4) by (nonlinear_arith)
        requires
            f == m * d + y4,
            k == l * m,
    ;
    assert((x4 + k) * x == x4 * x + k * x) by (nonlinear_arith);
    assert(k * d == k * x - k * x4) by (nonlinear_arith)
        requires
            d == x - x4,
    ;
    assert(m * (y4 + y4) == m * y4 + m * y4) by (nonlinear_arith);
}

/// The part of a function that two points and the slope of their line determine.
pub open spec fn along(
    k: Conic,
    x1: QuinticExtension,
    x2: QuinticExtension,
    l: QuinticExtension,
) -> QuinticExtension {
    ((x1 + x2) + k.b) - k.a * l
}

/// The function of the sum of the first two points and the third.
proof fn lemma_along_first(
    x1: QuinticExtension,
    x2: QuinticExtension,
    p: PointEw,
    l: QuinticExtension,
    m: QuinticExtension,
)
    requires
        x1.canonical(),
        x2.canonical(),
        l.canonical(),
        m.canonical(),
        p.x == (l * l - x1) - x2,
    ensures
        along(conic_of(p, l, m), x1, x2, l) == QuinticExtension::nought(),
{
    lemma_units_canonical();
    let env = seq![x1, x2, l, m];
    let (e1, e2, el, em) = (v(0), v(1), v(2), v(3));
    let e4 = (el * el - e1) - e2;
    let left = ((e1 + e2) + (e4 + el * em)) - (el + em) * el;
    let right = lit(0);
    reveal_with_fuel(Expr::within, 7);
    reveal_with_fuel(Expr::int_value, 7);
    reveal_with_fuel(Expr::value, 7);
    assert forall|n: Seq<int>| n.len() == env.len() implies #[trigger] left.int_value(n)
        == right.int_value(n) by {
        let (l, m) = (n[2], n[3]);
        assert((l + m) * l == l * l + l * m) by (nonlinear_arith);
    }
    lemma_identity(left, right, env);
}

/// A function that is zero at two points of different first coordinates.
proof fn lemma_along_chord(k: Conic, p1: PointEw, p2: PointEw, l: QuinticExtension)
    requires
        k.canonical(),
        joins(p1, p2, l),
        p1.x != p2.x,
        k.at(p1) == QuinticExtension::nought(),
        k.at(p2) == QuinticExtension::nought(),
    ensures
        along(k, p1.x, p2.x, l) == QuinticExtension::nought(),
{
    lemma_units_canonical();
    let (x1, y1, x2) = (p1.x, p1.y, p2.x);
    let env = seq![x1, y1, x2, l, k.a, k.b, k.c];
    let (e1, f1, e2, el, ea, eb, ec) = (v(0), v(1), v(2), v(3), v(4), v(5), v(6));
    let f2 = el * (e2 - e1) + f1;
    let left = (e2 - e1) * (((e1 + e2) + eb) - ea * el);
    let z1 = ((e1 * e1 - ea * f1) + eb * e1) + ec;
    let z2 = ((e2 * e2 - ea * f2) + eb * e2) + ec;
    let right = z2 - z1;
    reveal_with_fuel(Expr::within, 9);
    reveal_with_fuel(Expr::int_value, 9);
    reveal_with_fuel(Expr::value, 9);
    assert forall|n: Seq<int>| n.len() == env.len() implies #[trigger] left.int_value(n)
        == right.int_value(n) by {
        let (x1, y1, x2, l, a, b, c) = (n[0], n[1], n[2], n[3], n[4], n[5], n[6]);
        let d = x2 - x1;
        assert(a * (l * d + y1) == (a * l) * d + a * y1) by (nonlinear_arith);
        let t = a * l;
        assert(d * (((x1 + x2) + b) - t) == (x2 * x2 - x1 * x1) + (b * x2 - b * x1) - t * d)
            by (nonlinear_arith)
            requires
                d == x2 - x1,
        ;
    }
    lemma_identity(left, right, env);
    let d = x2 - x1;
    let w = along(k, x1, x2, l);
    lemma_zero_one(QuinticExtension::nought());
    lemma_mul_canonical(x2, x1);
    lemma_mul_canonical((x1 + x2) + k.b, k.a * l);
    lemma_no_zero_divisors(d, w);
    lemma_difference_zero(x2, x1);
}

/// The function of a point and its sum with a third is tangent at that point.
proof fn lemma_along_tangent(
    p1: PointEw,
    p5: PointEw,
    t: QuinticExtension,
    l: QuinticExtension,
    m: QuinticExtension,
)
    requires
        joins(p1, p1, t),
        joins(p1, opposite(p5), l),
        joins(p5, p1, m),
        p1.x != p5.x,
        p5.canonical(),
    ensures
        along(conic_of(p5, l, m), p1.x, p1.x, t) == QuinticExtension::nought(),
{
    let o = QuinticExtension::nought();
    lemma_curve_canonical();
    lemma_units_canonical();
    lemma_opposite(p5);
    let (x1, y1, x5, y5) = (p1.x, p1.y, p5.x, p5.y);
    let env = seq![x1, x5, y5, m, l, t, coeff_cap_a()];
    let (e1, e5, f5, em, el, et, ea) = (v(0), v(1), v(2), v(3), v(4), v(5), v(6));
    let d = e1 - e5;
    let f1 = em * d + f5;
    let big = ((e1 + e1) + (e5 + el * em)) - (el + em) * et;
    let h1 = el * d - (f1 + f5);
    let h2 = (((e1 * e1 + e5 * e1) + e5 * e5) + ea) - (em * (f5 + f5) + (em * em) * (e1 - e5));
    let h3 = et * (f1 + f1) - (((e1 * e1 + e1 * e1) + e1 * e1) + ea);
    let left = d * big;
    let right = ((em - et) * h1 - h2) - h3;
    reveal_with_fuel(Expr::within, 10);
    reveal_with_fuel(Expr::int_value, 10);
    reveal_with_fuel(Expr::value, 10);
    assert forall|n: Seq<int>| n.len() == env.len() implies #[trigger] left.int_value(n)
        == right.int_value(n) by {
        lemma_tangent_ints(n[0], n[1], n[2], n[3], n[4], n[5], n[6]);
    }
    lemma_identity(left, right, env);
    // the three are zero
    let dd = x1 - x5;
    lemma_mul_canonical(x1, x5);
    lemma_difference_zero(x1, x5);
    assert(y1 == m * dd + y5);
    assert(h1.value(env) == o) by {
        // 0 - y5 == l (x5 - x1) + y1
        let env2 = seq![x1, x5, l, y1];
        let (a1, a5, al, b1) = (v(0), v(1), v(2), v(3));
        let g = lit(0) - (al * (a5 - a1) + b1);
        let lhs = al * (a1 - a5) - (b1 + g);
        let rhs = lit(0);
        assert forall|n: Seq<int>| n.len() == env2.len() implies #[trigger] lhs.int_value(n)
            == rhs.int_value(n) by {
            let (x, z, k, y) = (n[0], n[1], n[2], n[3]);
            assert(k * (x - z) - (y + (0 - (k * (z - x) + y))) == 0) by (nonlinear_arith);
        }
        lemma_identity(lhs, rhs, env2);
        assert(y5 == o - (l * (x5 - x1) + y1));
    }
    let s5 = cubic_slope(x5, x1);
    let r5 = m * (y5 + y5) + (m * m) * (x1 - x5);
    lemma_mul_canonical((x1 * x1 + x5 * x1) + x5 * x5, coeff_cap_a());
    lemma_mul_canonical(m * (y5 + y5), (m * m) * (x1 - x5));
    lemma_difference_zero(s5, r5);
    assert(h2.value(env) == o);
    let s1 = cubic_slope(x1, x1);
    let r1 = t * (y1 + y1);
    lemma_zero_one(x1);
    lemma_mul_canonical(t, t);
    lemma_zero_one(t * t);
    lemma_mul_canonical(t, y1 + y1);
    lemma_zero_one(r1);
    lemma_mul_canonical((x1 * x1 + x1 * x1) + x1 * x1, coeff_cap_a());
    lemma_difference_zero(r1, s1);
    assert(h3.value(env) == o);
    lemma_mul_canonical(m, t);
    lemma_zero_one(m - t);
    lemma_zero_one(o);
    let w = along(conic_of(p5, l, m), x1, x1, t);
    assert(dd * w == o);
    lemma_mul_canonical((x1 + x1) + (x5 + l * m), (l + m) * t);
    lemma_no_zero_divisors(dd, w);
}

proof fn lemma_tangent_ints(x1: int, x5: int, y5: int, m: int, l: int, t: int, a: int)
    ensures
        (x1 - x5) * (((x1 + x1) + (x5 + l * m)) - (l + m) * t) == ((m - t) * (l * (x1 - x5) - ((m * (
        x1 - x5) + y5) + y5)) - ((((x1 * x1 + x5 * x1) + x5 * x5) + a) - (m * (y5 + y5) + (m * m) * (
        x1 - x5)))) - (t * ((m * (x1 - x5) + y5) + (m * (x1 - x5) + y5)) - (((x1 * x1 + x1 * x1)
            + x1 * x1) + a)),
{
    let d = x1 - x5;
    let (p, q, r, s, z) = (l * m, l * t, m * t, m * m, m * y5);
    assert(d * (((x1 + x1) + (x5 + p)) - (l + m) * t) == d * (x1 + x1 + x5) + d * p - d * q - d * r)
        by (nonlinear_arith)
        requires
            q == l * t,
            r == m * t,
    ;
    let x = l * d - ((m * d + y5) + y5);
    assert(m * x == d * p - d * s - 2 * z) by (nonlinear_arith)
        requires
            x == l * d - ((m * d + y5) + y5),
            p == l * m,
            s == m * m,
            z == m * y5,
    ;
    assert(t * x == d * q - d * r - 2 * (t * y5)) by (nonlinear_arith)
        requires
            x == l * d - ((m * d + y5) + y5),
            q == l * t,
            r == m * t,
    ;
    assert((m - t) * x == m * x - t * x) by (nonlinear_arith);
    assert(m * (y5 + y5) == 2 * z) by (nonlinear_arith)
        requires
            z == m * y5,
    ;
    assert(t * ((m * d + y5) + (m * d + y5)) == 2 * (d * r) + 2 * (t * y5)) by (nonlinear_arith)
        requires
            r == m * t,
    ;
    assert(s * d == d * s) by (nonlinear_arith);
    assert(d * (x1 + x1 + x5) == 2 * (x1 * x1) - x1 * x5 - x5 * x5) by (nonlinear_arith)
        requires
            d == x1 - x5,
    ;
    assert(x5 * x1 == x1 * x5) by (nonlinear_arith);
}

/// Whether a function is one of those that three points determine.
pub open spec fn fits(
    k: Conic,
    p1: PointEw,
    p2: PointEw,
    p3: PointEw,
    l: QuinticExtension,
) -> bool {
    &&& k.canonical()
    &&& k.at(p1) == QuinticExtension::nought()
    &&& k.at(p3) == QuinticExtension::nought()
    &&& along(k, p1.x, p2.x, l) == QuinticExtension::nought()
}

/// A third point off the line of the first two determines the
/// function, and its coefficient `a` is not zero.
proof fn lemma_conic_unique(
    k: Conic,
    j: Conic,
    p1: PointEw,
    p2: PointEw,
    p3: PointEw,
    l: QuinticExtension,
)
    requires
        fits(k, p1, p2, p3, l),
        fits(j, p1, p2, p3, l),
        joins(p1, p2, l),
        p3.canonical(),
        p3.y != line_at(p1, l, p3.x),
        p3.x != p1.x,
        p3.x != p2.x,
    ensures
        k == j,
        k.a != QuinticExtension::nought(),
{
    let o = QuinticExtension::nought();
    lemma_curve_canonical();
    lemma_zero_one(o);
    let (x1, y1, x2, x3, y3) = (p1.x, p1.y, p2.x, p3.x, p3.y);
    let env = seq![x1, y1, x2, x3, y3, l, k.a, k.b, k.c, j.a, j.b, j.c];
    let (e1, f1, e2, e3, f3, el) = (v(0), v(1), v(2), v(3), v(4), v(5));
    let (ka, kb, kc, ja, jb, jc) = (v(6), v(7), v(8), v(9), v(10), v(11));
    let w = f3 - (el * (e3 - e1) + f1);
    let kz1 = ((e1 * e1 - ka * f1) + kb * e1) + kc;
    let kz3 = ((e3 * e3 - ka * f3) + kb * e3) + kc;
    let jz1 = ((e1 * e1 - ja * f1) + jb * e1) + jc;
    let jz3 = ((e3 * e3 - ja * f3) + jb * e3) + jc;
    let kk = ((e1 + e2) + kb) - ka * el;
    let jj = ((e1 + e2) + jb) - ja * el;
    reveal_with_fuel(Expr::within, 10);
    reveal_with_fuel(Expr::int_value, 10);
    reveal_with_fuel(Expr::value, 10);
    let wv = y3 - (l * (x3 - x1) + y1);
    lemma_mul_canonical(l * (x3 - x1), y1);
    lemma_mul_canonical(y3, l * (x3 - x1) + y1);
    lemma_difference_zero(y3, l * (x3 - x1) + y1);
    lemma_mul_canonical(x3, x1);
    lemma_mul_canonical(x3, x2);
    lemma_difference_zero(x3, x1);
    lemma_difference_zero(x3, x2);
    lemma_zero_one(x3 - x1);
    // a
    let left = (ka - ja) * w;
    let right = ((jz3 - jz1) - (kz3 - kz1)) + (e3 - e1) * (kk - jj);
    assert forall|n: Seq<int>| n.len() == env.len() implies #[trigger] left.int_value(n)
        == right.int_value(n) by {
        lemma_unique_ints(
            n[0],
            n[1],
            n[2],
            n[3],
            n[4],
            n[5],
            n[6],
            n[7],
            n[8],
            n[9],
            n[10],
            n[11],
        );
    }
    lemma_identity(left, right, env);
    assert((k.a - j.a) * wv == o);
    lemma_mul_canonical(k.a, j.a);
    lemma_no_zero_divisors(k.a - j.a, wv);
    lemma_difference_zero(k.a, j.a);
    // b and c
    let (b1, b2) = (kb - jb, (kk - jj) + (ka - ja) * el);
    assert forall|n: Seq<int>| n.len() == env.len() implies #[trigger] b1.int_value(n)
        == b2.int_value(n) by {
        let (l, a, c) = (n[5], n[6], n[9]);
        assert((a - c) * l == a * l - c * l) by (nonlinear_arith);
    }
    lemma_identity(b1, b2, env);
    lemma_one_times(l);
    lemma_difference_zero(k.b, j.b);
    let (c1, c2) = (kc - jc, ((kz1 - jz1) + (ka - ja) * f1) - (kb - jb) * e1);
    assert forall|n: Seq<int>| n.len() == env.len() implies #[trigger] c1.int_value(n)
        == c2.int_value(n) by {
        let (x, y, a, b, c, d) = (n[0], n[1], n[6], n[7], n[9], n[10]);
        assert((a - c) * y == a * y - c * y) by (nonlinear_arith);
        assert((b - d) * x == b * x - d * x) by (nonlinear_arith);
    }
    lemma_identity(c1, c2, env);
    lemma_one_times(y1);
    lemma_one_times(x1);
    lemma_difference_zero(k.c, j.c);
    // and a is not zero
    if k.a == o {
        let (s, t) = ((e3 - e1) * (e3 - e2), ((kz3 - kz1) + ka * w) - kk * (e3 - e1));
        assert forall|n: Seq<int>| n.len() == env.len() implies #[trigger] s.int_value(n)
            == t.int_value(n) by {
            lemma_nonzero_ints(n[0], n[1], n[2], n[3], n[4], n[5], n[6], n[7], n[8]);
        }
        lemma_identity(s, t, env);
        lemma_one_times(wv);
        lemma_one_times(x3 - x1);
        assert((x3 - x1) * (x3 - x2) == o);
        lemma_no_zero_divisors(x3 - x1, x3 - x2);
    }
}

proof fn lemma_unique_ints(
    x1: int,
    y1: int,
    x2: int,
    x3: int,
    y3: int,
    l: int,
    a: int,
    b: int,
    c: int,
    f: int,
    g: int,
    h: int,
)
    ensures
        (a - f) * (y3 - (l * (x3 - x1) + y1)) == (((((x3 * x3 - f * y3) + g * x3) + h) - (((x1 * x1
            - f * y1) + g * x1) + h)) - ((((x3 * x3 - a * y3) + b * x3) + c) - (((x1 * x1 - a * y1)
            + b * x1) + c))) + (x3 - x1) * ((((x1 + x2) + b) - a * l) - (((x1 + x2) + g) - f * l)),
{
    let d = x3 - x1;
    let (s, t) = (a * l, f * l);
    let x = y3 - (l * d + y1);
    assert(a * x == a * y3 - a * y1 - s * d) by (nonlinear_arith)
        requires
            x == y3 - (l * d + y1),
            s == a * l,
    ;
    assert(f * x == f * y3 - f * y1 - t * d) by (nonlinear_arith)
        requires
            x == y3 - (l * d + y1),
            t == f * l,
    ;
    assert((a - f) * x == a * x - f * x) by (nonlinear_arith);
    assert(d * ((b - s) - (g - t)) == b * x3 - b * x1 - g * x3 + g * x1 - s * d + t * d)
        by (nonlinear_arith)
        requires
            d == x3 - x1,
    ;
}

proof fn lemma_nonzero_ints(
    x1: int,
    y1: int,
    x2: int,
    x3: int,
    y3: int,
    l: int,
    a: int,
    b: int,
    c: int,
)
    ensures
        (x3 - x1) * (x3 - x2) == (((((x3 * x3 - a * y3) + b * x3) + c) - (((x1 * x1 - a * y1) + b
            * x1) + c)) + a * (y3 - (l * (x3 - x1) + y1))) - (((x1 + x2) + b) - a * l) * (x3 - x1),
{
    let d = x3 - x1;
    let s = a * l;
    assert(a * (y3 - (l * d + y1)) == a * y3 - a * y1 - s * d) by (nonlinear_arith)
        requires
            s == a * l,
    ;
    assert((((x1 + x2) + b) - s) * d == (x1 + x2) * d + b * x3 - b * x1 - s * d) by (nonlinear_arith)
        requires
            d == x3 - x1,
    ;
    assert(d * (x3 - x2) == x3 * x3 - x1 * x1 - (x1 + x2) * d) by (nonlinear_arith)
        requires
            d == x3 - x1,
    ;
}

/// The first coordinate of the sum of three points, from the function.
proof fn lemma_sum_abscissa(
    x1: QuinticExtension,
    x2: QuinticExtension,
    x3: QuinticExtension,
    p: PointEw,
    l: QuinticExtension,
    m: QuinticExtension,
)
    requires
        x1.canonical(),
        x2.canonical(),
        x3.canonical(),
        l.canonical(),
        m.canonical(),
        p.x == (l * l - x1) - x2,
    ensures
        (m * m - p.x) - x3 == (conic_of(p, l, m).a * conic_of(p, l, m).a - (conic_of(p, l, m).b
            + conic_of(p, l, m).b)) - ((x1 + x2) + x3),
{
    let env = seq![x1, x2, x3, l, m];
    let (e1, e2, e3, el, em) = (v(0), v(1), v(2), v(3), v(4));
    let e4 = (el * el - e1) - e2;
    let b = e4 + el * em;
    let left = (em * em - e4) - e3;
    let right = ((el + em) * (el + em) - (b + b)) - ((e1 + e2) + e3);
    reveal_with_fuel(Expr::within, 8);
    reveal_with_fuel(Expr::int_value, 8);
    reveal_with_fuel(Expr::value, 8);
    assert forall|n: Seq<int>| n.len() == env.len() implies #[trigger] left.int_value(n)
        == right.int_value(n) by {
        let (l, m) = (n[3], n[4]);
        assert((l + m) * (l + m) == l * l + 2 * (l * m) + m * m) by (nonlinear_arith);
    }
    lemma_identity(left, right, env);
}

/// Points with the same first coordinate whose opposites are zeros of a function
/// are the same, where the coefficient `a` is not zero.
proof fn lemma_same_ordinate(k: Conic, u: PointEw, w: PointEw)
    requires
        k.canonical(),
        u.canonical(),
        w.canonical(),
        u.x == w.x,
        k.at(opposite(u)) == QuinticExtension::nought(),
        k.at(opposite(w)) == QuinticExtension::nought(),
        k.a != QuinticExtension::nought(),
    ensures
        u.y == w.y,
{
    let o = QuinticExtension::nought();
    lemma_units_canonical();
    lemma_zero_one(o);
    let env = seq![u.x, u.y, w.y, k.a, k.b, k.c];
    let (e, f, g, ea, eb, ec) = (v(0), v(1), v(2), v(3), v(4), v(5));
    let left = ea * (f - g);
    let zu = ((e * e - ea * (lit(0) - f)) + eb * e) + ec;
    let zw = ((e * e - ea * (lit(0) - g)) + eb * e) + ec;
    let right = zu - zw;
    reveal_with_fuel(Expr::within, 8);
    reveal_with_fuel(Expr::int_value, 8);
    reveal_with_fuel(Expr::value, 8);
    assert forall|n: Seq<int>| n.len() == env.len() implies #[trigger] left.int_value(n)
        == right.int_value(n) by {
        let (f, g, a) = (n[1], n[2], n[3]);
        assert(a * (f - g) == a * f - a * g) by (nonlinear_arith);
        assert(a * (0 - f) == -(a * f)) by (nonlinear_arith);
        assert(a * (0 - g) == -(a * g)) by (nonlinear_arith);
    }
    lemma_identity(left, right, env);
    lemma_mul_canonical(u.y, w.y);
    lemma_no_zero_divisors(k.a, u.y - w.y);
    lemma_difference_zero(u.y, w.y);
}

/// Associativity where all four lines exist and the third point differs from the
/// first two and their opposites.
proof fn lemma_assoc_lines(p1: PointEw, p2: PointEw, p3: PointEw)
    requires
        belongs(p1),
        belongs(p2),
        belongs(p3),
        !p1.at_inf,
        !p2.at_inf,
        !p3.at_inf,
        p2 != opposite(p1),
        p3 != opposite(p2),
        p3 != opposite(curve_sum(p1, p2)),
        curve_sum(p2, p3) != opposite(p1),
        p3.x != p1.x,
        p3.x != p2.x,
        p1.x == p2.x ==> p1 == p2,
    ensures
        curve_sum(curve_sum(p1, p2), p3) == curve_sum(p1, curve_sum(p2, p3)),
{
    let o = QuinticExtension::nought();
    lemma_curve_canonical();
    // (p1 + p2) + p3
    let l12 = lemma_find_line(p1, p2);
    lemma_curve_sum_is_line(p1, p2, l12);
    let p4 = curve_sum(p1, p2);
    lemma_joins_third(p1, p2, l12);
    let l43 = lemma_find_line(p4, p3);
    lemma_curve_sum_is_line(p4, p3, l43);
    let u = curve_sum(p4, p3);
    lemma_joins_third(p4, p3, l43);
    let k = conic_of(p4, l12, l43);
    lemma_conic_canonical(p4, l12, l43);
    lemma_zero_on_first(p1, p4, l12, l43);
    lemma_zero_on_second(p3, p4, l12, l43);
    lemma_zero_on_second(opposite(u), p4, l12, l43);
    lemma_along_first(p1.x, p2.x, p4, l12, l43);
    // p1 + (p2 + p3)
    let l23 = lemma_find_line(p2, p3);
    lemma_curve_sum_is_line(p2, p3, l23);
    let p5 = curve_sum(p2, p3);
    lemma_joins_third(p2, p3, l23);
    lemma_opposite_belongs(p1);
    lemma_opposite_belongs(p5);
    assert(p1 != opposite(p5));
    let l51 = lemma_find_line(p5, p1);
    lemma_curve_sum_is_line(p5, p1, l51);
    let w = curve_sum(p5, p1);
    lemma_joins_third(p5, p1, l51);
    lemma_curve_sum_comm(p5, p1);
    let j = conic_of(p5, l23, l51);
    lemma_conic_canonical(p5, l23, l51);
    lemma_zero_on_first(p2, p5, l23, l51);
    lemma_zero_on_first(p3, p5, l23, l51);
    lemma_zero_on_second(p1, p5, l23, l51);
    lemma_zero_on_second(opposite(w), p5, l23, l51);
    if p1.x == p2.x {
        assert(p1.x != p5.x) by {
            if p1.x == p5.x {
                // the line from p1 to the opposite of p5 would be vertical
                lemma_zero_one(p1.x);
                lemma_zero_one(l23);
                lemma_one_times(p1.y);
                assert(opposite(p5).y == p1.y);
                assert(opposite(p5) == p1);
            }
        }
        lemma_along_tangent(p1, p5, l12, l23, l51);
    } else {
        lemma_along_chord(j, p1, p2, l12);
    }
    // p3 is off the first line
    assert(p3.y != line_at(p1, l12, p3.x)) by {
        if p3.y == line_at(p1, l12, p3.x) {
            lemma_line_meets(p1, p2.x, l12, p3.x);
            lemma_mul_canonical(p3.y, p3.y);
            lemma_zero_one(p3.y * p3.y);
            lemma_mul_canonical(p3.x, p1.x);
            lemma_mul_canonical(p3.x, p2.x);
            lemma_mul_canonical(p3.x, p4.x);
            lemma_mul_canonical(p3.x - p1.x, p3.x - p2.x);
            lemma_no_zero_divisors((p3.x - p1.x) * (p3.x - p2.x), p3.x - p4.x);
            if (p3.x - p1.x) * (p3.x - p2.x) == o {
                lemma_no_zero_divisors(p3.x - p1.x, p3.x - p2.x);
            }
            lemma_difference_zero(p3.x, p1.x);
            lemma_difference_zero(p3.x, p2.x);
            lemma_difference_zero(p3.x, p4.x);
            assert(p3 == opposite(p4));
        }
    }
    lemma_conic_unique(k, j, p1, p2, p3, l12);
    // the sums have the same coordinates
    lemma_sum_abscissa(p1.x, p2.x, p3.x, p4, l12, l43);
    lemma_sum_abscissa(p2.x, p3.x, p1.x, p5, l23, l51);
    let env = seq![p1.x, p2.x, p3.x];
    let (a, b) = ((v(0) + v(1)) + v(2), (v(1) + v(2)) + v(0));
    reveal_with_fuel(Expr::within, 4);
    reveal_with_fuel(Expr::int_value, 4);
    reveal_with_fuel(Expr::value, 4);
    lemma_identity(a, b, env);
    assert(u.x == w.x);
    lemma_same_ordinate(k, u, w);
}

/// Addition is associative.
pub proof fn lemma_curve_assoc(p1: PointEw, p2: PointEw, p3: PointEw)
    requires
        belongs(p1),
        belongs(p2),
        belongs(p3),
    ensures
        curve_sum(curve_sum(p1, p2), p3) == curve_sum(p1, curve_sum(p2, p3)),
{
    lemma_curve_sum_belongs(p1, p2);
    lemma_curve_sum_belongs(p2, p3);
    lemma_curve_sum_comm(p1, p2);
    lemma_curve_sum_comm(p2, p3);
    let p4 = curve_sum(p1, p2);
    let p5 = curve_sum(p2, p3);
    lemma_curve_sum_comm(p4, p3);
    lemma_curve_sum_comm(p1, p5);
    lemma_opposite_belongs(p1);
    lemma_opposite_belongs(p2);
    lemma_opposite_belongs(p3);
    lemma_opposite_belongs(p4);
    lemma_opposite_belongs(p5);
    if p1.at_inf || p2.at_inf || p3.at_inf {
    } else if p2 == opposite(p1) {
        // p1 + p2 is at infinity, and p1 + (p2 + p3) == (p3 + p2) - p2
        lemma_curve_sum_cancel(p3, p2);
    } else if p3 == opposite(p2) {
        lemma_curve_sum_cancel(p1, p2);
    } else if p3 == opposite(p1) {
        lemma_curve_sum_cancel(p2, p1);
        lemma_curve_sum_cancel(p2, p3);
        lemma_curve_sum_comm(p1, p2);
    } else if p3 == opposite(p4) {
        // p2 + p3 == p2 - (p1 + p2) == -p1
        lemma_opposite_curve_sum(p2, p1);
        lemma_curve_sum_comm(opposite(p2), opposite(p1));
        lemma_curve_sum_cancel(opposite(p1), opposite(p2));
        assert(p5 == opposite(p1));
    } else if p5 == opposite(p1) {
        lemma_opposite_curve_sum(p2, p3);
        lemma_curve_sum_cancel(opposite(p3), opposite(p2));
        lemma_curve_sum_comm(opposite(p3), opposite(p2));
        assert(p4 == opposite(p3));
    } else if p1 == p3 {
    } else if p2 == p3 {
        // (p2 + p2) + p1 == p2 + (p2 + p1)
        assert(p2.x != p1.x) by {
            if p2.x == p1.x {
                lemma_same_abscissa(p1, p2);
            }
        }
        assert(p1 != opposite(p2)) by {
            if p1 == opposite(p2) {
                assert(opposite(p1) == p2);
            }
        }
        assert(p1 != opposite(p5)) by {
            if p1 == opposite(p5) {
                assert(opposite(p1) == p5);
            }
        }
        assert(p4 != opposite(p2)) by {
            if p4 == opposite(p2) {
                assert(opposite(p4) == p2);
            }
        }
        lemma_curve_sum_comm(p2, p1);
        lemma_assoc_lines(p2, p2, p1);
        lemma_curve_sum_comm(p2, p4);
    } else {
        assert(p3.x != p1.x) by {
            if p3.x == p1.x {
                lemma_same_abscissa(p1, p3);
            }
        }
        assert(p3.x != p2.x) by {
            if p3.x == p2.x {
                lemma_same_abscissa(p2, p3);
            }
        }
        if p1.x == p2.x {
            lemma_same_abscissa(p1, p2);
        }
        lemma_assoc_lines(p1, p2, p3);
    }
}

} // verus!
