//! Where lines meet the curve.
use vstd::prelude::*;

use crate::curve_laws::{cubic, cubic_slope};
use crate::ecgfp5::{
    coeff_cap_a, coeff_cap_b, lemma_difference_zero, line_sum, on_curve, PointEw,
};
use crate::identity::{lemma_identity, lit, v, Expr};
use crate::quintic::{lemma_zero_one, QuinticExtension};
use crate::quintic_power::{lemma_mul_canonical, lemma_units_canonical};

verus! {

/// The coefficients of the curve are elements.
pub(crate) proof fn lemma_curve_canonical()
    ensures
        coeff_cap_a().canonical(),
        coeff_cap_b().canonical(),
        QuinticExtension::nought().canonical(),
        QuinticExtension::unit().canonical(),
{
    lemma_units_canonical();
    crate::quintic::lemma_of_view(
        crate::quintic_ring::Z5 { c0: 6148914689804861439, c1: 263, c2: 0, c3: 0, c4: 0 },
    );
    crate::quintic::lemma_of_view(
        crate::quintic_ring::Z5 {
            c0: 15713893096167979237,
            c1: 6148914689804861265,
            c2: 0,
            c3: 0,
            c4: 0,
        },
    );
}

/// `r + d * k + c == r` where `k` and `c` are zero.
proof fn lemma_drop_zeros(r: QuinticExtension, d: QuinticExtension)
    requires
        r.canonical(),
        d.canonical(),
    ensures
        (r + d * QuinticExtension::nought()) + QuinticExtension::nought() == r,
{
    lemma_zero_one(r);
    lemma_zero_one(d);
}

/// Whether a line of slope `l` through `p` meets the curve at `x2` too: twice at
/// `p` where `x2` is the first coordinate of `p`.
pub open spec fn meets(p: PointEw, x2: QuinticExtension, l: QuinticExtension) -> bool {
    &&& !p.at_inf
    &&& p.canonical()
    &&& x2.canonical()
    &&& l.canonical()
    &&& on_curve(p)
    &&& cubic_slope(p.x, x2) == l * (p.y + p.y) + (l * l) * (x2 - p.x)
}

/// The second coordinate of a line at `x`.
pub open spec fn line_at(p: PointEw, l: QuinticExtension, x: QuinticExtension) -> QuinticExtension {
    l * (x - p.x) + p.y
}

/// A line meets the curve at the two given points and at a third: the difference of
/// the cubic and the square of the line has these three zeros.
pub proof fn lemma_line_meets(p: PointEw, x2: QuinticExtension, l: QuinticExtension, x: QuinticExtension)
    requires
        meets(p, x2, l),
        x.canonical(),
    ensures
        cubic(x) - line_at(p, l, x) * line_at(p, l, x) == ((x - p.x) * (x - x2)) * (x - line_sum(
            p,
            x2,
            l,
        ).x),
{
    let (x1, y1) = (p.x, p.y);
    let (ca, cb) = (coeff_cap_a(), coeff_cap_b());
    lemma_curve_canonical();
    let env = seq![x, x1, y1, x2, l, ca, cb];
    let (ex, e1, f1, e2, el, ea, eb) = (v(0), v(1), v(2), v(3), v(4), v(5), v(6));
    let line = el * (ex - e1) + f1;
    let left = (((ex * ex) * ex + ea * ex) + eb) - line * line;
    let third = (el * el - e1) - e2;
    let right = ((ex - e1) * (ex - e2)) * (ex - third);
    let k = (((e2 * e2 + e1 * e2) + e1 * e1) + ea) - (el * (f1 + f1) + (el * el) * (e2 - e1));
    let c = (((e1 * e1) * e1 + ea * e1) + eb) - f1 * f1;
    let whole = (right + (ex - e1) * k) + c;
    reveal_with_fuel(Expr::within, 9);
    reveal_with_fuel(Expr::int_value, 9);
    reveal_with_fuel(Expr::value, 9);
    assert forall|e: Seq<int>| e.len() == env.len() implies #[trigger] left.int_value(e)
        == whole.int_value(e) by {
        lemma_line_ints(e[0], e[1], e[2], e[3], e[4], e[5], e[6]);
    }
    lemma_identity(left, whole, env);
    let q = cubic_slope(x1, x2) - (l * (y1 + y1) + (l * l) * (x2 - x1));
    lemma_mul_canonical(((x2 * x2 + x1 * x2) + x1 * x1), ca);
    lemma_mul_canonical(l * (y1 + y1), (l * l) * (x2 - x1));
    lemma_difference_zero(cubic_slope(x1, x2), l * (y1 + y1) + (l * l) * (x2 - x1));
    let w = cubic(x1) - y1 * y1;
    lemma_mul_canonical((x1 * x1) * x1 + ca * x1, cb);
    lemma_mul_canonical(y1, y1);
    lemma_difference_zero(cubic(x1), y1 * y1);
    let r = ((x - x1) * (x - x2)) * (x - line_sum(p, x2, l).x);
    lemma_mul_canonical((x - x1) * (x - x2), x - line_sum(p, x2, l).x);
    lemma_mul_canonical(x, x1);
    lemma_drop_zeros(r, x - x1);
    assert(right.value(env) == r);
    assert(k.value(env) == q);
    assert(c.value(env) == w);
}

proof fn lemma_line_ints(x: int, x1: int, y1: int, x2: int, l: int, a: int, b: int)
    ensures
        (((x * x) * x + a * x) + b) - (l * (x - x1) + y1) * (l * (x - x1) + y1) == ((((x - x1) * (x
            - x2)) * (x - ((l * l - x1) - x2))) + (x - x1) * ((((x2 * x2 + x1 * x2) + x1 * x1) + a)
            - (l * (y1 + y1) + (l * l) * (x2 - x1)))) + ((((x1 * x1) * x1 + a * x1) + b) - y1 * y1),
{
    let d = x - x1;
    let (s, m) = (l * l, l * (y1 + y1));
    let w = l * d + y1;
    let p1 = x * x + x1 * x + x1 * x1 + a;
    assert(((x * x) * x + a * x) - ((x1 * x1) * x1 + a * x1) == d * p1) by (nonlinear_arith)
        requires
            d == x - x1,
            p1 == x * x + x1 * x + x1 * x1 + a,
    ;
    assert(w * w == d * (s * d + m) + y1 * y1) by (nonlinear_arith)
        requires
            w == l * d + y1,
            s == l * l,
            m == l * (y1 + y1),
    ;
    let t = (s - x1) - x2;
    let q = (x - x2) * (x - t);
    let k = (((x2 * x2 + x1 * x2) + x1 * x1) + a) - (m + s * (x2 - x1));
    assert(p1 - (s * d + m) == q + k) by (nonlinear_arith)
        requires
            d == x - x1,
            p1 == x * x + x1 * x + x1 * x1 + a,
            t == (s - x1) - x2,
            q == (x - x2) * (x - t),
            k == (((x2 * x2 + x1 * x2) + x1 * x1) + a) - (m + s * (x2 - x1)),
    ;
    assert(d * p1 - d * (s * d + m) == d * q + d * k) by (nonlinear_arith)
        requires
            p1 - (s * d + m) == q + k,
    ;
    assert(d * q == (d * (x - x2)) * (x - t)) by (nonlinear_arith)
        requires
            q == (x - x2) * (x - t),
    ;
}

/// The mirror image of a point.
pub open spec fn opposite(p: PointEw) -> PointEw {
    PointEw { x: p.x, y: QuinticExtension::nought() - p.y, at_inf: p.at_inf }
}

/// Whether the line of slope `l` joins two points of the curve; where the points are
/// the same, it is the tangent.
pub open spec fn joins(p: PointEw, q: PointEw, l: QuinticExtension) -> bool {
    &&& meets(p, q.x, l)
    &&& !q.at_inf
    &&& q.canonical()
    &&& on_curve(q)
    &&& q.y == line_at(p, l, q.x)
}

/// The opposite of the opposite is the point, and a point of the curve has its
/// opposite on the curve.
pub proof fn lemma_opposite(p: PointEw)
    requires
        p.canonical(),
    ensures
        opposite(p).canonical(),
        opposite(opposite(p)) == p,
        on_curve(p) ==> on_curve(opposite(p)),
{
    let o = QuinticExtension::nought();
    lemma_curve_canonical();
    lemma_mul_canonical(o, p.y);
    let env = seq![p.y];
    let (a, b) = (lit(0) - (lit(0) - v(0)), v(0));
    let (c, d) = ((lit(0) - v(0)) * (lit(0) - v(0)), v(0) * v(0));
    reveal_with_fuel(Expr::within, 5);
    reveal_with_fuel(Expr::int_value, 5);
    reveal_with_fuel(Expr::value, 5);
    lemma_identity(a, b, env);
    assert forall|e: Seq<int>| e.len() == env.len() implies #[trigger] c.int_value(e)
        == d.int_value(e) by {
        let y = e[0];
        assert((0 - y) * (0 - y) == y * y) by (nonlinear_arith);
    }
    lemma_identity(c, d, env);
    lemma_units_canonical();
    assert((o - p.y) * (o - p.y) == p.y * p.y);
}

/// A line joins two points in either order.
pub proof fn lemma_joins_swap(p: PointEw, q: PointEw, l: QuinticExtension)
    requires
        joins(p, q, l),
    ensures
        joins(q, p, l),
{
    lemma_curve_canonical();
    let (x1, y1, x2) = (p.x, p.y, q.x);
    let env = seq![x1, y1, x2, l, coeff_cap_a()];
    let (e1, f1, e2, el, ea) = (v(0), v(1), v(2), v(3), v(4));
    let f2 = el * (e2 - e1) + f1;
    reveal_with_fuel(Expr::within, 7);
    reveal_with_fuel(Expr::int_value, 7);
    reveal_with_fuel(Expr::value, 7);
    // the slope of the cubic
    let (a, b) = (
        ((e1 * e1 + e2 * e1) + e2 * e2) + ea,
        ((e2 * e2 + e1 * e2) + e1 * e1) + ea,
    );
    assert forall|e: Seq<int>| e.len() == env.len() implies #[trigger] a.int_value(e)
        == b.int_value(e) by {
        let (x, y) = (e[0], e[2]);
        assert(y * x == x * y) by (nonlinear_arith);
    }
    lemma_identity(a, b, env);
    // the slope of the line
    let (c, d) = (
        el * (f2 + f2) + (el * el) * (e1 - e2),
        el * (f1 + f1) + (el * el) * (e2 - e1),
    );
    assert forall|e: Seq<int>| e.len() == env.len() implies #[trigger] c.int_value(e)
        == d.int_value(e) by {
        let (x, y, z, m) = (e[0], e[1], e[2], e[3]);
        let w = m * (z - x) + y;
        assert(m * (w + w) + (m * m) * (x - z) == m * (y + y) + (m * m) * (z - x))
            by (nonlinear_arith)
            requires
                w == m * (z - x) + y,
        ;
    }
    lemma_identity(c, d, env);
    // and the line itself
    let (f, g) = (el * (e1 - e2) + f2, f1);
    assert forall|e: Seq<int>| e.len() == env.len() implies #[trigger] f.int_value(e)
        == g.int_value(e) by {
        let (x, y, z, m) = (e[0], e[1], e[2], e[3]);
        assert(m * (x - z) + (m * (z - x) + y) == y) by (nonlinear_arith);
    }
    lemma_identity(f, g, env);
}

/// A line that joins two points meets the curve at the opposite of their sum.
pub proof fn lemma_joins_third(p: PointEw, q: PointEw, l: QuinticExtension)
    requires
        joins(p, q, l),
    ensures
        line_sum(p, q.x, l).canonical(),
        on_curve(line_sum(p, q.x, l)),
        joins(p, opposite(line_sum(p, q.x, l)), l),
        joins(q, opposite(line_sum(p, q.x, l)), l),
        line_sum(p, q.x, l) == line_sum(q, p.x, l),
{
    let r = line_sum(p, q.x, l);
    crate::curve_laws::lemma_third_point(p, q.x, l);
    crate::curve_laws::lemma_third_slope(p.x, p.y, q.x, r.x, l);
    lemma_opposite(r);
    lemma_curve_canonical();
    let (x1, y1, x2) = (p.x, p.y, q.x);
    let env = seq![x1, y1, x2, l, r.x, coeff_cap_a()];
    let (e1, f1, e2, el, e3) = (v(0), v(1), v(2), v(3), v(4));
    let f2 = el * (e2 - e1) + f1;
    reveal_with_fuel(Expr::within, 7);
    reveal_with_fuel(Expr::int_value, 7);
    reveal_with_fuel(Expr::value, 7);
    lemma_units_canonical();
    // the line from p at the third point
    let (a, b) = (lit(0) - (el * (e1 - e3) - f1), el * (e3 - e1) + f1);
    assert forall|e: Seq<int>| e.len() == env.len() implies #[trigger] a.int_value(e)
        == b.int_value(e) by {
        let (x, y, m, z) = (e[0], e[1], e[3], e[4]);
        assert(0 - (m * (x - z) - y) == m * (z - x) + y) by (nonlinear_arith);
    }
    lemma_identity(a, b, env);
    assert(opposite(r).y == line_at(p, l, r.x));
    // the third point from q
    let (c, d) = ((el * el - e2) - e1, (el * el - e1) - e2);
    lemma_identity(c, d, env);
    let (f, g) = (el * (e2 - e3) - f2, el * (e1 - e3) - f1);
    assert forall|e: Seq<int>| e.len() == env.len() implies #[trigger] f.int_value(e)
        == g.int_value(e) by {
        let (x, y, z, m, t) = (e[0], e[1], e[2], e[3], e[4]);
        assert(m * (z - t) - (m * (z - x) + y) == m * (x - t) - y) by (nonlinear_arith);
    }
    lemma_identity(f, g, env);
    assert(line_sum(q, p.x, l) == r);
    lemma_joins_swap(p, q, l);
    crate::curve_laws::lemma_third_slope(q.x, q.y, p.x, r.x, l);
    let (s, t) = (lit(0) - (el * (e2 - e3) - f2), el * (e3 - e2) + f2);
    assert forall|e: Seq<int>| e.len() == env.len() implies #[trigger] s.int_value(e)
        == t.int_value(e) by {
        let (x, y, z, m, w) = (e[0], e[1], e[2], e[3], e[4]);
        assert(0 - (m * (z - w) - (m * (z - x) + y)) == m * (w - z) + (m * (z - x) + y))
            by (nonlinear_arith);
    }
    lemma_identity(s, t, env);
    assert(opposite(r).y == line_at(q, l, r.x));
}

/// The mirror image of a line joins the mirror images.
pub proof fn lemma_joins_mirror(p: PointEw, q: PointEw, l: QuinticExtension)
    requires
        joins(p, q, l),
    ensures
        joins(opposite(p), opposite(q), QuinticExtension::nought() - l),
{
    lemma_curve_canonical();
    lemma_opposite(p);
    lemma_opposite(q);
    let o = QuinticExtension::nought();
    lemma_mul_canonical(o, l);
    lemma_units_canonical();
    let (x1, y1, x2) = (p.x, p.y, q.x);
    let env = seq![x1, y1, x2, l];
    let (e1, f1, e2, el) = (v(0), v(1), v(2), v(3));
    reveal_with_fuel(Expr::within, 7);
    reveal_with_fuel(Expr::int_value, 7);
    reveal_with_fuel(Expr::value, 7);
    let (m, g1) = (lit(0) - el, lit(0) - f1);
    let (a, b) = (
        m * (g1 + g1) + (m * m) * (e2 - e1),
        el * (f1 + f1) + (el * el) * (e2 - e1),
    );
    assert forall|e: Seq<int>| e.len() == env.len() implies #[trigger] a.int_value(e)
        == b.int_value(e) by {
        let (x, y, z, k) = (e[0], e[1], e[2], e[3]);
        assert((0 - k) * ((0 - y) + (0 - y)) == k * (y + y)) by (nonlinear_arith);
        assert((0 - k) * (0 - k) == k * k) by (nonlinear_arith);
    }
    lemma_identity(a, b, env);
    let (c, d) = (m * (e2 - e1) + g1, lit(0) - (el * (e2 - e1) + f1));
    assert forall|e: Seq<int>| e.len() == env.len() implies #[trigger] c.int_value(e)
        == d.int_value(e) by {
        let (x, y, z, k) = (e[0], e[1], e[2], e[3]);
        assert((0 - k) * (z - x) + (0 - y) == 0 - (k * (z - x) + y)) by (nonlinear_arith);
    }
    lemma_identity(c, d, env);
}

} // verus!
