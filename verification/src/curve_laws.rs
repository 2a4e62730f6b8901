//! Sums and multiples of points of the curve are points of the curve.
use vstd::prelude::*;

use crate::algebra::{
    lemma_class_add, lemma_class_equal, lemma_class_self, lemma_class_sub, lemma_difference_of_squares, lemma_mul_sub,
    lemma_product_of_sums, lemma_square_of_difference, lemma_sub_add,
};
use crate::ecgfp5::{
    can_add, can_double, can_multiply, chord_slope, chord_sum, coeff_cap_a, coeff_cap_b,
    lemma_difference_zero, lemma_twice_nonzero, line_sum, multiple, on_curve, point_add,
    point_double, quotient, small, tangent_slope, PointEw,
};
use crate::quintic::{
    lemma_add_assoc, lemma_add_comm, lemma_distribute, lemma_mul_assoc, lemma_mul_comm,
    lemma_of_view, QuinticExtension,
};
use crate::quintic_field::{lemma_base_inverse, lemma_mul_swap_inner, lemma_norm_zero};
use crate::quintic_power::{
    lemma_cancel, lemma_inverse, lemma_mul_canonical, lemma_one_times, lemma_units_canonical,
};
use crate::quintic_ring::Z5;

verus! {

/// The right-hand side of the equation of the curve.
pub open spec fn cubic(x: QuinticExtension) -> QuinticExtension {
    ((x * x) * x + coeff_cap_a() * x) + coeff_cap_b()
}

/// `(x2^3 - x1^3) / (x2 - x1) + A`.
pub open spec fn cubic_slope(x1: QuinticExtension, x2: QuinticExtension) -> QuinticExtension {
    ((x2 * x2 + x1 * x2) + x1 * x1) + coeff_cap_a()
}

proof fn lemma_constants_canonical()
    ensures
        coeff_cap_a().canonical(),
        coeff_cap_b().canonical(),
{
    lemma_of_view(Z5 { c0: 6148914689804861439, c1: 263, c2: 0, c3: 0, c4: 0 });
    lemma_of_view(Z5 { c0: 15713893096167979237, c1: 6148914689804861265, c2: 0, c3: 0, c4: 0 });
}

/// The difference of two values of the cubic.
proof fn lemma_cubic_difference(x1: QuinticExtension, x2: QuinticExtension)
    requires
        x1.canonical(),
        x2.canonical(),
    ensures
        (x2 - x1) * cubic_slope(x1, x2) == cubic(x2) - cubic(x1),
{
    let ca = coeff_cap_a();
    let cb = coeff_cap_b();
    lemma_constants_canonical();
    let (s2, s12, s1) = (x2 * x2, x1 * x2, x1 * x1);
    let k = cubic_slope(x1, x2);
    lemma_mul_sub(x2, x1, k);
    // x2 * k
    lemma_distribute((s2 + s12) + s1, ca, x2);
    lemma_distribute(s2 + s12, s1, x2);
    lemma_distribute(s2, s12, x2);
    // x1 * k
    lemma_distribute((s2 + s12) + s1, ca, x1);
    lemma_distribute(s2 + s12, s1, x1);
    lemma_distribute(s2, s12, x1);
    // the products, each in one form
    let c2 = s2 * x2;
    let c1 = s1 * x1;
    let m = x1 * s2;
    let n = s1 * x2;
    lemma_mul_comm(x2, s2);
    lemma_mul_comm(x2, s12);
    lemma_mul_assoc(x1, x2, x2);
    lemma_mul_comm(x2, s1);
    lemma_mul_comm(x1, s1);
    lemma_mul_assoc(x1, x1, x2);
    lemma_mul_comm(x2, ca);
    lemma_mul_comm(x1, ca);
    assert(x2 * s12 == m);
    assert(x1 * s12 == n);
    let (a2, a1) = (ca * x2, ca * x1);
    lemma_mul_canonical(s2, x2);
    lemma_mul_canonical(s1, x1);
    lemma_mul_canonical(x1, s2);
    lemma_mul_canonical(s1, x2);
    lemma_mul_canonical(ca, x2);
    lemma_mul_canonical(ca, x1);
    lemma_class_self(c2);
    lemma_class_self(c1);
    lemma_class_self(m);
    lemma_class_self(n);
    lemma_class_self(a2);
    lemma_class_self(a1);
    lemma_class_self(cb);
    lemma_class_add(c2, c2@, m, m@);
    lemma_class_add(c2 + m, c2@ + m@, n, n@);
    lemma_class_add((c2 + m) + n, c2@ + m@ + n@, a2, a2@);
    lemma_class_add(m, m@, n, n@);
    lemma_class_add(m + n, m@ + n@, c1, c1@);
    lemma_class_add((m + n) + c1, m@ + n@ + c1@, a1, a1@);
    lemma_class_sub(
        ((c2 + m) + n) + a2,
        c2@ + m@ + n@ + a2@,
        ((m + n) + c1) + a1,
        m@ + n@ + c1@ + a1@,
    );
    lemma_class_add(c2, c2@, a2, a2@);
    lemma_class_add(c2 + a2, c2@ + a2@, cb, cb@);
    lemma_class_add(c1, c1@, a1, a1@);
    lemma_class_add(c1 + a1, c1@ + a1@, cb, cb@);
    lemma_class_sub((c2 + a2) + cb, c2@ + a2@ + cb@, (c1 + a1) + cb, c1@ + a1@ + cb@);
    lemma_class_equal(
        (((c2 + m) + n) + a2) - (((m + n) + c1) + a1),
        c2@ + m@ + n@ + a2@ - (m@ + n@ + c1@ + a1@),
        ((c2 + a2) + cb) - ((c1 + a1) + cb),
        c2@ + a2@ + cb@ - (c1@ + a1@ + cb@),
    );
    lemma_mul_comm(x2, k);
    lemma_mul_comm(x1, k);
}

/// A line that meets the curve at `p` and at `x2` meets it at a third point.
pub proof fn lemma_third_point(p: PointEw, x2: QuinticExtension, l: QuinticExtension)
    requires
        p.canonical(),
        x2.canonical(),
        l.canonical(),
        on_curve(p),
        cubic_slope(p.x, x2) == l * (p.y + p.y) + (l * l) * (x2 - p.x),
    ensures
        on_curve(line_sum(p, x2, l)),
        line_sum(p, x2, l).canonical(),
{
    let (x1, y1) = (p.x, p.y);
    let s = l * l;
    let ca = coeff_cap_a();
    lemma_constants_canonical();
    lemma_mul_canonical(l, l);
    let x3 = (s - x1) - x2;
    lemma_mul_canonical(s, x1);
    lemma_mul_canonical(s - x1, x2);
    let u = x3 - x1;
    lemma_mul_canonical(x3, x1);
    // the slope of the cubic from x1 to x3 is that of the line
    lemma_third_slope(x1, y1, x2, x3, l);
    let t = l * (y1 + y1);
    assert(cubic_slope(x1, x3) == t + s * u);
    // cubic(x3) == y1^2 + u * (t + s * u)
    lemma_cubic_difference(x1, x3);
    lemma_mul_canonical(s, u);
    lemma_mul_canonical(t, s * u);
    let g = u * (t + s * u);
    let q = y1 * y1;
    assert(cubic(x1) == q);
    lemma_mul_canonical(y1, y1);
    lemma_mul_canonical(u, t + s * u);
    lemma_cubic_canonical(x3);
    lemma_sub_add(cubic(x3), q);
    assert(cubic(x3) == g + q);
    // (l u + y1)^2 is the same
    let v = l * u + y1;
    lemma_mul_canonical(l, u);
    lemma_mul_canonical(l * u, y1);
    lemma_line_square(l, u, y1);
    // the second coordinate is its opposite
    let y3 = l * (x1 - x3) - y1;
    lemma_opposite(l, x1, x3, y1);
    let o = QuinticExtension::nought();
    lemma_units_canonical();
    lemma_square_of_difference(v, o);
    lemma_minus_zero(v);
    lemma_mul_canonical(l * (x1 - x3), y1);
}

pub(crate) proof fn lemma_minus_zero(v: QuinticExtension)
    requires
        v.canonical(),
    ensures
        v - QuinticExtension::nought() == v,
{
    lemma_units_canonical();
    lemma_sub_add(v, QuinticExtension::nought());
    lemma_mul_canonical(v, QuinticExtension::nought());
    lemma_one_times(v - QuinticExtension::nought());
}

proof fn lemma_cubic_canonical(x: QuinticExtension)
    ensures
        cubic(x).canonical(),
{
    lemma_mul_canonical((x * x) * x + coeff_cap_a() * x, coeff_cap_b());
}

/// `l (x1 - x3) - y1` is the opposite of `l (x3 - x1) + y1`.
proof fn lemma_opposite(
    l: QuinticExtension,
    x1: QuinticExtension,
    x3: QuinticExtension,
    y1: QuinticExtension,
)
    requires
        x1.canonical(),
        x3.canonical(),
        y1.canonical(),
    ensures
        l * (x1 - x3) - y1 == QuinticExtension::nought() - (l * (x3 - x1) + y1),
{
    lemma_mul_sub(x1, x3, l);
    lemma_mul_sub(x3, x1, l);
    let (a, b) = (l * x1, l * x3);
    let o = QuinticExtension::nought();
    lemma_mul_canonical(l, x1);
    lemma_mul_canonical(l, x3);
    lemma_units_canonical();
    lemma_class_self(a);
    lemma_class_self(b);
    lemma_class_self(y1);
    lemma_class_self(o);
    lemma_class_sub(a, a@, b, b@);
    lemma_class_sub(b, b@, a, a@);
    lemma_class_sub(a - b, a@ - b@, y1, y1@);
    lemma_class_add(b - a, b@ - a@, y1, y1@);
    lemma_class_sub(o, o@, (b - a) + y1, b@ - a@ + y1@);
    assert(o@ == (Z5 { c0: 0, c1: 0, c2: 0, c3: 0, c4: 0 }));
    lemma_class_equal((a - b) - y1, a@ - b@ - y1@, o - ((b - a) + y1), o@ - (b@ - a@ + y1@));
}

/// `(l u + y)^2 == u (l (y + y) + l^2 u) + y^2`.
proof fn lemma_line_square(l: QuinticExtension, u: QuinticExtension, y: QuinticExtension)
    ensures
        (l * u + y) * (l * u + y) == u * (l * (y + y) + (l * l) * u) + y * y,
{
    let w = l * u;
    let q = y * y;
    lemma_product_of_sums(w, y, w, y);
    // w * w == u * ((l * l) * u)
    lemma_mul_swap_inner(l, u, l, u);
    lemma_mul_assoc(l * l, u, u);
    let ss = u * ((l * l) * u);
    lemma_mul_comm(u, (l * l) * u);
    assert(w * w == ss);
    // w * y + y * w == u * (l * (y + y))
    lemma_mul_comm(y, w);
    lemma_distribute(y, y, w);
    lemma_mul_comm(l, u);
    lemma_mul_assoc(u, l, y + y);
    let tt = u * (l * (y + y));
    assert(w * y + w * y == tt);
    // put together
    lemma_distribute(l * (y + y), (l * l) * u, u);
    let wy = w * y;
    lemma_add_assoc(ss, wy, wy + q);
    lemma_add_assoc(wy, wy, q);
    lemma_add_assoc(ss, tt, q);
    lemma_add_comm(ss, tt);
}

proof fn lemma_sum_of_abscissas(s: QuinticExtension, x1: QuinticExtension, x2: QuinticExtension)
    requires
        s.canonical(),
        x1.canonical(),
        x2.canonical(),
    ensures
        (((s - x1) - x2) + x2) + x1 == s,
{
    lemma_mul_canonical(s, x1);
    lemma_sub_add(s - x1, x2);
    lemma_sub_add(s, x1);
}

proof fn lemma_telescope(x1: QuinticExtension, x2: QuinticExtension, x3: QuinticExtension)
    requires
        x1.canonical(),
        x2.canonical(),
        x3.canonical(),
    ensures
        (x2 - x1) + (x3 - x2) == x3 - x1,
{
    lemma_class_self(x1);
    lemma_class_self(x2);
    lemma_class_self(x3);
    lemma_class_sub(x2, x2@, x1, x1@);
    lemma_class_sub(x3, x3@, x2, x2@);
    lemma_class_add(x2 - x1, x2@ - x1@, x3 - x2, x3@ - x2@);
    lemma_class_sub(x3, x3@, x1, x1@);
    lemma_class_equal(
        (x2 - x1) + (x3 - x2),
        x2@ - x1@ + (x3@ - x2@),
        x3 - x1,
        x3@ - x1@,
    );
}

/// `b + ((a - b) + (c - d))` with the terms of the slope of the cubic.
proof fn lemma_slope_difference(
    s3: QuinticExtension,
    s2: QuinticExtension,
    m3: QuinticExtension,
    m2: QuinticExtension,
    s1: QuinticExtension,
    ca: QuinticExtension,
)
    requires
        s3.canonical(),
        s2.canonical(),
        m3.canonical(),
        m2.canonical(),
        s1.canonical(),
        ca.canonical(),
    ensures
        ((s3 + m3) + s1) + ca == (((s2 + m2) + s1) + ca) + ((s3 - s2) + (m3 - m2)),
{
    lemma_class_self(s3);
    lemma_class_self(s2);
    lemma_class_self(m3);
    lemma_class_self(m2);
    lemma_class_self(s1);
    lemma_class_self(ca);
    lemma_class_sub(s3, s3@, s2, s2@);
    lemma_class_sub(m3, m3@, m2, m2@);
    lemma_class_add(s3 - s2, s3@ - s2@, m3 - m2, m3@ - m2@);
    lemma_class_add(s3, s3@, m3, m3@);
    lemma_class_add(s3 + m3, s3@ + m3@, s1, s1@);
    lemma_class_add((s3 + m3) + s1, s3@ + m3@ + s1@, ca, ca@);
    lemma_class_add(s2, s2@, m2, m2@);
    lemma_class_add(s2 + m2, s2@ + m2@, s1, s1@);
    lemma_class_add((s2 + m2) + s1, s2@ + m2@ + s1@, ca, ca@);
    lemma_class_add(
        ((s2 + m2) + s1) + ca,
        s2@ + m2@ + s1@ + ca@,
        (s3 - s2) + (m3 - m2),
        s3@ - s2@ + (m3@ - m2@),
    );
    lemma_class_equal(
        (((s2 + m2) + s1) + ca) + ((s3 - s2) + (m3 - m2)),
        s2@ + m2@ + s1@ + ca@ + (s3@ - s2@ + (m3@ - m2@)),
        ((s3 + m3) + s1) + ca,
        s3@ + m3@ + s1@ + ca@,
    );
}

/// The slope of the cubic towards the third point.
pub proof fn lemma_third_slope(
    x1: QuinticExtension,
    y1: QuinticExtension,
    x2: QuinticExtension,
    x3: QuinticExtension,
    l: QuinticExtension,
)
    requires
        x1.canonical(),
        y1.canonical(),
        x2.canonical(),
        l.canonical(),
        x3 == (l * l - x1) - x2,
        cubic_slope(x1, x2) == l * (y1 + y1) + (l * l) * (x2 - x1),
    ensures
        cubic_slope(x1, x3) == l * (y1 + y1) + (l * l) * (x3 - x1),
{
    let s = l * l;
    let ca = coeff_cap_a();
    lemma_constants_canonical();
    lemma_mul_canonical(l, l);
    lemma_mul_canonical(s, x1);
    lemma_mul_canonical(s - x1, x2);
    lemma_sum_of_abscissas(s, x1, x2);
    // (x3 - x2) * l^2 == (x3^2 - x2^2) + (x1 x3 - x1 x2)
    let d = x3 - x2;
    lemma_mul_canonical(x3, x2);
    lemma_distribute(x3 + x2, x1, d);
    lemma_difference_of_squares(x3, x2);
    lemma_mul_sub(x3, x2, x1);
    lemma_mul_comm(d, x1);
    let (s3, s2, m3, m2, s1) = (x3 * x3, x2 * x2, x1 * x3, x1 * x2, x1 * x1);
    assert(d * s == (s3 - s2) + (m3 - m2));
    lemma_mul_canonical(x3, x3);
    lemma_mul_canonical(x2, x2);
    lemma_mul_canonical(x1, x3);
    lemma_mul_canonical(x1, x2);
    lemma_mul_canonical(x1, x1);
    lemma_slope_difference(s3, s2, m3, m2, s1, ca);
    assert(cubic_slope(x1, x3) == cubic_slope(x1, x2) + d * s);
    // and l^2 (x2 - x1) + (x3 - x2) l^2 == l^2 (x3 - x1)
    let e = x2 - x1;
    lemma_mul_comm(d, s);
    lemma_telescope(x1, x2, x3);
    lemma_distribute(e, d, s);
    lemma_add_assoc(l * (y1 + y1), s * e, s * d);
}

/// A non-zero element has an inverse.
pub(crate) proof fn lemma_has_inverse(d: QuinticExtension) -> (i: QuinticExtension)
    requires
        d.canonical(),
        d != QuinticExtension::nought(),
    ensures
        d * i == QuinticExtension::unit(),
{
    crate::conjugate::lemma_norm_is_base(d);
    if crate::conjugate::norm(d) == 0 {
        lemma_norm_zero(d);
    }
    let k = lemma_base_inverse(crate::conjugate::norm(d));
    lemma_inverse(d, k);
    crate::conjugate::konst(k) * crate::conjugate::cofactor(d)
}

/// The quotient by a non-zero element is what its name says.
pub proof fn lemma_quotient_times(a: QuinticExtension, d: QuinticExtension)
    requires
        a.canonical(),
        d.canonical(),
        d != QuinticExtension::nought(),
    ensures
        quotient(a, d) * d == a,
        quotient(a, d).canonical(),
{
    let i = lemma_has_inverse(d);
    lemma_mul_assoc(a, i, d);
    lemma_mul_comm(i, d);
    lemma_one_times(a);
    lemma_mul_canonical(a, i);
    assert((a * i).canonical() && (a * i) * d == a);
}

/// The chord through two points of the curve with different first coordinates:
/// its slope, and that it meets the curve at both.
pub proof fn lemma_chord_slope(p: PointEw, q: PointEw)
    requires
        p.canonical(),
        q.canonical(),
        on_curve(p),
        on_curve(q),
        p.x != q.x,
    ensures
        chord_slope(p, q).canonical(),
        chord_slope(p, q) * (q.x - p.x) == q.y - p.y,
        cubic_slope(p.x, q.x) == chord_slope(p, q) * (p.y + p.y) + (chord_slope(p, q) * chord_slope(
            p,
            q,
        )) * (q.x - p.x),
{
    let (x1, y1, x2, y2) = (p.x, p.y, q.x, q.y);
    let d = x2 - x1;
    let h = y2 - y1;
    lemma_difference_zero(x2, x1);
    lemma_mul_canonical(x2, x1);
    lemma_mul_canonical(y2, y1);
    lemma_quotient_times(h, d);
    let l = chord_slope(p, q);
    let i = lemma_has_inverse(d);
    // d * cubic_slope == y2^2 - y1^2 == (l d) (y2 + y1)
    let k = cubic_slope(x1, x2);
    lemma_cubic_difference(x1, x2);
    lemma_difference_of_squares(y2, y1);
    assert(d * k == h * (y2 + y1));
    lemma_mul_assoc(l, d, y2 + y1);
    lemma_mul_comm(d, y2 + y1);
    lemma_mul_assoc(l, y2 + y1, d);
    lemma_mul_comm(d, k);
    let m = l * (y2 + y1);
    lemma_mul_canonical(l, y2 + y1);
    lemma_mul_canonical((x2 * x2 + x1 * x2) + x1 * x1, coeff_cap_a());
    lemma_cancel(d, i, k, m);
    // y2 + y1 == (y1 + y1) + l d
    lemma_sub_add(y2, y1);
    lemma_add_assoc(h, y1, y1);
    lemma_add_comm(h, y1 + y1);
    lemma_distribute(y1 + y1, h, l);
    lemma_mul_assoc(l, l, d);
}

/// The sum of two points of the curve with different first coordinates is a
/// point of the curve.
pub proof fn lemma_chord_on_curve(p: PointEw, q: PointEw)
    requires
        p.canonical(),
        q.canonical(),
        on_curve(p),
        on_curve(q),
        p.x != q.x,
    ensures
        on_curve(chord_sum(p, q)),
        chord_sum(p, q).canonical(),
{
    lemma_chord_slope(p, q);
    lemma_third_point(p, q.x, chord_slope(p, q));
}

/// The tangent at a point of the curve: its slope, and that it meets the curve
/// there twice.
pub proof fn lemma_tangent_slope(p: PointEw)
    requires
        p.canonical(),
        on_curve(p),
        can_double(p),
    ensures
        tangent_slope(p).canonical(),
        tangent_slope(p) * (p.y + p.y) == cubic_slope(p.x, p.x),
        cubic_slope(p.x, p.x) == tangent_slope(p) * (p.y + p.y) + (tangent_slope(p)
            * tangent_slope(p)) * (p.x - p.x),
{
    let (x, y) = (p.x, p.y);
    let ca = coeff_cap_a();
    lemma_constants_canonical();
    let num = (x * x) * small(3) + ca;
    let den = y * small(2);
    lemma_twice_nonzero(y);
    lemma_mul_canonical(y, small(2));
    lemma_mul_canonical((x * x) * small(3), ca);
    lemma_quotient_times(num, den);
    let l = tangent_slope(p);
    // den == y + y and num == cubic_slope(x, x)
    let s = x * x;
    lemma_mul_canonical(x, x);
    lemma_class_self(y);
    lemma_class_self(s);
    lemma_class_self(ca);
    crate::algebra::lemma_class_scale(2, y, y@);
    crate::algebra::lemma_class_scale(3, s, s@);
    lemma_class_add(y, y@, y, y@);
    lemma_class_equal(y + y, y@ + y@, y * small(2), y@.scale(2));
    lemma_class_add(s, s@, s, s@);
    lemma_class_add(s + s, s@ + s@, s, s@);
    lemma_class_equal((s + s) + s, s@ + s@ + s@, s * small(3), s@.scale(3));
    assert(cubic_slope(x, x) == num);
    // the second term of the line vanishes
    crate::quintic::lemma_zero_one(x);
    lemma_mul_canonical(l, l);
    lemma_one_times(l * l);
    lemma_mul_canonical(l, y + y);
    lemma_one_times(l * (y + y));
}

/// Twice a point of the curve is a point of the curve.
pub proof fn lemma_double_on_curve(p: PointEw)
    requires
        p.canonical(),
        on_curve(p),
        can_double(p),
    ensures
        on_curve(point_double(p)),
        point_double(p).canonical(),
{
    lemma_tangent_slope(p);
    lemma_third_point(p, p.x, tangent_slope(p));
}

/// The sum of two points of the curve is a point of the curve or the point at
/// infinity.
pub proof fn lemma_add_on_curve(p: PointEw, q: PointEw)
    requires
        p.canonical(),
        q.canonical(),
        p.at_inf || on_curve(p),
        q.at_inf || on_curve(q),
        can_add(p, q),
    ensures
        point_add(p, q).at_inf || on_curve(point_add(p, q)),
        point_add(p, q).canonical(),
{
    lemma_units_canonical();
    if !p.at_inf && !q.at_inf {
        if p.x == q.x {
            if p.y == q.y {
                lemma_double_on_curve(p);
            }
        } else {
            lemma_chord_on_curve(p, q);
        }
    }
}

/// Every multiple of a point of the curve is a point of the curve or the point
/// at infinity.
pub proof fn lemma_multiple_on_curve(p: PointEw, k: nat)
    requires
        p.canonical(),
        on_curve(p),
        can_multiply(p, k),
    ensures
        multiple(p, k).at_inf || on_curve(multiple(p, k)),
        multiple(p, k).canonical(),
    decreases k,
{
    lemma_units_canonical();
    if !p.at_inf && k > 1 {
        let h = multiple(p, k / 2);
        lemma_multiple_on_curve(p, k / 2);
        lemma_double_multiple(h);
        if k % 2 == 1 {
            lemma_add_on_curve(point_double(h), p);
        }
    }
}

/// A point that can be doubled and is on the curve or at infinity is doubled to
/// a point of the curve.
proof fn lemma_double_multiple(h: PointEw)
    requires
        h.canonical(),
        h.at_inf ==> h == crate::ecgfp5::infinity(),
        h.at_inf || on_curve(h),
        can_double(h),
    ensures
        on_curve(point_double(h)),
        point_double(h).canonical(),
{
    lemma_double_on_curve(h);
}

} // verus!
