//! The generator has the order of the group.
//!
//! The proof follows a chain of doublings and additions from the generator to half
//! the order, with the slope of every line and the coordinates of every point.
use vstd::prelude::*;

use crate::chords::{joins, lemma_curve_canonical, opposite};
use crate::ecgfp5::{generator_point, infinity, line_sum, on_curve, point_add, PointEw};
use crate::curve_group::lemma_sum_is_line;
use crate::group_law::{lemma_opposite_proper, lemma_sum_cancel};
use crate::multiples::{lemma_times_add, lemma_times_proper, times};
use crate::proper::{lemma_proper_regular, proper, roots};
use crate::quintic::{lemma_of_equal, lemma_of_view, lemma_zero_one, QuinticExtension};
use crate::quintic_field::lemma_product_is;
use crate::quintic_power::{lemma_mul_canonical, lemma_one_times, lemma_units_canonical};
use crate::quintic_ring::{lemma_reduce_add, lemma_reduce_twice, Z5};
use crate::scalar::group_order;

verus! {

/// A polynomial by its coefficients.
pub open spec fn z(c0: int, c1: int, c2: int, c3: int, c4: int) -> Z5 {
    Z5 { c0, c1, c2, c3, c4 }
}

/// The point with the given coordinates.
pub open spec fn point(x: Z5, y: Z5) -> PointEw {
    PointEw { x: QuinticExtension::of(x), y: QuinticExtension::of(y), at_inf: false }
}

/// Whether `k` times the generator is the point with the given coordinates.
#[verifier::opaque]
pub open spec fn at(k: nat, x: Z5, y: Z5) -> bool {
    times(generator_point(), k) == point(x, y)
}

/// Coefficient 0 of a product.
pub open spec fn product0(
    a0: int, a1: int, a2: int, a3: int, a4: int,
    b0: int, b1: int, b2: int, b3: int, b4: int,
) -> int {
    a0 * b0 + a1 * (3 * b4) + a2 * (3 * b3) + a3 * (3 * b2) + a4 * (3 * b1)
}

/// Coefficient 1 of a product.
pub open spec fn product1(
    a0: int, a1: int, a2: int, a3: int, a4: int,
    b0: int, b1: int, b2: int, b3: int, b4: int,
) -> int {
    a0 * b1 + a1 * b0 + a2 * (3 * b4) + a3 * (3 * b3) + a4 * (3 * b2)
}

/// Coefficient 2 of a product.
pub open spec fn product2(
    a0: int, a1: int, a2: int, a3: int, a4: int,
    b0: int, b1: int, b2: int, b3: int, b4: int,
) -> int {
    a0 * b2 + a1 * b1 + a2 * b0 + a3 * (3 * b4) + a4 * (3 * b3)
}

/// Coefficient 3 of a product.
pub open spec fn product3(
    a0: int, a1: int, a2: int, a3: int, a4: int,
    b0: int, b1: int, b2: int, b3: int, b4: int,
) -> int {
    a0 * b3 + a1 * b2 + a2 * b1 + a3 * b0 + a4 * (3 * b4)
}

/// Coefficient 4 of a product.
pub open spec fn product4(
    a0: int, a1: int, a2: int, a3: int, a4: int,
    b0: int, b1: int, b2: int, b3: int, b4: int,
) -> int {
    a0 * b4 + a1 * b3 + a2 * b2 + a3 * b1 + a4 * b0
}

/// The class of a difference and of a sum.
pub(crate) proof fn lemma_of_ops(a: Z5, b: Z5)
    ensures
        QuinticExtension::of(a) + QuinticExtension::of(b) == QuinticExtension::of(a + b),
        QuinticExtension::of(a) - QuinticExtension::of(b) == QuinticExtension::of(a - b),
        QuinticExtension::of(a) * QuinticExtension::of(b) == QuinticExtension::of(a * b),
{
    reveal(QuinticExtension::spec_add);
    reveal(QuinticExtension::spec_sub);
    lemma_of_view(a);
    lemma_of_view(b);
    lemma_reduce_twice(a);
    lemma_reduce_twice(b);
    lemma_reduce_add(a.reduce(), a, b.reduce());
    lemma_reduce_add(b.reduce(), b, a);
    lemma_of_equal(a.reduce() + b.reduce(), a + b);
    lemma_of_equal(a.reduce() - b.reduce(), a - b);
    lemma_product_is(a, b, a * b);
}

/// The sum on a line with the given slope, in coordinates.
proof fn lemma_line_in_coordinates(x: Z5, y: Z5, u: Z5, l: Z5, x2: Z5, y2: Z5)
    requires
        ((l * l - x) - u).reduce() == x2.reduce(),
        (l * (x - x2) - y).reduce() == y2.reduce(),
    ensures
        line_sum(point(x, y), QuinticExtension::of(u), QuinticExtension::of(l)) == point(x2, y2),
{
    lemma_of_ops(l, l);
    lemma_of_ops(l * l, x);
    lemma_of_ops(l * l - x, u);
    lemma_of_equal((l * l - x) - u, x2);
    lemma_of_ops(x, x2);
    lemma_of_ops(l, x - x2);
    lemma_of_ops(l * (x - x2), y);
    lemma_of_equal(l * (x - x2) - y, y2);
}

/// Polynomials that differ by a multiple of the prime have the same class.
pub(crate) proof fn lemma_same_class(a: Z5, b: Z5, q: Z5)
    requires
        a.c0 == b.c0 + q.c0 * 0xffff_ffff_0000_0001,
        a.c1 == b.c1 + q.c1 * 0xffff_ffff_0000_0001,
        a.c2 == b.c2 + q.c2 * 0xffff_ffff_0000_0001,
        a.c3 == b.c3 + q.c3 * 0xffff_ffff_0000_0001,
        a.c4 == b.c4 + q.c4 * 0xffff_ffff_0000_0001,
    ensures
        a.reduce() == b.reduce(),
{
    let p = crate::primes::goldilocks();
    vstd::arithmetic::div_mod::lemma_mod_multiples_vanish(q.c0, b.c0, p);
    vstd::arithmetic::div_mod::lemma_mod_multiples_vanish(q.c1, b.c1, p);
    vstd::arithmetic::div_mod::lemma_mod_multiples_vanish(q.c2, b.c2, p);
    vstd::arithmetic::div_mod::lemma_mod_multiples_vanish(q.c3, b.c3, p);
    vstd::arithmetic::div_mod::lemma_mod_multiples_vanish(q.c4, b.c4, p);
}

/// The tangent at a point of the group: `l` is its slope, and `(u, v)` twice the
/// point `(x, y)`.
pub(crate) proof fn lemma_tangent(
    x0: int, x1: int, x2: int, x3: int, x4: int,
    y0: int, y1: int, y2: int, y3: int, y4: int,
    l0: int, l1: int, l2: int, l3: int, l4: int,
    u0: int, u1: int, u2: int, u3: int, u4: int,
    v0: int, v1: int, v2: int, v3: int, v4: int,
    q0: int, q1: int, q2: int, q3: int, q4: int,
    r0: int, r1: int, r2: int, r3: int, r4: int,
    w0: int, w1: int, w2: int, w3: int, w4: int,
)
    requires
        proper(point(z(x0, x1, x2, x3, x4), z(y0, y1, y2, y3, y4))),
        product0(l0, l1, l2, l3, l4, y0 + y0, y1 + y1, y2 + y2, y3 + y3, y4 + y4) == 3 * product0(x0, x1, x2, x3, x4, x0, x1, x2, x3, x4) + 6148914689804861439 + q0 * 0xffff_ffff_0000_0001,
        product1(l0, l1, l2, l3, l4, y0 + y0, y1 + y1, y2 + y2, y3 + y3, y4 + y4) == 3 * product1(x0, x1, x2, x3, x4, x0, x1, x2, x3, x4) + 263 + q1 * 0xffff_ffff_0000_0001,
        product2(l0, l1, l2, l3, l4, y0 + y0, y1 + y1, y2 + y2, y3 + y3, y4 + y4) == 3 * product2(x0, x1, x2, x3, x4, x0, x1, x2, x3, x4) + q2 * 0xffff_ffff_0000_0001,
        product3(l0, l1, l2, l3, l4, y0 + y0, y1 + y1, y2 + y2, y3 + y3, y4 + y4) == 3 * product3(x0, x1, x2, x3, x4, x0, x1, x2, x3, x4) + q3 * 0xffff_ffff_0000_0001,
        product4(l0, l1, l2, l3, l4, y0 + y0, y1 + y1, y2 + y2, y3 + y3, y4 + y4) == 3 * product4(x0, x1, x2, x3, x4, x0, x1, x2, x3, x4) + q4 * 0xffff_ffff_0000_0001,
        product0(l0, l1, l2, l3, l4, l0, l1, l2, l3, l4) - x0 - x0 == u0 + r0 * 0xffff_ffff_0000_0001,
        product1(l0, l1, l2, l3, l4, l0, l1, l2, l3, l4) - x1 - x1 == u1 + r1 * 0xffff_ffff_0000_0001,
        product2(l0, l1, l2, l3, l4, l0, l1, l2, l3, l4) - x2 - x2 == u2 + r2 * 0xffff_ffff_0000_0001,
        product3(l0, l1, l2, l3, l4, l0, l1, l2, l3, l4) - x3 - x3 == u3 + r3 * 0xffff_ffff_0000_0001,
        product4(l0, l1, l2, l3, l4, l0, l1, l2, l3, l4) - x4 - x4 == u4 + r4 * 0xffff_ffff_0000_0001,
        product0(l0, l1, l2, l3, l4, x0 - u0, x1 - u1, x2 - u2, x3 - u3, x4 - u4) - y0 == v0 + w0 * 0xffff_ffff_0000_0001,
        product1(l0, l1, l2, l3, l4, x0 - u0, x1 - u1, x2 - u2, x3 - u3, x4 - u4) - y1 == v1 + w1 * 0xffff_ffff_0000_0001,
        product2(l0, l1, l2, l3, l4, x0 - u0, x1 - u1, x2 - u2, x3 - u3, x4 - u4) - y2 == v2 + w2 * 0xffff_ffff_0000_0001,
        product3(l0, l1, l2, l3, l4, x0 - u0, x1 - u1, x2 - u2, x3 - u3, x4 - u4) - y3 == v3 + w3 * 0xffff_ffff_0000_0001,
        product4(l0, l1, l2, l3, l4, x0 - u0, x1 - u1, x2 - u2, x3 - u3, x4 - u4) - y4 == v4 + w4 * 0xffff_ffff_0000_0001,
    ensures
        point_add(
            point(z(x0, x1, x2, x3, x4), z(y0, y1, y2, y3, y4)),
            point(z(x0, x1, x2, x3, x4), z(y0, y1, y2, y3, y4)),
        ) == point(z(u0, u1, u2, u3, u4), z(v0, v1, v2, v3, v4)),
{
    let (x, y, l, x2, y2) = (
        z(x0, x1, x2, x3, x4),
        z(y0, y1, y2, y3, y4),
        z(l0, l1, l2, l3, l4),
        z(u0, u1, u2, u3, u4),
        z(v0, v1, v2, v3, v4),
    );
    let p = point(x, y);
    let m = QuinticExtension::of(l);
    lemma_proper_regular(p);
    lemma_of_view(x);
    lemma_of_view(y);
    lemma_of_view(l);
    // the line is the tangent
    let c = z(6148914689804861439, 263, 0, 0, 0);
    lemma_of_ops(x, x);
    lemma_of_ops(x * x, x * x);
    lemma_of_ops(x * x + x * x, x * x);
    lemma_of_ops((x * x + x * x) + x * x, c);
    assert((x * x + x * x) + x * x == (x * x).scale(3));
    lemma_of_ops(y, y);
    lemma_of_ops(l, y + y);
    lemma_same_class(l * (y + y), (x * x).scale(3) + c, z(q0, q1, q2, q3, q4));
    lemma_of_equal(l * (y + y), (x * x).scale(3) + c);
    lemma_curve_canonical();
    lemma_zero_one(p.x);
    lemma_zero_one(m);
    lemma_mul_canonical(m, m);
    lemma_zero_one(m * m);
    lemma_mul_canonical(m, p.y + p.y);
    lemma_zero_one(m * (p.y + p.y));
    lemma_one_times(p.y);
    assert(joins(p, p, m));
    lemma_sum_is_line(p, p, m);
    lemma_same_class((l * l - x) - x, x2, z(r0, r1, r2, r3, r4));
    lemma_same_class(l * (x - x2) - y, y2, z(w0, w1, w2, w3, w4));
    lemma_line_in_coordinates(x, y, x, l, x2, y2);
}

/// A multiple of the generator doubled: `l` is the slope of the tangent at `(x, y)`,
/// and `(u, v)` twice that point.
proof fn lemma_doubled(
    k: nat,
    x0: int, x1: int, x2: int, x3: int, x4: int,
    y0: int, y1: int, y2: int, y3: int, y4: int,
    l0: int, l1: int, l2: int, l3: int, l4: int,
    u0: int, u1: int, u2: int, u3: int, u4: int,
    v0: int, v1: int, v2: int, v3: int, v4: int,
    q0: int, q1: int, q2: int, q3: int, q4: int,
    r0: int, r1: int, r2: int, r3: int, r4: int,
    w0: int, w1: int, w2: int, w3: int, w4: int,
)
    requires
        at(k, z(x0, x1, x2, x3, x4), z(y0, y1, y2, y3, y4)),
        product0(l0, l1, l2, l3, l4, y0 + y0, y1 + y1, y2 + y2, y3 + y3, y4 + y4) == 3 * product0(x0, x1, x2, x3, x4, x0, x1, x2, x3, x4) + 6148914689804861439 + q0 * 0xffff_ffff_0000_0001,
        product1(l0, l1, l2, l3, l4, y0 + y0, y1 + y1, y2 + y2, y3 + y3, y4 + y4) == 3 * product1(x0, x1, x2, x3, x4, x0, x1, x2, x3, x4) + 263 + q1 * 0xffff_ffff_0000_0001,
        product2(l0, l1, l2, l3, l4, y0 + y0, y1 + y1, y2 + y2, y3 + y3, y4 + y4) == 3 * product2(x0, x1, x2, x3, x4, x0, x1, x2, x3, x4) + q2 * 0xffff_ffff_0000_0001,
        product3(l0, l1, l2, l3, l4, y0 + y0, y1 + y1, y2 + y2, y3 + y3, y4 + y4) == 3 * product3(x0, x1, x2, x3, x4, x0, x1, x2, x3, x4) + q3 * 0xffff_ffff_0000_0001,
        product4(l0, l1, l2, l3, l4, y0 + y0, y1 + y1, y2 + y2, y3 + y3, y4 + y4) == 3 * product4(x0, x1, x2, x3, x4, x0, x1, x2, x3, x4) + q4 * 0xffff_ffff_0000_0001,
        product0(l0, l1, l2, l3, l4, l0, l1, l2, l3, l4) - x0 - x0 == u0 + r0 * 0xffff_ffff_0000_0001,
        product1(l0, l1, l2, l3, l4, l0, l1, l2, l3, l4) - x1 - x1 == u1 + r1 * 0xffff_ffff_0000_0001,
        product2(l0, l1, l2, l3, l4, l0, l1, l2, l3, l4) - x2 - x2 == u2 + r2 * 0xffff_ffff_0000_0001,
        product3(l0, l1, l2, l3, l4, l0, l1, l2, l3, l4) - x3 - x3 == u3 + r3 * 0xffff_ffff_0000_0001,
        product4(l0, l1, l2, l3, l4, l0, l1, l2, l3, l4) - x4 - x4 == u4 + r4 * 0xffff_ffff_0000_0001,
        product0(l0, l1, l2, l3, l4, x0 - u0, x1 - u1, x2 - u2, x3 - u3, x4 - u4) - y0 == v0 + w0 * 0xffff_ffff_0000_0001,
        product1(l0, l1, l2, l3, l4, x0 - u0, x1 - u1, x2 - u2, x3 - u3, x4 - u4) - y1 == v1 + w1 * 0xffff_ffff_0000_0001,
        product2(l0, l1, l2, l3, l4, x0 - u0, x1 - u1, x2 - u2, x3 - u3, x4 - u4) - y2 == v2 + w2 * 0xffff_ffff_0000_0001,
        product3(l0, l1, l2, l3, l4, x0 - u0, x1 - u1, x2 - u2, x3 - u3, x4 - u4) - y3 == v3 + w3 * 0xffff_ffff_0000_0001,
        product4(l0, l1, l2, l3, l4, x0 - u0, x1 - u1, x2 - u2, x3 - u3, x4 - u4) - y4 == v4 + w4 * 0xffff_ffff_0000_0001,
    ensures
        at(k + k, z(u0, u1, u2, u3, u4), z(v0, v1, v2, v3, v4)),
{
    reveal(at);
    let g = generator_point();
    lemma_generator_proper();
    lemma_times_proper(g, k);
    lemma_times_add(g, k, k);
    lemma_tangent(
        x0, x1, x2, x3, x4,
        y0, y1, y2, y3, y4,
        l0, l1, l2, l3, l4,
        u0, u1, u2, u3, u4,
        v0, v1, v2, v3, v4,
        q0, q1, q2, q3, q4,
        r0, r1, r2, r3, r4,
        w0, w1, w2, w3, w4,
    );
}

/// The chord through two points of the group: `l` is its slope, and `(u, v)` the sum
/// of `(x, y)` and `(s, t)`.
proof fn lemma_chord(
    x0: int, x1: int, x2: int, x3: int, x4: int,
    y0: int, y1: int, y2: int, y3: int, y4: int,
    s0: int, s1: int, s2: int, s3: int, s4: int,
    t0: int, t1: int, t2: int, t3: int, t4: int,
    l0: int, l1: int, l2: int, l3: int, l4: int,
    u0: int, u1: int, u2: int, u3: int, u4: int,
    v0: int, v1: int, v2: int, v3: int, v4: int,
    q0: int, q1: int, q2: int, q3: int, q4: int,
    r0: int, r1: int, r2: int, r3: int, r4: int,
    w0: int, w1: int, w2: int, w3: int, w4: int,
)
    requires
        proper(point(z(x0, x1, x2, x3, x4), z(y0, y1, y2, y3, y4))),
        proper(point(z(s0, s1, s2, s3, s4), z(t0, t1, t2, t3, t4))),
        product0(l0, l1, l2, l3, l4, s0 - x0, s1 - x1, s2 - x2, s3 - x3, s4 - x4) == t0 - y0 + q0 * 0xffff_ffff_0000_0001,
        product1(l0, l1, l2, l3, l4, s0 - x0, s1 - x1, s2 - x2, s3 - x3, s4 - x4) == t1 - y1 + q1 * 0xffff_ffff_0000_0001,
        product2(l0, l1, l2, l3, l4, s0 - x0, s1 - x1, s2 - x2, s3 - x3, s4 - x4) == t2 - y2 + q2 * 0xffff_ffff_0000_0001,
        product3(l0, l1, l2, l3, l4, s0 - x0, s1 - x1, s2 - x2, s3 - x3, s4 - x4) == t3 - y3 + q3 * 0xffff_ffff_0000_0001,
        product4(l0, l1, l2, l3, l4, s0 - x0, s1 - x1, s2 - x2, s3 - x3, s4 - x4) == t4 - y4 + q4 * 0xffff_ffff_0000_0001,
        product0(l0, l1, l2, l3, l4, l0, l1, l2, l3, l4) - x0 - s0 == u0 + r0 * 0xffff_ffff_0000_0001,
        product1(l0, l1, l2, l3, l4, l0, l1, l2, l3, l4) - x1 - s1 == u1 + r1 * 0xffff_ffff_0000_0001,
        product2(l0, l1, l2, l3, l4, l0, l1, l2, l3, l4) - x2 - s2 == u2 + r2 * 0xffff_ffff_0000_0001,
        product3(l0, l1, l2, l3, l4, l0, l1, l2, l3, l4) - x3 - s3 == u3 + r3 * 0xffff_ffff_0000_0001,
        product4(l0, l1, l2, l3, l4, l0, l1, l2, l3, l4) - x4 - s4 == u4 + r4 * 0xffff_ffff_0000_0001,
        product0(l0, l1, l2, l3, l4, x0 - u0, x1 - u1, x2 - u2, x3 - u3, x4 - u4) - y0 == v0 + w0 * 0xffff_ffff_0000_0001,
        product1(l0, l1, l2, l3, l4, x0 - u0, x1 - u1, x2 - u2, x3 - u3, x4 - u4) - y1 == v1 + w1 * 0xffff_ffff_0000_0001,
        product2(l0, l1, l2, l3, l4, x0 - u0, x1 - u1, x2 - u2, x3 - u3, x4 - u4) - y2 == v2 + w2 * 0xffff_ffff_0000_0001,
        product3(l0, l1, l2, l3, l4, x0 - u0, x1 - u1, x2 - u2, x3 - u3, x4 - u4) - y3 == v3 + w3 * 0xffff_ffff_0000_0001,
        product4(l0, l1, l2, l3, l4, x0 - u0, x1 - u1, x2 - u2, x3 - u3, x4 - u4) - y4 == v4 + w4 * 0xffff_ffff_0000_0001,
        0 <= x0 < 0xffff_ffff_0000_0001,
        0 <= s0 < 0xffff_ffff_0000_0001,
        s0 != x0,
    ensures
        point_add(point(z(x0, x1, x2, x3, x4), z(y0, y1, y2, y3, y4)), point(z(s0, s1, s2, s3, s4), z(t0, t1, t2, t3, t4))) == point(z(u0, u1, u2, u3, u4), z(v0, v1, v2, v3, v4)),
{
    let (x, y, s, t, l, x2, y2) = (
        z(x0, x1, x2, x3, x4),
        z(y0, y1, y2, y3, y4),
        z(s0, s1, s2, s3, s4),
        z(t0, t1, t2, t3, t4),
        z(l0, l1, l2, l3, l4),
        z(u0, u1, u2, u3, u4),
        z(v0, v1, v2, v3, v4),
    );
    let (p, q) = (point(x, y), point(s, t));
    let m = QuinticExtension::of(l);
    lemma_of_view(x);
    lemma_of_view(y);
    lemma_of_view(s);
    lemma_of_view(t);
    lemma_of_view(l);
    lemma_of_ops(s, x);
    lemma_of_ops(t, y);
    lemma_of_ops(l, s - x);
    lemma_same_class(l * (s - x), t - y, z(q0, q1, q2, q3, q4));
    lemma_of_equal(l * (s - x), t - y);
    lemma_of_view(s - x);
    lemma_units_canonical();
    lemma_mul_canonical(q.x, p.x);
    vstd::arithmetic::div_mod::lemma_small_mod(x0 as nat, 0xffff_ffff_0000_0001);
    vstd::arithmetic::div_mod::lemma_small_mod(s0 as nat, 0xffff_ffff_0000_0001);
    assert(p.x.c0@ == x0 && q.x.c0@ == s0);
    crate::ecgfp5::lemma_difference_zero(q.x, p.x);
    let i = crate::curve_laws::lemma_has_inverse(q.x - p.x);
    crate::ecgfp5::lemma_quotient(q.y - p.y, q.x - p.x, m, i);
    lemma_same_class((l * l - x) - s, x2, z(r0, r1, r2, r3, r4));
    lemma_same_class(l * (x - x2) - y, y2, z(w0, w1, w2, w3, w4));
    lemma_line_in_coordinates(x, y, s, l, x2, y2);
}

/// The sum of two multiples of the generator.
proof fn lemma_added(
    j: nat,
    k: nat,
    x0: int, x1: int, x2: int, x3: int, x4: int,
    y0: int, y1: int, y2: int, y3: int, y4: int,
    s0: int, s1: int, s2: int, s3: int, s4: int,
    t0: int, t1: int, t2: int, t3: int, t4: int,
    l0: int, l1: int, l2: int, l3: int, l4: int,
    u0: int, u1: int, u2: int, u3: int, u4: int,
    v0: int, v1: int, v2: int, v3: int, v4: int,
    q0: int, q1: int, q2: int, q3: int, q4: int,
    r0: int, r1: int, r2: int, r3: int, r4: int,
    w0: int, w1: int, w2: int, w3: int, w4: int,
)
    requires
        at(j, z(x0, x1, x2, x3, x4), z(y0, y1, y2, y3, y4)),
        at(k, z(s0, s1, s2, s3, s4), z(t0, t1, t2, t3, t4)),
        product0(l0, l1, l2, l3, l4, s0 - x0, s1 - x1, s2 - x2, s3 - x3, s4 - x4) == t0 - y0 + q0 * 0xffff_ffff_0000_0001,
        product1(l0, l1, l2, l3, l4, s0 - x0, s1 - x1, s2 - x2, s3 - x3, s4 - x4) == t1 - y1 + q1 * 0xffff_ffff_0000_0001,
        product2(l0, l1, l2, l3, l4, s0 - x0, s1 - x1, s2 - x2, s3 - x3, s4 - x4) == t2 - y2 + q2 * 0xffff_ffff_0000_0001,
        product3(l0, l1, l2, l3, l4, s0 - x0, s1 - x1, s2 - x2, s3 - x3, s4 - x4) == t3 - y3 + q3 * 0xffff_ffff_0000_0001,
        product4(l0, l1, l2, l3, l4, s0 - x0, s1 - x1, s2 - x2, s3 - x3, s4 - x4) == t4 - y4 + q4 * 0xffff_ffff_0000_0001,
        product0(l0, l1, l2, l3, l4, l0, l1, l2, l3, l4) - x0 - s0 == u0 + r0 * 0xffff_ffff_0000_0001,
        product1(l0, l1, l2, l3, l4, l0, l1, l2, l3, l4) - x1 - s1 == u1 + r1 * 0xffff_ffff_0000_0001,
        product2(l0, l1, l2, l3, l4, l0, l1, l2, l3, l4) - x2 - s2 == u2 + r2 * 0xffff_ffff_0000_0001,
        product3(l0, l1, l2, l3, l4, l0, l1, l2, l3, l4) - x3 - s3 == u3 + r3 * 0xffff_ffff_0000_0001,
        product4(l0, l1, l2, l3, l4, l0, l1, l2, l3, l4) - x4 - s4 == u4 + r4 * 0xffff_ffff_0000_0001,
        product0(l0, l1, l2, l3, l4, x0 - u0, x1 - u1, x2 - u2, x3 - u3, x4 - u4) - y0 == v0 + w0 * 0xffff_ffff_0000_0001,
        product1(l0, l1, l2, l3, l4, x0 - u0, x1 - u1, x2 - u2, x3 - u3, x4 - u4) - y1 == v1 + w1 * 0xffff_ffff_0000_0001,
        product2(l0, l1, l2, l3, l4, x0 - u0, x1 - u1, x2 - u2, x3 - u3, x4 - u4) - y2 == v2 + w2 * 0xffff_ffff_0000_0001,
        product3(l0, l1, l2, l3, l4, x0 - u0, x1 - u1, x2 - u2, x3 - u3, x4 - u4) - y3 == v3 + w3 * 0xffff_ffff_0000_0001,
        product4(l0, l1, l2, l3, l4, x0 - u0, x1 - u1, x2 - u2, x3 - u3, x4 - u4) - y4 == v4 + w4 * 0xffff_ffff_0000_0001,
        0 <= x0 < 0xffff_ffff_0000_0001,
        0 <= s0 < 0xffff_ffff_0000_0001,
        s0 != x0,
    ensures
        at(j + k, z(u0, u1, u2, u3, u4), z(v0, v1, v2, v3, v4)),
{
    reveal(at);
    let g = generator_point();
    lemma_generator_proper();
    lemma_times_proper(g, j);
    lemma_times_proper(g, k);
    lemma_times_add(g, j, k);
    lemma_chord(
        x0, x1, x2, x3, x4,
        y0, y1, y2, y3, y4,
        s0, s1, s2, s3, s4,
        t0, t1, t2, t3, t4,
        l0, l1, l2, l3, l4,
        u0, u1, u2, u3, u4,
        v0, v1, v2, v3, v4,
        q0, q1, q2, q3, q4,
        r0, r1, r2, r3, r4,
        w0, w1, w2, w3, w4,
    );
}

/// The difference of two multiples of the generator.
proof fn lemma_subtracted(
    j: nat,
    k: nat,
    x0: int, x1: int, x2: int, x3: int, x4: int,
    y0: int, y1: int, y2: int, y3: int, y4: int,
    s0: int, s1: int, s2: int, s3: int, s4: int,
    t0: int, t1: int, t2: int, t3: int, t4: int,
    l0: int, l1: int, l2: int, l3: int, l4: int,
    u0: int, u1: int, u2: int, u3: int, u4: int,
    v0: int, v1: int, v2: int, v3: int, v4: int,
    q0: int, q1: int, q2: int, q3: int, q4: int,
    r0: int, r1: int, r2: int, r3: int, r4: int,
    w0: int, w1: int, w2: int, w3: int, w4: int,
)
    requires
        k <= j,
        at(j, z(x0, x1, x2, x3, x4), z(y0, y1, y2, y3, y4)),
        at(k, z(s0, s1, s2, s3, s4), z(t0, t1, t2, t3, t4)),
        product0(l0, l1, l2, l3, l4, s0 - x0, s1 - x1, s2 - x2, s3 - x3, s4 - x4) == 0 - t0 - y0 + q0 * 0xffff_ffff_0000_0001,
        product1(l0, l1, l2, l3, l4, s0 - x0, s1 - x1, s2 - x2, s3 - x3, s4 - x4) == 0 - t1 - y1 + q1 * 0xffff_ffff_0000_0001,
        product2(l0, l1, l2, l3, l4, s0 - x0, s1 - x1, s2 - x2, s3 - x3, s4 - x4) == 0 - t2 - y2 + q2 * 0xffff_ffff_0000_0001,
        product3(l0, l1, l2, l3, l4, s0 - x0, s1 - x1, s2 - x2, s3 - x3, s4 - x4) == 0 - t3 - y3 + q3 * 0xffff_ffff_0000_0001,
        product4(l0, l1, l2, l3, l4, s0 - x0, s1 - x1, s2 - x2, s3 - x3, s4 - x4) == 0 - t4 - y4 + q4 * 0xffff_ffff_0000_0001,
        product0(l0, l1, l2, l3, l4, l0, l1, l2, l3, l4) - x0 - s0 == u0 + r0 * 0xffff_ffff_0000_0001,
        product1(l0, l1, l2, l3, l4, l0, l1, l2, l3, l4) - x1 - s1 == u1 + r1 * 0xffff_ffff_0000_0001,
        product2(l0, l1, l2, l3, l4, l0, l1, l2, l3, l4) - x2 - s2 == u2 + r2 * 0xffff_ffff_0000_0001,
        product3(l0, l1, l2, l3, l4, l0, l1, l2, l3, l4) - x3 - s3 == u3 + r3 * 0xffff_ffff_0000_0001,
        product4(l0, l1, l2, l3, l4, l0, l1, l2, l3, l4) - x4 - s4 == u4 + r4 * 0xffff_ffff_0000_0001,
        product0(l0, l1, l2, l3, l4, x0 - u0, x1 - u1, x2 - u2, x3 - u3, x4 - u4) - y0 == v0 + w0 * 0xffff_ffff_0000_0001,
        product1(l0, l1, l2, l3, l4, x0 - u0, x1 - u1, x2 - u2, x3 - u3, x4 - u4) - y1 == v1 + w1 * 0xffff_ffff_0000_0001,
        product2(l0, l1, l2, l3, l4, x0 - u0, x1 - u1, x2 - u2, x3 - u3, x4 - u4) - y2 == v2 + w2 * 0xffff_ffff_0000_0001,
        product3(l0, l1, l2, l3, l4, x0 - u0, x1 - u1, x2 - u2, x3 - u3, x4 - u4) - y3 == v3 + w3 * 0xffff_ffff_0000_0001,
        product4(l0, l1, l2, l3, l4, x0 - u0, x1 - u1, x2 - u2, x3 - u3, x4 - u4) - y4 == v4 + w4 * 0xffff_ffff_0000_0001,
        0 <= x0 < 0xffff_ffff_0000_0001,
        0 <= s0 < 0xffff_ffff_0000_0001,
        s0 != x0,
    ensures
        at((j - k) as nat, z(u0, u1, u2, u3, u4), z(v0, v1, v2, v3, v4)),
{
    reveal(at);
    let g = generator_point();
    let d = (j - k) as nat;
    let b = z(t0, t1, t2, t3, t4);
    let o = z(0, 0, 0, 0, 0);
    lemma_generator_proper();
    lemma_times_proper(g, j);
    lemma_times_proper(g, k);
    lemma_times_proper(g, d);
    lemma_times_add(g, d, k);
    lemma_sum_cancel(times(g, d), times(g, k));
    lemma_opposite_proper(times(g, k));
    lemma_of_ops(o, b);
    assert(o - b == z(0 - t0, 0 - t1, 0 - t2, 0 - t3, 0 - t4));
    lemma_chord(
        x0, x1, x2, x3, x4,
        y0, y1, y2, y3, y4,
        s0, s1, s2, s3, s4,
        0 - t0, 0 - t1, 0 - t2, 0 - t3, 0 - t4,
        l0, l1, l2, l3, l4,
        u0, u1, u2, u3, u4,
        v0, v1, v2, v3, v4,
        q0, q1, q2, q3, q4,
        r0, r1, r2, r3, r4,
        w0, w1, w2, w3, w4,
    );
}

/// A product of elements given by their coefficients.
pub(crate) proof fn lemma_product_of_coefficients(
    a0: int, a1: int, a2: int, a3: int, a4: int,
    b0: int, b1: int, b2: int, b3: int, b4: int,
    c0: int, c1: int, c2: int, c3: int, c4: int,
    q0: int, q1: int, q2: int, q3: int, q4: int,
)
    requires
        product0(a0, a1, a2, a3, a4, b0, b1, b2, b3, b4) == c0 + q0 * 0xffff_ffff_0000_0001,
        product1(a0, a1, a2, a3, a4, b0, b1, b2, b3, b4) == c1 + q1 * 0xffff_ffff_0000_0001,
        product2(a0, a1, a2, a3, a4, b0, b1, b2, b3, b4) == c2 + q2 * 0xffff_ffff_0000_0001,
        product3(a0, a1, a2, a3, a4, b0, b1, b2, b3, b4) == c3 + q3 * 0xffff_ffff_0000_0001,
        product4(a0, a1, a2, a3, a4, b0, b1, b2, b3, b4) == c4 + q4 * 0xffff_ffff_0000_0001,
    ensures
        QuinticExtension::of(z(a0, a1, a2, a3, a4)) * QuinticExtension::of(z(b0, b1, b2, b3, b4)) == QuinticExtension::of(
            z(c0, c1, c2, c3, c4),
        ),
{
    let (a, b, c) = (z(a0, a1, a2, a3, a4), z(b0, b1, b2, b3, b4), z(c0, c1, c2, c3, c4));
    lemma_same_class(a * b, c, z(q0, q1, q2, q3, q4));
    lemma_product_is(a, b, c);
}

/// The generator belongs to the group.
pub proof fn lemma_generator_proper()
    ensures
        proper(generator_point()),
{
    let g = generator_point();
    let x = z(11712523173042564207, 14090224426659529053, 13197813503519687414, 16280770174934269299, 15998333998318935536);
    let y = z(14639054205878357578, 17426078571020221072, 2548978194165003307, 8663895577921260088, 9793640284382595140);
    let u = z(4215595334465395344, 2747986800082865065, 4201059493875284921, 7495175121212972362, 3924537739000922156);
    let a = z(6148914689804861439, 263, 0, 0, 0);
    let b = z(15713893096167979237, 6148914689804861265, 0, 0, 0);
    let t = z(6148914689804861441, 0, 0, 0, 0);
    let c = z(5106670868292580776, 14667751996289624078, 12196962714701657296, 13107820632031715616, 11793816871631796459);
    let d = z(7942627699422294385, 17893857154575268072, 11080955036789416401, 18222860947986080444, 11611393354794989652);
    lemma_of_view(x);
    lemma_of_view(y);
    lemma_of_view(u);
    lemma_product_of_coefficients(
        11712523173042564207, 14090224426659529053, 13197813503519687414, 16280770174934269299, 15998333998318935536,
        11712523173042564207, 14090224426659529053, 13197813503519687414, 16280770174934269299, 15998333998318935536,
        3323134212246623208, 13135923111885684352, 5601203646879640924, 9830803113269199745, 11649029761638943486,
        150645951303414191205, 129676692783716452577, 112241217400761852065, 82461065798423716853, 54629879617764752148,
    );
    lemma_product_of_coefficients(
        3323134212246623208, 13135923111885684352, 5601203646879640924, 9830803113269199745, 11649029761638943486,
        11712523173042564207, 14090224426659529053, 13197813503519687414, 16280770174934269299, 15998333998318935536,
        5106670868292580776, 14667751996289624078, 12196962714701657296, 13107820632031715616, 11793816871631796459,
        98911998383859469728, 76484640911935782799, 72389218212621828002, 53160036073256217299, 33388491121523051900,
    );
    lemma_product_of_coefficients(
        6148914689804861439, 263, 0, 0, 0,
        11712523173042564207, 14090224426659529053, 13197813503519687414, 16280770174934269299, 15998333998318935536,
        7942627699422294385, 17893857154575268072, 11080955036789416401, 18222860947986080444, 11611393354794989652,
        3904174391014188752, 4696741475553176516, 4399271167839896004, 5426923391644756619, 5332777999439645409,
    );
    lemma_of_ops(c, d);
    lemma_of_ops(c + d, b);
    lemma_product_of_coefficients(
        14639054205878357578, 17426078571020221072, 2548978194165003307, 8663895577921260088, 9793640284382595140,
        14639054205878357578, 17426078571020221072, 2548978194165003307, 8663895577921260088, 9793640284382595140,
        28763191663882854398, 38710523840669753415, 23277917751491073697, 31330681580017796060, 23405210226426786111,
        74310938497547579222, 47985407461442909249, 48106263709288964219, 34165705896999380756, 32265423086615192650,
    );
    assert((c + d) + b == z(28763191663882854398, 38710523840669753415, 23277917751491073697, 31330681580017796060, 23405210226426786111));
    assert(on_curve(g));
    lemma_of_ops(x, t);
    lemma_product_of_coefficients(
        4215595334465395344, 2747986800082865065, 4201059493875284921, 7495175121212972362, 3924537739000922156,
        4215595334465395344, 2747986800082865065, 4201059493875284921, 7495175121212972362, 3924537739000922156,
        5563608483237702766, 14090224426659529053, 13197813503519687414, 16280770174934269299, 15998333998318935536,
        14712882123222662582, 15754815539888739255, 11897056194508450571, 7182197113540220095, 4983573853731788533,
    );
    lemma_units_canonical();
    crate::quintic_field::lemma_shape(QuinticExtension::of(u));
    assert(QuinticExtension::of(u).c1@ == 2747986800082865065);
    assert(roots(QuinticExtension::of(u), g));
}

proof fn lemma_once()
    ensures
        at(
            1nat,
            z(11712523173042564207, 14090224426659529053, 13197813503519687414, 16280770174934269299, 15998333998318935536),
            z(14639054205878357578, 17426078571020221072, 2548978194165003307, 8663895577921260088, 9793640284382595140),
        ),
{
    reveal(at);
    assert(times(generator_point(), 0) == infinity());
}

/// The generator, and three, five and seven times it.
proof fn lemma_small_multiples()
    ensures
        at(
            1nat,
            z(11712523173042564207, 14090224426659529053, 13197813503519687414, 16280770174934269299, 15998333998318935536),
            z(14639054205878357578, 17426078571020221072, 2548978194165003307, 8663895577921260088, 9793640284382595140),
        ),
        at(
            3nat,
            z(3584413360476155897, 993598265149929043, 9118536478120200325, 4545548208597017001, 16640886554632444604),
            z(6661501719066134017, 7261582874957064446, 6574521784608599777, 12238551638203620304, 17669239050955015918),
        ),
        at(
            5nat,
            z(10037045936767333522, 7212327770703274352, 14197565700005564722, 1466131595743240707, 4503357798619727992),
            z(15228537545328408645, 17691374870506013863, 8726579212570326203, 13461166066247559397, 4831297304748274887),
        ),
        at(
            7nat,
            z(1402190480421472576, 13676834587540684798, 17321958444468468343, 1669201366653940801, 5982097004065554850),
            z(15760894881285235192, 15255658932026822340, 5186042200108657016, 6691897350347039497, 12315888321054861899),
        ),
{
    lemma_once();
    lemma_doubled(
        1nat,
        11712523173042564207, 14090224426659529053, 13197813503519687414, 16280770174934269299, 15998333998318935536,
        14639054205878357578, 17426078571020221072, 2548978194165003307, 8663895577921260088, 9793640284382595140,
        12444155931251512547, 1089129910688763817, 5923918658827370307, 9764865508327370916, 14447160569834850437,
        4995993185466449924, 8070450530368880624, 0, 0, 0,
        2802119724609112643, 15148449414430609716, 8946200504603803264, 5543440903273420636, 6411036242926574856,
        -322041076480012811834, -305424140063970056708, -250006286663450752233, -162680880093256978980, -106636639360798228936,
        32327853453074559677, 44813720044727642390, 53942853811860651951, 47818530703236958131, 22547538074953851919,
        58152417096431552666, 76734194783786629988, 75074364310923773418, 54839636505045407214, 24438864568465050172,
    );
    lemma_added(
        2nat,
        1,
        4995993185466449924, 8070450530368880624, 0, 0, 0,
        2802119724609112643, 15148449414430609716, 8946200504603803264, 5543440903273420636, 6411036242926574856,
        11712523173042564207, 14090224426659529053, 13197813503519687414, 16280770174934269299, 15998333998318935536,
        14639054205878357578, 17426078571020221072, 2548978194165003307, 8663895577921260088, 9793640284382595140,
        13240280360692070093, 9052778477984289619, 4509096702428205381, 16456967564544703850, 13618200728995562684,
        3584413360476155897, 993598265149929043, 9118536478120200325, 4545548208597017001, 16640886554632444604,
        6661501719066134017, 7261582874957064446, 6574521784608599777, 12238551638203620304, 17669239050955015918,
        88968274855849381581, 92152229767668116864, 92944342218789745661, 61058031126780031852, 33027678254332911681,
        73738579273646341857, 77013737118039416578, 83811101161712873728, 58210576635830264726, 36803899127113054145,
        -35551336665120097098, -38791662555130861278, -57331743979636041952, -41603476808037342705, -9048182214385250832,
    );
    lemma_added(
        3nat,
        2,
        3584413360476155897, 993598265149929043, 9118536478120200325, 4545548208597017001, 16640886554632444604,
        6661501719066134017, 7261582874957064446, 6574521784608599777, 12238551638203620304, 17669239050955015918,
        4995993185466449924, 8070450530368880624, 0, 0, 0,
        2802119724609112643, 15148449414430609716, 8946200504603803264, 5543440903273420636, 6411036242926574856,
        5349280899407742992, 14738698556275698774, 13317026813447039792, 3120068887120619183, 11817561840247986997,
        10037045936767333522, 7212327770703274352, 14197565700005564722, 1466131595743240707, 4503357798619727992,
        15228537545328408645, 17691374870506013863, 8726579212570326203, 13461166066247559397, 4831297304748274887,
        -40348671954955203160, -52691377421192711588, -13150830401041767076, -35238090382365697945, -12938995459040121078,
        71718235865438944805, 61319010554926914448, 31492382037890729103, 45801895332251119967, 21453413508870464000,
        19362321246408954694, 11129172695488265824, 977318901601054132, 14581149229912853698, -2872115163444943521,
    );
    lemma_added(
        5nat,
        2,
        10037045936767333522, 7212327770703274352, 14197565700005564722, 1466131595743240707, 4503357798619727992,
        15228537545328408645, 17691374870506013863, 8726579212570326203, 13461166066247559397, 4831297304748274887,
        4995993185466449924, 8070450530368880624, 0, 0, 0,
        2802119724609112643, 15148449414430609716, 8946200504603803264, 5543440903273420636, 6411036242926574856,
        6778621268301737165, 13045125245675585378, 6337119778472686117, 11815008022421492286, 16506889712788825830,
        1402190480421472576, 13676834587540684798, 17321958444468468343, 1669201366653940801, 5982097004065554850,
        15760894881285235192, 15255658932026822340, 5186042200108657016, 6691897350347039497, 12315888321054861899,
        -37894133705270392869, -48821583286187172195, -18931080679514605467, -25602280560878838614, -11530353289518611277,
        96884040241650027615, 66313924542042778134, 77317892166747417429, 61959345856134319944, 31019214618962954003,
        -23530987884422436751, -6570826087653875705, -6139802239677910934, -2944056142621803228, 1826006367030962399,
    );
}

proof fn lemma_chain_1()
    ensures
        at(
            4096nat,
            z(6058210942542069357, 8299372442509056847, 16043198142061973565, 278362662643555238, 10178336856208556717),
            z(2729247663530031331, 4299632581021971525, 10303260048516523773, 5231508124098862468, 15138196656590125061),
        ),
{
    lemma_small_multiples();
    lemma_doubled(
        1nat,
        11712523173042564207, 14090224426659529053, 13197813503519687414, 16280770174934269299, 15998333998318935536,
        14639054205878357578, 17426078571020221072, 2548978194165003307, 8663895577921260088, 9793640284382595140,
        12444155931251512547, 1089129910688763817, 5923918658827370307, 9764865508327370916, 14447160569834850437,
        4995993185466449924, 8070450530368880624, 0, 0, 0,
        2802119724609112643, 15148449414430609716, 8946200504603803264, 5543440903273420636, 6411036242926574856,
        -322041076480012811834, -305424140063970056708, -250006286663450752233, -162680880093256978980, -106636639360798228936,
        32327853453074559677, 44813720044727642390, 53942853811860651951, 47818530703236958131, 22547538074953851919,
        58152417096431552666, 76734194783786629988, 75074364310923773418, 54839636505045407214, 24438864568465050172,
    );
    lemma_doubled(
        2nat,
        4995993185466449924, 8070450530368880624, 0, 0, 0,
        2802119724609112643, 15148449414430609716, 8946200504603803264, 5543440903273420636, 6411036242926574856,
        7549681385878335138, 11084902105736413537, 16107245392528629312, 2563725514516012396, 6315294842857010847,
        9282840482488766010, 7670229098880965645, 25756965035764252, 10944135151651407527, 15078023484304541970,
        15988355102403940463, 1809048417599341589, 9752679401098140192, 1027677142437244621, 14872299814084012259,
        88968392832177183381, 59239625824465453295, 36562551761140565760, 55691712067375623624, 33662428983049033970,
        39291030048493980092, 43228498388929063431, 25111655992411658781, 27942814365852505804, 22314917642801000450,
        -57204389778194714893, -46499006656766814753, -21040103489135253448, -20226906835562996485, -14181931484867942236,
    );
    lemma_doubled(
        4nat,
        9282840482488766010, 7670229098880965645, 25756965035764252, 10944135151651407527, 15078023484304541970,
        15988355102403940463, 1809048417599341589, 9752679401098140192, 1027677142437244621, 14872299814084012259,
        9452308072542946755, 8875692488762640468, 555469562560986457, 15131303067959181627, 9117236446802443522,
        2205929769302012371, 17668483040439559877, 13076178836696757062, 2532936817859748627, 17783524755602309127,
        14046467842125791992, 10795235810481476126, 2090567768530031361, 11502138396108766053, 1683624141157938622,
        -14270556716596425675, -28068885073091566922, -81723448591372849199, -63148617089461045562, -37239594126123411590,
        33897945220956900164, 47978474566567920144, 49711366920782572652, 29559895749183007733, 23921185553189894794,
        -46458548766464095260, -614565709061860030, -5470865404182368413, -476898404831611447, -2435761880175367652,
    );
    lemma_doubled(
        8nat,
        2205929769302012371, 17668483040439559877, 13076178836696757062, 2532936817859748627, 17783524755602309127,
        14046467842125791992, 10795235810481476126, 2090567768530031361, 11502138396108766053, 1683624141157938622,
        321253987911505458, 16421029813783880597, 7979326192730452972, 8725917106000540683, 7000313202709635925,
        14235693320916308428, 1225820171229941490, 13021361901696929846, 11503027533771312147, 5942330269214927250,
        12708978049590407855, 8029927013879451247, 1877062207150540445, 16474039931737393545, 12525277811536870741,
        -269861513944966483746, -175557286236297137926, -41692798135279889807, -200677578685718372129, -11904495979973251294,
        60041975121414835200, 31123228221887993675, 34763962398453000721, 22479692415860305270, 19230737528616646642,
        38569935457826488383, -7723323495104332224, 16026089482702855130, 14795312025449347262, -4542345956803666709,
    );
    lemma_doubled(
        16nat,
        14235693320916308428, 1225820171229941490, 13021361901696929846, 11503027533771312147, 5942330269214927250,
        12708978049590407855, 8029927013879451247, 1877062207150540445, 16474039931737393545, 12525277811536870741,
        10904620189818028081, 11802353694609973407, 17705652087871261344, 16075298431934579505, 3595567988122486140,
        3014445680543120239, 18344699581957758618, 10046015303590179395, 7911358782194816074, 6351785465255092941,
        13049259517655644166, 8721990531984246078, 1185476108618644853, 17250086444995182179, 3478370606126617559,
        -9036401929396374965, 40484298143466442014, -5588697240795048710, -1590306478017297990, -1234405444817640706,
        112825850019530640946, 76686556587506610051, 47284298115771573690, 43764423075406936898, 41815478937021382245,
        13957846358287967858, 7010389766698914773, 2606280306420711788, -2865048361484269941, -7819195232130669276,
    );
    lemma_doubled(
        32nat,
        3014445680543120239, 18344699581957758618, 10046015303590179395, 7911358782194816074, 6351785465255092941,
        13049259517655644166, 8721990531984246078, 1185476108618644853, 17250086444995182179, 3478370606126617559,
        7557790740767836173, 14762550329009632802, 6338793065508771191, 5729731513368114391, 11485440096369493268,
        10883211992802550098, 2727403599384092560, 2791346437331074355, 15738099722926274033, 15965095897680101223,
        2302770096107337324, 14771273797516218362, 229457124798131593, 6725285748697499025, 13041306130830397371,
        -94977375844015592466, -39006787916159222445, -18789542090508049186, -44256167016803381799, -16903770673244300553,
        70059193924086269455, 41116034753250486827, 38413194275196620713, 36294086748841784221, 20760319620083726708,
        1559015875328653936, -3551159955785069217, -10810788577343982981, -12435032937153416550, -7757766441075214968,
    );
    lemma_doubled(
        64nat,
        10883211992802550098, 2727403599384092560, 2791346437331074355, 15738099722926274033, 15965095897680101223,
        2302770096107337324, 14771273797516218362, 229457124798131593, 6725285748697499025, 13041306130830397371,
        11507971456866126171, 16345195182934999948, 13329997455168741257, 11007073839757128595, 472402348933362731,
        11522504798268432869, 18277097127248827557, 5440349906175370003, 17284771705117902360, 7671384196005530752,
        14590933636587633487, 17755572788790510489, 9189838654778226846, 878027966972802233, 6180021343192946583,
        -161206095918961653, -70816842468491724056, -178751343487293689228, -147645237218327316293, -25475970740919130687,
        57414362789048827114, 42145640038963150096, 32806140150266209955, 37392533493761916939, 29728127424233726813,
        12358179801041652974, 4740320991710770016, -1165119793484548006, -14292915127619736550, -7405463812621401641,
    );
    lemma_doubled(
        128nat,
        11522504798268432869, 18277097127248827557, 5440349906175370003, 17284771705117902360, 7671384196005530752,
        14590933636587633487, 17755572788790510489, 9189838654778226846, 878027966972802233, 6180021343192946583,
        1011211382090947145, 6060742418980736238, 7531122352439354202, 7381237653570743770, 11434795976240795230,
        10810930653278703093, 14113032915143754539, 8853828421431795347, 9627840688777914235, 10247541375543395258,
        6205481364144953930, 12819434399198239510, 1917053238861658412, 5497636988425293840, 8379659381963225019,
        -146130379078818450344, -192026878043785908191, -161411807722965517257, -70539614645200235060, -95262349231576375873,
        40678001878164649794, 37535430326319844987, 30269915903740954151, 27022657421024322957, 9178603835969952222,
        10524009792385760269, 150429982593824293, 12618225208416448328, -3507749568690505124, 3088185931997248030,
    );
    lemma_doubled(
        256nat,
        10810930653278703093, 14113032915143754539, 8853828421431795347, 9627840688777914235, 10247541375543395258,
        6205481364144953930, 12819434399198239510, 1917053238861658412, 5497636988425293840, 8379659381963225019,
        12049065822403112905, 3305080893731462507, 7105644892289017912, 18065858155653433938, 7000376683115904399,
        9323719380190616476, 289921884668102014, 3360566386105302973, 1839586976559161863, 1841216947335274103,
        17007636807584800137, 12004140809827851069, 4822766691305228709, 2899151211974930239, 17397732044380813454,
        -173032915482091329698, -108377325018781422142, -86161597260087814017, -76752614903471700230, -48765462079661484083,
        57149288077211169417, 73575320772171682478, 51009717236213053594, 34116519923623219258, 18355783122069604207,
        46366685435610223806, 48146012355428905411, 40202611997905666242, 22422874964329278680, 23104334016057348287,
    );
    lemma_doubled(
        512nat,
        9323719380190616476, 289921884668102014, 3360566386105302973, 1839586976559161863, 1841216947335274103,
        17007636807584800137, 12004140809827851069, 4822766691305228709, 2899151211974930239, 17397732044380813454,
        13025112484205613554, 1492102624289110682, 1933061497184503485, 15169865881570378556, 11059054211963661592,
        6705926864319917188, 7213890933122265071, 6222551525948868695, 12878492591871373645, 18063718043879720363,
        4451740617034975620, 14743902107119412852, 2663948446351701180, 4717810841062929748, 4058968365793762872,
        80569429180590908541, 53727031919020046782, 95078672465821762332, 90394259805213956149, 58590767508910790607,
        24102178592754617200, 46485769508208887485, 57417681308432780775, 41625509006971254329, 18274095906948541056,
        -25072281335397457743, -42158412015381933511, -62182662541526991223, -35775571788775450576, -16772003026396364536,
    );
    lemma_doubled(
        1024nat,
        6705926864319917188, 7213890933122265071, 6222551525948868695, 12878492591871373645, 18063718043879720363,
        4451740617034975620, 14743902107119412852, 2663948446351701180, 4717810841062929748, 4058968365793762872,
        16778133328956277005, 13232786134211962127, 12398600188518014368, 2262219775998919901, 6192630462148467394,
        16905365786947489122, 2609605363213146816, 3602786002543906056, 1461896635622475618, 4471182539978607155,
        9904247067289521133, 12652339761389135832, 17068994150418338246, 9640299434457116894, 8701714473536393595,
        -136411738093399907199, -147920945108068946882, -204562629953976149161, -160397362700254517111, -51576733659350120493,
        51037214632101137203, 49877393372065337027, 36603310970505020487, 28140126708951627842, 22844019796639137297,
        48596142290445491060, 31117677333189686604, 15328869020116675980, 27796229829957289448, 19454203912421641953,
    );
    lemma_doubled(
        2048nat,
        16905365786947489122, 2609605363213146816, 3602786002543906056, 1461896635622475618, 4471182539978607155,
        9904247067289521133, 12652339761389135832, 17068994150418338246, 9640299434457116894, 8701714473536393595,
        9077894702595784297, 6121671638202543238, 17903221877070827635, 2778310159114151697, 3786784365561269858,
        6058210942542069357, 8299372442509056847, 16043198142061973565, 278362662643555238, 10178336856208556717,
        2729247663530031331, 4299632581021971525, 10303260048516523773, 5231508124098862468, 15138196656590125061,
        51217344331456825835, 68323146081944196531, 36863454811472843928, 38227320056422455017, 28035235543937149554,
        28186063204997469562, 29331715409461915300, 23074378706511703353, 16949165211110585976, 22946771335751581382,
        -6022914592318777940, -22943915516505260890, 667435512575039823, -10949130685382139672, -13119892526726463142,
    );
}

proof fn lemma_chain_2()
    ensures
        at(
            16777216nat,
            z(16453670400901395079, 18065792631325306942, 15463819144639107288, 8949779605934974534, 4067150663203990644),
            z(12160983887320991256, 18182804595269028665, 14974770615033246728, 12175041939913850067, 1091033202796812374),
        ),
{
    lemma_chain_1();
    lemma_doubled(
        4096nat,
        6058210942542069357, 8299372442509056847, 16043198142061973565, 278362662643555238, 10178336856208556717,
        2729247663530031331, 4299632581021971525, 10303260048516523773, 5231508124098862468, 15138196656590125061,
        11742745718529017569, 1030532047417592719, 18196740302112917035, 672215152948139665, 16871503006846074490,
        2478350039626530926, 7988946897792481934, 1430549585948609228, 525724692508907222, 15743319272644862779,
        16395347530509242112, 3214093224348788103, 12332457719517777645, 4164186369079654987, 15490032369010755706,
        -27394379211517519426, -22668530756120265645, 5421384161378046539, 5164969536801348631, -17175582235790788903,
        17108958113931530111, 101242599589090487689, 26913641931902420173, 49181296656705303862, 39505203346109815062,
        3063399044247883527, 23996320388367030198, 11563645806304839457, -14173752763612578058, 14143731203681398709,
    );
    lemma_doubled(
        8192nat,
        2478350039626530926, 7988946897792481934, 1430549585948609228, 525724692508907222, 15743319272644862779,
        16395347530509242112, 3214093224348788103, 12332457719517777645, 4164186369079654987, 15490032369010755706,
        14303174809407122272, 5079749108701240300, 14204534743965635971, 13642299322292818037, 5929938309762174451,
        5066814562102688907, 14182025585751522440, 5407716558334384709, 13310599708485876318, 14916945957374041099,
        14852445521673689902, 17433678405321351774, 17764757209799010769, 7246528960549587240, 1274731332240672180,
        6720473560520389995, 99293958477275025373, 103301315735293690458, -52739104117404378835, 46212542506643980216,
        83917871095943213547, 65542306833683330525, 49739493046589699661, 34697713162420389689, 27647242761463331968,
        -45655015579507008743, -35806483204992604858, -17278550486352050405, -16894509531609561982, -11354592943756971330,
    );
    lemma_doubled(
        16384nat,
        5066814562102688907, 14182025585751522440, 5407716558334384709, 13310599708485876318, 14916945957374041099,
        14852445521673689902, 17433678405321351774, 17764757209799010769, 7246528960549587240, 1274731332240672180,
        12151801881061713465, 17080944866162480490, 13445109367492733276, 2308818790540057255, 16589999192634573849,
        4987800145618022383, 17397173419343967493, 9723446532213473112, 7313454514098960885, 17163637646065282720,
        9648891498840918482, 14735238843559157874, 11950026825612393991, 4478097396719147453, 12454785929390235856,
        -115086343100338913436, -31175269318538188031, -117965161350865844300, -76988434528289034877, -18664852666756826657,
        110271892829852515808, 95921890778323352026, 45988771577279044820, 72701565939412679472, 35932701355625408968,
        -3370810534423726836, -16349560100024366277, 9574426150572682085, -8440733448205077553, 596189114092970662,
    );
    lemma_doubled(
        32768nat,
        4987800145618022383, 17397173419343967493, 9723446532213473112, 7313454514098960885, 17163637646065282720,
        9648891498840918482, 14735238843559157874, 11950026825612393991, 4478097396719147453, 12454785929390235856,
        7458040200820651192, 1078781846991689023, 16211617385057339486, 3856721905985554178, 16412733090679419077,
        14817042216211012623, 14812119269370157529, 18443787453606854045, 14219377619068201943, 9579437958817843667,
        11328649699706748689, 1455284499624198546, 2773468361971780234, 307074345051387987, 16721817232733953101,
        -235364275100304009086, -69038330731492795552, -119606605742949647537, -109172326523187248176, -29674826510877288336,
        29110780315770311069, 89835680311114273981, 33760626795362040720, 48823694320026039342, 27969776446801708445,
        -19420376719906826376, -7141872728918747913, -25689120220718321925, 17158561548232562352, -13206256860937438721,
    );
    lemma_doubled(
        65536nat,
        14817042216211012623, 14812119269370157529, 18443787453606854045, 14219377619068201943, 9579437958817843667,
        11328649699706748689, 1455284499624198546, 2773468361971780234, 307074345051387987, 16721817232733953101,
        15818525721304517614, 8555548431945662240, 8080927405436763392, 11284428709493780855, 15562019008390148407,
        151809024353066922, 7413898396726690217, 17855995435965025948, 13194842312563588469, 10184319260726871526,
        10013370280724953403, 15450097296131497432, 18057525556512971173, 12986756459230123670, 13909446732527250194,
        -345752439033972677882, -270313196810907723918, -178521994545685945319, -99283464366440051553, -117707656473383210893,
        86530570881203141308, 76285581336076180504, 74945751090524492688, 66234392661494492052, 40696977934322619000,
        32883154423371270863, 15718743198198551333, 11842567885021674602, 11832400431224609799, 17111549233150505530,
    );
    lemma_doubled(
        131072nat,
        151809024353066922, 7413898396726690217, 17855995435965025948, 13194842312563588469, 10184319260726871526,
        10013370280724953403, 15450097296131497432, 18057525556512971173, 12986756459230123670, 13909446732527250194,
        15878509458340115693, 12078738244253134590, 15570139828980621233, 13200224433471683510, 11802291226519668326,
        2843552164387401686, 10652387149399608695, 18275849655102143418, 4215914143781758204, 6258021843552445685,
        16414760483144889918, 1139117125519763461, 5236934730617250924, 247925214910443793, 17100692033298586874,
        -29086736425988795953, -27524639278816258168, 36851211101315639481, 45498856721219162348, 22187095949454704196,
        126886555886218228859, 108902819642890631379, 85387128202455980004, 65768641550020194366, 50747110054043768228,
        21014630837221869288, 23861644002328507102, 20909135025783442941, 10330455408381894646, 4864986996938098021,
    );
    lemma_doubled(
        262144nat,
        2843552164387401686, 10652387149399608695, 18275849655102143418, 4215914143781758204, 6258021843552445685,
        16414760483144889918, 1139117125519763461, 5236934730617250924, 247925214910443793, 17100692033298586874,
        3832623256528520086, 17160431018126801323, 6620829731240001805, 2674626047689665642, 1070776489486078530,
        15810844626638121740, 15645192292481505926, 8054723972110714921, 9230464181617618337, 10913201328239966216,
        7060486904426211002, 8329134738473619701, 16152726575154706962, 12254494908588800984, 7597603004607747759,
        -33790001589554986107, -60245426623927242351, -30060156766131328261, -64948588742246430767, -61152535512624296022,
        12532747166515179004, 10600048424589611192, 19646515586450623952, 13616166499808677129, 7797507414990672811,
        -17508798234829933646, -18514152689218705803, -10073332117019424643, 3983732829882582643, -3440174304346634695,
    );
    lemma_doubled(
        524288nat,
        15810844626638121740, 15645192292481505926, 8054723972110714921, 9230464181617618337, 10913201328239966216,
        7060486904426211002, 8329134738473619701, 16152726575154706962, 12254494908588800984, 7597603004607747759,
        5450451212714362765, 13347745305729827723, 13056500369642757522, 2348633395773156896, 11581012934544053731,
        15705696620004630323, 17446265346480327103, 16041091440403904785, 16577982770958996748, 15750419454921822774,
        11843657348054405562, 15668899174717083490, 11070769074519916368, 18025670673834115450, 3081989611042195631,
        -146894012837168405525, -90189460329104630426, -95965861637313487882, -73739580723498569166, -57569815278455593117,
        61863463661896050532, 57966636258463825175, 26220739111644150058, 42094772137835445593, 19483851096092279244,
        -32513558862725390480, -28575511659347102693, -19274641849743279934, -18321699654476646137, -12561792855816026066,
    );
    lemma_doubled(
        1048576nat,
        15705696620004630323, 17446265346480327103, 16041091440403904785, 16577982770958996748, 15750419454921822774,
        11843657348054405562, 15668899174717083490, 11070769074519916368, 18025670673834115450, 3081989611042195631,
        5594424618021755216, 10475274770308015702, 9150846039572765440, 8094887106382223885, 13674712268080289660,
        15767735201685030173, 12180182060785118893, 6277334914283312761, 3013410382585469504, 15802843744227274181,
        15857535910022195162, 18242555110408165898, 13623013695163011890, 15863527568787775320, 9330607147659357628,
        -397557627858618719706, -340915099808673353485, -261680510664932191147, -233592778995401837946, -151743983974617593899,
        72382756868633572717, 57712026442402391440, 47503794006640997393, 45714354163414220280, 22027443378230784011,
        44643837002203721854, 41055070855638741132, 36018298323346461361, 12126815990392010832, 14795346041728210687,
    );
    lemma_doubled(
        2097152nat,
        15767735201685030173, 12180182060785118893, 6277334914283312761, 3013410382585469504, 15802843744227274181,
        15857535910022195162, 18242555110408165898, 13623013695163011890, 15863527568787775320, 9330607147659357628,
        3818351318240553122, 4391625264281571449, 10757472761888166430, 248215610746797427, 1282342125747000314,
        11349651321933487109, 11950064154011092759, 11072705008459995661, 14429228532172896079, 2480419177578088769,
        16956947000723740099, 17049373812371905198, 14429920727459740411, 8307165966169399278, 16951193360625774533,
        -162603649725123756640, -108982193517137277331, -62597827596982273357, -123515669515003501079, -69393053807097875293,
        3490601866574053405, 6314986086376541558, 5602494222239884286, 5492260896124361349, 6922426262819108311,
        -9687918902403814791, 22946023880235274533, -204309843785138733, -532626759555821476, -2446380080004821398,
    );
    lemma_doubled(
        4194304nat,
        11349651321933487109, 11950064154011092759, 11072705008459995661, 14429228532172896079, 2480419177578088769,
        16956947000723740099, 17049373812371905198, 14429920727459740411, 8307165966169399278, 16951193360625774533,
        14061886430323183906, 2815604265807800472, 18407086027152097511, 17598150863759085624, 10335738057652730497,
        13384139778523654742, 363150241909429871, 9742011285559065275, 9407150331762761280, 16584524944059744538,
        14093784282401046533, 10513934721031942648, 14265216494377176607, 15878262275319157347, 7913467037917691395,
        25251937592141508110, 56224226796957709584, 86976903268602106515, 41128987726656642925, 23528787680716020325,
        125546751853064851684, 116539540295366932205, 87654688193880653847, 49822504051059315541, 39497464703499987865,
        30309585016447349073, -17089299634350616077, -31171390599442937928, -10055126309592394702, 1256826915507162683,
    );
    lemma_doubled(
        8388608nat,
        13384139778523654742, 363150241909429871, 9742011285559065275, 9407150331762761280, 16584524944059744538,
        14093784282401046533, 10513934721031942648, 14265216494377176607, 15878262275319157347, 7913467037917691395,
        7307374570407710882, 16860513633849394362, 10134329703611712990, 5680122137128465030, 14806559131502190269,
        16453670400901395079, 18065792631325306942, 15463819144639107288, 8949779605934974534, 4067150663203990644,
        12160983887320991256, 18182804595269028665, 14974770615033246728, 12175041939913850067, 1091033202796812374,
        59459025188239008089, -44195083392725779873, -57569278243235324945, -79295874716010534980, -8674266415991918149,
        102818158672574508149, 67411942564537191964, 50795196625766400866, 58680065396333661189, 27681759850709245896,
        -14052564457770277866, -2543278209946014100, -7468947750723177731, 14422467332740089710, -5681674590999988822,
    );
}

proof fn lemma_chain_3()
    ensures
        at(
            34359738328nat,
            z(12336580488790930886, 1485458779788208746, 5264456898300557419, 7600046166396626207, 18063583842951782257),
            z(11135021465154792676, 7934148769926607655, 6017933359776301878, 1554333829660061299, 4323545200123262864),
        ),
{
    lemma_small_multiples();
    lemma_chain_2();
    lemma_doubled(
        16777216nat,
        16453670400901395079, 18065792631325306942, 15463819144639107288, 8949779605934974534, 4067150663203990644,
        12160983887320991256, 18182804595269028665, 14974770615033246728, 12175041939913850067, 1091033202796812374,
        3375542698884605616, 12690747529890067462, 9676178576041132677, 15767724932109401684, 17194063484752310113,
        16769621112244851227, 16230091796607081927, 175012517724728416, 995719346716193461, 14851291890977332478,
        18212996952000836278, 15327278031426045661, 18181809229002225614, 5236197065191159612, 2045886033344665704,
        -25010033662888821306, -24123814692108166667, -54413080538574138830, -75807300329605996910, -26629940997868449652,
        121216802562612632915, 99192395926995005707, 100453898787892809708, 67163754696301843134, 33063583087014027395,
        34539989080595053346, 46296595308601410128, -1517288163748581237, -17488898058773732650, 12793055125678292504,
    );
    lemma_doubled(
        33554432nat,
        16769621112244851227, 16230091796607081927, 175012517724728416, 995719346716193461, 14851291890977332478,
        18212996952000836278, 15327278031426045661, 18181809229002225614, 5236197065191159612, 2045886033344665704,
        11824395288808061529, 11267125559802850301, 345017828679853511, 15019461586815344357, 9596965240406414647,
        2820412117933787938, 14704764821139502406, 8427859054621712910, 9293264519416186594, 12408101908668196462,
        4611405939382702281, 11708991345014606937, 15818490160668010840, 17058857078518462870, 13780670446275870468,
        -113004108214086884532, 32915856472867742420, 10829903546105702699, -48423370341339195464, -32658461640459484716,
        44435456314111273933, 52208309112973908007, 54207662537262479051, 34655007036390968759, 30657333099198540583,
        -4825169225110210492, -23513549858113192289, -11080205055873590057, 4839780349513546087, 4842699885341632205,
    );
    lemma_doubled(
        67108864nat,
        2820412117933787938, 14704764821139502406, 8427859054621712910, 9293264519416186594, 12408101908668196462,
        4611405939382702281, 11708991345014606937, 15818490160668010840, 17058857078518462870, 13780670446275870468,
        5302794183807260893, 72435064564035857, 256256310332070169, 7525421379966322494, 14452222852835643502,
        8387792326487706711, 6734546556882365285, 9692019357824600930, 1410563153538473341, 3862156979450699568,
        7825768039980484194, 14000414546487320015, 7763351469105449871, 16894242822687266489, 4533612789134369935,
        -157600651995960194961, -33636797023134700847, -32181063342345481984, -45151965265848563898, -42107315508609737952,
        2492110935925096022, 10456314481118002921, 35522658870604850341, 38296670612399844073, 8371678061815883917,
        16014559334807185927, 9301542793332562644, 28576872080531902615, 20186652479681984861, 1359733367968168748,
    );
    lemma_doubled(
        134217728nat,
        8387792326487706711, 6734546556882365285, 9692019357824600930, 1410563153538473341, 3862156979450699568,
        7825768039980484194, 14000414546487320015, 7763351469105449871, 16894242822687266489, 4533612789134369935,
        14780182760220134427, 13772757306113162423, 5039144117108122780, 11158100476770087493, 6576477419282419207,
        13234098470875842006, 11085578562155515075, 6998072836101842694, 4794459627384416446, 9262699406609169502,
        8403466243039088525, 17396127022139698883, 14180801405006962484, 9775963610149785807, 16521273502628200782,
        68501582011560715452, 63602631681632468536, 51080138276681184233, 33123180606825198124, 30347503727766375312,
        59591807697452348067, 53097514675131635824, 42226083793392322881, 32438977307068134001, 28576949272337619058,
        -18517718307047956256, -14789705735363474272, -15833236545309617964, -10596028228911227112, -10477311263438925805,
    );
    lemma_doubled(
        268435456nat,
        13234098470875842006, 11085578562155515075, 6998072836101842694, 4794459627384416446, 9262699406609169502,
        8403466243039088525, 17396127022139698883, 14180801405006962484, 9775963610149785807, 16521273502628200782,
        7313224031873220095, 10587420783119906108, 11542307653586708889, 2742082346408316182, 9310338537481584118,
        5221843477253883913, 14952230364076655848, 14618970528533798273, 4651686348065301331, 5462212377412943873,
        7149955017184716335, 4071119408157000122, 14559471630506106170, 6830590466242729951, 13223583449013267747,
        4168321945459558997, 14942933439121748723, -7374507002633368637, 10597968440193663172, -9401347340943404844,
        45255564954928756512, 44571017760903959786, 23532322576417909289, 29520693185644604393, 17751924516269887256,
        735109795657199700, -1275798500892254349, 1683779971481368918, 208715596708576430, 289308339202231443,
    );
    lemma_doubled(
        536870912nat,
        5221843477253883913, 14952230364076655848, 14618970528533798273, 4651686348065301331, 5462212377412943873,
        7149955017184716335, 4071119408157000122, 14559471630506106170, 6830590466242729951, 13223583449013267747,
        15857399716216148909, 5104528969035525234, 5266662095428356592, 13374649744101937817, 11724202507252480097,
        4056317828508145289, 4122333693523266361, 10521924023930042522, 16113302854115734286, 712703911834827703,
        7715162237080034322, 11733114521804358729, 2737769113911686159, 459575290476914760, 9957601720548355562,
        -25673774539472389078, 4974108337709469804, 28959123323974710492, -10633725277730116973, -16835863368106067437,
        56008522424122788378, 57951547081911803646, 61470466340521776478, 48263951759110960921, 29062637437356263077,
        24688705088822160197, -3418266194600149076, -4671688777988922659, 4273955270162178310, 10673829102954865750,
    );
    lemma_doubled(
        1073741824nat,
        4056317828508145289, 4122333693523266361, 10521924023930042522, 16113302854115734286, 712703911834827703,
        7715162237080034322, 11733114521804358729, 2737769113911686159, 459575290476914760, 9957601720548355562,
        6921038232680005724, 3719860611140973233, 8632131491025199253, 2440259762266148416, 312696677209388878,
        15794216595695251976, 7661379005903092332, 630451015853342151, 11956003371687940732, 11892830578655673280,
        5450475614292991534, 4476485587234208437, 11627869934195585536, 16635138362241901793, 183369102834625675,
        -148485701741545870824, -98914544864842875017, -5894460793864281445, -20131213077516721609, -26965060859018115980,
        9826544819707140874, 4637709008529846462, 7475701582910171006, 5328433643242412734, 5258213447910414363,
        -1585730769141947647, -17237102670002589818, -6720746817737268405, -222980403251312247, 605223028801406878,
    );
    lemma_doubled(
        2147483648nat,
        15794216595695251976, 7661379005903092332, 630451015853342151, 11956003371687940732, 11892830578655673280,
        5450475614292991534, 4476485587234208437, 11627869934195585536, 16635138362241901793, 183369102834625675,
        9347221553263049026, 14338603547989783276, 345102617059071244, 4878963433083354742, 17073835443157783509,
        11858040726689181223, 12875099231209424559, 9542578732622215565, 3207866143315556903, 847012747212229608,
        849820897001035674, 17956424926644694507, 3254542679710644057, 10703336716092724242, 13313904518689402170,
        -85274569014216733273, -12412561588717919959, -39911372201554575438, -92994750237915857834, -52015234748499367943,
        84912695050448836133, 20318946864368509757, 38590157862337422265, 52890290562177305988, 24894365324027579020,
        6694606463475700101, -16767500595954955978, 24560782844214630718, 29120148592888294697, 14494495458760514898,
    );
    lemma_subtracted(
        4294967296nat,
        5,
        11858040726689181223, 12875099231209424559, 9542578732622215565, 3207866143315556903, 847012747212229608,
        849820897001035674, 17956424926644694507, 3254542679710644057, 10703336716092724242, 13313904518689402170,
        10037045936767333522, 7212327770703274352, 14197565700005564722, 1466131595743240707, 4503357798619727992,
        15228537545328408645, 17691374870506013863, 8726579212570326203, 13461166066247559397, 4831297304748274887,
        5168293263811789024, 7825563906300646532, 178923719516536734, 10255855025963731233, 16830160667767273647,
        13844668060326248604, 8907651652930446268, 2091454018948727474, 7554400105058911616, 4596501919089106686,
        13356625357140302470, 13993173697960017388, 3984029505277151572, 13574644560162920318, 9939763089431664267,
        -3642968547417823437, 7583400626631990451, 215428595278512350, 10427187782184337092, -4479072385388308659,
        44883494543379697223, 22470371655091907572, 59562545783662505081, 51964390658589489641, 18134046978355066478,
        17832151609833354678, 13304485962106264685, -14399266797154095102, -9385565058211620797, -2428886410928287335,
    );
    lemma_doubled(
        4294967291nat,
        13844668060326248604, 8907651652930446268, 2091454018948727474, 7554400105058911616, 4596501919089106686,
        13356625357140302470, 13993173697960017388, 3984029505277151572, 13574644560162920318, 9939763089431664267,
        2265759298231444849, 13161396231867689415, 9618408722104412420, 10745811463502074623, 7308546125180032172,
        10863746910053768525, 1077387428249666482, 2367119785292697848, 3447410847699188419, 16247783659971446461,
        10436974007701656825, 77347535054101497, 14955958282629898152, 2779734862806199909, 17398804551537327878,
        48947852996039991059, 33173778475594465281, 45680805862823450862, 12416089134234807308, 9556118467989565814,
        65183499565393133948, 44877188270753669799, 37297958847195757525, 25051725050067237955, 22144415431572238753,
        -9323188294863967029, -8287161246163633237, -8373007890013600943, -7721546329449845507, 7097837389701461501,
    );
    lemma_doubled(
        8589934582nat,
        10863746910053768525, 1077387428249666482, 2367119785292697848, 3447410847699188419, 16247783659971446461,
        10436974007701656825, 77347535054101497, 14955958282629898152, 2779734862806199909, 17398804551537327878,
        14890347646499514273, 17701503444505808141, 9459690861635123524, 16461307416839959611, 11148216844260955381,
        2407404513773625637, 12105001823117117697, 11180108411146145740, 14216942882187950908, 7451334663874808249,
        3570128913929303133, 2207458052920626183, 13877857998865619055, 11415751154598028950, 13765211399976521573,
        161697953381751598302, 95669617784048580514, 75025057665339986154, -26822556730434176703, 1984357069697843476,
        126855824176372363312, 106947822799041664312, 91948190784642904895, 64942566176432769991, 54441432927047258373,
        -28005754804142443107, -32063600417876150476, -9336038657728021617, 689203837053015776, -12483432511668188489,
    );
    lemma_doubled(
        17179869164nat,
        2407404513773625637, 12105001823117117697, 11180108411146145740, 14216942882187950908, 7451334663874808249,
        3570128913929303133, 2207458052920626183, 13877857998865619055, 11415751154598028950, 13765211399976521573,
        6566901829736103320, 17131833645089748649, 9139262044295918295, 10244329035640532133, 2246358794113456673,
        12336580488790930886, 1485458779788208746, 5264456898300557419, 7600046166396626207, 18063583842951782257,
        11135021465154792676, 7934148769926607655, 6017933359776301878, 1554333829660061299, 4323545200123262864,
        -83018263688698777254, -92081003110215692819, -64228154656878179205, -32125132321007120793, -34061413110373341208,
        45307904346275293272, 35942675796187919257, 29902709495161408636, 25090065861742872314, 25155530212110863544,
        -9531957152989900092, -8028996519251126481, -8213912320500273702, 3719829994326825756, 9986600629879500793,
    );
}

proof fn lemma_chain_4()
    ensures
        at(
            140737488191488nat,
            z(16487762774969524649, 9740192725493392784, 10934789895011707545, 7574475926103414486, 17071274083930026874),
            z(3919309402053986251, 18297336487392171924, 3203350078345811168, 12823323447889219778, 14606747157999337583),
        ),
{
    lemma_chain_3();
    lemma_doubled(
        34359738328nat,
        12336580488790930886, 1485458779788208746, 5264456898300557419, 7600046166396626207, 18063583842951782257,
        11135021465154792676, 7934148769926607655, 6017933359776301878, 1554333829660061299, 4323545200123262864,
        16241691233094048218, 73256128493856644, 12705081647968376391, 6854406581068061933, 9950260158799569349,
        13226886342457292796, 1190311242935128925, 18316636804473405689, 16355684075258547512, 7455967813572764867,
        4727046141270767783, 6534037860495909591, 6937769044675739068, 3735180551678285157, 9787928397422714083,
        -24745619664668256677, -72064687911422721428, -114774143486885482756, -156253036687364620387, -46836977256038537897,
        42862892655817477110, 48888924712050707628, 44556815126694655347, 28272674595575985713, 26326676339680930808,
        -32820783689282399627, -8707309256995904063, -14447815177203725977, 9277000453061143285, -55321681769583634,
    );
    lemma_doubled(
        68719476656nat,
        13226886342457292796, 1190311242935128925, 18316636804473405689, 16355684075258547512, 7455967813572764867,
        4727046141270767783, 6534037860495909591, 6937769044675739068, 3735180551678285157, 9787928397422714083,
        4657310973049190021, 15317993969848184121, 5919135808183624350, 16737156292262152102, 7452908167406086509,
        13614219002055588213, 4967361353405374060, 15396740075039523516, 4384226554083657771, 12942759756243532637,
        10681932897910181617, 8545049314901378854, 3459551256301878341, 12196126043263548314, 8672735825346130676,
        -217485009031394781247, -201750261528419801849, -118298242714907858279, -54672630096384852419, -61696915584568259177,
        70532185063165779970, 67641594311389284004, 56281931414718988355, 27315193136925103992, 33459374005845483471,
        1127595372525512256, 29568056833286165080, -2948162581166326094, -2766646954242756631, 5909143093792164979,
    );
    lemma_doubled(
        137438953312nat,
        13614219002055588213, 4967361353405374060, 15396740075039523516, 4384226554083657771, 12942759756243532637,
        10681932897910181617, 8545049314901378854, 3459551256301878341, 12196126043263548314, 8672735825346130676,
        3055069448349713636, 14799348124774786392, 12686885897358820323, 7250685452487755341, 6339830450006751876,
        15274357907374053658, 9277033589430898035, 5794251620062881191, 9511283149111844323, 16110296459925270985,
        50298306541600742, 6627556999137880500, 10051342725974153476, 17645415201665726066, 2493173354155101149,
        -37352272919957825816, -134169192615195532444, -52408919903510649904, -78393571073276209373, -61688897483065052108,
        60943942544773019382, 39613474423074451000, 31027049340230554033, 29295052048783817007, 22459527445811684566,
        -11597565606874385540, -4726223194113949862, -12030334898189656672, -27720139234075546, -298239169222078417,
    );
    lemma_doubled(
        274877906624nat,
        15274357907374053658, 9277033589430898035, 5794251620062881191, 9511283149111844323, 16110296459925270985,
        50298306541600742, 6627556999137880500, 10051342725974153476, 17645415201665726066, 2493173354155101149,
        1313021189834419788, 5894096982906859800, 4229733597769087217, 7250808620923225880, 10816393881092265864,
        17046950935367445625, 1110877172901755599, 17522762335240922765, 4918604452788812574, 10041390180239124004,
        16728018097713981989, 14676769300527163020, 10712728336749115599, 4146441190164648259, 15065859399915049463,
        -161470296003938033631, -99930164367761916332, -118653576462663878665, -170579992437415205347, -92688631984913244389,
        30805176390964758003, 24270061501770649979, 27994829276378707965, 22762010411832506188, 7143206029835413099,
        9385052936783973944, -11026043371577417889, 16603300643591030582, 8430771296943251371, 1380622685245109250,
    );
    lemma_doubled(
        549755813248nat,
        17046950935367445625, 1110877172901755599, 17522762335240922765, 4918604452788812574, 10041390180239124004,
        16728018097713981989, 14676769300527163020, 10712728336749115599, 4146441190164648259, 15065859399915049463,
        10642203785919903070, 1969230688566131483, 4452364382765445280, 11345614620810897038, 4431835878662448808,
        1202249577192515833, 11106084093350001922, 7629450324411374622, 13003570691643086382, 13064531031593885748,
        4756301345464002601, 12720331128602166159, 780403264756218442, 3968778693308167595, 8969588715579946627,
        -46599442990010790416, -116586508937524806579, -60409051955758715465, -26346550375906095932, -57857249687229374073,
        25408777050340124521, 29624507674223132032, 21702215731480037441, 17235760276750793822, 8610560981171798232,
        13369127567408335344, -14051241664138721133, -2940450899067360728, 1545624259039525255, -2560130083321634292,
    );
    lemma_doubled(
        1099511626496nat,
        1202249577192515833, 11106084093350001922, 7629450324411374622, 13003570691643086382, 13064531031593885748,
        4756301345464002601, 12720331128602166159, 780403264756218442, 3968778693308167595, 8969588715579946627,
        14398410217375352584, 13149696174655594608, 13295113203133031799, 12619262902075919373, 7764657915011583137,
        5284310352912079783, 16903455681434130219, 6257168174294131169, 10360559812049949466, 17907112587919923593,
        11712665313376694104, 8532365097088801342, 2795506912208580867, 5880673772679679735, 13006095193196273556,
        -140344358762334152038, -100415765563240604483, -115765372544923295302, -61115027938747143182, -19355788763547974520,
        99019032179817483145, 80003216736618419926, 61998857370044666209, 48459380176542955325, 39694617015631226576,
        -12332012661949858733, -10748474131025496987, -12604373770180429422, -10044701026693346710, -6590886740715667239,
    );
    lemma_doubled(
        2199023252992nat,
        5284310352912079783, 16903455681434130219, 6257168174294131169, 10360559812049949466, 17907112587919923593,
        11712665313376694104, 8532365097088801342, 2795506912208580867, 5880673772679679735, 13006095193196273556,
        1699613405089986803, 15938349522301631770, 8618688702061304876, 10623210602070091434, 18194707740192143930,
        2033379574738999923, 9048051275421354481, 3581422195501752981, 1327738331911963507, 5493865020939223330,
        2584897239525913682, 12857946573807804619, 18251380495551532094, 4649793231968424721, 6392867570197258383,
        -216937572138392131112, -95622415845539320847, -132310858766523200715, -104310955610689928569, -46004805588010448205,
        124260369027250092944, 72295848129179450769, 78227633601496916717, 70689342929550478705, 25736933236564556800,
        73003343368478960132, 44454962415114543555, 56726701547325974379, 45417452437177206199, 17928733604314134260,
    );
    lemma_doubled(
        4398046505984nat,
        2033379574738999923, 9048051275421354481, 3581422195501752981, 1327738331911963507, 5493865020939223330,
        2584897239525913682, 12857946573807804619, 18251380495551532094, 4649793231968424721, 6392867570197258383,
        13976999782757836169, 13864533368136784274, 11685139711126514230, 15092319073796932452, 4060323039024335178,
        17977871403877609036, 5569328892433776254, 1670700269779528556, 8925124658216036676, 11625765552065069121,
        7851986507164418609, 5761850271439212550, 8421796558533682573, 4790125424647025763, 14652001001497575417,
        103177398924966137876, 68553727609513722220, 64983248671942589947, 37300002553061315690, 52350534240499589945,
        86262299956699979751, 73485927469026137788, 48059962108966283754, 43116951493163296418, 36241662963612171299,
        -33358063204435603242, -38386680515103926532, -26105090230610406556, -19210972402199218255, -9809348177499393145,
    );
    lemma_doubled(
        8796093011968nat,
        17977871403877609036, 5569328892433776254, 1670700269779528556, 8925124658216036676, 11625765552065069121,
        7851986507164418609, 5761850271439212550, 8421796558533682573, 4790125424647025763, 14652001001497575417,
        5461040990678562997, 5236516864672583983, 6059327274237439635, 13218826415677836023, 3786796020725209828,
        11308932694418829714, 3966069036163024239, 3430402409605723660, 6411938109664120183, 4047884360887666108,
        15085186110532045737, 10783931639354207205, 3589766511243192930, 2614881104030220310, 13548232643715057852,
        -47940084223444688111, -22668708680923628717, -33749011167675982550, -80455588776119694539, -56194126526416470538,
        34118967894317575157, 38981318202953973382, 21355723928839307651, 13598937356823978609, 11737375316769357125,
        8108703476423784194, 14154329588193918932, 19963297330094565173, 10216859652327975559, 4896689429283252792,
    );
    lemma_doubled(
        17592186023936nat,
        11308932694418829714, 3966069036163024239, 3430402409605723660, 6411938109664120183, 4047884360887666108,
        15085186110532045737, 10783931639354207205, 3589766511243192930, 2614881104030220310, 13548232643715057852,
        7778539214892543925, 5452598603888955318, 5072814702873691768, 2409571195927698339, 16305559553276140877,
        16841679330265718357, 30555455932413472, 9961498388920705215, 1834782600004394822, 10932151224749295757,
        17683648555426534597, 11726280693668817859, 4132798312829438172, 17585174070315421230, 3710891528350341358,
        43143926003088643833, 13258085212322067058, 1683262352771504145, 50048447129074379942, 19357000149198354354,
        36173947363474532708, 32446652664662680649, 18669172523342833767, 48269751371636691557, 16570792425430638305,
        3215196006878579511, -21180740947267275587, 6327655577719228403, -17896423656924437145, -7722491123536934875,
    );
    lemma_doubled(
        35184372047872nat,
        16841679330265718357, 30555455932413472, 9961498388920705215, 1834782600004394822, 10932151224749295757,
        17683648555426534597, 11726280693668817859, 4132798312829438172, 17585174070315421230, 3710891528350341358,
        15049089434604433366, 9546097199672785684, 6562142996547514258, 8031987235832685942, 9443660037329019289,
        6299665871544546135, 7784743707396535699, 11427491939585508398, 14106583220773829582, 1056839222849378432,
        14408602495096183320, 6745654335729460109, 7391008195358832662, 8570982046121706602, 6056244364516250825,
        60435838957264757768, -4081632385735120717, 21030360794208999850, -347895079090086625, -20528683365120897443,
        58743047623093785699, 46224010054789510229, 40318479179769770272, 34400761488298679825, 26055923451942788582,
        -2988952455926624732, -8613044677493772913, -7406342386693995194, 6228337689892137689, 3204914785476724997,
    );
    lemma_doubled(
        70368744095744nat,
        6299665871544546135, 7784743707396535699, 11427491939585508398, 14106583220773829582, 1056839222849378432,
        14408602495096183320, 6745654335729460109, 7391008195358832662, 8570982046121706602, 6056244364516250825,
        13177056381798171703, 2142735162002484956, 16262328466804214355, 154666637158075397, 7469133817136780460,
        16487762774969524649, 9740192725493392784, 10934789895011707545, 7574475926103414486, 17071274083930026874,
        3919309402053986251, 18297336487392171924, 3203350078345811168, 12823323447889219778, 14606747157999337583,
        -84879081153199079442, -61417867227669539509, 10839835166055946035, -17574494325573557382, -23665535251229370100,
        15436464327448842260, 42573079098048635061, 23857972192332312045, 13071776085126877452, 25043364811195082991,
        2054601086578541814, -44171610036662045506, -1325056109275332283, -16538859465497274977, -14388054252737816968,
    );
}

proof fn lemma_chain_5()
    ensures
        at(
            576460751632334848nat,
            z(7599667364267532834, 4374574404188984060, 10428616781265698542, 16060388458510568540, 1144912718062769881),
            z(8388342039976085003, 7980008531111235746, 11822070473837029090, 3913637214045953861, 4927484149611659222),
        ),
{
    lemma_chain_4();
    lemma_doubled(
        140737488191488nat,
        16487762774969524649, 9740192725493392784, 10934789895011707545, 7574475926103414486, 17071274083930026874,
        3919309402053986251, 18297336487392171924, 3203350078345811168, 12823323447889219778, 14606747157999337583,
        7669634044589196168, 9232294691498770985, 6919293860117166726, 10711917535663913780, 11001076381883967148,
        6395874115047384989, 9593650850715246504, 16244391640609958799, 14856836055961074458, 10322545598819541856,
        4228687704377494731, 6403382366000075825, 17661793078514589723, 10392516042484927822, 17623332685938551695,
        -134666081325549039324, -154223957386950328717, -79548738924400762746, -133034306667655811208, -81682507415861148755,
        60331936524139374057, 51096836019409330856, 48703874430942737872, 35515532550943365142, 22465549728181311800,
        -2853523566313054408, -9479917246447030541, 379092787270953869, 12304308662472178866, 3273210191286243162,
    );
    lemma_doubled(
        281474976382976nat,
        6395874115047384989, 9593650850715246504, 16244391640609958799, 14856836055961074458, 10322545598819541856,
        4228687704377494731, 6403382366000075825, 17661793078514589723, 10392516042484927822, 17623332685938551695,
        8374361601323938747, 11462555354793268171, 6825184770267310938, 8033035798704622578, 7164949639713310390,
        8270616705276569973, 207135461379901017, 6334041833010472320, 14667884094767896912, 17903971289498068422,
        6321276949510281591, 15091225320391036893, 4751533572345637764, 4003439160004661646, 15815417941034412529,
        -185094747088143703206, -172763763360946990459, -101018659060144306370, -52706252975334098362, -59900923596122721377,
        48348014239519793742, 36807839240978902301, 32040401562040464415, 24124621553023682800, 19013932167340203726,
        9110220357888516452, 6475824939813814437, -46255183297630053, 66326774327432097, 3701792486867089808,
    );
    lemma_doubled(
        562949952765952nat,
        8270616705276569973, 207135461379901017, 6334041833010472320, 14667884094767896912, 17903971289498068422,
        6321276949510281591, 15091225320391036893, 4751533572345637764, 4003439160004661646, 15815417941034412529,
        5400102300884678182, 240542700423159275, 7653260486671895222, 14022161763333693171, 865749894561939575,
        16557267183118463954, 1290410458711649029, 17016131012969261831, 17310719423770522352, 15552258019916945076,
        8532650066634056966, 16750728715303421807, 2315690758438881893, 8525024355502345167, 11225171655362318607,
        -64575300698521192158, -148216495371606410519, -191619704934968075475, -167225677578100510164, -18833529935648250292,
        36553992433248563426, 34272488755124567460, 8432531493953578872, 8531188807072717483, 4047789089703431834,
        -30135513369015617092, -5028915251864455858, -1588390578409481683, -7330314329397578623, -4990206251175859373,
    );
    lemma_doubled(
        1125899905531904nat,
        16557267183118463954, 1290410458711649029, 17016131012969261831, 17310719423770522352, 15552258019916945076,
        8532650066634056966, 16750728715303421807, 2315690758438881893, 8525024355502345167, 11225171655362318607,
        15883024661930889971, 4011770352746599048, 13974450491298698930, 1828407503288887378, 7165590381748349907,
        2625671225491144104, 5658596749734239529, 5902599094891799225, 625959127727175789, 2431718689800160900,
        12666750440873631117, 1338468001703027689, 1376745803075079428, 17213769008144930447, 9836744670341781716,
        -243086590642578181729, -317335488193084064831, -303864376053365262775, -149454423992860888694, -101614277864890226373,
        31336512793402286085, 40022154712045316621, 29198491518814082793, 17577243475830999610, 23721154498443713930,
        56688866875467269885, 46999731044568288172, 42517871320495579072, 30144520780143963783, 28323484158999387287,
    );
    lemma_doubled(
        2251799811063808nat,
        2625671225491144104, 5658596749734239529, 5902599094891799225, 625959127727175789, 2431718689800160900,
        12666750440873631117, 1338468001703027689, 1376745803075079428, 17213769008144930447, 9836744670341781716,
        7125303188829352566, 17868201296864574627, 6970970633668577863, 16627938648808435789, 4436615092492260075,
        2564623517205854695, 6699660184631052110, 6874525757298574248, 17966959890280464299, 8142489379930855250,
        11003337726772688383, 4643839749135211646, 4318911358864766150, 16881555952167081717, 16031400541165060611,
        97209141211820553027, 123932935305222863884, 79537983957339108615, 39724039006899395870, 41598424594636169529,
        66238961322749690645, 68828559166984701229, 46688117659848196157, 29551354969493042188, 38274591662820758025,
        -39610201116273698872, -54412171833054030873, -29315889593998154396, -12098507347746400457, -20294022049501154180,
    );
    lemma_doubled(
        4503599622127616nat,
        2564623517205854695, 6699660184631052110, 6874525757298574248, 17966959890280464299, 8142489379930855250,
        11003337726772688383, 4643839749135211646, 4318911358864766150, 16881555952167081717, 16031400541165060611,
        1654915085260233611, 9296078882034405232, 15570967021777882783, 16834568940876154296, 5161730623291685210,
        16108172705333119068, 7836348037753207117, 6285241724528156175, 119691239276397508, 1480284318979070786,
        6640992689660226979, 9727326735953463396, 16121653024059712306, 18057586483649791443, 5928573507328891670,
        -7431857588777125766, -24901294428308657818, -15631276128053883142, -94944043849543324, -11814299417937617230,
        101016470657606091071, 73900054956058655195, 35742209938244286059, 23047309979402750658, 31036936666265375127,
        54711043692744576312, 59300779484458596799, 21269701929534107906, -5828663994199470852, 5262008304580630852,
    );
    lemma_doubled(
        9007199244255232nat,
        16108172705333119068, 7836348037753207117, 6285241724528156175, 119691239276397508, 1480284318979070786,
        6640992689660226979, 9727326735953463396, 16121653024059712306, 18057586483649791443, 5928573507328891670,
        13551518272550916102, 14854646066601371922, 11851977711326340914, 10832701625579731939, 17896093874468532304,
        13606291196707532543, 16012246542725869957, 10351821119095865110, 4515919821733852163, 6846132890053275148,
        2821842621594136718, 9742386622805824167, 7901584440934742946, 1870727075640395652, 621466367165466420,
        167187925596914958969, 155166578377817639551, 130796801792666507101, 89588428386254743928, 68334065524782313161,
        138182549185793011249, 109898685395407521876, 92431670305751321096, 87089813685729068321, 51355391259586266848,
        -50558359906475602344, -33914699614943305812, -30211945555141849646, -25905102167255901224, -12468866307430815594,
    );
    lemma_doubled(
        18014398488510464nat,
        13606291196707532543, 16012246542725869957, 10351821119095865110, 4515919821733852163, 6846132890053275148,
        2821842621594136718, 9742386622805824167, 7901584440934742946, 1870727075640395652, 621466367165466420,
        14162676119264367562, 14212635475658113027, 5691562484807383429, 6024643121342216572, 16945144485944221018,
        1482228416306678183, 4386242264719657400, 16920726881775933888, 3703817785986816275, 8144344101902658196,
        15696158938603028846, 3688457272523433029, 7207017546404129510, 17849762898605973499, 15301659546554608358,
        -102842032131597895826, -82292566673395897978, -77262653334589940897, -70438019144909221040, -50984489478187686818,
        100360809175965277339, 59096226853765554358, 52895253745938118033, 64718635697801429665, 37059287013051236189,
        32662109937171108074, -241323330665302182, 8620899038309176051, -468471475666957420, 12536366801247786064,
    );
    lemma_doubled(
        36028796977020928nat,
        1482228416306678183, 4386242264719657400, 16920726881775933888, 3703817785986816275, 8144344101902658196,
        15696158938603028846, 3688457272523433029, 7207017546404129510, 17849762898605973499, 15301659546554608358,
        15223231465370180320, 6972628357550293757, 9990658408187127562, 15979593126910875806, 1935187934149066591,
        2832212359140355056, 13326234836708323847, 2093476248427837639, 8770356434511270868, 4197251855969735186,
        9479276111933313556, 6165334402021622511, 1362027759728791417, 10809325961470743949, 13471656114925493937,
        62025229251564003952, 21710161026854505412, 81730606629917330968, 17442055847052800182, 466101108609781806,
        68878648051101265692, 59324120605742059033, 29183407648318584590, 34536134976772597773, 20685081879596119990,
        30848703197209051781, -9975174468530693218, 16788917548787927659, -3345722818986756797, 1486684448561056077,
    );
    lemma_doubled(
        72057593954041856nat,
        2832212359140355056, 13326234836708323847, 2093476248427837639, 8770356434511270868, 4197251855969735186,
        9479276111933313556, 6165334402021622511, 1362027759728791417, 10809325961470743949, 13471656114925493937,
        13092922281096938530, 296104249626451380, 4513570955678117093, 8532455644033463447, 6627996338639057756,
        18177157301603131379, 10169843228641491753, 15396750144130792678, 3212697637907206032, 13939506751981136065,
        14555564170008450177, 7419653966083645498, 3468336640592784956, 1621376420477900201, 13336193448993991811,
        -26105289493243681747, 3390491528807218993, 731020106307514419, 30468167954450866152, -9941948071324401667,
        22457683775920507715, 21990749526917758868, 24806429366616821896, 19401447613665728540, 10786998326504318652,
        -22338728421652415526, -11785012537644868226, -20674231368907268293, -13095618081650740181, -14134129958254833535,
    );
    lemma_doubled(
        144115187908083712nat,
        18177157301603131379, 10169843228641491753, 15396750144130792678, 3212697637907206032, 13939506751981136065,
        14555564170008450177, 7419653966083645498, 3468336640592784956, 1621376420477900201, 13336193448993991811,
        4829925816225044075, 86091985854390288, 5751927067502286066, 2996857871404987290, 9858514536621301542,
        843656199072655740, 13248043723192554639, 16922933484459780215, 3821684981182185020, 7006263888165789848,
        10981987549830838384, 7157032972421912473, 3573005192434795860, 9027141051812362695, 16583867293670892808,
        -202129482525972090210, -232914803342073376681, -122388054110947748635, -111725070895434887263, -104464577851356682072,
        7147432896897331983, 19949745352396072947, 12622150248478380593, 17429120144197781644, 6984021848849418158,
        -1613241582082734438, 3016818018920797255, 7393574257186015577, 12805627075238023944, 10100089588169823508,
    );
    lemma_doubled(
        288230375816167424nat,
        843656199072655740, 13248043723192554639, 16922933484459780215, 3821684981182185020, 7006263888165789848,
        10981987549830838384, 7157032972421912473, 3573005192434795860, 9027141051812362695, 16583867293670892808,
        16035428865126969866, 12780656360635841161, 5652531862973731452, 16096810098810347670, 3245792443731181450,
        7599667364267532834, 4374574404188984060, 10428616781265698542, 16060388458510568540, 1144912718062769881,
        8388342039976085003, 7980008531111235746, 11822070473837029090, 3913637214045953861, 4927484149611659222,
        -22902473103080490899, -17270378093607094943, 59902825131553691099, -36214686442117725354, -5079629113819517889,
        57026948161273465942, 70326241004037243734, 35676114291321163853, 37531292479822657224, 29680146200172219227,
        16744358283591615930, -20189828178556690297, 18606733105012082789, -6221677992409723945, 5160037380526089338,
    );
}

proof fn lemma_chain_6()
    ensures
        at(
            590295809671510884832nat,
            z(7664164472080788036, 3566159920024096128, 12257480193874446340, 3468890104874176001, 67560049326183214),
            z(8941000117214651809, 6708802274483196318, 11938401080103230369, 2018268676499078845, 13489998574020433998),
        ),
{
    lemma_small_multiples();
    lemma_chain_5();
    lemma_doubled(
        576460751632334848nat,
        7599667364267532834, 4374574404188984060, 10428616781265698542, 16060388458510568540, 1144912718062769881,
        8388342039976085003, 7980008531111235746, 11822070473837029090, 3913637214045953861, 4927484149611659222,
        198463526012056007, 13084481019039376191, 8647930036830653605, 1176938186644142939, 5458622852629422222,
        11259993230982018927, 2978351938525006074, 908844190966934426, 6467108002951988659, 14304639131866005131,
        15791024275203226931, 7226746670743720320, 14751577879446713593, 4920926793241997889, 8524351625142171084,
        -126857780822050404091, -99889012723331408535, -18558021688565710906, -21021000054182476057, -20643858137308999866,
        26543835765011463316, 15861003168072189743, 11556674186052435309, 17139295726045151889, 5841281221277271978,
        -11488642654628242132, -10802063788848458164, 5374264301474640566, -4405671416322056644, 10131903281281094843,
    );
    lemma_added(
        1152921503264669696nat,
        1,
        11259993230982018927, 2978351938525006074, 908844190966934426, 6467108002951988659, 14304639131866005131,
        15791024275203226931, 7226746670743720320, 14751577879446713593, 4920926793241997889, 8524351625142171084,
        11712523173042564207, 14090224426659529053, 13197813503519687414, 16280770174934269299, 15998333998318935536,
        14639054205878357578, 17426078571020221072, 2548978194165003307, 8663895577921260088, 9793640284382595140,
        845898551067398776, 552848238797832084, 9722546824388199138, 3535870360940715194, 16239693377963032195,
        13374438166156849621, 7269955348815547624, 8629003507297092191, 15944360887286860333, 5578850538967324444,
        14296531207908991473, 6964463142692142697, 8439064970536559244, 5965301471215260465, 5798436033294920419,
        52104048427094510104, 41300381769686735762, 28027536581850911760, 11234846679518827180, 9377119717389319174,
        14140709578240124973, 53439756991947864785, 19585186376194208661, 43797164475083292536, 6825691399975036365,
        -30071486655307433040, -12302368157640824528, -21609457815056921305, 19712194361882111401, -6636968092218970167,
    );
    lemma_doubled(
        1152921503264669697nat,
        13374438166156849621, 7269955348815547624, 8629003507297092191, 15944360887286860333, 5578850538967324444,
        14296531207908991473, 6964463142692142697, 8439064970536559244, 5965301471215260465, 5798436033294920419,
        13196057987502653605, 722776074203479989, 4861827572834338024, 17015574785062071778, 5000330717476152099,
        9284037264016410207, 9442200455119839000, 1592129514931552580, 8382642479312608126, 12123312213605781625,
        2780187872135947840, 17770096106740253995, 5649694223622521501, 12073848692067473439, 14962962910245156542,
        -113634449990748949818, -135638332746671491224, -70980920870587329858, -56277689802061482394, -40270176578629996361,
        37523229258501613994, 56027742154193268550, 34658546117401864811, 28791800236164438503, 9768855444939717697,
        25842038743064267316, 20079331302557608607, -5934070418915535433, 3563608926520888601, -3425658216429766301,
    );
    lemma_doubled(
        2305843006529339394nat,
        9284037264016410207, 9442200455119839000, 1592129514931552580, 8382642479312608126, 12123312213605781625,
        2780187872135947840, 17770096106740253995, 5649694223622521501, 12073848692067473439, 14962962910245156542,
        809723251691233752, 10770620065871675292, 13785371502288977011, 2639977298466631460, 16653793991675014341,
        14593480503016834345, 18339995330434474401, 10319349237722380345, 17329118312241703816, 6298824327960069292,
        15762463821587359470, 5433089197080832635, 13625926911174012028, 1067590693672556800, 8414883941460807413,
        69169992990048130782, 31238304774754721431, -14818663031696225242, 14153656721652135945, -28802782369956130924,
        70215327984708867497, 76751935228973717913, 21799226746766564503, 61435007637557946159, 14846781621842245723,
        -37933834396387125751, -17910586039085868004, -31276131719861173669, 2877554378696604789, -17556658458908297112,
    );
    lemma_doubled(
        4611686013058678788nat,
        14593480503016834345, 18339995330434474401, 10319349237722380345, 17329118312241703816, 6298824327960069292,
        15762463821587359470, 5433089197080832635, 13625926911174012028, 1067590693672556800, 8414883941460807413,
        9027374535113484208, 3179726501338444769, 8798075394504295536, 1763677506448050662, 3190511163152731535,
        3626214778611769305, 2280734420213544, 1119267823368419730, 4277982917880931626, 12135165480716464167,
        8468056594652403908, 10226185421207132329, 5179817998821510851, 17998147577639916095, 10546068744351409880,
        -281212119897929687022, -247407635218575777569, -174013703202762286495, -140499266996779023732, -122496759745457648707,
        12764584012270790831, 12748211001980022850, 10989467845617695897, 6414778987902067337, 7926929151711148141,
        33176820038527844672, 11030753349253121827, 17991870863019193834, 14739067752143868377, 7431566864277676471,
    );
    lemma_doubled(
        9223372026117357576nat,
        3626214778611769305, 2280734420213544, 1119267823368419730, 4277982917880931626, 12135165480716464167,
        8468056594652403908, 10226185421207132329, 5179817998821510851, 17998147577639916095, 10546068744351409880,
        16078314115414061422, 18010256360781935899, 987136307732180612, 10898657477351632253, 9488004540606897678,
        377342244921924278, 3072230943651146958, 13376068516327130093, 10698946212962467570, 10606760039649166207,
        14651629206318855352, 7960108313523159565, 16040223773473476787, 347003029695386109, 6582990069628571211,
        125402563741012709404, 95349707627736302731, 70855775547830679134, 8241221666704399841, 60357701397212681462,
        73094271135342794864, 53759462453078142593, 52938956357665950780, 35566597588376943178, 37873995564564257449,
        -20183990419362029363, -29551976314747043167, -20705327993402074302, -13449741785295503286, -5735492577137779739,
    );
    lemma_subtracted(
        18446744052234715152nat,
        1,
        377342244921924278, 3072230943651146958, 13376068516327130093, 10698946212962467570, 10606760039649166207,
        14651629206318855352, 7960108313523159565, 16040223773473476787, 347003029695386109, 6582990069628571211,
        11712523173042564207, 14090224426659529053, 13197813503519687414, 16280770174934269299, 15998333998318935536,
        14639054205878357578, 17426078571020221072, 2548978194165003307, 8663895577921260088, 9793640284382595140,
        6044196282323135421, 6530421214202982772, 13750738935196217811, 13815033815465780362, 5963692197072347499,
        3553683082433166934, 3529899159572998980, 9427135368509966105, 13740915680461637238, 17524893612351119103,
        7353673652367055215, 12776764430527896489, 5752810118312952801, 4749183299610238753, 12321175708935818970,
        32208306436582813961, 32048088441149336148, 29818867299549476681, 23697194481592447694, 15525869295368387140,
        76436599103350075242, 61991363671817394219, 38120677833275220022, 24573152786230870604, 23939739816521608841,
        -6762474284188427209, -19749907764447733368, -19729472469666243052, -9028447132509685380, -1769665757836158773,
    );
    lemma_doubled(
        18446744052234715151nat,
        3553683082433166934, 3529899159572998980, 9427135368509966105, 13740915680461637238, 17524893612351119103,
        7353673652367055215, 12776764430527896489, 5752810118312952801, 4749183299610238753, 12321175708935818970,
        6105929071692103677, 17171606577261114194, 7248676596621097584, 6756682255551610254, 18249243077185904075,
        18272073334033900397, 13895017715136112897, 6571567048655849813, 14790000057015532485, 6425783550749592556,
        2837187280361025431, 8529582097674573555, 2582542809496365328, 14022562621775311464, 12464628345658565902,
        -15452223242533913451, -161625405447951439901, -159256307342002125216, -74130262863225696291, -5056839080625214193,
        119877921190452077780, 61818641372685657527, 60889330919540912569, 72129753865206166182, 27508738512087136076,
        -2737524496348694948, 3274582443649474555, -5404433340414139176, 25787708279854388717, -14537974135358102466,
    );
    lemma_doubled(
        36893488104469430302nat,
        18272073334033900397, 13895017715136112897, 6571567048655849813, 14790000057015532485, 6425783550749592556,
        2837187280361025431, 8529582097674573555, 2582542809496365328, 14022562621775311464, 12464628345658565902,
        143800755183628446, 15558292137059831033, 11257265932088015682, 6995416396608899697, 2295666474951915781,
        16245335236385687373, 11482598434923909319, 13338337185386528270, 5553272643421829172, 2455360008177350642,
        16496023554809309494, 3163050780442053367, 7481835692882289443, 14363701378189787651, 3137055611825229076,
        -109550003093637782370, -146115735787015426500, -106468278462705675915, -111300808385156158358, -77880866844471776237,
        37232378254175938391, 16606708850619723762, 18521041817530813999, 19955272795067414637, 18705725842481157944,
        20174648145217577730, 16979113070030006154, 11184262136717193942, -1912083300460368932, 4858955825467092411,
    );
    lemma_doubled(
        73786976208938860604nat,
        16245335236385687373, 11482598434923909319, 13338337185386528270, 5553272643421829172, 2455360008177350642,
        16496023554809309494, 3163050780442053367, 7481835692882289443, 14363701378189787651, 3137055611825229076,
        12258663639782931721, 6981497347740033697, 12222602695022252545, 8571940632398734140, 15140850009382692503,
        782878065696143643, 11571708082524242013, 9391170253148253443, 14714441720234893827, 8004185250009701375,
        3543802693723704333, 12833880846249266876, 7856150944832441985, 9443023796654186095, 3243485544606554289,
        -20119575157956891154, -1621468911810928537, 8454875048854612007, -22375687557763496390, -7672707667376822944,
        76606375741144946638, 81421724783401616673, 61101604482829951116, 57926820229087047746, 34710469814182889012,
        -8951780278783305511, -8288786620575455939, -17458903180065282004, -11131191124243424429, 8110683108198411512,
    );
    lemma_doubled(
        147573952417877721208nat,
        782878065696143643, 11571708082524242013, 9391170253148253443, 14714441720234893827, 8004185250009701375,
        3543802693723704333, 12833880846249266876, 7856150944832441985, 9443023796654186095, 3243485544606554289,
        1535866453441011001, 10051785398904183908, 10784655723933450427, 12867528167079892131, 16410272756305170068,
        11823184287223427948, 11078654046633317984, 13599432221140789996, 17978208569523960864, 17499217467913161794,
        6888469870654676744, 12324563628255564592, 7080675402654513816, 7433599096587402134, 10627369391461282931,
        -79616208609203318928, -83098689152243552980, -55676416386112860289, -22954285858837777173, -27536773772386228115,
        98917472221629419093, 86165400759556929905, 75955076290816230604, 57691853444785432888, 23060982242673185177,
        -29655892260246102388, -40689321505116491151, -35116433037534670232, -35318183663963855478, -14506868564259446867,
    );
    lemma_doubled(
        295147904835755442416nat,
        11823184287223427948, 11078654046633317984, 13599432221140789996, 17978208569523960864, 17499217467913161794,
        6888469870654676744, 12324563628255564592, 7080675402654513816, 7433599096587402134, 10627369391461282931,
        6568333628880262916, 9973971888970651649, 1696512389878487734, 5402216407761924009, 1739695953131543152,
        7664164472080788036, 3566159920024096128, 12257480193874446340, 3468890104874176001, 67560049326183214,
        8941000117214651809, 6708802274483196318, 11938401080103230369, 2018268676499078845, 13489998574020433998,
        -387578942232295349845, -393355875874524488183, -336727364554283410462, -242279635735182017684, -136729434310487981692,
        10963595499673210488, 12809039353398178363, 9657851676763566965, 6173917672112029043, 7236782265257300100,
        37063941401144730313, 22860228431793301351, 24342170403123900931, 12732705097912393465, 16767656242017871870,
    );
}

proof fn lemma_chain_7()
    ensures
        at(
            2417851636414508584271872nat,
            z(1001189780326806898, 16158215814914084098, 3951281447021916786, 6389582356830518003, 9872304748385680475),
            z(7699582756743611120, 3449630838926507026, 12899763888283535785, 720595320259736023, 6669426616909968769),
        ),
{
    lemma_chain_6();
    lemma_doubled(
        590295809671510884832nat,
        7664164472080788036, 3566159920024096128, 12257480193874446340, 3468890104874176001, 67560049326183214,
        8941000117214651809, 6708802274483196318, 11938401080103230369, 2018268676499078845, 13489998574020433998,
        1392707581917059897, 5053639864945224753, 9117483343355342930, 10742598524145499851, 13855012801615752895,
        17722366494998346795, 16128615338716989308, 13765938289797222278, 11466874190426196628, 6599506127673080933,
        6060589158799927621, 2791621383859835288, 2591130626374973374, 8793379153026078260, 17495268842597543662,
        50179195479495971161, 91200876117549679066, 37695196401101360868, 61816560770555117962, 7562210864129762956,
        54737132981305882492, 60619036112914511701, 51172623696677881621, 37836470652189485239, 12484529124052296775,
        -48928749769416443258, -30761396102395155984, -37960042806808706921, -27801754551248500622, -18300210333303719279,
    );
    lemma_doubled(
        1180591619343021769664nat,
        17722366494998346795, 16128615338716989308, 13765938289797222278, 11466874190426196628, 6599506127673080933,
        6060589158799927621, 2791621383859835288, 2591130626374973374, 8793379153026078260, 17495268842597543662,
        14902462777768555676, 6457381716757670795, 15545425955933373367, 4222389935274693752, 14583858650841243541,
        10340417783049920729, 8698562980230598344, 14764113025628159018, 418528298426691672, 16517410851341531271,
        4715594346448373659, 17946510400242059051, 13007305972165142079, 6406678912390775465, 2313969847490587905,
        -201170766660175587590, -124189243334074027757, -113405351575203960838, -53073870559256041057, -79363975886796472152,
        64019847960406191611, 87073430110740169594, 47406765475771165787, 52295424720726095269, 39620122333790759784,
        40417122036600870414, -11268138415243548787, 27409157887602619489, -6995771094785700763, 2550856890588974539,
    );
    lemma_doubled(
        2361183238686043539328nat,
        10340417783049920729, 8698562980230598344, 14764113025628159018, 418528298426691672, 16517410851341531271,
        4715594346448373659, 17946510400242059051, 13007305972165142079, 6406678912390775465, 2313969847490587905,
        6398544417453933433, 7838840829244115073, 616921442268269074, 12803999780476134456, 7823339814481498678,
        89521772383141166, 3155069499313781349, 18009438915196096583, 538155343105516940, 11657209426485103607,
        12264440080000757078, 13823127309716188340, 3246390520683934131, 12871543063609972494, 17585075077321740057,
        -53322201892984281646, -190598279226601064527, -18176640817400547784, -147154451726219189449, -55354033854012950386,
        24735597478135719733, 33669892515605197701, 36340422414264741962, 19360585089038939908, 16329906136153139131,
        10034881561268440632, 2388364201985588477, 11541093799420033242, 12063720259819164566, 9721688431109879410,
    );
    lemma_doubled(
        4722366477372087078656nat,
        89521772383141166, 3155069499313781349, 18009438915196096583, 538155343105516940, 11657209426485103607,
        12264440080000757078, 13823127309716188340, 3246390520683934131, 12871543063609972494, 17585075077321740057,
        6153901852921892497, 87546586474803073, 15692707078606058627, 15420525467977871654, 15299808292593577429,
        11710148894422800723, 2533852517162770587, 17228604363449300956, 14375935922139981432, 11897053349928639851,
        14829819376930909828, 2702656702073322429, 1643029654913238959, 2092101884674973790, 7869706571278612544,
        114108467221458391609, -25276145825341076133, 167154832574946324699, 55356179462553852661, 7194494599912526181,
        81198389987979658524, 116824290215378656163, 87209803381814675121, 48506819652219560749, 23704352364001261894,
        -35691705869945888155, -33220145710662320835, -44655103248958096296, -14395184410290960089, -8600319538076123141,
    );
    lemma_doubled(
        9444732954744174157312nat,
        11710148894422800723, 2533852517162770587, 17228604363449300956, 14375935922139981432, 11897053349928639851,
        14829819376930909828, 2702656702073322429, 1643029654913238959, 2092101884674973790, 7869706571278612544,
        12341566273061491970, 4318442566425793856, 10296060241064489677, 17341335244854432133, 2655876490907815672,
        13829227490040088400, 10357344177402534783, 9112827115151519709, 2781478988121922045, 17673754701703511575,
        1984010875139877764, 8852654753263773167, 8127430302463036406, 1499876224750939720, 6105153866999020503,
        -243889739236855289174, -260353551780011550541, -167340140942702112719, -96744779739721664087, -82739350462840477918,
        70061922461502220052, 63579176689889546534, 29768214453065094831, 29171836708874463847, 17419839907233824668,
        33448744681381901900, 20801315572012988133, -8868170142151966684, 803169752486231595, -4280474492166407688,
    );
    lemma_doubled(
        18889465909488348314624nat,
        13829227490040088400, 10357344177402534783, 9112827115151519709, 2781478988121922045, 17673754701703511575,
        1984010875139877764, 8852654753263773167, 8127430302463036406, 1499876224750939720, 6105153866999020503,
        17639516543543466256, 16468160984867897494, 9396350542040294063, 15605871194969217332, 14534776191524943486,
        14885407770032494414, 8035117488527737654, 8992799871098542267, 12090750504978009993, 1414641731977328316,
        3319804638658840634, 14510799977235779183, 226683298858271553, 10107596655742590747, 4304377056909891475,
        -110269212169836096635, -122352002185323465792, -34953741793063849109, -136991273231858787893, -61635143838437560305,
        142417987520267296082, 115524644803736741128, 106450306409667158239, 80980167785991545373, 60447754236893443431,
        34103663334216347838, 2780675802529820897, 20910146427689599177, 29927835710837533814, 8430385020816086604,
    );
    lemma_doubled(
        37778931818976696629248nat,
        14885407770032494414, 8035117488527737654, 8992799871098542267, 12090750504978009993, 1414641731977328316,
        3319804638658840634, 14510799977235779183, 226683298858271553, 10107596655742590747, 4304377056909891475,
        2948136911369935288, 9824706075645898950, 6555062051080849383, 17113491358435716080, 5878083006186590835,
        2726541084396277083, 412398068427339076, 11972435344824309948, 5879450254249291570, 13430109919565437212,
        3298470518894290852, 2519785445983141736, 3835966585716530368, 186347177173773972, 7595726237611267764,
        -87851150062641410537, -48591981795191616328, -9556491051621131658, -54843775030999835404, -10257150423816491585,
        55742852013021968213, 63302830318635536526, 40047307202530817506, 18071727198026199819, 22437437682377924205,
        -11639339445728169761, 9323659404637651586, -19599094897421340681, 1908305407047418849, 11275237971548278565,
    );
    lemma_doubled(
        75557863637953393258496nat,
        2726541084396277083, 412398068427339076, 11972435344824309948, 5879450254249291570, 13430109919565437212,
        3298470518894290852, 2519785445983141736, 3835966585716530368, 186347177173773972, 7595726237611267764,
        11106388614159623882, 11029055397894051218, 15802733556909826158, 413945621033243909, 1379614490903476593,
        826910921596079082, 9354060767812225018, 9002694207624439193, 6022668541649218417, 3190204367094303516,
        4582685947960182576, 17216394509904452323, 5346900524308387440, 4672443778440206803, 10158031282356590742,
        -41474838524902204826, -126361242633631009019, -73304723109606645240, -82134831954501362884, -19462222940051330272,
        13763717278140272212, 20399810577611013509, 25808845915559386889, 19704471239045772074, 15693951978781585400,
        17336260363390265387, 22725445812057510195, -1273509871664041277, -3630570334502901542, 8565101273304428325,
    );
    lemma_doubled(
        151115727275906786516992nat,
        826910921596079082, 9354060767812225018, 9002694207624439193, 6022668541649218417, 3190204367094303516,
        4582685947960182576, 17216394509904452323, 5346900524308387440, 4672443778440206803, 10158031282356590742,
        18059101483739988776, 13167189824304558066, 8217165307444570983, 10161974224357045627, 12101753900863111083,
        10886940737309814050, 6982207644784384668, 4827220909594080741, 13965816619629609806, 14366643306206644424,
        2191221202657638927, 5399186068469119534, 11292175430320872365, 4389375909444731540, 12037577468276893327,
        68269050485319603279, 55653562572150888626, 55697291737397758686, 43177123776294073822, 23941277644161532463,
        96668735518695996956, 74919729122655158569, 65487459194728476371, 55445206861965095847, 41862384691925881453,
        -32827937240403003574, -24703940731014896838, -32804223463499740786, -31277620626282323593, -20044519651836973249,
    );
    lemma_doubled(
        302231454551813573033984nat,
        10886940737309814050, 6982207644784384668, 4827220909594080741, 13965816619629609806, 14366643306206644424,
        2191221202657638927, 5399186068469119534, 11292175430320872365, 4389375909444731540, 12037577468276893327,
        11519857742819872728, 15971240670412366136, 7752135909925667746, 5989899854015768198, 9309418198466913095,
        5901514837616244821, 10329137021718927104, 18336223528398181372, 10152513249020871417, 7327404338113828761,
        11383791984672738194, 10453772895589467976, 2226869180001713012, 12336114215577623777, 10559180789325946871,
        -68254351903926488679, -103921834331607732149, -158766569183309805596, -93671492438537448542, -48535736420937357725,
        70658105047510801311, 49256215029839359048, 41647589822886600918, 34999338866019532926, 25257260596371851723,
        7977812207697238843, -5636997511732226669, 3391558569464049880, 1554918782749227100, 3449618841941944751,
    );
    lemma_doubled(
        604462909103627146067968nat,
        5901514837616244821, 10329137021718927104, 18336223528398181372, 10152513249020871417, 7327404338113828761,
        11383791984672738194, 10453772895589467976, 2226869180001713012, 12336114215577623777, 10559180789325946871,
        15495900676525704396, 7531366022828653751, 2425859410235933575, 3935998711125064235, 8814771411589193261,
        1104812176645107741, 633440008148224668, 7008271043341713804, 12147457125849459230, 12459077270624229834,
        7963051536389458382, 10941096726913266480, 4221470359343365193, 3781491927062596841, 1690759222583608639,
        -173618761240862300106, -143851037032786120092, -60979689244724390578, -46861356690965692185, -59113809461241117132,
        37715904317885950169, 22127874316999127321, 18435383465605565903, 21229998318397729589, 18342387745135901031,
        18107359370567504078, 23040747684348591654, 7960488770469311315, -2108873729530666217, 725307507977287679,
    );
    lemma_doubled(
        1208925818207254292135936nat,
        1104812176645107741, 633440008148224668, 7008271043341713804, 12147457125849459230, 12459077270624229834,
        7963051536389458382, 10941096726913266480, 4221470359343365193, 3781491927062596841, 1690759222583608639,
        5691012093057690691, 1441339311044591553, 14824792138517471124, 17986938665376440254, 6489404208683744016,
        1001189780326806898, 16158215814914084098, 3951281447021916786, 6389582356830518003, 9872304748385680475,
        7699582756743611120, 3449630838926507026, 12899763888283535785, 720595320259736023, 6669426616909968769,
        -19238938931106082496, -110241277825305459179, -115277450155221667262, -41867237830301221336, 20391087833155091720,
        91529647409431852365, 84796517566892951384, 47225715891364324527, 20263737700406998637, 18728919308167153789,
        7078261245262708072, 21524476402605460249, 13456952675310128136, -7630267564736885539, -11396650895701850948,
    );
}

proof fn lemma_chain_8()
    ensures
        at(
            4951760151376913580588793854nat,
            z(17861614792610992579, 13007958763858304003, 13025067194771709249, 3472075231279617992, 18413090461566234187),
            z(2946796024241360451, 9159988488488619044, 13865673059479682158, 11108031456693604153, 9063895150129363558),
        ),
{
    lemma_small_multiples();
    lemma_chain_7();
    lemma_doubled(
        2417851636414508584271872nat,
        1001189780326806898, 16158215814914084098, 3951281447021916786, 6389582356830518003, 9872304748385680475,
        7699582756743611120, 3449630838926507026, 12899763888283535785, 720595320259736023, 6669426616909968769,
        2559289827988799669, 15177187820611499480, 4899015279644812697, 9759175197465174628, 4299144853561006111,
        7903257108542240014, 9573261972169692813, 11561425296854353468, 11151668879868310071, 15281970118637320478,
        17217287498342935565, 18124966659295339221, 8654383280577098757, 3889117867494911364, 6688374059170166198,
        -98474432728700496973, -18664372253210137088, -69776058947414859950, -29666277819568734665, -22208246708074458984,
        37128808518408767887, 26551005561576323385, 27493181188479623714, 13775200878528839870, 18552842425755906099,
        -25578534890168050180, -21954048234816548993, -9386433224234940988, -12606975039686753721, -4814479065462693984,
    );
    lemma_doubled(
        4835703272829017168543744nat,
        7903257108542240014, 9573261972169692813, 11561425296854353468, 11151668879868310071, 15281970118637320478,
        17217287498342935565, 18124966659295339221, 8654383280577098757, 3889117867494911364, 6688374059170166198,
        4506140795879633686, 10656755353898154344, 4383714516614777117, 367336383519711042, 17005602013812399055,
        12143322968699110643, 13865532711672417062, 12396606685656039687, 1621059295018065629, 17744466093126074087,
        14906911865007903742, 15302375440591404313, 4601436557881394343, 2346863164882262227, 15931026869064449220,
        -140292024437675074829, -171066732170886562530, -155253100233759712225, -120413409187547991366, -51405777971154861382,
        60569731413365085249, 29475809529534139742, 10329972685552399857, 52275587558694481344, 9774378297550563162,
        -10429639564871299906, -6994027041155411006, 22519703401992383653, -6069166145129549831, 711575147393238580,
    );
    lemma_doubled(
        9671406545658034337087488nat,
        12143322968699110643, 13865532711672417062, 12396606685656039687, 1621059295018065629, 17744466093126074087,
        14906911865007903742, 15302375440591404313, 4601436557881394343, 2346863164882262227, 15931026869064449220,
        17551371670601780925, 284052722997216660, 8973217828068348257, 2156311570224311163, 3731998196159170661,
        10882992684323474971, 14619469758543425926, 13173037781476587378, 16183449383907430720, 7110416491345230589,
        4397039682413399943, 7785939509794071539, 769383390731212790, 157676462815853997, 981431094169868258,
        -225177783521115364026, -187384565817223405676, -70545518821821638612, -173612453547515161403, -57915665500350674597,
        23337748490871992194, 12189048876964929439, 19697207934807877236, 6644729101061759575, 11533039357260976976,
        -20290617865291930777, 9242510853514269594, -5246553978079604775, -7632744427966789397, 9682815108911768685,
    );
    lemma_doubled(
        19342813091316068674174976nat,
        10882992684323474971, 14619469758543425926, 13173037781476587378, 16183449383907430720, 7110416491345230589,
        4397039682413399943, 7785939509794071539, 769383390731212790, 157676462815853997, 981431094169868258,
        7110448716450562860, 1212437908170985619, 9973400249578749049, 5178240555512199910, 15318412380149636825,
        8465228296331895831, 508172201641520424, 5410875657730951264, 11751061414972791331, 8238381442315502577,
        1725833685494599684, 7028774592166608897, 4623182520317202876, 11415474424181475434, 1768158352903298344,
        -284339762437775891874, -257065097694953296529, -184863275965118163370, -128592402524765104935, -117061902018535127290,
        25579702100389588777, 54987721638201969574, 33568810341556265601, 43464838858424104246, 17882119082059746306,
        49590194095318467710, 26838775542135070068, 15318891905060991067, 7716749025875158213, 10022192125576388615,
    );
    lemma_doubled(
        38685626182632137348349952nat,
        8465228296331895831, 508172201641520424, 5410875657730951264, 11751061414972791331, 8238381442315502577,
        1725833685494599684, 7028774592166608897, 4623182520317202876, 11415474424181475434, 1768158352903298344,
        1700315173077479996, 4522202417824335086, 12694685902469637376, 18195791034540686993, 1721300725625937311,
        16167700080906458347, 3994139355525489877, 13037640506713267027, 2312854199910039012, 16450215588912729559,
        7089888480766440737, 4861873897356122716, 98570442189650113, 15478171726766604940, 256587168387098025,
        3568399797110824288, -32675883417738833836, -85875853964178488998, -47923464145442643951, -2912843086589193416,
        77820486893952319971, 61785808971804038350, 13636163527971565451, 10060402290695490577, 17974915075436332651,
        -10808649001650322067, 6631182484926726469, -28516527725759901622, -13295179893815731390, -7849016961074997200,
    );
    lemma_doubled(
        77371252365264274696699904nat,
        16167700080906458347, 3994139355525489877, 13037640506713267027, 2312854199910039012, 16450215588912729559,
        7089888480766440737, 4861873897356122716, 98570442189650113, 15478171726766604940, 256587168387098025,
        18011881831344035243, 6986640395830916915, 4104909022224109943, 7680341930384042912, 107446044131168996,
        11044722018821504222, 10390000259813560814, 2321953653203597800, 6501253086675281837, 12766107233664377847,
        13977884580298861162, 3220646988667205785, 13691222724556969000, 14016974296412193453, 795499669496905589,
        -100537119083087499208, -179014508735666999483, -100068615818298700925, -122750499510280545133, -100755000278836802653,
        28085966590815027789, 23380514995558970482, 10930858577714298261, 18109889834252569829, 6941087428135095300,
        19664873814686377867, -6889629317291829933, 13709141193642628500, 742951139334779862, 1762362618425985064,
    );
    lemma_doubled(
        154742504730528549393399808nat,
        11044722018821504222, 10390000259813560814, 2321953653203597800, 6501253086675281837, 12766107233664377847,
        13977884580298861162, 3220646988667205785, 13691222724556969000, 14016974296412193453, 795499669496905589,
        16831252314409347983, 2938489178228668563, 8262498903516777086, 6497140802538477585, 12792378418889891115,
        5092700650846431328, 9985728326656957711, 17528247857499051271, 14654848371091768876, 308741085293988653,
        13782456524458097196, 8403533627221018930, 14515200862861359154, 9461008239868417353, 5179325005791154753,
        -57724409110469437043, 12186151915340910764, -8347505358287599036, -64733266867397786957, -28871057267513932350,
        45044716681309336607, 46606463130263822254, 42579569923096442744, 41102288487816609751, 29114945148285787769,
        -14798667988332240782, -22194589029142931592, -14944333706209445979, 18332269975413914422, 7526474751641074922,
    );
    lemma_doubled(
        309485009461057098786799616nat,
        5092700650846431328, 9985728326656957711, 17528247857499051271, 14654848371091768876, 308741085293988653,
        13782456524458097196, 8403533627221018930, 14515200862861359154, 9461008239868417353, 5179325005791154753,
        12398725939968854068, 1039803318353276219, 1036443288673123455, 1144582260828801607, 14990579964287774992,
        1433411209099450564, 14350475590075997640, 9078521451902324797, 16227537884951685734, 6151971661255052605,
        11083120531554350702, 14828531637173907667, 3744003056338303203, 15685380292190680314, 1328474055061919800,
        -188032422242954096157, -37710706173349417137, 20400754569846548211, -38989924053450124175, -64972965931142125157,
        13789409141154220162, 6664373611304804549, 7032680372742240646, 38201352944596308388, 20338693888823641252,
        -7861711118519511530, 16594678400290275113, 717159151598290564, -14844299487578650624, -838477582274658416,
    );
    lemma_doubled(
        618970018922114197573599232nat,
        1433411209099450564, 14350475590075997640, 9078521451902324797, 16227537884951685734, 6151971661255052605,
        11083120531554350702, 14828531637173907667, 3744003056338303203, 15685380292190680314, 1328474055061919800,
        4866641093570824011, 15093145333460785611, 18339014111322606092, 14096158618486393566, 8611893610204960862,
        8451945247520690249, 494088105647138276, 730759298304303410, 314809582150811436, 15647807995169875292,
        13602372368281140150, 6360535281484288289, 15319860897433355348, 13896440280962945143, 16460630034794298451,
        -65599346758783321167, -73378087116948650099, -36832639654463844952, -3859748712284180195, -25192809797347233955,
        127644502939010762708, 91648300117869937018, 61510559325623329133, 49509161688447925424, 45842896036913230818,
        60842812451547737620, 17762734981075024647, 7079881480099769552, 6141042789321654394, 26125422846771337668,
    );
    lemma_doubled(
        1237940037844228395147198464nat,
        8451945247520690249, 494088105647138276, 730759298304303410, 314809582150811436, 15647807995169875292,
        13602372368281140150, 6360535281484288289, 15319860897433355348, 13896440280962945143, 16460630034794298451,
        6436404016577424273, 17244492790133929974, 10615922628101410879, 17319105088466761533, 773247565702081047,
        1917129423350163583, 16272317016058939168, 14032621487669085177, 8169166188265855564, 16081530832970338029,
        1330930164609119473, 11376268021383918231, 15735510365835503332, 6436751195903832166, 10963965755676016674,
        218316487333351990350, 156278219073246972547, 127604865212239928220, -45102088108148612114, 25030398088907684524,
        66384752893502308798, 63485006464282462549, 27884649932721274439, 32031216496627035581, 39029654429598489894,
        -51946916885385110860, -23940634414059404840, -17839775631544758056, -18174865899362027758, -29688671519086750325,
    );
    lemma_subtracted(
        2475880075688456790294396928nat,
        1,
        1917129423350163583, 16272317016058939168, 14032621487669085177, 8169166188265855564, 16081530832970338029,
        1330930164609119473, 11376268021383918231, 15735510365835503332, 6436751195903832166, 10963965755676016674,
        11712523173042564207, 14090224426659529053, 13197813503519687414, 16280770174934269299, 15998333998318935536,
        14639054205878357578, 17426078571020221072, 2548978194165003307, 8663895577921260088, 9793640284382595140,
        5204446117372586544, 14413878530968475298, 1220060265860756138, 12867411319327571094, 6451534062902049153,
        355043416859782674, 3579850507482738516, 10056677609263528429, 9646434725078444987, 2929298156647221916,
        18159528223827299410, 5887263631600414640, 12397290181773954136, 13982652232436193071, 3582017513035532832,
        141650026754305424, 23120458208539742326, 7044014060867793588, 8237357158062434739, 8163261659909473620,
        36821139297556008308, 37620237483016334999, 38952490585707779820, 15936361067097660657, 23829705434050100131,
        52615503709247552077, 8491442788226233687, 37115477434458513171, 18418546649649082364, 12219221215390103581,
    );
    lemma_doubled(
        2475880075688456790294396927nat,
        355043416859782674, 3579850507482738516, 10056677609263528429, 9646434725078444987, 2929298156647221916,
        18159528223827299410, 5887263631600414640, 12397290181773954136, 13982652232436193071, 3582017513035532832,
        2845909480353100942, 14686770379114957626, 16438155754084340720, 2775082444571955753, 17200224243449502162,
        17861614792610992579, 13007958763858304003, 13025067194771709249, 3472075231279617992, 18413090461566234187,
        2946796024241360451, 9159988488488619044, 13865673059479682158, 11108031456693604153, 9063895150129363558,
        36687516121446472271, 57304046809771568450, 96205686071118617952, 43040821927925833404, 53083045035518774401,
        97442512474244806389, 97748278491138894496, 32290602101473017365, 75145252829818263498, 24374356942013575945,
        -50890654601068011851, -62303099701844396583, -13281328794370635015, -55758424054355310265, -17860043561029535363,
    );
}

proof fn lemma_chain_9()
    ensures
        at(
            10141204790019919013045849813248nat,
            z(2230693308268414969, 13489063110444531084, 15033228066032442952, 5364134090450921754, 16637874691309448445),
            z(9862224450699322168, 9247684808041587550, 14838610764417402449, 17792121582452742053, 12596661301446077717),
        ),
{
    lemma_small_multiples();
    lemma_chain_8();
    lemma_doubled(
        4951760151376913580588793854nat,
        17861614792610992579, 13007958763858304003, 13025067194771709249, 3472075231279617992, 18413090461566234187,
        2946796024241360451, 9159988488488619044, 13865673059479682158, 11108031456693604153, 9063895150129363558,
        12276231225611091293, 1713191570798891489, 11298611464769056905, 13479295329450212876, 6712381825768261604,
        11016111184882564573, 10665182130032312573, 9698325668154110136, 16655639109221430271, 2970668240697543442,
        2602539756836816382, 18022998614298072051, 18303368603945078527, 16197725281898476592, 1161961054347270872,
        -199145376745147979412, -190454938396725796473, -77816103434018728875, -188019261281400998845, -102611198976632704919,
        61446472564520419654, 56496736824824153663, 44626456460912988721, 27366969028065572139, 18358218272578080361,
        -5516431582698180201, 5301615162735823888, 26084696711554149316, 14829926435489734991, 15292939848493324433,
    );
    lemma_doubled(
        9903520302753827161177587708nat,
        11016111184882564573, 10665182130032312573, 9698325668154110136, 16655639109221430271, 2970668240697543442,
        2602539756836816382, 18022998614298072051, 18303368603945078527, 16197725281898476592, 1161961054347270872,
        10496237152433964542, 8310532218000439878, 8164812535789314983, 14351965823236498489, 14406779144670902165,
        4619922329624492417, 13868851456807397059, 11952922806192255324, 1079189832753117526, 14066931249054037527,
        4253782990607512873, 2068610432121529453, 15984755252343263341, 15155671234642316842, 10338607724375877171,
        10745072820226704366, -14350323840688071992, 19169650271301492373, -37253625092131180060, -19489293447492128922,
        83029593994137040983, 81215812565468314480, 80288324539998074570, 57444121359106538311, 32940395941947575182,
        -3443027449712582274, 17398522541829923602, 10700778965213677436, -14592629607183465197, 2208559944346599599,
    );
    lemma_doubled(
        19807040605507654322355175416nat,
        4619922329624492417, 13868851456807397059, 11952922806192255324, 1079189832753117526, 14066931249054037527,
        4253782990607512873, 2068610432121529453, 15984755252343263341, 15155671234642316842, 10338607724375877171,
        17608038161110891239, 11223354469934206532, 5999877622335786889, 13777365452366850687, 4632387477176431457,
        7319136033438406364, 4166445730474354798, 4067599620116456782, 6993491136844455088, 2713746473358074710,
        11522973602640690108, 15280137814808384204, 7143412036288650111, 13774766564997347324, 10113243980774293597,
        -56238680112733958730, -64175339820653573203, 40909763964777300723, -80423069893070760471, 4562053091609025142,
        60604928647639483125, 61336160329700420925, 39041491672463999490, 37092686850016643809, 27559852990195821651,
        37352509730553985217, 11385879312668669217, 33534513041474451590, 8845072055338002967, 16371982475303523037,
    );
    lemma_added(
        39614081211015308644710350832nat,
        1,
        7319136033438406364, 4166445730474354798, 4067599620116456782, 6993491136844455088, 2713746473358074710,
        11522973602640690108, 15280137814808384204, 7143412036288650111, 13774766564997347324, 10113243980774293597,
        11712523173042564207, 14090224426659529053, 13197813503519687414, 16280770174934269299, 15998333998318935536,
        14639054205878357578, 17426078571020221072, 2548978194165003307, 8663895577921260088, 9793640284382595140,
        16380726572801844990, 9054447166270077054, 10070494726908211234, 15398728735890216913, 11395773223304773302,
        12907029307481540231, 1494641106015043183, 4313896753525089833, 1382496807792753017, 9312228842158407473,
        15919653354287874606, 1512955335244850048, 17541480649305588103, 9006458820980733069, 5055910407388042245,
        79930181421723794072, 72905002119487728637, 65857795871987635776, 46433982753451265059, 32337834876113827280,
        98546369746488886838, 91971018038931946681, 79406402166789715603, 58353994227331610820, 40853329089175805681,
        -1154147569496265867, 2418159579837548777, -8083568828227541143, -10573269958676451476, -4461480429790995731,
    );
    lemma_doubled(
        39614081211015308644710350833nat,
        12907029307481540231, 1494641106015043183, 4313896753525089833, 1382496807792753017, 9312228842158407473,
        15919653354287874606, 1512955335244850048, 17541480649305588103, 9006458820980733069, 5055910407388042245,
        16269624935164118400, 4859422651635113961, 716584075285241967, 8944163815580781920, 13110606333269962623,
        8563392193823868432, 3446547172026163926, 4788083068707539932, 605835920395628849, 9329782139238140788,
        12582030108233651874, 10906020460005559497, 11325180694519540934, 3062188348670975498, 13342344720149520493,
        49161539732455492110, 66833003314419610012, 55055722152222310359, 12034566694647832371, -3670118576294592295,
        37156477557720522284, 24637696254213578674, 40685313275883241123, 44108854292494830318, 27866691852129219595,
        -943935568086543684, -460667201345293832, 866770733601303765, 2552905999807095998, 2311426453963183714,
    );
    lemma_doubled(
        79228162422030617289420701666nat,
        8563392193823868432, 3446547172026163926, 4788083068707539932, 605835920395628849, 9329782139238140788,
        12582030108233651874, 10906020460005559497, 11325180694519540934, 3062188348670975498, 13342344720149520493,
        13243398843348873509, 10350889777125225292, 3589072745847804621, 232173418952263530, 7803068661778616089,
        8968369582792362848, 14958101372523804871, 9519540076830814306, 12711314443582476163, 4976230190959863896,
        14682424468039207411, 18081298695429499091, 14056280814326760370, 9234924775539577667, 12782793097131440086,
        48962628415114267215, 20961343250636362444, 21392365765678850012, 6006917798566196100, 7526023090973942834,
        36049698310538360237, 23980292762595830607, 11550762175463709652, 14263404088869744586, 12162913208322935571,
        -14814977388957122114, -12411930139354606347, -25132684429589915824, -8065873619312083160, -4903897152849988727,
    );
    lemma_doubled(
        158456324844061234578841403332nat,
        8968369582792362848, 14958101372523804871, 9519540076830814306, 12711314443582476163, 4976230190959863896,
        14682424468039207411, 18081298695429499091, 14056280814326760370, 9234924775539577667, 12782793097131440086,
        1582440551822899396, 5642395950690007610, 10599463827721481461, 4039488222060268796, 7387904974075292087,
        9339913943574249266, 7239924597416793595, 15372210548461596107, 11214719211067707490, 12403968426740798502,
        12846036353946561195, 14682760630196213078, 11017138325512623027, 856839701621149947, 12990091093011185668,
        -84053753175009190387, -66625260387060044100, -56546816658234236043, -27366821847338530994, -47422370640858005496,
        27620889767592568810, 29092228677582359113, 13251271047754016405, 16053817525085747183, 9829119847648952331,
        1160570297282342333, -18304230540040575928, -1436206730766745886, -6232720367996908294, -2001013858373744611,
    );
    lemma_doubled(
        316912649688122469157682806664nat,
        9339913943574249266, 7239924597416793595, 15372210548461596107, 11214719211067707490, 12403968426740798502,
        12846036353946561195, 14682760630196213078, 11017138325512623027, 856839701621149947, 12990091093011185668,
        3587363780977613381, 10089098615721689904, 1032334930406469871, 2191382773030132375, 12404834902481348157,
        10698203305777434472, 12199254921683945569, 5707295843094351122, 5284209932909723268, 3814057845368909661,
        2756439758564467538, 11712541272589155250, 17945247729828672564, 6594863306970957267, 9780232478223740562,
        -155028815338830406557, -200227765745376039447, -156462080161368592125, -75842404615632052574, -74533221953311611523,
        42140999936037169475, 8870328277234902126, 14761362806191877392, 27007097686934623577, 7279614200931740410,
        8265256076972234430, 21346380523308511332, 14116664348782175179, 23329765734022162515, 3952399919429770982,
    );
    lemma_doubled(
        633825299376244938315365613328nat,
        10698203305777434472, 12199254921683945569, 5707295843094351122, 5284209932909723268, 3814057845368909661,
        2756439758564467538, 11712541272589155250, 17945247729828672564, 6594863306970957267, 9780232478223740562,
        1070281120655125986, 6632084252231720911, 4310096323457754519, 16414391012862300358, 7121371260915983696,
        14672555880112029100, 14782544461023959021, 4496420834386257734, 10698848629690959552, 5746456680495236370,
        1003462894032682600, 434954672114842120, 5380555557009750296, 7793472093879657414, 7993123937337704457,
        60158083372756216017, 16514493971967619721, 15555474198394104389, -1429453530365901701, -2301318099031094690,
        38435419405731747300, 54570923673620217689, 40905235237302313939, 13251533956810915074, 13636223069564793017,
        -5869674174477041895, -15985166824188398735, -13216579909226979774, -6256895665309203321, -5608877453522378269,
    );
    lemma_doubled(
        1267650598752489876630731226656nat,
        14672555880112029100, 14782544461023959021, 4496420834386257734, 10698848629690959552, 5746456680495236370,
        1003462894032682600, 434954672114842120, 5380555557009750296, 7793472093879657414, 7993123937337704457,
        858024905950446867, 5375025954133077736, 18410312720886187610, 6260118310336307249, 13713641233238964593,
        7779213567623313259, 9055187152397747684, 15948770193138781728, 17216555824768163154, 2991602541526759174,
        16703494505049967293, 5562710029696914821, 14849612531768675439, 682404482502453798, 17849352955506284360,
        -91211233684495408347, -63249522083719876455, -63193663237606997889, -47726618307000050190, -64342066299993531014,
        61501784942334902898, 88992702004982381361, 31202146841574146742, 41896085128066264375, 23297851431688535056,
        -15671741354576044273, -21654000101851861206, -3715586597441032997, 10559250489187190573, -6132447373928527351,
    );
    lemma_doubled(
        2535301197504979753261462453312nat,
        7779213567623313259, 9055187152397747684, 15948770193138781728, 17216555824768163154, 2991602541526759174,
        16703494505049967293, 5562710029696914821, 14849612531768675439, 682404482502453798, 17849352955506284360,
        6865691816938198569, 16162597113697133582, 5542415334723594615, 9846391971227531172, 1623291037126962299,
        4856364965827401792, 7326400665222664409, 13494217541300579633, 16270437324318357844, 10108479327307075416,
        8459710626838960209, 15591749528841790061, 11897771260588609254, 11838228106079806942, 4478642035126755532,
        -146214171635271165090, -138469913747827720847, -15583271534633249260, -37774374098559606330, -67360580545117048524,
        28839456948588311359, 30724709072220486681, 23485767139089721913, 17470262389461981407, 20127938634298585411,
        -12379338030876005946, -1047501967436972168, -7840173598439519985, 2703489695064062515, 97607632567407228,
    );
    lemma_doubled(
        5070602395009959506522924906624nat,
        4856364965827401792, 7326400665222664409, 13494217541300579633, 16270437324318357844, 10108479327307075416,
        8459710626838960209, 15591749528841790061, 11897771260588609254, 11838228106079806942, 4478642035126755532,
        11928391414924641067, 13572348151119723535, 13218188518538044771, 3319420876016061614, 4544885214420518958,
        2230693308268414969, 13489063110444531084, 15033228066032442952, 5364134090450921754, 16637874691309448445,
        9862224450699322168, 9247684808041587550, 14838610764417402449, 17792121582452742053, 12596661301446077717,
        -172836990984013102737, -191595204852084163843, -117740836363064205083, -42882504639387170196, -34310332255465389987,
        42048368585812979880, 38884863466720549204, 31987780941971062033, 27103013893231082776, 20234005385062471796,
        5344868605305954121, -11339155695069452354, 888458029142125494, -2849441321403355399, 2237410322696594433,
    );
}

proof fn lemma_chain_10()
    ensures
        at(
            41538374819921588277435800835063808nat,
            z(13937508530352787364, 10762585158381859866, 9819493669740948013, 15351944989484716343, 5619270693609437621),
            z(6502748335548768407, 13231762204689152280, 10290815508399345092, 3728785954113262367, 12657708058497597987),
        ),
{
    lemma_chain_9();
    lemma_doubled(
        10141204790019919013045849813248nat,
        2230693308268414969, 13489063110444531084, 15033228066032442952, 5364134090450921754, 16637874691309448445,
        9862224450699322168, 9247684808041587550, 14838610764417402449, 17792121582452742053, 12596661301446077717,
        17793885351411393552, 3945082827004139167, 7472730884375574034, 10810458573323652984, 8311117340136920266,
        9051101166954798067, 7245505030557353615, 5352684767548057520, 4081718529218827055, 8100379140652844385,
        4928027511656984152, 5017408562721978680, 8208220337755378247, 121102644538600129, 15517317610145258722,
        -142880376224135057652, -112538892707607276267, 5377159223942186140, -111131426918459429355, -8701007880328584980,
        54104535511801011327, 46817758347258236977, 44483917968539197665, 35285642677135301157, 23685055332831476281,
        25915545389835785908, 30278741623744746276, 24653478235920304161, 13379205256131685524, 13017205776609108930,
    );
    lemma_doubled(
        20282409580039838026091699626496nat,
        9051101166954798067, 7245505030557353615, 5352684767548057520, 4081718529218827055, 8100379140652844385,
        4928027511656984152, 5017408562721978680, 8208220337755378247, 121102644538600129, 15517317610145258722,
        10965318960567463528, 6969395578285474106, 5426236195178211741, 1017968258502679037, 15213620200536382144,
        16004094099360068341, 8097079250022513087, 15984065675760081610, 13792730981842575290, 8803702655713211770,
        782074569429783039, 6778490338498842466, 7323969252886972242, 9256315952271246828, 17901705385959194938,
        -23117936793493245184, 5965771154794995564, -34372456903680646389, 29983255238919249989, -6075267018840412190,
        42802082488208603995, 35305322510187145950, 14121472590705783050, 42951893419254040732, 20452264143368136369,
        -17366942934314088952, -31665589266992299306, -32830014260368637730, -12163539901108013747, -12995654201396004260,
    );
    lemma_doubled(
        40564819160079676052183399252992nat,
        16004094099360068341, 8097079250022513087, 15984065675760081610, 13792730981842575290, 8803702655713211770,
        782074569429783039, 6778490338498842466, 7323969252886972242, 9256315952271246828, 17901705385959194938,
        9117711284423003908, 16349220218850660870, 7473848643600324578, 3499112477092441625, 4950139244436327130,
        1643536579840933363, 13586011173695994728, 1610807012323604975, 2766495399505960823, 6249123886100506200,
        6971016684501352413, 15366433876493582136, 12863493014383673304, 18011981403410390970, 16152467352496302384,
        -188616082593003549354, -198344175532347241305, -157186878294363859911, -94963442698233191726, -80673255967211110980,
        39336436734173428039, 30186674163986796373, 27512299842599946093, 20692140766438337377, 14124000115195617844,
        31052894188658245485, 30965358153446141685, 18388100238627710768, 20745553998480259940, 19671015815305913913,
    );
    lemma_doubled(
        81129638320159352104366798505984nat,
        1643536579840933363, 13586011173695994728, 1610807012323604975, 2766495399505960823, 6249123886100506200,
        6971016684501352413, 15366433876493582136, 12863493014383673304, 18011981403410390970, 16152467352496302384,
        13360417809000119060, 14543926372655753366, 14520039837730969271, 7213086071493145278, 7194695578670965262,
        10711110442494800238, 11206113001766785119, 6785464825431820843, 5094031880832900657, 15125467040102765421,
        13443571299007124928, 1256641219433363299, 18360962021220270422, 14745312994152822238, 3337478559473607875,
        150082106214580038672, 161077830391451249860, 86135914206518451168, 86166698442732416382, 73517567459300266737,
        77777480834433843296, 63507971487860099929, 49379399387733372619, 41762784715889532241, 33224997210839217036,
        -36344235708396760099, -35171122063310256382, -22144790950580956875, -17823927943917843093, -14943094138819261059,
    );
    lemma_doubled(
        162259276640318704208733597011968nat,
        10711110442494800238, 11206113001766785119, 6785464825431820843, 5094031880832900657, 15125467040102765421,
        13443571299007124928, 1256641219433363299, 18360962021220270422, 14745312994152822238, 3337478559473607875,
        4269272536609091805, 14088872203357560935, 2381657526548383726, 6301397256193624627, 15136503591079043102,
        9055677648762226974, 3652620702963683264, 1054181416965002129, 12813828219849665857, 3806128176404602427,
        18289560777259041245, 2628029349617124883, 12306989901498425859, 14982897272749142908, 8123164505122554780,
        -141020416928005823241, -7528099764840183020, -25920148086941689301, -93286566879520006547, -27020282047232835101,
        75233379516174384567, 24704690268663531307, 42886643860191698514, 43815630627848191611, 16939313021934191877,
        47796271464776556061, 13594037431766392069, -94214454826105548, 31995696059434522146, 1402257912274607252,
    );
    lemma_doubled(
        324518553280637408417467194023936nat,
        9055677648762226974, 3652620702963683264, 1054181416965002129, 12813828219849665857, 3806128176404602427,
        18289560777259041245, 2628029349617124883, 12306989901498425859, 14982897272749142908, 8123164505122554780,
        11246825117951046625, 10514641472481592083, 2906215076965333599, 12061417198865940091, 7230994280569876205,
        17768518944365013807, 10326876427846289563, 1809096160487145596, 17735753179703182861, 12118290340037627791,
        232865408767186762, 17554104378799137303, 12403150301267270292, 12938607100274086575, 5348188123323886626,
        78625651272634290301, 24675629473381234584, 38008226836370210052, 30087683742922160853, 22023996242352428527,
        42988474357630259134, 43315772515969001032, 37905079660596390915, 26524071239279505404, 23025228499535656472,
        -31181821177521607392, -23506582213095220005, -27730085574813223002, -19954487004025866148, -15771625734826712545,
    );
    lemma_doubled(
        649037106561274816834934388047872nat,
        17768518944365013807, 10326876427846289563, 1809096160487145596, 17735753179703182861, 12118290340037627791,
        232865408767186762, 17554104378799137303, 12403150301267270292, 12938607100274086575, 5348188123323886626,
        340523233472949073, 10604183587373079330, 5505284026647573244, 9555992586130487389, 14665078040432907762,
        14658339895558952134, 16269051718966871802, 15905486564914040360, 2987725648147220502, 7041026566640294447,
        6826417567915215965, 13939048668982504212, 550920568445256759, 16057538640834777980, 1398946239243464081,
        -40860027462091745572, -124673978971921203350, -138402008837424551605, -129259439735417704897, -89108078450526126834,
        67699413545054512797, 41502470090000935423, 51880934779910881880, 41658283918919356902, 13171037141976331419,
        -14061362688284923552, -4475861551018494815, 40316500251212405921, 4115860641490609157, 3759076400083091434,
    );
    lemma_doubled(
        1298074213122549633669868776095744nat,
        14658339895558952134, 16269051718966871802, 15905486564914040360, 2987725648147220502, 7041026566640294447,
        6826417567915215965, 13939048668982504212, 550920568445256759, 16057538640834777980, 1398946239243464081,
        1649733741030192093, 1333522787008636087, 8775213123945019818, 2893877765544148299, 7176643713209321954,
        16507820548957881584, 9510016574345563830, 4404317375026541520, 1523597635908212056, 3499646761712787278,
        11547608393304682388, 1483078380026557872, 5213101293945393721, 3888598990327046945, 2666300847408193394,
        -112374944574802341453, -167327709963961107421, -91998244087706609148, -100978427830665049677, -77742101817532402986,
        11520151906224888437, 22084275018576443823, 8421095388262691193, 10162486841112023954, 5876460984721942182,
        15993661587217744454, 19637274371273029430, 4012911069305366069, 8020817024573158417, 6234528436134272852,
    );
    lemma_doubled(
        2596148426245099267339737552191488nat,
        16507820548957881584, 9510016574345563830, 4404317375026541520, 1523597635908212056, 3499646761712787278,
        11547608393304682388, 1483078380026557872, 5213101293945393721, 3888598990327046945, 2666300847408193394,
        8846761703633173299, 4008495008658675494, 4703422309541229350, 14105042699083486708, 4101356321353608066,
        1864120775302952579, 16908338132455644036, 4803158069833935538, 11924509857193446396, 14292245634998788525,
        16811994033684993545, 7819780676182321557, 5637539047043795402, 16246460995982466439, 17305533460836677560,
        -36945115714345739787, -31920744246668639691, -14606202438184903018, 188272325440908710, -12349630917819866412,
        31168569563386500318, 42474896972145080748, 24198686744062687206, 18308844239003127264, 11263213238382667671,
        -13818320150687622472, -32746252425335759787, -29759876454759790827, -2962769124936703562, -9938994192979931385,
    );
    lemma_doubled(
        5192296852490198534679475104382976nat,
        1864120775302952579, 16908338132455644036, 4803158069833935538, 11924509857193446396, 14292245634998788525,
        16811994033684993545, 7819780676182321557, 5637539047043795402, 16246460995982466439, 17305533460836677560,
        15604265340678005276, 14301776865066952922, 8955611009904839335, 15267439133100657959, 12446936438491834203,
        10309796523606322385, 12108889101490839206, 13191403971247507549, 17761064334903296931, 15275341855241108609,
        14655942642445943526, 13319481462848796468, 11078451002864999828, 5774685550282416329, 6465957457800312167,
        -76335917973911912902, 46597115804960642115, -26009298086320943676, 8404390749674122379, 17577411753427320174,
        115573155367819926739, 98361047042302841859, 88049649475735117721, 64912014766661583972, 49079478657515460458,
        -29043833232302655563, -35391643360247852671, -21730539753070152419, -18090640548915059030, -11155516329483152634,
    );
    lemma_doubled(
        10384593704980397069358950208765952nat,
        10309796523606322385, 12108889101490839206, 13191403971247507549, 17761064334903296931, 15275341855241108609,
        14655942642445943526, 13319481462848796468, 11078451002864999828, 5774685550282416329, 6465957457800312167,
        12996988278676828605, 15961648474554739283, 10348721716838262372, 14105234618734881495, 3684015180118613102,
        7386194941930886713, 3212070163728792834, 17005520630341228953, 9303981853499074518, 8749710166674448846,
        6546307183336896986, 2686056976472676790, 15824099717344656019, 11946130953174700801, 15847003589550124336,
        -285947271682046110338, -285471512262604386824, -241127165041945827270, -152941884136079233549, -91718145193288392289,
        75762222192541052818, 67249197470449165763, 45295909094550924938, 39992551270384653054, 35406998449941554710,
        29813853715073479435, 36895768461338834527, 26687428576708124506, 13794704353598844305, 17162574286765725347,
    );
    lemma_doubled(
        20769187409960794138717900417531904nat,
        7386194941930886713, 3212070163728792834, 17005520630341228953, 9303981853499074518, 8749710166674448846,
        6546307183336896986, 2686056976472676790, 15824099717344656019, 11946130953174700801, 15847003589550124336,
        2254584788481954541, 12210205137478703968, 2097583624033355479, 7567752269604905496, 540867226086818515,
        13937508530352787364, 10762585158381859866, 9819493669740948013, 15351944989484716343, 5619270693609437621,
        6502748335548768407, 13231762204689152280, 10290815508399345092, 3728785954113262367, 12657708058497597987,
        -78573403635956519372, -142816795781275802609, -71946653598990113614, -44832060149819825382, -51896890480520713097,
        7586797438429331715, 12667687767267332000, 9926215929464661863, 4674306898243291272, 10389168606811722734,
        11532433234251005251, -11002780948172999525, -1543688238326550281, 746479651481302068, -6093192068743968075,
    );
}

proof fn lemma_chain_11()
    ensures
        at(
            85070591631199412792188520110210678796nat,
            z(9162201241879072361, 17837811579534808786, 8869806388159783634, 12787757796871574793, 17905741128618425982),
            z(6435876377780611000, 8752604569064513740, 3246499352390759704, 8565283852137671068, 15002364040095851291),
        ),
{
    lemma_small_multiples();
    lemma_chain_10();
    lemma_doubled(
        41538374819921588277435800835063808nat,
        13937508530352787364, 10762585158381859866, 9819493669740948013, 15351944989484716343, 5619270693609437621,
        6502748335548768407, 13231762204689152280, 10290815508399345092, 3728785954113262367, 12657708058497597987,
        9880922860508711960, 10596976914667769899, 1307564146801222865, 10585957896731521474, 11313683608219266119,
        1738931883950659378, 13597843915465694150, 2556973976257930891, 13984067376825553506, 7125020543248320688,
        8491900766120462243, 2816006529459377719, 5290718292703251038, 4290089170992452531, 15811310611982733900,
        -101397013871573483401, -139881940136398705210, -63077288599455573698, -47639347564730123939, -52430815519557816787,
        48790648979426932640, 34388916364320660716, 46443581991860652120, 33659535197365960921, 24375428813379773187,
        11516411219104773082, 20886336446222033918, 3050589120806680019, 8933622648675669885, 6348561356793716824,
    );
    lemma_doubled(
        83076749639843176554871601670127616nat,
        1738931883950659378, 13597843915465694150, 2556973976257930891, 13984067376825553506, 7125020543248320688,
        8491900766120462243, 2816006529459377719, 5290718292703251038, 4290089170992452531, 15811310611982733900,
        4003043278532603328, 11762617339481166967, 9603239033530739308, 1103435992371261379, 12055576609299922804,
        7392024787007257364, 5152573379112420255, 16279145017122593791, 10351391009317842676, 6018631941676101920,
        1769436897835587455, 7199527046515723514, 18246898021275929949, 12887010432458105725, 11487587111044410107,
        -39401598698609057955, -37152223295928385219, -91514363102927672166, 30569720855642478682, -37664135379859920439,
        50438956398930319784, 42959383278707107472, 15995173529395906660, 36362158852051162336, 11638844211767472218,
        20658501266266384982, -26295936878446678033, 6785183875654747046, -1734089390543936654, -7776497773137614792,
    );
    lemma_doubled(
        166153499279686353109743203340255232nat,
        7392024787007257364, 5152573379112420255, 16279145017122593791, 10351391009317842676, 6018631941676101920,
        1769436897835587455, 7199527046515723514, 18246898021275929949, 12887010432458105725, 11487587111044410107,
        7992152936154382712, 16514745639497702533, 13050455657835918821, 8632918244570148989, 8248590177887254091,
        2775167023959029600, 5005950135371652153, 10421420794860369178, 962546502972011804, 4709164073039733129,
        15357323594478676337, 2200512495423766934, 6923000304259574925, 12719510263474323392, 17611404963929784602,
        -15082660098989539069, -16961365834899318575, -6213176983135384461, 16657700987854843820, -7749823391705667625,
        84415754629636093288, 61444216704549669598, 49255073033925652587, 41913024541788561929, 31837774566455595330,
        33864913076077322378, 28015719341859020714, 20368751710893434745, 13332984562180751317, 15250071751147832654,
    );
    lemma_doubled(
        332306998559372706219486406680510464nat,
        2775167023959029600, 5005950135371652153, 10421420794860369178, 962546502972011804, 4709164073039733129,
        15357323594478676337, 2200512495423766934, 6923000304259574925, 12719510263474323392, 17611404963929784602,
        11875254224649502509, 10280988524189762613, 4869425408214190902, 1915655449213251052, 12853944450470604700,
        9214876247875960533, 18005789412849932994, 8196591839746523924, 1605385214203554545, 4659328199394602524,
        4250184526577909789, 14433810998811405381, 4856759955357715638, 11303358010631847740, 10811671672160988993,
        78281070024051563805, 31856317186853091499, 65720974788904130271, 73419059629614273277, 38886769787191062740,
        53662480457091005132, 34192259189759830926, 20008540549444938125, 34764642790573785435, 19970390551144081094,
        -31053636349952492050, -7467759363998522699, -8841186620689033776, -3170027243704214957, -5576184193059307167,
    );
    lemma_doubled(
        664613997118745412438972813361020928nat,
        9214876247875960533, 18005789412849932994, 8196591839746523924, 1605385214203554545, 4659328199394602524,
        4250184526577909789, 14433810998811405381, 4856759955357715638, 11303358010631847740, 10811671672160988993,
        16374905590357030163, 2027468181034449649, 10637424090738019466, 13341051954580297502, 1685905768252463369,
        10426192446296608698, 14195383817413192154, 17550385934267442924, 10888663105695384249, 14362307133827850408,
        13909609711585803169, 5990863548377218019, 3083080876684658649, 4030485957470922735, 13633364217365761129,
        -25738404225378546808, 23188704663905620700, -14781368720847302350, -13549209259197320996, 14641943344975936200,
        61806724013494397923, 38378174869654446608, 26423893261621075613, 26485858054335130784, 12059852010019048790,
        -39584195730693625353, -36242704972174871301, -32180385571389443569, -10607811043999525605, -12382376763506884515,
    );
    lemma_doubled(
        1329227994237490824877945626722041856nat,
        10426192446296608698, 14195383817413192154, 17550385934267442924, 10888663105695384249, 14362307133827850408,
        13909609711585803169, 5990863548377218019, 3083080876684658649, 4030485957470922735, 13633364217365761129,
        3583485452474248937, 14064327947888071826, 1967433636592750444, 6059274971810518811, 9420010519052552335,
        8838386986527520412, 16656639868664672507, 5275541334919842545, 7284303536677109085, 16557181858366018769,
        11923440055638960048, 8109602164622093397, 9094113010938306678, 13087488047993228574, 17187521014233760815,
        -308309640223993555181, -302293130228264330030, -192369227508504388046, -160144679091690836626, -118831496886965500342,
        47666157036269290925, 17463382201944779672, 30052808344076397969, 19785481077491119914, 13109250943078550153,
        4766715509257350757, 22386803965314861234, 4036266946849680429, 6955426524722719582, 3633229377204476346,
    );
    lemma_doubled(
        2658455988474981649755891253444083712nat,
        8838386986527520412, 16656639868664672507, 5275541334919842545, 7284303536677109085, 16557181858366018769,
        11923440055638960048, 8109602164622093397, 9094113010938306678, 13087488047993228574, 17187521014233760815,
        11230539771723036144, 18160983501084022688, 2187694956282934814, 2444681442639971347, 12326929054226849088,
        11367578292523620153, 8857473115509770785, 6056234917077467390, 8721826823936802900, 6577197166688360922,
        3924205044111952178, 6401977920240558825, 3642999899569266953, 87527659111548783, 6691373727530884183,
        -154205277783451777083, -66553725624872173466, -81963570160921707375, -75434242289520659751, -24649626650987491839,
        81392643196121257451, 31856573603019144484, 30345290110371477472, 31996492489798959122, 20082556603567047112,
        42749762371696711891, 3672312814797265177, 7989092068351777258, 18953181843756868072, 3911539892949681426,
    );
    lemma_doubled(
        5316911976949963299511782506888167424nat,
        11367578292523620153, 8857473115509770785, 6056234917077467390, 8721826823936802900, 6577197166688360922,
        3924205044111952178, 6401977920240558825, 3642999899569266953, 87527659111548783, 6691373727530884183,
        14290280518364512127, 457733741013993649, 17298888483782847605, 14055346448668825516, 13222218359295500641,
        13920727321550716445, 15153586679071170628, 6177653038273320781, 2046523603830822427, 13474527768368392259,
        10685772685698973649, 17692152111355654807, 806711036948530675, 12048037352182148953, 18440045425576492137,
        -77648050034022182704, -44901051355564738483, -46838407318779146177, -23721141950238027496, -22825403519819996474,
        92123405010781177472, 107234027668536617926, 87260852725982313526, 51067409426212752370, 37405905977718204824,
        2472189826451171128, -9347747334555650145, -4056534087633065069, -17513053516927262122, -11918744397566658417,
    );
    lemma_doubled(
        10633823953899926599023565013776334848nat,
        13920727321550716445, 15153586679071170628, 6177653038273320781, 2046523603830822427, 13474527768368392259,
        10685772685698973649, 17692152111355654807, 806711036948530675, 12048037352182148953, 18440045425576492137,
        14461606511607784494, 5586917330720952007, 2670553674734996841, 2462267214337219928, 16404577853578088668,
        13020930846937484016, 14129310138090810125, 1413665587063169475, 15320185820548489800, 14426783438999940085,
        7479206316731644465, 4226744722024017523, 15686621020862554543, 18280833262965907019, 8892345470792273411,
        -87318181707848731836, -87698082074311597438, 1904640731459333960, -2551949734812116519, -17131528811782769045,
        43286657109586233794, 23995330121912405015, 19017413699022566864, 49243786579378293136, 27599337941378745974,
        -1284399978715856457, 8056398562882669869, -31618597958568762420, -11235349020317581141, -3140103858448310581,
    );
    lemma_added(
        21267647907799853198047130027552669696nat,
        3,
        13020930846937484016, 14129310138090810125, 1413665587063169475, 15320185820548489800, 14426783438999940085,
        7479206316731644465, 4226744722024017523, 15686621020862554543, 18280833262965907019, 8892345470792273411,
        3584413360476155897, 993598265149929043, 9118536478120200325, 4545548208597017001, 16640886554632444604,
        6661501719066134017, 7261582874957064446, 6574521784608599777, 12238551638203620304, 17669239050955015918,
        10383424152636194053, 17177348898429165611, 14874407444154369829, 6922982537905020913, 14645430404654872386,
        15624356192070391629, 14164309319561828747, 3431722261976539344, 29010700014350251, 12693260039228259284,
        11537754482771395416, 5404716483514545252, 9936058498401903617, 14041261965613752559, 3785835968944630744,
        -47802341002826974531, -4604717132900999266, -38674000726321881678, -7750076292228231305, -14995844892617614459,
        121164205112777244005, 97987755883754309282, 65718710432002013279, 70377742064589443912, 41374477710769381470,
        38011607689340082479, 14159015355141514172, 35104354266251821845, 9851625924509539691, 11507384576697289392,
    );
    lemma_doubled(
        21267647907799853198047130027552669699nat,
        15624356192070391629, 14164309319561828747, 3431722261976539344, 29010700014350251, 12693260039228259284,
        11537754482771395416, 5404716483514545252, 9936058498401903617, 14041261965613752559, 3785835968944630744,
        2674938656166227358, 1295141753703011230, 14589101227064635775, 11866120030796964439, 910580247002479121,
        18092410225454364849, 6460319551415565469, 8281292148913315419, 16595528643424649974, 6699418213309173422,
        6574042709811252599, 7024844837672906007, 4105282115331432231, 12313187287483039407, 13415328079991910494,
        -103715420130719722122, -36199487022730362278, -9766566402209661213, -64584860676855257330, -39677499758081634404,
        57079310779768717347, 27595685488886176930, 7836484331968734967, 5624822646357829951, 13468500527561870091,
        -46619420730371052311, -17523044827108392681, 6999298841192758307, 2650136154717410806, 704482596684309565,
    );
    lemma_doubled(
        42535295815599706396094260055105339398nat,
        18092410225454364849, 6460319551415565469, 8281292148913315419, 16595528643424649974, 6699418213309173422,
        6574042709811252599, 7024844837672906007, 4105282115331432231, 12313187287483039407, 13415328079991910494,
        15881607418160417058, 5403444318458539539, 9044946015322936419, 16726103596847330158, 9445406297912611894,
        9162201241879072361, 17837811579534808786, 8869806388159783634, 12787757796871574793, 17905741128618425982,
        6435876377780611000, 8752604569064513740, 3246499352390759704, 8565283852137671068, 15002364040095851291,
        -114532394803518808260, -91509342586604567747, -35564683666828869729, -53327094518256922742, -31638904161700475135,
        79481345603561866753, 82590050686029709848, 68543415289527467365, 48608558955420047137, 30497775361371051803,
        -15636074370236195562, -14210068213562026417, -24094629534040682314, -11589714754000090581, -14564851123156831005,
    );
}

proof fn lemma_chain_12()
    ensures
        at(
            174224571660696397398402089185711470172672nat,
            z(14025924769919245792, 9781866409391436036, 15882612739804459904, 1666905048803513245, 4964740949312045125),
            z(5659487237491641869, 13496995215275398906, 10383716166359367406, 943171372917746298, 14802841794069893033),
        ),
{
    lemma_small_multiples();
    lemma_chain_11();
    lemma_doubled(
        85070591631199412792188520110210678796nat,
        9162201241879072361, 17837811579534808786, 8869806388159783634, 12787757796871574793, 17905741128618425982,
        6435876377780611000, 8752604569064513740, 3246499352390759704, 8565283852137671068, 15002364040095851291,
        16318985506845161868, 626162802127731105, 7382397091829881572, 17839857960794381961, 15971268309666367189,
        4725527040555835009, 16071577599676675680, 3004351186965115030, 12084573856303744461, 12647282638314554946,
        1841770657678584785, 5342300450809876076, 2447655295308829033, 13435520692989602645, 1919940785959736246,
        -336678263213861084244, -169403239974459470228, -158571383722057082178, -133232794763195308536, -82551928591987072036,
        60526587328996452115, 91216950892285367359, 105757931231518606933, 73549357060752874092, 32423656316482131228,
        26909744940851851197, 25301575850007161712, 24107245881553531321, 19477117996828783119, 12572560852104720693,
    );
    lemma_doubled(
        170141183262398825584377040220421357592nat,
        4725527040555835009, 16071577599676675680, 3004351186965115030, 12084573856303744461, 12647282638314554946,
        1841770657678584785, 5342300450809876076, 2447655295308829033, 13435520692989602645, 1919940785959736246,
        2751739056132972151, 17900055845697409494, 3679988136320971926, 11729390701231514394, 18110508949996160207,
        17947058582292156870, 15947121873828369894, 5068067738008277113, 6408449619334140773, 5045188121894241837,
        891236223092958653, 15598564269197911334, 648978965916420184, 10390974563666004859, 2343857308427589692,
        -168780783829462023344, -59886702667442730478, -97458498424799112820, -87777426963444531680, -46044385157673024558,
        119892751851772820525, 49392300845358974454, 87561042696675570903, 63982458375315410968, 28900850874372134173,
        19985055847701106593, -3512233097278851223, 28394722689123448054, 12852645385699870513, -6671172225795668648,
    );
    lemma_subtracted(
        340282366524797651168754080440842715184nat,
        3,
        17947058582292156870, 15947121873828369894, 5068067738008277113, 6408449619334140773, 5045188121894241837,
        891236223092958653, 15598564269197911334, 648978965916420184, 10390974563666004859, 2343857308427589692,
        3584413360476155897, 993598265149929043, 9118536478120200325, 4545548208597017001, 16640886554632444604,
        6661501719066134017, 7261582874957064446, 6574521784608599777, 12238551638203620304, 17669239050955015918,
        8951916414770578757, 16700436857237833820, 15207621576867675057, 11075402905569702878, 2246935135734024939,
        1920263078067419750, 6270234362157331434, 9584230734439179355, 4999093002684791858, 2633917931842447728,
        1097093688735177902, 8461909191021984951, 6191060200472437747, 650320356922110497, 2559240161821759714,
        21747930981048764698, 6543708093507609706, -3207555324222245842, -13950819912731026603, -3447642532887558712,
        71333391403964893728, 47272229205603022819, 37973832922461745117, 39106422235038286543, 34771916195422240326,
        13213836388760408842, 26057456403016415970, 24639954884215538656, 15076596204437114852, 6485093526338288013,
    );
    lemma_doubled(
        340282366524797651168754080440842715181nat,
        1920263078067419750, 6270234362157331434, 9584230734439179355, 4999093002684791858, 2633917931842447728,
        1097093688735177902, 8461909191021984951, 6191060200472437747, 650320356922110497, 2559240161821759714,
        15930494796000881859, 1201806678534030671, 15793217078759268467, 10266559216837702318, 17596550704163883941,
        5290275437675058770, 8017256407461744159, 3412428199566797321, 9216549020034464182, 1352355131728361370,
        971059149070013173, 9715994911323695361, 11817931022032047955, 8884059293712528212, 7285127520566126818,
        11874120016711648401, 24768922869324422829, 714004538389913030, 6234404283131789714, -161338255888191223,
        73374388589414322153, 109609279967018612205, 86116446196885441464, 70146759181909844223, 45251674781246239217,
        -8186926874826016884, 12183721505683932897, -7598596567882992911, -2943886623207005472, 1928984385305858614,
    );
    lemma_doubled(
        680564733049595302337508160881685430362nat,
        5290275437675058770, 8017256407461744159, 3412428199566797321, 9216549020034464182, 1352355131728361370,
        971059149070013173, 9715994911323695361, 11817931022032047955, 8884059293712528212, 7285127520566126818,
        13575099498264681993, 9988317129408736326, 13116099144420309479, 10076645437933728190, 697852600315059939,
        13842284679719312179, 10498648139930003099, 6473136339070589728, 12929119404281207614, 6112975436782709806,
        12331798143550549771, 16427117739208665980, 13776110509392371112, 15863394237259146212, 5257816005409740590,
        58116727075469102613, 18489221543281972405, 26702998173357014161, 16754931268462211348, 19582455962667510385,
        55245697814463150994, 34191387300628453405, 27000063445372872460, 29114050539336565473, 21265343777108915949,
        -27243257854654764683, -23042882682946443266, -17899585653746641673, -11365594588380700384, -9368857832330281152,
    );
    lemma_doubled(
        1361129466099190604675016321763370860724nat,
        13842284679719312179, 10498648139930003099, 6473136339070589728, 12929119404281207614, 6112975436782709806,
        12331798143550549771, 16427117739208665980, 13776110509392371112, 15863394237259146212, 5257816005409740590,
        4313383401124664837, 12448427548993786404, 3078704071071984674, 606757441988645316, 10550950042589782042,
        9959922962527002402, 16066526697130023630, 2984369961919416919, 3229837329428222089, 6327511521638400230,
        16971034269389693729, 15165085221455774926, 7160948250645671358, 13840826664073321898, 16102444185490359050,
        -73415534660322046736, -87438512209448547993, -35983393494334379447, -48197555362865911496, -34832638760174350736,
        44336813911316225201, 16447003398389398604, 11922636018560612669, 22543384509670937631, 6266978931058893670,
        -3879864048154088503, 8154076280192716741, 14328225282158668835, 3452614753494899565, 9114918339466186756,
    );
    lemma_doubled(
        2722258932198381209350032643526741721448nat,
        9959922962527002402, 16066526697130023630, 2984369961919416919, 3229837329428222089, 6327511521638400230,
        16971034269389693729, 15165085221455774926, 7160948250645671358, 13840826664073321898, 16102444185490359050,
        8572018584191426039, 5239810562902860895, 812062137709951921, 1887006351261857239, 1705402765190794396,
        16940945725912149914, 14915016286968615301, 12365455347920694015, 10025866500689650596, 3415385779058167134,
        15135764785418149892, 15975266079257306727, 13174264103765422960, 16392966665632653573, 2520579296828952768,
        -65058574112269145911, -35108754525303497514, -37264832722400982798, -14922063809051268370, -9126068461847924991,
        7388275410665410997, 5899319881939297548, 3289809468539860794, 2688073632115763386, 2692726951991892945,
        -4219499377493634650, -5750718073335872861, -5330722173193989083, -5678503082346337475, -1517757370446029456,
    );
    lemma_doubled(
        5444517864396762418700065287053483442896nat,
        16940945725912149914, 14915016286968615301, 12365455347920694015, 10025866500689650596, 3415385779058167134,
        15135764785418149892, 15975266079257306727, 13174264103765422960, 16392966665632653573, 2520579296828952768,
        2060932914515570824, 11198744244531926072, 2727500946818934250, 11724081179796596696, 1329206063459646280,
        13042765017702116032, 11424038640117679151, 10295462426000791484, 13536805151517039752, 9058789748477586885,
        10558237445647220028, 1970713414631083037, 4364147740359171383, 9517666399539319459, 17297789104225254381,
        -133101534027531582707, -80045359951559096199, -94212135894777246159, -76211946862254890010, -45473839578163200387,
        15472905735166370156, 26035728729869088231, 12476813441753174950, 6218692388088882384, 14935320981319457891,
        -6698445433771906840, -5993524761686395438, -8592220236152384787, 2638189357464708228, 43753922882841305,
    );
    lemma_doubled(
        10889035728793524837400130574106966885792nat,
        13042765017702116032, 11424038640117679151, 10295462426000791484, 13536805151517039752, 9058789748477586885,
        10558237445647220028, 1970713414631083037, 4364147740359171383, 9517666399539319459, 17297789104225254381,
        4217828975726059369, 18258718267927823059, 12897598309893171843, 9268899182955722790, 7289671106728312895,
        2272476344472028200, 1659958417465141619, 6859922428375726665, 9496022485071291138, 17725263903090007780,
        5647040121427097437, 952556978134853076, 16499904350717474912, 3842574291350164016, 3301751914066607793,
        -99325588285245157695, -95463962712500285473, -89180868330003423133, -68348428981393462185, -62788947332228371702,
        83140396600013158307, 52902413181115281311, 45947614209132646842, 38412979694778611087, 30700141430818087149,
        1958183122107985104, 4878772693077354863, 9707017711055428720, 6288727833380099533, 13582351322076502854,
    );
    lemma_doubled(
        21778071457587049674800261148213933771584nat,
        2272476344472028200, 1659958417465141619, 6859922428375726665, 9496022485071291138, 17725263903090007780,
        5647040121427097437, 952556978134853076, 16499904350717474912, 3842574291350164016, 3301751914066607793,
        16977038367548235297, 2605727064244831742, 559866778630777718, 6107040956472713092, 5351378924341172503,
        18074973794539523445, 156249807874327898, 5497437581705562076, 281893350686878537, 10156965671517499587,
        8163859250757561736, 5700817063288944357, 17676509054197588865, 10562876059829474631, 1705789466922455595,
        -44789386739000132325, -123569036843050071115, -125532348199164011735, -142732599172769025680, -13810173352487897823,
        21272046910030588536, 11836195009710588168, 12028470382024383786, 16056406775984470294, 11592351715091806647,
        -7835409653560390253, 10177945175640577353, 16522510879428136805, 10073146734198026303, 4221756591920970794,
    );
    lemma_doubled(
        43556142915174099349600522296427867543168nat,
        18074973794539523445, 156249807874327898, 5497437581705562076, 281893350686878537, 10156965671517499587,
        8163859250757561736, 5700817063288944357, 17676509054197588865, 10562876059829474631, 1705789466922455595,
        16207839682022823345, 17552227913797189530, 3765477044182226900, 14863933478146980132, 10355558296015948908,
        17614949916196714754, 5043744394395913910, 5453310083517801443, 5725242925511333498, 967293474712711161,
        10227755424592755206, 15129551547498310479, 1040989096955844259, 13203624196943772514, 10730526543422098812,
        85490195995184207598, 82807395680653331662, 53951545755190008844, 21160344845711320755, -15974416566702309940,
        91565838334892331301, 79457851437149926746, 73383529039444816721, 50725606840366475900, 47252326354044408505,
        15178437475177442913, -11313034330346294610, 8529324111752185373, 10108893584937932516, -776050659099782063,
    );
    lemma_doubled(
        87112285830348198699201044592855735086336nat,
        17614949916196714754, 5043744394395913910, 5453310083517801443, 5725242925511333498, 967293474712711161,
        10227755424592755206, 15129551547498310479, 1040989096955844259, 13203624196943772514, 10730526543422098812,
        15938608646219839379, 17278133773077572817, 13380793908351690139, 15652286763429939795, 6550081445781362846,
        14025924769919245792, 9781866409391436036, 15882612739804459904, 1666905048803513245, 4964740949312045125,
        5659487237491641869, 13496995215275398906, 10383716166359367406, 943171372917746298, 14802841794069893033,
        87289122582475619903, 111407469806390112805, 86953426124580576464, 44728654869889671091, 57955297363569250945,
        118704877037451669503, 98208811273282432589, 72653412183645387961, 59091855847062698083, 50346479615024715932,
        -30895557617839326053, -10210258159488624666, -16698379086746953354, -10911889357437401358, -9963798076835273657,
    );
}

proof fn lemma_chain_13()
    ensures
        at(
            713623845522212443743854957304674181827264512nat,
            z(9787890734488781936, 3430682628047492385, 11284112903624632614, 13454207879748937518, 6290601519841153810),
            z(6052565844231820233, 10026669719986569270, 17119163878546304746, 1361417303662199736, 1047937163684088189),
        ),
{
    lemma_chain_12();
    lemma_doubled(
        174224571660696397398402089185711470172672nat,
        14025924769919245792, 9781866409391436036, 15882612739804459904, 1666905048803513245, 4964740949312045125,
        5659487237491641869, 13496995215275398906, 10383716166359367406, 943171372917746298, 14802841794069893033,
        1554576064764085689, 11039729425538920383, 16578286246103311457, 16369400777563643262, 4455025157384875474,
        16977743675882567052, 3916719721102042039, 14098166722957742568, 2563624390844127917, 12347760017793399799,
        1967689797355245395, 5679119792601046864, 6518393409342652931, 5094346731847197492, 15740422134432420047,
        28821963019565701017, -13986761387924358392, 12165012056332065932, -1821803175667196957, -20002235186388388066,
        104396201520947191021, 69461371212014873543, 33121107504294044147, 25829831646426018239, 35242991080245027784,
        -6921957106907933272, -22272217441606947551, -19296843053092966150, -1705138326329248349, 4936619825845421404,
    );
    lemma_doubled(
        348449143321392794796804178371422940345344nat,
        16977743675882567052, 3916719721102042039, 14098166722957742568, 2563624390844127917, 12347760017793399799,
        1967689797355245395, 5679119792601046864, 6518393409342652931, 5094346731847197492, 15740422134432420047,
        3065500465815841426, 10135991540698638902, 5544820333666413527, 7082819057214393237, 16299010633170613569,
        13648675326146539772, 5214130749337042369, 5301345191411210097, 7029596341407782707, 12088977116433599211,
        18107530753477739605, 5765900142463433356, 5798540876019157519, 16126643835800885682, 4982797866756045482,
        -22476141619400261351, -115969365378254418268, -38376109673467635593, -9276234207378037413, -81189866459193176286,
        67018593992524122182, 40922845874307523102, 44961391494441635933, 51651527961091131294, 14867505559447831736,
        3646422647973918109, 20020571464082234295, -9790282538734923646, 5665664500107753814, 2676582533036138186,
    );
    lemma_doubled(
        696898286642785589593608356742845880690688nat,
        13648675326146539772, 5214130749337042369, 5301345191411210097, 7029596341407782707, 12088977116433599211,
        18107530753477739605, 5765900142463433356, 5798540876019157519, 16126643835800885682, 4982797866756045482,
        11946260522832957280, 13609201862236706566, 10578411537817364388, 1803078209489558610, 17549526230529699946,
        5499636099089731788, 6675260904844342862, 9874496645796180027, 12671435453880659043, 10025352031806754653,
        6871707459001433479, 2625691003909376211, 2819171765139065369, 10316594191879282597, 18351240630624101190,
        9144161457789691409, -15905140598008889278, 20882999114014434571, -43461081517090077055, 2320105227385402071,
        91624062461962924884, 78538959184702103788, 34033881711616803775, 68031798353839707667, 31457157097042511669,
        -5372511595581602658, -6090584373248874051, -14863607394061173922, -1179176902533038499, 2161478632296029566,
    );
    lemma_doubled(
        1393796573285571179187216713485691761381376nat,
        5499636099089731788, 6675260904844342862, 9874496645796180027, 12671435453880659043, 10025352031806754653,
        6871707459001433479, 2625691003909376211, 2819171765139065369, 10316594191879282597, 18351240630624101190,
        15278757531108217759, 2366707695405378885, 7575049242742828391, 6511975343115012960, 11668631928280369985,
        17230454217596496233, 2910391044837107678, 7845823912423906995, 7638866248301348379, 11579358781030766,
        3883051223395772905, 8238205804760657422, 6298062170237605540, 9147774778939176453, 13286162135716235752,
        -125448570718830478723, -102998000694681546020, -59857303530375647350, 1327355220733714649, -15393888313887917469,
        37681938791232989342, 39566925232154544678, 37567119946425686434, 34874260200935040360, 24111011112524284359,
        9630816867317666438, 23129013117025364849, 17501318092139535224, 20836307882766425075, 3681411817847595398,
    );
    lemma_doubled(
        2787593146571142358374433426971383522762752nat,
        17230454217596496233, 2910391044837107678, 7845823912423906995, 7638866248301348379, 11579358781030766,
        3883051223395772905, 8238205804760657422, 6298062170237605540, 9147774778939176453, 13286162135716235752,
        3757369047330061677, 4500614457652197805, 9096095299815841514, 678074435549079660, 10280796164308173920,
        7134318547407429792, 16849591002400484643, 17384191739056035898, 5075120904041563965, 9237146758512396770,
        16257796417671283298, 9484231754275575054, 16837127493902138181, 6501075989951344756, 7169237772089783919,
        -29764872139536207078, 22767986420412778350, -1499992788277993434, 9399483870778096872, 3714056458479010823,
        17821258762905913991, 32324994671258868131, 7071013410520142733, 21903914079179094217, 9004295981646288094,
        -25261283575248287898, -29688525985664262824, 2903842803174259877, -23732126961018185716, -842578885345053911,
    );
    lemma_doubled(
        5575186293142284716748866853942767045525504nat,
        7134318547407429792, 16849591002400484643, 17384191739056035898, 5075120904041563965, 9237146758512396770,
        16257796417671283298, 9484231754275575054, 16837127493902138181, 6501075989951344756, 7169237772089783919,
        2059779009167257043, 7469132927435082817, 15839242679936647650, 1765060653074506107, 9638624851421605318,
        640382800880474305, 11727201698466310201, 9008997510253191798, 7259344687062747854, 17982301090348406381,
        14173656532677346881, 17222485486454115708, 2001137000071802709, 11581694566976275124, 3854275781021108551,
        -152300115064519912951, -99621076982660762968, -68399630688853002495, -91719249658411039670, -43813013234925352500,
        32739601795569493776, 51831745965881489082, 12095097643494178031, 28329734123905522090, 17182188198590609965,
        -5090486181137973061, -6824217983275823976, 2651088754938482797, -5541379377740835252, 9213730532546302424,
    );
    lemma_doubled(
        11150372586284569433497733707885534091051008nat,
        640382800880474305, 11727201698466310201, 9008997510253191798, 7259344687062747854, 17982301090348406381,
        14173656532677346881, 17222485486454115708, 2001137000071802709, 11581694566976275124, 3854275781021108551,
        7631592467783290935, 3633908251626934738, 16769224305063439413, 7812273087560728624, 9131624619503400021,
        13022604454140899034, 14037183682238539063, 13070141500211654003, 1466258642544218560, 12658126449129992302,
        7418574376561820224, 1680082228226294382, 11398678323602846655, 15303974703345568429, 6203157191391154019,
        -133964726959404635874, -110002528930653632297, -73216927462640656203, -128504969240894995251, -4624258632748882112,
        56561563082778507121, 62739603845364217641, 37794720299465268299, 26632099235485723363, 25877885257180393719,
        5232431900326848266, 12454182713996852032, 1976233275545315178, 2159613463538684882, -7455774845372342195,
    );
    lemma_doubled(
        22300745172569138866995467415771068182102016nat,
        13022604454140899034, 14037183682238539063, 13070141500211654003, 1466258642544218560, 12658126449129992302,
        7418574376561820224, 1680082228226294382, 11398678323602846655, 15303974703345568429, 6203157191391154019,
        12305980994394477097, 15853726369187081625, 12700594662685683478, 17127103465527290188, 15714122094214358613,
        11026587852569004120, 15170428989442004591, 10917326587086067987, 7529173477089639407, 13336156278081598206,
        7127983859949389960, 17188480547396886513, 18300047304913344412, 15660758220408281452, 5600669145734691333,
        -42468969027288942781, -37809470698005349901, 35571945995836159649, -56253179395590959816, -22056181213672812383,
        159992890950285607555, 133773011217662406569, 118110358908257113068, 84840772885144786912, 59149587592717685276,
        -9839256214268557452, -11826870871655688961, -15546444169150122072, -2854206301305574888, -3532609667255593669,
    );
    lemma_doubled(
        44601490345138277733990934831542136364204032nat,
        11026587852569004120, 15170428989442004591, 10917326587086067987, 7529173477089639407, 13336156278081598206,
        7127983859949389960, 17188480547396886513, 18300047304913344412, 15660758220408281452, 5600669145734691333,
        7430498983339336953, 7435895647858167865, 3801069396106002059, 3474597530327980255, 8085046571636508430,
        6183405940312892746, 13355382154016325731, 15841295681950171267, 12798696235734216227, 9383406824357350069,
        1353167386970673305, 6482929059986919972, 7954700725280474035, 10799511645630874133, 6206707476190686121,
        -192863427742075176171, -131794160886650244640, -95510543817578825707, -115778986425850186920, -66962590797912775145,
        26843371761680630633, 17949739606501880832, 15196932569783188378, 16494435584095124479, 10097905506918370130,
        3077631065121934292, -4325199419020604326, -4948957272420209596, 2376159885971393195, 918039504408540967,
    );
    lemma_doubled(
        89202980690276555467981869663084272728408064nat,
        6183405940312892746, 13355382154016325731, 15841295681950171267, 12798696235734216227, 9383406824357350069,
        1353167386970673305, 6482929059986919972, 7954700725280474035, 10799511645630874133, 6206707476190686121,
        7817137341932120759, 4564088318885856800, 8768748311833830792, 10171861577910262916, 4863782563086021221,
        12691447432357004809, 9780612990637667516, 11411064413049981799, 6007362343643572044, 2527532659814966533,
        9632995193361097004, 381407805125372487, 6188472266101866284, 6313423264913744929, 12058973296727419421,
        -248603287491026883853, -179644781509404031968, -129198868026987124085, -106949267009354070415, -89250688509150256981,
        39544485292656712372, 34567196399268917342, 24652928347289153659, 16807383608410072753, 13323934448454295351,
        22172177383336389971, 24420464571685892430, 16381516031675189574, 7507696401459255175, 6946781420168015755,
    );
    lemma_doubled(
        178405961380553110935963739326168545456816128nat,
        12691447432357004809, 9780612990637667516, 11411064413049981799, 6007362343643572044, 2527532659814966533,
        9632995193361097004, 381407805125372487, 6188472266101866284, 6313423264913744929, 12058973296727419421,
        17216373089222184623, 13453363121383112935, 430680721553422544, 9188941333077661958, 10162170109132647399,
        9201146358514098039, 8918397902466760429, 15640996006431245083, 8795486210221899085, 6020837633208277266,
        5068331309431375767, 15872171684816186381, 13049851749188645122, 4870281720690953323, 17624758128574601858,
        -25817261393549561554, -30348495457300261183, -8011034372055581210, 6068435778413356087, -7720506550891084497,
        61823413651442269694, 40267597783597945337, 40988263625128536420, 34575087854213519618, 32381933447769323658,
        -9477119589941145315, -8051749701415824155, -13065756857765761392, -9701622826575222588, -3040187320558927633,
    );
    lemma_doubled(
        356811922761106221871927478652337090913632256nat,
        9201146358514098039, 8918397902466760429, 15640996006431245083, 8795486210221899085, 6020837633208277266,
        5068331309431375767, 15872171684816186381, 13049851749188645122, 4870281720690953323, 17624758128574601858,
        12059969473581438250, 11022075887556638209, 1307876633213810187, 3652914169628944661, 8998362816524373292,
        9787890734488781936, 3430682628047492385, 11284112903624632614, 13454207879748937518, 6290601519841153810,
        6052565844231820233, 10026669719986569270, 17119163878546304746, 1361417303662199736, 1047937163684088189,
        -66558211094353379202, -78036491918331371254, -39474179456276149485, -11575365268825466636, -41372425835745586369,
        41697984982489321976, 20409869223729715164, 18987282650654542313, 19507545425668774370, 16223778911730472925,
        8761005502411385920, 6788016197101572657, -892101840625652901, -564355267078347201, -1850594781219693161,
    );
}

proof fn lemma_chain_14()
    ensures
        at(
            730750817814745542393707476279986362191118860263nat,
            z(18011707042735557301, 14132879793862545126, 10451827580489915458, 11044646482051459109, 10883617903389601707),
            z(13647927252001335913, 15564983643270549530, 17500299817631494329, 17632717613991111786, 12518007714866723512),
        ),
{
    lemma_small_multiples();
    lemma_chain_13();
    lemma_doubled(
        713623845522212443743854957304674181827264512nat,
        9787890734488781936, 3430682628047492385, 11284112903624632614, 13454207879748937518, 6290601519841153810,
        6052565844231820233, 10026669719986569270, 17119163878546304746, 1361417303662199736, 1047937163684088189,
        12316461993387468633, 1525215901472755865, 3395325439790585734, 5495257156450684471, 14343094280726977321,
        11203669338478998873, 5828949374417395600, 4704324013240760163, 6520703768061186017, 12629099256727763014,
        2322149848276323608, 1980029639127125048, 6409971142748658653, 13529437469494459975, 16837291434988223724,
        -97299701603683355715, -70656877203203388341, -85453047783666476829, -57896354968681295072, -32435339306343186520,
        21407693732683009658, 22787811052680230087, 30296784292266547144, 41356594870739020256, 20686766822037584378,
        1597116022080385318, 16326265666191520100, 14442846903579561522, -10475135138874688212, -4262973961275427728,
    );
    lemma_doubled(
        1427247691044424887487709914609348363654529024nat,
        11203669338478998873, 5828949374417395600, 4704324013240760163, 6520703768061186017, 12629099256727763014,
        2322149848276323608, 1980029639127125048, 6409971142748658653, 13529437469494459975, 16837291434988223724,
        16528161601500825044, 13897077966646225558, 4339225899484263410, 88164521418577775, 10315002211186983316,
        7942640427579450819, 3033802094467964631, 6373922294279360762, 14508159769178659249, 14251206960843328222,
        14841397497136076048, 15131419828633143900, 754144169231028268, 10994135813805138789, 2850166920894891608,
        -15987065785902424690, -47254139451858025910, -41587577457859296166, -19150444303730196438, -5794879152156957191,
        61559148651421448959, 39463027488216451148, 18541165416969482236, 23999754448781929645, 19637903872486317198,
        -1715898127663300495, 901133719487827968, -12045572083817154651, -10462570059549775898, -6026731194779778771,
    );
    lemma_doubled(
        2854495382088849774975419829218696727309058048nat,
        7942640427579450819, 3033802094467964631, 6373922294279360762, 14508159769178659249, 14251206960843328222,
        14841397497136076048, 15131419828633143900, 754144169231028268, 10994135813805138789, 2850166920894891608,
        9347098831192677271, 11868310914231020998, 15141614680254980955, 10288570878116203411, 8458255749002006140,
        11580369536628463131, 15286397419903868836, 1485463665620693687, 8724070147097732087, 3388518208529658358,
        8416225816565247368, 10766555454228974946, 2403035854630794845, 13073897668767522541, 5260033814089661056,
        -18341118264762726224, -111833336137928974996, -135331209262890125011, -81510328261561460892, -8977955833539488374,
        88058519143353095782, 70899369226381174261, 51285870331928291083, 41545197746507539717, 34239360273478340179,
        24691807991524188593, 34602831184038636149, 17740190830173498134, 8932161218493030895, 4736370675561501526,
    );
    lemma_doubled(
        5708990764177699549950839658437393454618116096nat,
        11580369536628463131, 15286397419903868836, 1485463665620693687, 8724070147097732087, 3388518208529658358,
        8416225816565247368, 10766555454228974946, 2403035854630794845, 13073897668767522541, 5260033814089661056,
        11937344501536278004, 11381602278128084182, 17252859860994826378, 624238510179513350, 15176541729354132804,
        8857710840321248369, 13475468548408542815, 910327876408192956, 484244374510283736, 12506035639943098448,
        8424245819778505449, 2359925284956467307, 4363141122070044001, 15440385198846214424, 13685525412234880228,
        72368204167853970340, -31268528418688609600, 25300734012522355238, 20712349893624819218, -14485755460863555631,
        67411341416693687393, 99959847371850221221, 32433378083082925658, 59556100032880810130, 36548783550945333712,
        12533111476455832487, -20474468736391566663, 23447616342293891888, -15030633813714657841, 2022969750059761874,
    );
    lemma_doubled(
        11417981528355399099901679316874786909236232192nat,
        8857710840321248369, 13475468548408542815, 910327876408192956, 484244374510283736, 12506035639943098448,
        8424245819778505449, 2359925284956467307, 4363141122070044001, 15440385198846214424, 13685525412234880228,
        12799145492472075788, 18282261699496456865, 16650019235109941609, 7584540546735192970, 2192788569637365687,
        3111648147483031739, 3164022080962424923, 1594859662344595221, 10654392555787309547, 4824280907253176573,
        4904199014177415960, 13586047620222005029, 18442016229068692734, 15906772413979970661, 18385183822490758919,
        11503591365561885864, 85244000950569647995, 32650144907420659333, -30668425320837491844, 23128446781157242012,
        62994824659085152537, 46600649345217988485, 46633752265335632496, 44310055794991635418, 33105023216959364144,
        2120788543318700901, 20861243156297529760, 20779384182135642394, 6674154715484596325, -444707047622419257,
    );
    lemma_subtracted(
        22835963056710798199803358633749573818472464384nat,
        1,
        3111648147483031739, 3164022080962424923, 1594859662344595221, 10654392555787309547, 4824280907253176573,
        4904199014177415960, 13586047620222005029, 18442016229068692734, 15906772413979970661, 18385183822490758919,
        11712523173042564207, 14090224426659529053, 13197813503519687414, 16280770174934269299, 15998333998318935536,
        14639054205878357578, 17426078571020221072, 2548978194165003307, 8663895577921260088, 9793640284382595140,
        7951096395018699983, 18277746955180326610, 7907175331048974575, 1628246655080537965, 14669421251714636434,
        6814060823625777394, 4334072802494802267, 13371424366887973299, 9210630685283428147, 1151378963429544909,
        5312079101924762985, 8516380870631882608, 6540602604901711223, 13058581789255624428, 5519433096593915844,
        73296555525616928427, 56771793271329389632, 35895800603448015069, 46022330072901208171, 23168884423427725545,
        94825012788752539759, 53915852503267475352, 32695746985887639556, 52069847548570263965, 19261976310089574231,
        5268667154852070572, -27162618596208702095, -3405451607747229296, -3112298810974282096, -5081895883292165611,
    );
    lemma_doubled(
        22835963056710798199803358633749573818472464383nat,
        6814060823625777394, 4334072802494802267, 13371424366887973299, 9210630685283428147, 1151378963429544909,
        5312079101924762985, 8516380870631882608, 6540602604901711223, 13058581789255624428, 5519433096593915844,
        4520186991318693678, 13127729814326608148, 15872164937856732380, 934263229545012132, 18260323894111182295,
        3111805402305108155, 5288736364990416284, 2607524700863531400, 14881563471676257422, 17096890672264365680,
        334785893752928587, 13422868318268936538, 18011775781063412126, 4259404106159208830, 3225289902124983329,
        13559473769196784233, 17025164724748929364, 60666487454870008807, 23774123033762142621, -687282495245750599,
        83901221564342230541, 100846163388329704102, 22669978533868282906, 77276258375352311311, 23935675895201473514,
        -48973879097686412995, -7655550114225249525, -14119892409074097334, -41716436729942377143, 4935055128914242870,
    );
    lemma_doubled(
        45671926113421596399606717267499147636944928766nat,
        3111805402305108155, 5288736364990416284, 2607524700863531400, 14881563471676257422, 17096890672264365680,
        334785893752928587, 13422868318268936538, 18011775781063412126, 4259404106159208830, 3225289902124983329,
        12258309428120227336, 12087158815206986104, 15357577971953175736, 18038644706941123253, 10140532042661770656,
        3157598602127423394, 14967384043966100395, 4507990990842652416, 3459189684860350714, 11276846660459683546,
        9856251821085278656, 17612132931762509180, 7836834544454786675, 17424993096312120598, 1921551130387902229,
        56684182117221411962, -38113720259083340127, -180395779784230188786, -99252101091495066990, 22469422218967356804,
        138120137821684440504, 119637288572231255688, 87828183432394086000, 60823563822090642874, 49902502227920143926,
        18401979732644577573, 38449342502618733766, 28268231533811124425, 7840741357279752945, 280121684573533855,
    );
    lemma_doubled(
        91343852226843192799213434534998295273889857532nat,
        3157598602127423394, 14967384043966100395, 4507990990842652416, 3459189684860350714, 11276846660459683546,
        9856251821085278656, 17612132931762509180, 7836834544454786675, 17424993096312120598, 1921551130387902229,
        10281117933577486759, 1297094077807712282, 12973706977454391975, 1522848996140661267, 12769341988447258524,
        1940785622174576214, 14972770237236985298, 3657629090288237791, 8092664315568396971, 6394059674719531358,
        5547577713161479498, 14394458809682969339, 14268457981404540694, 207578578039194737, 11589658998909820202,
        -19175830477902872233, -508150859599970385, 19273645237421071569, -32635659173168498396, 442084729806455460,
        17543561717541286597, 55707531107718197655, 20877698108139884319, 30039865007754411335, 23572390323407657795,
        -7868648365654720262, 11003238621046980967, -7083622158886227036, 7714032020715724863, 3835500775426632861,
    );
    lemma_doubled(
        182687704453686385598426869069996590547779715064nat,
        1940785622174576214, 14972770237236985298, 3657629090288237791, 8092664315568396971, 6394059674719531358,
        5547577713161479498, 14394458809682969339, 14268457981404540694, 207578578039194737, 11589658998909820202,
        2499706699143505063, 712769585405943816, 1984436626183367346, 11065631870674505337, 12290693881197391596,
        16011707391343753210, 14584237487848637170, 3633328030749606762, 7719609370824261165, 10922397259925888152,
        17895850199198466143, 16987923719386955788, 7862289848050323979, 15026817095931955613, 10617983438417885599,
        -9689861096511909193, 5373353975748912452, -40543343288627901196, 14374928079080184634, -14734715960836800437,
        10330571108545550679, 28040106837010103293, 44802205742966769820, 27719473241302277675, 4399624115956360168,
        -1490914523146902490, -1232543111321719493, -8898947683618680220, -17398843107673242464, -9738706229539221413,
    );
    lemma_doubled(
        365375408907372771196853738139993181095559430128nat,
        16011707391343753210, 14584237487848637170, 3633328030749606762, 7719609370824261165, 10922397259925888152,
        17895850199198466143, 16987923719386955788, 7862289848050323979, 15026817095931955613, 10617983438417885599,
        9136178935366626188, 11923925342289708359, 1852156420137495339, 12649725053481973802, 6695209752526863801,
        14170507562671324358, 1558382876071715332, 16541854518059030753, 11662586862867345570, 34700590508059103,
        3756226365764772064, 16043557669432375619, 536559901298655582, 1849762320732019882, 10868991170100259602,
        -87196539503212470427, -18444101962447293122, -26033902396133589112, -39516671417052200116, -27837593057751497114,
        38112117084662004228, 41868001980289880798, 37089398172621550880, 22214638650837224417, 23171379441837574606,
        8464870426235470225, -11245919622859046165, 20316692351176179880, 4128575553141908049, 11148214731954810795,
    );
    lemma_added(
        730750817814745542393707476279986362191118860256nat,
        7,
        14170507562671324358, 1558382876071715332, 16541854518059030753, 11662586862867345570, 34700590508059103,
        3756226365764772064, 16043557669432375619, 536559901298655582, 1849762320732019882, 10868991170100259602,
        1402190480421472576, 13676834587540684798, 17321958444468468343, 1669201366653940801, 5982097004065554850,
        15760894881285235192, 15255658932026822340, 5186042200108657016, 6691897350347039497, 12315888321054861899,
        16369807095576672437, 4209725184367474270, 13182072677182589508, 9089036209609703526, 16479869804879841088,
        18011707042735557301, 14132879793862545126, 10451827580489915458, 11044646482051459109, 10883617903389601707,
        13647927252001335913, 15564983643270549530, 17500299817631494329, 17632717613991111786, 12518007714866723512,
        4949270266741209976, 7909252229105416447, -23658817596300975490, 9618271945038614116, -1881277505576123908,
        76062145821858013902, 91565728811564931056, 73076015749082723346, 66316075470484573476, 42817112098104629836,
        -34210707241709648850, -18057828018735340495, -14590404446884171068, -38016685258414835347, -14761774263897930160,
    );
}

proof fn lemma_chain_15()
    ensures
        at(
            748288837442299435411156455710706034883705712909118nat,
            z(15683180275436335653, 17106884825483615325, 5761365536073550486, 5458144252051875538, 13784802075269864194),
            z(2618317561796891944, 4417399022613883165, 3388454137369316918, 10895681741255650924, 8889138154062173383),
        ),
{
    lemma_small_multiples();
    lemma_chain_14();
    lemma_doubled(
        730750817814745542393707476279986362191118860263nat,
        18011707042735557301, 14132879793862545126, 10451827580489915458, 11044646482051459109, 10883617903389601707,
        13647927252001335913, 15564983643270549530, 17500299817631494329, 17632717613991111786, 12518007714866723512,
        3766213919882303512, 4636135401937193079, 15367654241057598784, 7050021842405150118, 12818508130856155692,
        5244578346748406774, 5357449879035983261, 14849197970512326909, 8822327811558791576, 6286832612858005349,
        8981038836516869613, 16890797440212732266, 2440600751272281185, 833980787846546392, 2673346118225513383,
        -97881301135152255118, -64125771102402568378, -71078631124666727482, -65988537754462091765, -58300303138247202958,
        55338122972696513688, 74049500508741342163, 36834363256896484608, 37325789421244087662, 21580447724531638745,
        24878767506050424526, 9869747476521467259, 21847010052644189677, 21121397862468865083, 10059265427101914918,
    );
    lemma_doubled(
        1461501635629491084787414952559972724382237720526nat,
        5244578346748406774, 5357449879035983261, 14849197970512326909, 8822327811558791576, 6286832612858005349,
        8981038836516869613, 16890797440212732266, 2440600751272281185, 833980787846546392, 2673346118225513383,
        11140477646104077849, 13136600473201760385, 9031755706641848422, 5381275499133030353, 7754491453557423502,
        14493154981369209317, 17753110809874496110, 1008829224397981834, 12350255135345393755, 7319409758375342325,
        8731299569866409847, 9300348717250995733, 16358044270134772868, 17156894949707934604, 8114551556042224995,
        -93575976658691428491, -89544876523539396479, -41537546307592737651, -27202892569906015943, -37745474956612960293,
        55670007080833519512, 43356725579580027109, 33836906066304877565, 29142785441030526559, 21452751747545634627,
        -16493262016060800930, -1222198147355550642, -10349848397366718307, -2343635974519154305, -3863447100425135550,
    );
    lemma_doubled(
        2923003271258982169574829905119945448764475441052nat,
        14493154981369209317, 17753110809874496110, 1008829224397981834, 12350255135345393755, 7319409758375342325,
        8731299569866409847, 9300348717250995733, 16358044270134772868, 17156894949707934604, 8114551556042224995,
        464207036803252358, 9331534633797863504, 2707857262117854500, 16546950535750600394, 3773694066430485593,
        9730655856524750435, 14057551707709820760, 17358748610256767039, 14157269245768778464, 6396748892087596983,
        5770830632204531469, 6244731632058761524, 9912792080699150277, 14664786749165234415, 4754725196586098135,
        -33478245538558048608, -36444933900548061124, -66691546572902653074, -44415215936606118701, -63158361427340679320,
        26039408834418012487, 48321806283137375952, 25167060593021754041, 5888391453506749237, 17328419825531944667,
        -41005897222892347896, -11988471675318196122, 3531028217596334638, -2935545913348382035, 998294943132987076,
    );
    lemma_doubled(
        5846006542517964339149659810239890897528950882104nat,
        9730655856524750435, 14057551707709820760, 17358748610256767039, 14157269245768778464, 6396748892087596983,
        5770830632204531469, 6244731632058761524, 9912792080699150277, 14664786749165234415, 4754725196586098135,
        5405799592476796104, 17467004812698215588, 16635278885364761696, 10444141455508604367, 13183110937304314869,
        14676425395036784268, 10980731614035395014, 16616451112693254075, 15048014776573864610, 16486728958401514204,
        11238415086436610275, 130049704877381322, 11944617258439797332, 4050280803360392058, 7400653931788410526,
        -172749276196377376920, -117991310689844264309, -68367656666335935878, -78588798769222119065, -70225849411449911871,
        132992937296427868262, 99308305164514793261, 71073132068673441657, 65889031762600578937, 42507162794902841790,
        -24663987707221299442, -31000367795053161072, -20377072506868887696, -21216319391038466827, -4923395943450254164,
    );
    lemma_subtracted(
        11692013085035928678299319620479781795057901764208nat,
        3,
        14676425395036784268, 10980731614035395014, 16616451112693254075, 15048014776573864610, 16486728958401514204,
        11238415086436610275, 130049704877381322, 11944617258439797332, 4050280803360392058, 7400653931788410526,
        3584413360476155897, 993598265149929043, 9118536478120200325, 4545548208597017001, 16640886554632444604,
        6661501719066134017, 7261582874957064446, 6574521784608599777, 12238551638203620304, 17669239050955015918,
        4217300080461120954, 10565322249848421890, 8090173818443399441, 937280383260352754, 8659715905750266910,
        7556398618803398218, 9070823943385453302, 9440955782215475362, 13751265661030532130, 3708473357671710143,
        2500397568459829891, 9724713208702614276, 11092553057096721413, 17181261316527646229, 16697528774936208173,
        -31297266588109078999, -20593804124823994734, -27066359534465532922, -11422017007042063589, -14982896911825481260,
        33189505952178881577, 27761072184198449689, 12390420002164185086, 21891571182159715851, 8581324246943212330,
        29073605395590895810, 31630214051548650343, 9631028778362115089, 23601635890774908425, 10250526733527860556,
    );
    lemma_doubled(
        11692013085035928678299319620479781795057901764205nat,
        7556398618803398218, 9070823943385453302, 9440955782215475362, 13751265661030532130, 3708473357671710143,
        2500397568459829891, 9724713208702614276, 11092553057096721413, 17181261316527646229, 16697528774936208173,
        2426102026791281243, 16185707428754779287, 17306372213420912549, 14598476695654975849, 4541018929173592335,
        7774756657156093732, 2484215549665441785, 8753929707519013201, 10543059748542731594, 11114558511281076354,
        2769539517901614886, 955988396311371662, 185427755162687704, 5345613770112651708, 9444021345736599574,
        83520949372144701481, 50186638579180794601, 42990581233376912004, 2490177380151648187, 7797741810092097280,
        106401629209933118917, 64478278612189021866, 40316216544767825588, 37563761850643001441, 43049213024232786657,
        -3998666728643841386, -12045905796522458945, -9549131613415882578, 1561929895591207710, 7644274440031091464,
    );
    lemma_doubled(
        23384026170071857356598639240959563590115803528410nat,
        7774756657156093732, 2484215549665441785, 8753929707519013201, 10543059748542731594, 11114558511281076354,
        2769539517901614886, 955988396311371662, 185427755162687704, 5345613770112651708, 9444021345736599574,
        5548354113789805403, 10226666103942118700, 16429705061235779955, 8736647200210797825, 7957459290182888544,
        16314586775444911370, 9122582042979587389, 8510974984295105634, 1460133462986215217, 16197343727327226492,
        13583376895922801451, 1585400154868330030, 8317138634428999458, 16683346091823952367, 6131288304520588645,
        -62182945892759944619, -85669316639074719311, -90706655542785686859, -61814643773065115138, -33854847508642711679,
        74826057308415677625, 61089458042332625116, 38165511856846032014, 33770388599941993593, 29107053143022857409,
        5001521778960342531, -7092260306538027055, -6680620907378070997, -13668219528377469030, -3104817835693850420,
    );
    lemma_doubled(
        46768052340143714713197278481919127180231607056820nat,
        16314586775444911370, 9122582042979587389, 8510974984295105634, 1460133462986215217, 16197343727327226492,
        13583376895922801451, 1585400154868330030, 8317138634428999458, 16683346091823952367, 6131288304520588645,
        6555523782531763084, 7474498223410258331, 14505553190155542405, 13502222380516574108, 10218989461298761025,
        9678531456904939321, 14053793009196635380, 10550584386011364513, 5740748719100486360, 5981999653970929450,
        11921723629620255555, 4042023218961878833, 12251469835333532640, 8218902147625637050, 6923866488445397230,
        -54525583086267113295, -41989400730172691280, 29163152828371198249, -99646773993732915074, -53735397149559406222,
        90878315802049619885, 83175713539490968552, 58217619692015369620, 38334948277767622135, 29611589046904384247,
        -7996278490707255050, 12245546651712566685, 17812871049691652613, 15609058103538614429, 358723983902900282,
    );
    lemma_doubled(
        93536104680287429426394556963838254360463214113640nat,
        9678531456904939321, 14053793009196635380, 10550584386011364513, 5740748719100486360, 5981999653970929450,
        11921723629620255555, 4042023218961878833, 12251469835333532640, 8218902147625637050, 6923866488445397230,
        7979166826530604340, 16900576648131032406, 7135116394718351283, 2225702573401081889, 7122328801988246883,
        8527098692860852645, 8825195370390256819, 11064392458974406366, 13626287459371813115, 4571620415351218827,
        9533242295901958531, 3507925510837611294, 2231411090671393112, 1256613187790825684, 15676177833380887045,
        -70687505915111661468, -46163832098943253423, -47563954056640717152, -32156255011928177972, -22467675795002161603,
        47768850938916844663, 31955675468765590638, 26812708547246326286, 23249434610270695388, 12999676167683716270,
        1094613439249508591, 1503694569740446934, -3609893599426750312, -86667230830154538, -5737836157216347507,
    );
    lemma_doubled(
        187072209360574858852789113927676508720926428227280nat,
        8527098692860852645, 8825195370390256819, 11064392458974406366, 13626287459371813115, 4571620415351218827,
        9533242295901958531, 3507925510837611294, 2231411090671393112, 1256613187790825684, 15676177833380887045,
        9928159236320256512, 5587397978784288451, 12366646432198974729, 15755087637683820256, 797283684393121038,
        10718737757756212038, 14274842759767851341, 10655672345671357487, 17582680783667327416, 16292353637992165114,
        10354799189290321736, 11592107741831258534, 2322020214067536709, 10113885546484086835, 5744027283276815418,
        -142158617509018796294, -84798768389402010966, -6171606100378351207, -51992483281454593591, -44259611287093457440,
        70165357006779936428, 49589882217559052865, 19089695762176797726, 24553914250299513428, 18692998128912656257,
        -19446389944402263877, -37253804154131322246, -33444459053745640182, -9050572634754156346, -11981723288632284573,
    );
    lemma_subtracted(
        374144418721149717705578227855353017441852856454560nat,
        1,
        10718737757756212038, 14274842759767851341, 10655672345671357487, 17582680783667327416, 16292353637992165114,
        10354799189290321736, 11592107741831258534, 2322020214067536709, 10113885546484086835, 5744027283276815418,
        11712523173042564207, 14090224426659529053, 13197813503519687414, 16280770174934269299, 15998333998318935536,
        14639054205878357578, 17426078571020221072, 2548978194165003307, 8663895577921260088, 9793640284382595140,
        15227468577290507671, 17386084837295046608, 16528822501909143200, 2671627651060416037, 2903308178689389669,
        17963311095070603892, 10374231278919216615, 11583904180146647147, 4592864226121572428, 6334240074314305409,
        6931503424311218328, 5417617190333539758, 12837098976834655231, 14291002269446321591, 208526648098534682,
        -2493280703341970118, 628542837808962772, 2072485585311724912, 1160946936527013759, 937744388385297509,
        43351386320404812296, 45473309228373510554, 46197830021173581254, 36938489814154601914, 24639596543522069211,
        58532540136720124964, 28365785031803615270, 6878770061555855299, 16995727532249707099, 19056158961271725795,
    );
    lemma_doubled(
        374144418721149717705578227855353017441852856454559nat,
        17963311095070603892, 10374231278919216615, 11583904180146647147, 4592864226121572428, 6334240074314305409,
        6931503424311218328, 5417617190333539758, 12837098976834655231, 14291002269446321591, 208526648098534682,
        5312043685968223899, 1919263256181335062, 16025325999242141581, 717682593940735024, 1706934797188334496,
        15683180275436335653, 17106884825483615325, 5761365536073550486, 5458144252051875538, 13784802075269864194,
        2618317561796891944, 4417399022613883165, 3388454137369316918, 10895681741255650924, 8889138154062173383,
        -83896637067370550043, -126391508525611400645, -85025792404517998065, -64528396963942221661, -47227845353238768453,
        6336117435941724140, 10086373196623362105, 9827656235792145206, 4221842088402692850, 15054176521603863973,
        -5113433362813105159, -19603889971592075162, 1847227830730708049, -7471825306353682437, 2771751757636086545,
    );
}

proof fn lemma_chain_16()
    ensures
        at(
            1532495539081829243722048421295525959441829300037875456nat,
            z(13717030932356953574, 2345820598514373171, 17962926797059140545, 16711710931730154091, 5684008418377589150),
            z(8549426518112388420, 6718122080352821080, 13520196309844320055, 14662670741172885974, 5716657582643673427),
        ),
{
    lemma_small_multiples();
    lemma_chain_15();
    lemma_doubled(
        748288837442299435411156455710706034883705712909118nat,
        15683180275436335653, 17106884825483615325, 5761365536073550486, 5458144252051875538, 13784802075269864194,
        2618317561796891944, 4417399022613883165, 3388454137369316918, 10895681741255650924, 8889138154062173383,
        11879784470706740195, 8185053053851160067, 6348632470885995607, 15771632275573675948, 3958346904458698017,
        2605133886805606644, 9048558495648472792, 8643710397823992623, 12103723780981201858, 5141082148170009188,
        11942315490466835231, 10169642925413679813, 1381581587611021530, 9458454541268178929, 11218435483277898552,
        -228183059268829095602, -92669918452988797921, -80684591466121220501, -116606182007382756616, -73958364605768373686,
        50756639370066037525, 59169630166423163834, 32114795593114033920, 28496112930682524271, 21279475813542097335,
        10861340502085025301, 1015909046125812939, 24112878141081093155, 13960502607055736897, 11321920217641425913,
    );
    lemma_doubled(
        1496577674884598870822312911421412069767411425818236nat,
        2605133886805606644, 9048558495648472792, 8643710397823992623, 12103723780981201858, 5141082148170009188,
        11942315490466835231, 10169642925413679813, 1381581587611021530, 9458454541268178929, 11218435483277898552,
        15808482213581519632, 17908148017255166908, 17835047517170671420, 11699442704416238979, 3966704400068996424,
        13492970259313258797, 5008902960653938965, 2137035146389896545, 11964308402919545376, 7638381322258829719,
        18224673447791502102, 5669092315031230484, 2897470521118865456, 16402623041172712650, 12281190899258803139,
        10477391662864649665, 20966448256354537175, 18740664737556036136, 19590172038744187378, 6169894357801473619,
        104521794155687326051, 75965185026549588246, 63048590529708340449, 57239935290856617372, 46758103866148852505,
        -1213274092125998963, -9888741967538844127, -5690632257644934637, 1825478612298278190, 4506915348155955414,
    );
    lemma_doubled(
        2993155349769197741644625822842824139534822851636472nat,
        13492970259313258797, 5008902960653938965, 2137035146389896545, 11964308402919545376, 7638381322258829719,
        18224673447791502102, 5669092315031230484, 2897470521118865456, 16402623041172712650, 12281190899258803139,
        9861498072964319546, 3216157024994106291, 7109237600442463, 9892938158089482106, 12239692779183470121,
        4395254181723368402, 9854971757839119689, 6735886704582284420, 14921840751624555252, 13526998323393037022,
        14528342684697649803, 9488865226158250752, 4506474719604115563, 7146422479550404077, 1074327834282908864,
        -27627469817257751718, -30990123974588480337, 7273475910659555459, 2536637111922800323, -4639797661665067697,
        18098574684378518174, 19383638476646253919, 39953013991669739563, 34943529631766376097, 16536140362469366373,
        -15265228354866377980, -14923882980850667055, -18661159842012515710, -9227223294598655299, -227887214139483911,
    );
    lemma_added(
        5986310699538395483289251645685648279069645703272944nat,
        7,
        4395254181723368402, 9854971757839119689, 6735886704582284420, 14921840751624555252, 13526998323393037022,
        14528342684697649803, 9488865226158250752, 4506474719604115563, 7146422479550404077, 1074327834282908864,
        1402190480421472576, 13676834587540684798, 17321958444468468343, 1669201366653940801, 5982097004065554850,
        15760894881285235192, 15255658932026822340, 5186042200108657016, 6691897350347039497, 12315888321054861899,
        1951189781579829425, 6095156561494304776, 3639890416224419124, 1734559860078928103, 14029402191044325072,
        2553456439066348555, 12250143090373041097, 1576655404210029206, 7041691344796605774, 11639637620978722588,
        5004124163740593624, 16433388873326268551, 17366321768984770854, 12664492068596205120, 17866162800069201742,
        -3934281682781095956, 15363818677120689666, -30573699480726835142, -14645755395923117441, -5005108188017902224,
        30073448368673471436, 18388319712749742291, 10699134446046364343, 34781893756212875563, 4832380290271977732,
        2720921118260186834, 15466715122056689383, 18629532246941602867, 6545012140671257210, 4996932398075605708,
    );
    lemma_doubled(
        5986310699538395483289251645685648279069645703272951nat,
        2553456439066348555, 12250143090373041097, 1576655404210029206, 7041691344796605774, 11639637620978722588,
        5004124163740593624, 16433388873326268551, 17366321768984770854, 12664492068596205120, 17866162800069201742,
        10982000483323121576, 14262583783513965942, 7641549900301543316, 17161199988678536088, 2463740375384711196,
        12638675888877728116, 15230542801766723343, 3580813809725385793, 10054135395061865373, 733582049124032956,
        4890556487269686897, 14450931433760922292, 4517317534023319581, 13664906364075055320, 12845293467761891255,
        79395551580813137766, 104045509363540155843, 54418042714901973573, 946098325661396096, 49028475711080577160,
        60621492222770860390, 71001393218935640095, 33878322973417866999, 33237039128575704807, 32636273584553101948,
        8761459530095209467, -5229062474855455717, 21555716489338022561, -9590170016132666386, -786285230315786839,
    );
    lemma_doubled(
        11972621399076790966578503291371296558139291406545902nat,
        12638675888877728116, 15230542801766723343, 3580813809725385793, 10054135395061865373, 733582049124032956,
        4890556487269686897, 14450931433760922292, 4517317534023319581, 13664906364075055320, 12845293467761891255,
        2426509964000747325, 12605277173874605811, 3463835101292218176, 14387732106127211421, 11151335528907044505,
        6958038802216947802, 8752927274969644479, 9244177015505253616, 498547604381147708, 2761663286649820447,
        9221794278154841729, 5141509460723845047, 17715279903299615191, 6905626316199070678, 7682828834893043690,
        70892408087466182853, -9201726980849680892, 72809054685710702409, 10082921031942935184, -2701712836294978101,
        62249597352899401257, 49545463846875134028, 61710491478235724469, 28742525181798715183, 23247382179924542049,
        468419787500521612, 15679553386385518277, 17332107450092041103, -644021533756576573, 13685754145771145141,
    );
    lemma_doubled(
        23945242798153581933157006582742593116278582813091804nat,
        6958038802216947802, 8752927274969644479, 9244177015505253616, 498547604381147708, 2761663286649820447,
        9221794278154841729, 5141509460723845047, 17715279903299615191, 6905626316199070678, 7682828834893043690,
        1658936387402322477, 18128323952568772332, 6957740734195871320, 9733054996138060607, 5350579913196504733,
        5637785041497503081, 159643189345007792, 11254262049299359737, 5894104514090992011, 18129945621386581239,
        14573080545772510548, 14084343555712313951, 6356392356602726887, 5547159477199729557, 4023644229147318701,
        91660605687811486245, 44287301067735645265, 21864217458974465563, 31874299296405992261, 17526656639007831540,
        53725187572404522020, 30775742099203571485, 36005593004616007801, 20081782943964139838, 22716781129891616357,
        -46999713617969092700, -25609234288959807209, -20259177850154880120, -11895762234442320779, -2525650425298234109,
    );
    lemma_doubled(
        47890485596307163866314013165485186232557165626183608nat,
        5637785041497503081, 159643189345007792, 11254262049299359737, 5894104514090992011, 18129945621386581239,
        14573080545772510548, 14084343555712313951, 6356392356602726887, 5547159477199729557, 4023644229147318701,
        6481320398955443738, 9336419580327755842, 7374336111679346946, 4455514389093560795, 4482817773684527482,
        17525352760460963208, 16325546701565301221, 15110709196839714347, 16060775527004388377, 14057621341191568182,
        6421225046831467037, 13842185008795748738, 10601170838729248185, 2124090121523062841, 15534017870781872353,
        -7208038476782184558, -164733026916098462160, -80618978143705946770, -137260249836260199115, -26739019174253206943,
        26577431877748675398, 20541636360872125414, 16403933081417088899, 13863801077283943617, 10608218582094837908,
        -24766184351858259901, -16990974204033123749, -18750330601636344143, -11888842396244051743, -12049943343801870609,
    );
    lemma_doubled(
        95780971192614327732628026330970372465114331252367216nat,
        17525352760460963208, 16325546701565301221, 15110709196839714347, 16060775527004388377, 14057621341191568182,
        6421225046831467037, 13842185008795748738, 10601170838729248185, 2124090121523062841, 15534017870781872353,
        16281311716796897330, 279921704087640286, 1887975059443308753, 9995691784565772500, 8066005850385665518,
        10461376574981593121, 14577538922022484139, 13366619710583783892, 16705882156887797995, 6456591375322433477,
        7098319642797456174, 3584742792670670124, 2943325348424734544, 1687201687205664799, 18015824361635710021,
        -425866635758854256179, -357300386441456429006, -273264061733425837445, -213587618931093710462, -152278154787198702571,
        21242660011367743331, 21696352133486060743, 29561185730059893390, 28282729304588632059, 14734892080536132888,
        11510893592526530655, 5223010159066322345, 13798876192184101472, 13434588010374044646, 10913447697339168929,
    );
    lemma_doubled(
        191561942385228655465256052661940744930228662504734432nat,
        10461376574981593121, 14577538922022484139, 13366619710583783892, 16705882156887797995, 6456591375322433477,
        7098319642797456174, 3584742792670670124, 2943325348424734544, 1687201687205664799, 18015824361635710021,
        8808184998716540666, 14702132272985863531, 2733256204239712808, 863761167415546178, 11980808132526310077,
        2130433320391030120, 12596541279606114304, 8076138378744777799, 654643381282034859, 9631784288349804710,
        5122683036441729611, 12677338189568759534, 13436376361104684197, 6740738551583406896, 3335744128638495318,
        -218306239063004330430, -227280700877852838890, -163027979799519629899, -62325891346490532673, -99914566800795926170,
        62266270810629042260, 24812842806998985698, 17693858908142406470, 28525631046927356530, 13223325447688008800,
        8124014142199532763, 18737280164034304138, 36168314509555846104, 6377820639979367219, 17564212431017771550,
    );
    lemma_doubled(
        383123884770457310930512105323881489860457325009468864nat,
        2130433320391030120, 12596541279606114304, 8076138378744777799, 654643381282034859, 9631784288349804710,
        5122683036441729611, 12677338189568759534, 13436376361104684197, 6740738551583406896, 3335744128638495318,
        8730641518041259257, 5248623690095228367, 2297508325041330177, 3158123949288269926, 3944306765811343097,
        9429737091784246479, 5341354313302636385, 15051966040837546732, 16726904571947632878, 4219422963253687005,
        1826054543278635424, 13254791408320959101, 8923542242886110613, 11265515867328115161, 7930829977381933194,
        -78638828993058809535, -43271541393676353476, -4270876584754447560, -55586997112510394330, -3092074649694801903,
        13225753465258729216, 9537802962061644047, 7719798746508117789, 6826954204066814553, 5816896969557710126,
        -3768971827892816787, -9350323156241423935, -9676340541820541900, -6465848831341864327, -3198873458927780870,
    );
    lemma_doubled(
        766247769540914621861024210647762979720914650018937728nat,
        9429737091784246479, 5341354313302636385, 15051966040837546732, 16726904571947632878, 4219422963253687005,
        1826054543278635424, 13254791408320959101, 8923542242886110613, 11265515867328115161, 7930829977381933194,
        2440788387404675591, 6514938643995616609, 14338981772231888807, 11808527609725508406, 1172923840414856511,
        13717030932356953574, 2345820598514373171, 17962926797059140545, 16711710931730154091, 5684008418377589150,
        8549426518112388420, 6718122080352821080, 13520196309844320055, 14662670741172885974, 5716657582643673427,
        -172966896256893694400, -126402142914028299613, -70352889009822645973, -50885662580041437475, -37716370476291771414,
        57882311261923203395, 29871848681631456027, 10600477055181456902, 13476993941152773054, 19797303002348054519,
        -7102485312779096669, -5059253098917402970, -5469533219901409949, -1721437240341039652, -806201749433108585,
    );
}

proof fn lemma_chain_17()
    ensures
        at(
            1569275432019793145571377583406618582468433203238784467744nat,
            z(4063739251449619899, 8553271130091932848, 11347367131129290359, 11217322193473703539, 2382436606106570279),
            z(4553960271645399146, 17454280084610026628, 9810635184334648857, 10630295758139092838, 4384713171946970576),
        ),
{
    lemma_small_multiples();
    lemma_chain_16();
    lemma_added(
        1532495539081829243722048421295525959441829300037875456nat,
        1,
        13717030932356953574, 2345820598514373171, 17962926797059140545, 16711710931730154091, 5684008418377589150,
        8549426518112388420, 6718122080352821080, 13520196309844320055, 14662670741172885974, 5716657582643673427,
        11712523173042564207, 14090224426659529053, 13197813503519687414, 16280770174934269299, 15998333998318935536,
        14639054205878357578, 17426078571020221072, 2548978194165003307, 8663895577921260088, 9793640284382595140,
        7485363360073667674, 9923704499545257249, 7351291002736505212, 9269585488435005453, 14757016379425381315,
        2366735794171593832, 4822772558511352667, 13151632598143181771, 10555557168894254443, 4393228628609035064,
        7494682205663232555, 4382077449766274048, 16185186669273380914, 17490860355884869771, 16113754410598503762,
        36320001903107197575, 3932906660304301746, 18100432048281333562, 25688450090082983922, 6352633970999748372,
        72834360418518388609, 57313065110128416508, 55797523132716223577, 50848274584247751022, 24879295313148378048,
        15357448118828777569, 27471449910007882804, 21863339870273873021, 12900640934487713137, 13588262658969236817,
    );
    lemma_doubled(
        1532495539081829243722048421295525959441829300037875457nat,
        2366735794171593832, 4822772558511352667, 13151632598143181771, 10555557168894254443, 4393228628609035064,
        7494682205663232555, 4382077449766274048, 16185186669273380914, 17490860355884869771, 16113754410598503762,
        2114536390174554099, 4911423191517714556, 5002916601625941954, 10250756673244573392, 16253424363393598156,
        4567088553124302274, 16990348782508965, 10249339138001618708, 3899026262654594731, 4348385753400791182,
        515352358312043435, 8384863104862407788, 12868080457079851458, 5085901685294297117, 7843486837321856280,
        -23993901168886800027, 60646563965308257928, 97145655490028571973, 70349222965833559100, -8204918118053363965,
        42887678051306149047, 44663272805179341725, 56646265692915299890, 47976785743277568255, 10541572890312415438,
        22741009010289914476, 18770154207985291190, 18685429673593386517, 1734943892358008688, 3296377451828868042,
    );
    lemma_doubled(
        3064991078163658487444096842591051918883658600075750914nat,
        4567088553124302274, 16990348782508965, 10249339138001618708, 3899026262654594731, 4348385753400791182,
        515352358312043435, 8384863104862407788, 12868080457079851458, 5085901685294297117, 7843486837321856280,
        18042848870101903722, 1440461067566610364, 18002570081604194783, 10611666059890168530, 5549582640121334764,
        7124667110546855126, 18363375253533573891, 16614245750411495727, 12132168654943249555, 16338697485980198464,
        8278886900127671177, 5098845384639591399, 15911152539319319081, 11544692472211213181, 14583390645120225319,
        51554840843109589047, 52261655073634621664, 31971416341268038251, 28001701897981125800, 27646094401320848714,
        82384821277466622206, 53626965879872969127, 54483985537457697525, 28578863405345410615, 30082516070759444677,
        -56957749715809740118, -73202307030623824053, -38277451581163994425, -38747416263910801424, -29905699479078476644,
    );
    lemma_doubled(
        6129982156327316974888193685182103837767317200151501828nat,
        7124667110546855126, 18363375253533573891, 16614245750411495727, 12132168654943249555, 16338697485980198464,
        8278886900127671177, 5098845384639591399, 15911152539319319081, 11544692472211213181, 14583390645120225319,
        9437583389335556847, 1078386462708409563, 10608814017815901289, 10327119247397816843, 2216479291270730014,
        7059264211922749381, 264320917515029489, 3668574868580791587, 3803758374940722650, 1003386045394794621,
        14308029422664268605, 13137690336926957288, 11186527093206554701, 16037326117097921371, 5003918997847606975,
        -387163519049491984221, -272491591487385205892, -203057867245707200315, -218272563981711194206, -112946691130443164401,
        41240894846056535230, 26096106598895980594, 18363410133543738786, 12606302849603203004, 9576573604230513386,
        45358469998640575759, 54375837486428488588, 36476653272300968266, 20991055487775967182, 25918058759284754458,
    );
    lemma_doubled(
        12259964312654633949776387370364207675534634400303003656nat,
        7059264211922749381, 264320917515029489, 3668574868580791587, 3803758374940722650, 1003386045394794621,
        14308029422664268605, 13137690336926957288, 11186527093206554701, 16037326117097921371, 5003918997847606975,
        5573274130842332203, 4891712904168609989, 9514955791873546020, 4996105181449278858, 384714152989305450,
        16363128083809017929, 563107557970863278, 9154755002374445903, 1519219319147387594, 8491178701505972522,
        3140362504882897138, 2327280840836366715, 16314030647540768890, 11968092611301537163, 14165143730966606882,
        64083176208786356004, 47216459397948302963, 26466944518958596525, 28012652583489146637, 25962944874776893863,
        17758102460935710018, 8205900363800397370, 7671825596156592884, 8089352026671611634, 7790081676591233260,
        -9708973898230482668, -12631255653085170298, -12476788987099492114, -3907055850325062324, -4761223478162167898,
    );
    lemma_doubled(
        24519928625309267899552774740728415351069268800606007312nat,
        16363128083809017929, 563107557970863278, 9154755002374445903, 1519219319147387594, 8491178701505972522,
        3140362504882897138, 2327280840836366715, 16314030647540768890, 11968092611301537163, 14165143730966606882,
        1752353152281403024, 1942762561588154007, 11108328891243455948, 6364236542866264247, 436450964375946022,
        18228087616114803794, 2488826637729244280, 12074184276090855216, 7346245647487436771, 2143353631674060779,
        17931952893491625322, 14665822380811550082, 9595407418691677751, 2530450472873453497, 10409394904646921043,
        25109111463875004326, -601093568399814473, -22970088976753197780, -32248661369180282676, -32485993056708341867,
        23436898103197615504, 8533146937439750703, 3218552797474495935, 3579923861000034301, 8112705614417290995,
        -11856723994482874670, 4850025956535981537, 4553317206406042214, -2213495621326857572, -2477216186506283980,
    );
    lemma_subtracted(
        49039857250618535799105549481456830702138537601212014624nat,
        7,
        18228087616114803794, 2488826637729244280, 12074184276090855216, 7346245647487436771, 2143353631674060779,
        17931952893491625322, 14665822380811550082, 9595407418691677751, 2530450472873453497, 10409394904646921043,
        1402190480421472576, 13676834587540684798, 17321958444468468343, 1669201366653940801, 5982097004065554850,
        15760894881285235192, 15255658932026822340, 5186042200108657016, 6691897350347039497, 12315888321054861899,
        2693825590237187103, 7754329671928726386, 17585829237942955000, 4234638369763308517, 1879620444106015973,
        16773730729798855501, 6357307509530078269, 15757573304997295318, 7034507279658794145, 16405733685474162033,
        10032109343771165227, 17624407235420658659, 17527392844135115803, 1264276634838948122, 9029440608884357729,
        -6818389079311314943, 3234078979317931551, -9662965904390795553, 9353680649790343569, 4030877201882928687,
        29356163737819188686, 15932470990327222916, 10984757996917683565, 16596224636278728732, 20874236220914185900,
        -20601389650805882195, -41655080689757200082, -10504511098716040394, -9216683190672071098, -6203071443699648282,
    );
    lemma_doubled(
        49039857250618535799105549481456830702138537601212014617nat,
        16773730729798855501, 6357307509530078269, 15757573304997295318, 7034507279658794145, 16405733685474162033,
        10032109343771165227, 17624407235420658659, 17527392844135115803, 1264276634838948122, 9029440608884357729,
        13654296453021349126, 16920352915706346303, 1604576483350201992, 17894282204883316002, 1686765194357431535,
        9998945458026692577, 63138742671420909, 17055029475700077024, 4186736160519279660, 6597947131062505419,
        75322863302169565, 6884697213255816125, 4375102465731707370, 3388216833968138814, 8798670654761471767,
        -78800712613599897472, -244898808029951116222, -91882101612377464675, -140768172530641831667, -89670533673992972842,
        28729202853025923311, 78004350992986412521, 27713171562743790793, 29897048347581300861, 35463873050427695491,
        30697350565247385242, 21364051126904285952, 34725631212670611108, 10727670300113484214, 16484153131412466011,
    );
    lemma_doubled(
        98079714501237071598211098962913661404277075202424029234nat,
        9998945458026692577, 63138742671420909, 17055029475700077024, 4186736160519279660, 6597947131062505419,
        75322863302169565, 6884697213255816125, 4375102465731707370, 3388216833968138814, 8798670654761471767,
        18306742311107403843, 10997356565219008751, 9904381251346905335, 7803259296086964136, 11631862725521693289,
        4178382254113904508, 3376529807950641646, 4433017872098935509, 13853944442345684847, 9313759181047584174,
        15699049878349529272, 5190127468796845264, 9075259434055175871, 5031119120952417809, 16247381004672237960,
        -6652256502488469282, -51308453235315729775, -30298633393298354823, 17481196003511582647, -36727705447252992566,
        84913304485707341061, 69202593486920005100, 55737446340379861318, 49301341557740999822, 37709106934152103859,
        -4902334023298354799, 7416128200882438413, -8057846272361885597, -6523314441422434195, 587125280846285005,
    );
    lemma_doubled(
        196159429002474143196422197925827322808554150404848058468nat,
        4178382254113904508, 3376529807950641646, 4433017872098935509, 13853944442345684847, 9313759181047584174,
        15699049878349529272, 5190127468796845264, 9075259434055175871, 5031119120952417809, 16247381004672237960,
        6089230397909663520, 4638313587681099221, 15070912740798811543, 12611045031874877229, 12151849455297114692,
        4184528428897225084, 14750644907062840266, 15729416318944719412, 3343188939932329349, 4651874513723871788,
        7997539581452212260, 6927990051442645030, 6403904456986340332, 10312581375482592056, 866816040609036626,
        23824970888830829487, 8953917416480952842, -13002329032233680736, 36029635955129749958, 24796380333175374837,
        82162088186043149894, 88494731705065767421, 60961413726183055059, 39919927819532600915, 26677401400995888491,
        -16370114419446604213, 6902404470472091462, 23739330500069234799, 545458297730098624, -12827289715690614429,
    );
    lemma_doubled(
        392318858004948286392844395851654645617108300809696116936nat,
        4184528428897225084, 14750644907062840266, 15729416318944719412, 3343188939932329349, 4651874513723871788,
        7997539581452212260, 6927990051442645030, 6403904456986340332, 10312581375482592056, 866816040609036626,
        5872750770929412194, 5721464935898158434, 5730540723344005983, 7379644138475720283, 13087138234475177865,
        15728733656199220086, 14997129670050396272, 5588365239545230607, 9494976074665619732, 14245716327485563868,
        17481989634981403606, 8721264684206229117, 15750886246587382599, 17281693027780531680, 18089443743364961986,
        -50327821857090851187, -33927847128940789348, -12646978390836026768, -65643057580752201760, -34789833672007026400,
        39979463124605481056, 36893079186502329625, 36836515491635809019, 36107800717021532733, 14690877079937852829,
        -6689160125947529486, 1600661862707953429, -25041503595575930016, -23927185321888378292, -10100717441329429827,
    );
    lemma_doubled(
        784637716009896572785688791703309291234216601619392233872nat,
        15728733656199220086, 14997129670050396272, 5588365239545230607, 9494976074665619732, 14245716327485563868,
        17481989634981403606, 8721264684206229117, 15750886246587382599, 17281693027780531680, 18089443743364961986,
        17125372972581080695, 3998880073338782189, 9911207083999542451, 14205877213752715801, 1184913987370242551,
        4063739251449619899, 8553271130091932848, 11347367131129290359, 11217322193473703539, 2382436606106570279,
        4553960271645399146, 17454280084610026628, 9810635184334648857, 10630295758139092838, 4384713171946970576,
        -112641348861530602807, -30381774864984743491, -55097557597647980728, -92662662301097714908, -50591484286788035535,
        63235696983113340814, 44064634499635827287, 24744406473463388664, 30902006865040207108, 13684334291681176374,
        3705072518249832801, 22544064193833421358, 29393790281234470613, 11884125157934775477, 13257605315176398099,
    );
}

proof fn lemma_chain_18()
    ensures
        at(
            1606938042388268181065090645408377428447675600116515294966736nat,
            z(7838453047570779558, 17773802462631175479, 101355090679884995, 3919317138797901627, 18193213396357313231),
            z(5157501103339440283, 14416170040507237594, 2746460170695196902, 5073457127039528199, 9811631980094518145),
        ),
{
    lemma_small_multiples();
    lemma_chain_17();
    lemma_subtracted(
        1569275432019793145571377583406618582468433203238784467744nat,
        3,
        4063739251449619899, 8553271130091932848, 11347367131129290359, 11217322193473703539, 2382436606106570279,
        4553960271645399146, 17454280084610026628, 9810635184334648857, 10630295758139092838, 4384713171946970576,
        3584413360476155897, 993598265149929043, 9118536478120200325, 4545548208597017001, 16640886554632444604,
        6661501719066134017, 7261582874957064446, 6574521784608599777, 12238551638203620304, 17669239050955015918,
        16815237283347717000, 327040099098345224, 12038429565824563365, 1450407716391945878, 6388832025106459515,
        1930478881385293505, 360864361037217218, 6106115575698437985, 3226937852043515824, 11540448431509559909,
        16502933660859185344, 9860463982490815791, 1047327663449528030, 2666181795421261691, 13240933056023721346,
        -21121036096770790068, 17126292418477339199, -6047343391581779656, 3722409644203564670, 10664143196325127912,
        21686885000120309999, 25954639237009218833, 24967198571055478687, 9709221392944235311, 19555316697175963937,
        26849550833521009821, -3093496751741962713, 12457068575298071138, 3375398896218725099, -3402939603549984362,
    );
    lemma_doubled(
        1569275432019793145571377583406618582468433203238784467741nat,
        1930478881385293505, 360864361037217218, 6106115575698437985, 3226937852043515824, 11540448431509559909,
        16502933660859185344, 9860463982490815791, 1047327663449528030, 2666181795421261691, 13240933056023721346,
        14626832720024957530, 3332857334916222785, 3032750022256697510, 16598831690261942472, 15250207328590208694,
        17165006826270777427, 17633483859033576850, 5006943990764213370, 18047804117468774797, 16618988667750570208,
        1360565070305455238, 15654506754781430535, 7605147690536674848, 4211455326710854668, 9602696591928705978,
        73823522950046634014, -19816375592462331025, 55168771778392571216, 35506020091357908711, 53648961765217983189,
        44503543146875693363, 65136824636897959286, 87746690395422338333, 65241789089832878123, 30681030188830131074,
        -62013826297992984941, -56235586054104468984, -55221107999674197478, -40696841877277493976, -34660875105936747801,
    );
    lemma_doubled(
        3138550864039586291142755166813237164936866406477568935482nat,
        17165006826270777427, 17633483859033576850, 5006943990764213370, 18047804117468774797, 16618988667750570208,
        1360565070305455238, 15654506754781430535, 7605147690536674848, 4211455326710854668, 9602696591928705978,
        5291724300127861064, 14218736347754131426, 3116665463283054128, 1638874488529882002, 9669336542635014645,
        2747808886814907562, 557345707910255870, 2823384101374147458, 16700730309274595707, 13205304169265973028,
        17938208605623592927, 5957549513903247808, 8244387412355596953, 5142715989920068846, 419504204427726704,
        -319297769006632516084, -291585105325798221028, -323874794955343566820, -214358039698704584958, -181595813892376591968,
        47898087900535124716, 18396607895640602730, 17902265283429971562, 20950214248906582966, 8600649406176857524,
        40147048736279853927, 21534329788121327007, 19252677654218200757, 11603597116422495468, 11460763779715142719,
    );
    lemma_doubled(
        6277101728079172582285510333626474329873732812955137870964nat,
        2747808886814907562, 557345707910255870, 2823384101374147458, 16700730309274595707, 13205304169265973028,
        17938208605623592927, 5957549513903247808, 8244387412355596953, 5142715989920068846, 419504204427726704,
        8159981607782810619, 6448215086394749474, 11281818451191833923, 6996064964673571341, 3882767177954626642,
        14083466096416565799, 12227778159824296961, 8059741485488643925, 2842700461190382997, 8337385189173611515,
        1686884604767900181, 17342708118655600605, 278695996437090711, 7164805556444280903, 9459966415076823388,
        7485350756114638845, -131493270111783353812, -176921255214179934228, -68779713168159126478, 9994936119298747794,
        37425402197249748064, 27912646935841642350, 21070541607992349321, 16528572656634956683, 15226009930466978182,
        12189594846686611298, 12267315316343770705, 960737425561816597, -4063025757933019509, -3017051031730350711,
    );
    lemma_doubled(
        12554203456158345164571020667252948659747465625910275741928nat,
        14083466096416565799, 12227778159824296961, 8059741485488643925, 2842700461190382997, 8337385189173611515,
        1686884604767900181, 17342708118655600605, 278695996437090711, 7164805556444280903, 9459966415076823388,
        9772298085445678181, 14630708435268721537, 470364645647795727, 18304947092143946910, 9549871216644518062,
        4080140946556887261, 57411211873915330, 2597165218039978964, 7644826523114143272, 1057372983038585383,
        8957261273322878306, 9405929313212354368, 8648838753215738905, 3725172331819918862, 14276962878971911542,
        -50661379877905573338, -59503319571877081076, 22107229026356703039, -37341346807089201627, -2494419514677288551,
        53423308420639525966, 71455216052475640766, 68961223494399701169, 34972375241876923204, 39166711710794413900,
        57417571792482852784, 9126471145400823592, 27015601289735376148, 23331918996491613266, 17442738653271013500,
    );
    lemma_doubled(
        25108406912316690329142041334505897319494931251820551483856nat,
        4080140946556887261, 57411211873915330, 2597165218039978964, 7644826523114143272, 1057372983038585383,
        8957261273322878306, 9405929313212354368, 8648838753215738905, 3725172331819918862, 14276962878971911542,
        15756725182490597930, 12450985532284595723, 889778574805391733, 9771237307478636298, 5109310477971906456,
        2781380527752295541, 6080904767973858003, 16475233420228735468, 8254051913445018675, 8009048046913011783,
        396393637047935784, 9966164389030340873, 7091160988400339935, 15860367764318255597, 15374515824215092752,
        95177669281672922174, 27234871456549536733, 68567565447614820860, 41422780273684242093, 42536667082163185556,
        36978640598576523089, 38276764584521773377, 26162489315684057321, 22139289262186809747, 21961966579599084448,
        -40114017942292575687, -17774235615923329925, -27410435790782711923, -15266591240999014790, -9849473265482415649,
    );
    lemma_doubled(
        50216813824633380658284082669011794638989862503641102967712nat,
        2781380527752295541, 6080904767973858003, 16475233420228735468, 8254051913445018675, 8009048046913011783,
        396393637047935784, 9966164389030340873, 7091160988400339935, 15860367764318255597, 15374515824215092752,
        2900571371711538043, 7339478849022424643, 4056885115185458459, 7804418316667364258, 4148595484240613243,
        13398321447888669656, 6606998187412991794, 5890336039230427638, 5810150493040964705, 2459379903272355159,
        12214366682548167208, 3002148924238984988, 17623741606295001139, 10347096426685553024, 16936817036922760047,
        -92270351241275040732, -93929616358725396682, -14660198618167611923, -35253384496785101069, -38528271696997486924,
        20658076933047684097, 17688024002282139372, 14727084948635813553, 8481601011151137874, 8407209270711254002,
        19646987899913348630, 9597974158082537599, 7812834556929470244, 3732527352021846816, 1562586739952058890,
    );
    lemma_subtracted(
        100433627649266761316568165338023589277979725007282205935424nat,
        3,
        13398321447888669656, 6606998187412991794, 5890336039230427638, 5810150493040964705, 2459379903272355159,
        12214366682548167208, 3002148924238984988, 17623741606295001139, 10347096426685553024, 16936817036922760047,
        3584413360476155897, 993598265149929043, 9118536478120200325, 4545548208597017001, 16640886554632444604,
        6661501719066134017, 7261582874957064446, 6574521784608599777, 12238551638203620304, 17669239050955015918,
        13924384000792076279, 17655659963700090994, 5238522922884543711, 5082784601414475960, 14399030932366019716,
        6786457138997944629, 4711457022145130647, 11751291239273005965, 9597623856589465917, 1460165800964177911,
        15348218429899776023, 3649938161315945563, 17888000508720770888, 6402858983745095597, 8300235012538860508,
        21758159179091960954, 4965757283529377800, 3038451026891627174, 31046083418231004969, 1204000527712058157,
        101860389470489056683, 55390284266497886344, 48611926913483601486, 51419628301246006933, 32955258943893634255,
        4227366171503308678, -8245068613585699432, -8775436217630301561, -3768556829144786946, 1148138497316230984,
    );
    lemma_doubled(
        100433627649266761316568165338023589277979725007282205935421nat,
        6786457138997944629, 4711457022145130647, 11751291239273005965, 9597623856589465917, 1460165800964177911,
        15348218429899776023, 3649938161315945563, 17888000508720770888, 6402858983745095597, 8300235012538860508,
        17351856899489440878, 13615711599395503538, 11038539410303759062, 5592809939762980984, 12286463017172982484,
        8871769128061158345, 11223103543491258512, 10413886447196624870, 6655502864342072172, 11117067448094448730,
        4778597953245583830, 14168738759066927000, 9064664644563767983, 4458402735532931262, 13110611792187897518,
        11492842164274997202, 70373578093848070080, 54872131414912708985, 45063509876068396031, 28745061365549952957,
        90814903230280120161, 74815477450022056778, 53167161968698623212, 51367218546079327618, 37976101374125118380,
        -29858190743558768297, -19652050139211526995, -7700866169705571851, -20070118251949177081, -9474984767589033072,
    );
    lemma_doubled(
        200867255298533522633136330676047178555959450014564411870842nat,
        8871769128061158345, 11223103543491258512, 10413886447196624870, 6655502864342072172, 11117067448094448730,
        4778597953245583830, 14168738759066927000, 9064664644563767983, 4458402735532931262, 13110611792187897518,
        6803541722883464196, 9163755187152337904, 4575587252766915080, 9041159257974891420, 9656700467797680326,
        16397634380197801889, 9131832378008346772, 1685549682419260924, 12552656381604756390, 15191716517075464113,
        6061872233346276849, 9755565920459667330, 17616871140641048561, 7543468596279375115, 16910034687659729778,
        -81780081936118387962, -90671675101725623171, -47040453204503142964, -52331030770111412724, -36523098449170324352,
        44747717493687192541, 34425051634489872412, 36325185907381125992, 26380727203480409294, 17240845684381596299,
        2881731676677725241, -962738153786879718, -12861215004962974232, -7408024825772225775, -5182072246670476300,
    );
    lemma_doubled(
        401734510597067045266272661352094357111918900029128823741684nat,
        16397634380197801889, 9131832378008346772, 1685549682419260924, 12552656381604756390, 15191716517075464113,
        6061872233346276849, 9755565920459667330, 17616871140641048561, 7543468596279375115, 16910034687659729778,
        14511768518795362200, 275492635375474830, 16521488368266200731, 609129843305283128, 1393629599041680234,
        13384632045541529310, 18040970425386218720, 15566686729823904254, 1695253357873197063, 10548858093911014781,
        17019976191572590794, 17885179545937999320, 17701323038025221915, 9604550301747722124, 11711140231903159665,
        -140240311557809965092, -34686210920485148015, -162992436842875879506, -146620444794628853613, -58823659506017660936,
        14814398811314378840, 7982866727685016172, 26274627772605363710, 1767727115687175885, 17008056195622012154,
        28356669540552773292, 3440646176118810624, -5433861964326703025, 1506516925203248369, -8684331230301031401,
    );
    lemma_doubled(
        803469021194134090532545322704188714223837800058257647483368nat,
        13384632045541529310, 18040970425386218720, 15566686729823904254, 1695253357873197063, 10548858093911014781,
        17019976191572590794, 17885179545937999320, 17701323038025221915, 9604550301747722124, 11711140231903159665,
        1687121581118744536, 5546990553888232951, 13272003809160177256, 10214473961877097581, 3208145473355689455,
        7838453047570779558, 17773802462631175479, 101355090679884995, 3919317138797901627, 18193213396357313231,
        5157501103339440283, 14416170040507237594, 2746460170695196902, 5073457127039528199, 9811631980094518145,
        -97410611116560231963, -125733635367248863754, -50735754298817535416, -83809884923933417573, -36164175893739983180,
        50036955874543694884, 31831874576226175396, 14754320963311588260, 11524097140263580346, 16278771368337460765,
        14640862987961046995, -10433289130551760943, -8373932154548311500, 3721975317454076240, 10871514849842421991,
    );
}

proof fn lemma_chain_19()
    ensures
        at(
            822752277702793308705326410449089243365209907259655831022969377nat,
            z(18391075546610550238, 18016705053685848887, 9376301418172736128, 14517656597484721507, 8747539195745516030),
            z(16270916803905131079, 16753704657992482102, 3046557947525794641, 16958814594883532649, 7489335688903578961),
        ),
{
    lemma_small_multiples();
    lemma_chain_18();
    lemma_added(
        1606938042388268181065090645408377428447675600116515294966736nat,
        1,
        7838453047570779558, 17773802462631175479, 101355090679884995, 3919317138797901627, 18193213396357313231,
        5157501103339440283, 14416170040507237594, 2746460170695196902, 5073457127039528199, 9811631980094518145,
        11712523173042564207, 14090224426659529053, 13197813503519687414, 16280770174934269299, 15998333998318935536,
        14639054205878357578, 17426078571020221072, 2548978194165003307, 8663895577921260088, 9793640284382595140,
        14123613137858099509, 9572238717918291582, 14155094726057122534, 3938468738644410787, 8164424847855882235,
        7266377554866359402, 10339211207813745279, 14817615703870544391, 3435309791555735974, 9023988326974440376,
        14142294251623256743, 4642195287568178000, 5162326172392642324, 1915320422592238724, 4812910809282807142,
        31503437186737440969, 19444225749476682243, 26095994115888052565, 11346584002460014001, 15711751495699249593,
        54366438573110444642, 54770264057182092672, 37101501889564547686, 31562003913723174877, 27451402089458882191,
        16271825674302825998, 7867101835773264141, -454837067013045346, 10735941477819291649, -2180486090638793450,
    );
    lemma_doubled(
        1606938042388268181065090645408377428447675600116515294966737nat,
        7266377554866359402, 10339211207813745279, 14817615703870544391, 3435309791555735974, 9023988326974440376,
        14142294251623256743, 4642195287568178000, 5162326172392642324, 1915320422592238724, 4812910809282807142,
        1945102871662219326, 10344036438227591857, 3996395256606637110, 14605904777165209027, 1164803312136997176,
        16253043621522260289, 16310223551987455915, 14856402604572545436, 17600004022210433208, 15469642402649485300,
        5151297859089310024, 12706422289277093530, 4441428599090412049, 2321884457134703945, 11665803552802276584,
        -101349849490873981167, -126519103814648271249, -46642345620897651671, -65256358696719962588, -54050947942566471295,
        23109869276731651595, 38389857687850529678, 12176887495005623503, 7782836401374111196, 17492004053620805318,
        -22220186880469989686, -43511789307261732379, -23293279238393992941, -11145472157940344219, -13926160435233212482,
    );
    lemma_doubled(
        3213876084776536362130181290816754856895351200233030589933474nat,
        16253043621522260289, 16310223551987455915, 14856402604572545436, 17600004022210433208, 15469642402649485300,
        5151297859089310024, 12706422289277093530, 4441428599090412049, 2321884457134703945, 11665803552802276584,
        8240130076973126350, 12191212466466424677, 12214480550216219013, 14163062294113547305, 14024115393977781760,
        8177782237880193837, 13755594910454446948, 12134911049638852515, 8480051316837768005, 4329680192204987932,
        12910996320838891323, 2458842786276665893, 8060213975307296125, 16296968778651088743, 18365948239732946282,
        -405797902460458748038, -366146723239957595691, -295556719266622725235, -202717795830367779486, -164326782632736462944,
        115559268981832026595, 99230251966123253637, 83574098083792424202, 60783466167552827961, 39337262213289357167,
        55905246883628004893, 55820320410799897648, 54710485919557213951, 39171471891473730350, 20906095138804238233,
    );
    lemma_doubled(
        6427752169553072724260362581633509713790702400466061179866948nat,
        8177782237880193837, 13755594910454446948, 12134911049638852515, 8480051316837768005, 4329680192204987932,
        12910996320838891323, 2458842786276665893, 8060213975307296125, 16296968778651088743, 18365948239732946282,
        15719915284865866192, 4121769162121368725, 15660816303187585601, 15949849626998153314, 10179094732024231922,
        11285839909689588569, 13919000740246684955, 9643605314072431267, 15632723982838104540, 570317479232255326,
        586450894694711480, 6111651300838121571, 8450033445773824867, 17848364580501130900, 4623401042689579019,
        10194071238501442182, 91805010762313377042, 87118588298362161378, 32690976376891816370, -2634247554296415515,
        108288866157976110005, 100248500380519625589, 80420293602378661960, 51033559874732917968, 37772160499132310079,
        -12154173080535221488, -5688256104859461252, -2641361214763497621, -2141419357554822182, 1864153761478262882,
    );
    lemma_doubled(
        12855504339106145448520725163267019427581404800932122359733896nat,
        11285839909689588569, 13919000740246684955, 9643605314072431267, 15632723982838104540, 570317479232255326,
        586450894694711480, 6111651300838121571, 8450033445773824867, 17848364580501130900, 4623401042689579019,
        13805612872973565031, 14296517491953954389, 924742381244571599, 9828981022524643454, 4444302329430225922,
        12990829252778870498, 14782400624999258797, 5719026559099505501, 7803066612886935567, 14108638151974107148,
        13707807133858474943, 503409058535013119, 17548339355786877980, 16510197132210473820, 11994819428261681588,
        -111970202286250349996, -94969439892553188177, -12845723489709644345, -53468951475355044382, -45763501006461847319,
        33954982640334296869, 38447434480599243587, 26672536937557188112, 19357718270824127775, 21933853480239725537,
        -25926390478196613295, 11348623508053760675, -13799219470139334836, -1835601618666939079, -4738103655128263684,
    );
    lemma_added(
        25711008678212290897041450326534038855162809601864244719467792nat,
        1,
        12990829252778870498, 14782400624999258797, 5719026559099505501, 7803066612886935567, 14108638151974107148,
        13707807133858474943, 503409058535013119, 17548339355786877980, 16510197132210473820, 11994819428261681588,
        11712523173042564207, 14090224426659529053, 13197813503519687414, 16280770174934269299, 15998333998318935536,
        14639054205878357578, 17426078571020221072, 2548978194165003307, 8663895577921260088, 9793640284382595140,
        6234971625878002982, 16695093631330267709, 5588062701488175739, 18146226415280168111, 6878789183482508384,
        8366142393324053649, 7866165579944734824, 6318825816748213235, 233179339910293364, 6417908190110892964,
        15605254345185782348, 7131556289358850750, 3563444569251584993, 1231780718967033353, 6892413838754768003,
        33699651341044691784, 33711751884937938688, 16574869528167094122, 10280914140196856292, 9419364219744207311,
        72443166615276126080, 77340374851325537101, 59487645512026889351, 30076966074600817564, 39189054226108051807,
        35290990244516041920, 35181164651097809877, 38622461254196298435, 17263861121451801701, 17796937812695810977,
    );
    lemma_doubled(
        25711008678212290897041450326534038855162809601864244719467793nat,
        8366142393324053649, 7866165579944734824, 6318825816748213235, 233179339910293364, 6417908190110892964,
        15605254345185782348, 7131556289358850750, 3563444569251584993, 1231780718967033353, 6892413838754768003,
        7130988617877034108, 17797681155756260766, 15566796376272366701, 1381421332004606131, 16822141637321790205,
        14867272735617764545, 17162207139586960583, 2425962103800571974, 6374731195681320553, 15717843123762913088,
        9757569343536803534, 5739083686538391082, 10664770421431782291, 5737370028225064749, 11941857398796525113,
        36741036187065904822, 29572055762162803419, 23972932231859868666, 23016862489728288570, 18695553052482413943,
        107132591965866937947, 99245493523360027978, 36765379265236113498, 77128023193552558782, 28808029282907559917,
        -69536884218871542761, -24139701191136784594, -31841572582567048793, -32392504671927637923, -12860176288625915830,
    );
    lemma_doubled(
        51422017356424581794082900653068077710325619203728489438935586nat,
        14867272735617764545, 17162207139586960583, 2425962103800571974, 6374731195681320553, 15717843123762913088,
        9757569343536803534, 5739083686538391082, 10664770421431782291, 5737370028225064749, 11941857398796525113,
        4703136155167030344, 6556825216259204779, 9522605613282420280, 11765167004324327691, 957100469345154071,
        9337659093955022716, 7962594466499814929, 10037633655827668718, 894594594219536767, 17557225492454415106,
        12263450693336235667, 12305996713959448467, 15608593557200659612, 7066959301987659669, 2376290287619322153,
        -223445278954110309090, -67899546181474971982, -90326454718354219863, -132305956259714532082, -83037518162548916104,
        39680878209752700384, 28819031001082471980, 10848898799513263661, 12917759842448960738, 13767581516194132064,
        -5196709042781292741, 10763165873993591324, 1517398200884665931, 6681131272314693715, 3703952356927477409,
    );
    lemma_doubled(
        102844034712849163588165801306136155420651238407456978877871172nat,
        9337659093955022716, 7962594466499814929, 10037633655827668718, 894594594219536767, 17557225492454415106,
        12263450693336235667, 12305996713959448467, 15608593557200659612, 7066959301987659669, 2376290287619322153,
        1289598590333937128, 442252991279183045, 3141126063856498208, 15025695656501916256, 10800458205470597987,
        7589974101512655953, 7733253994672118616, 17979096864865224308, 4300680503987437665, 13069996912839685794,
        5074309377790271722, 5758446669674706830, 12692287895536470709, 1567905388842702256, 752988876729065090,
        -30566962608934351427, -102432217588238710858, -12735048721952117047, -144855558087822776262, -31632218800713471394,
        16995297303474373137, 47813795695300751830, 53234519608343058441, 21222296332701802684, 2765447485519634570,
        -20298250606176408004, -19922064611141448984, 4730328165242315466, 8915845759283214445, 89827979394703532,
    );
    lemma_doubled(
        205688069425698327176331602612272310841302476814913957755742344nat,
        7589974101512655953, 7733253994672118616, 17979096864865224308, 4300680503987437665, 13069996912839685794,
        5074309377790271722, 5758446669674706830, 12692287895536470709, 1567905388842702256, 752988876729065090,
        328115796895207712, 1399277194203332341, 7609272674941020115, 6469138765932475289, 18391776836228873961,
        4089017532970740214, 16112645478813998396, 14829712597992494657, 2828237859841234942, 16226384489575798378,
        4833695091757594105, 17246494124671404577, 16844497718730360417, 1628805807985089499, 2767727472102152559,
        -117886247827614326924, -175346773489513331290, -92484518258313849800, -124388750162273449444, -70760631190508375518,
        24387581172171163640, 52375410258175524329, 39076010277076420502, 56395458100688444817, 4774529966842396501,
        -20583735167089516299, 7179618335201161506, 1947941934266337232, -11404594463598118909, 1906601183173521510,
    );
    lemma_doubled(
        411376138851396654352663205224544621682604953629827915511484688nat,
        4089017532970740214, 16112645478813998396, 14829712597992494657, 2828237859841234942, 16226384489575798378,
        4833695091757594105, 17246494124671404577, 16844497718730360417, 1628805807985089499, 2767727472102152559,
        10672692928645574911, 1951644777752850235, 11956091556103374711, 11714253639728616511, 1535063940780037287,
        7022636782196961041, 13312678985169253500, 17218983272219226654, 13454187339411436837, 496600087981221040,
        11864605502614116577, 13437671812662624313, 3720440641638828814, 2208823362800393405, 5629210638668235013,
        -212287445087731971193, -213778294285098648685, -65960445069278478598, -174614436392890200626, -24077908423677734525,
        52704255124917054888, 30544686577076928223, 19890180820039605921, 16468088570509607438, 12004220391344923529,
        -21218835205661858289, 11055055280304359363, 24326433034486784544, -2521872318067807427, 7961890999264740541,
    );
    lemma_added(
        822752277702793308705326410449089243365209907259655831022969376nat,
        1,
        7022636782196961041, 13312678985169253500, 17218983272219226654, 13454187339411436837, 496600087981221040,
        11864605502614116577, 13437671812662624313, 3720440641638828814, 2208823362800393405, 5629210638668235013,
        11712523173042564207, 14090224426659529053, 13197813503519687414, 16280770174934269299, 15998333998318935536,
        14639054205878357578, 17426078571020221072, 2548978194165003307, 8663895577921260088, 9793640284382595140,
        7806833719452871353, 15088563102211239220, 17361449621121392042, 7014312534854393748, 6302574079656775452,
        18391075546610550238, 18016705053685848887, 9376301418172736128, 14517656597484721507, 8747539195745516030,
        16270916803905131079, 16753704657992482102, 3046557947525794641, 16958814594883532649, 7489335688903578961,
        44214575007877772637, 47037025808416163074, 23928825972570472115, 16311339885631009413, 6985921134731873957,
        73844965271101010979, 56363360260778661976, 41415979994559062992, 40798805295759498797, 33149374270932474590,
        -23935682785335184045, -27760617871024902730, -21730384210675891951, -11242335548756293414, -2653343216726573032,
    );
}

proof fn lemma_chain_20()
    ensures
        at(
            842498332367660348114254244299867385205974945033887570967520642500nat,
            z(1131516959719745916, 12972047185496070021, 3159298765047901547, 16407231743457273576, 14066447534152624602),
            z(7269545929147675136, 6106855921203309962, 2992998169873199502, 7506346350714698550, 13793395677481126546),
        ),
{
    lemma_small_multiples();
    lemma_chain_19();
    lemma_doubled(
        822752277702793308705326410449089243365209907259655831022969377nat,
        18391075546610550238, 18016705053685848887, 9376301418172736128, 14517656597484721507, 8747539195745516030,
        16270916803905131079, 16753704657992482102, 3046557947525794641, 16958814594883532649, 7489335688903578961,
        18046862695702947335, 15249184360696322096, 10696322164302302211, 13642728798523819725, 13541192517156452442,
        8078314179427924586, 8452243923915150934, 12648882944600136384, 13248383105617940000, 2618144769528703838,
        10437950063531242420, 17235274641697632937, 8725622630604049898, 887131461319232468, 14562262555396333690,
        -126323342104354461525, -116226012145031657764, -72339537450609891461, -64420729931703922764, -56805209597830427930,
        132283736658199918005, 107217715952457796779, 93623060784332922326, 74198946078648488540, 55253347770040251003,
        41299931234502350106, 24153896180333786653, 27079382974955517083, 25207640846245822687, 19792087631502328154,
    );
    lemma_doubled(
        1645504555405586617410652820898178486730419814519311662045938754nat,
        8078314179427924586, 8452243923915150934, 12648882944600136384, 13248383105617940000, 2618144769528703838,
        10437950063531242420, 17235274641697632937, 8725622630604049898, 887131461319232468, 14562262555396333690,
        9748491437009270652, 12240484905188079155, 4804254247056833931, 16443693408055752356, 4591323366480985774,
        17161051886145588874, 16684508563483554468, 4950313553559084664, 1084820289149083533, 4428821782099936582,
        7318160726028092665, 10280861200470259210, 6482985722981047377, 12353448735353686454, 15676977227746085483,
        -52921691920653276819, -67557938673336145315, 38043196026621475282, -11078258306952898266, -12284330216111233036,
        49126899111220961014, 64086376842990784036, 37756680177515624361, 27183982215282134849, 27926628779089878879,
        15540121142616823282, 26484642631090951569, 480553265302914969, -56012440849169128, -479661843249522332,
    );
    lemma_doubled(
        3291009110811173234821305641796356973460839629038623324091877508nat,
        17161051886145588874, 16684508563483554468, 4950313553559084664, 1084820289149083533, 4428821782099936582,
        7318160726028092665, 10280861200470259210, 6482985722981047377, 12353448735353686454, 15676977227746085483,
        4687555381955100156, 5874973901084164183, 4019199872799853591, 1744413008608408304, 5994504435657986879,
        14785944437153663452, 7229875071808730828, 12395878935262799238, 18251399300885685163, 16356156270676787476,
        4142698525901729664, 13833713477491141977, 12341998811255988024, 14675065596690653526, 14290517553923009869,
        -51688585693307510565, -65066786985687141138, -31577952989389226414, 4349060964807247992, -9231449113394423016,
        14926503253537791222, 11317234591521390634, 7314955470015927491, 9290620801592670688, 5033401673690474393,
        -14908296033461712181, -16765909776528784861, -18482597071951476941, -16076763435903101412, -8454504583286391202,
    );
    lemma_doubled(
        6582018221622346469642611283592713946921679258077246648183755016nat,
        14785944437153663452, 7229875071808730828, 12395878935262799238, 18251399300885685163, 16356156270676787476,
        4142698525901729664, 13833713477491141977, 12341998811255988024, 14675065596690653526, 14290517553923009869,
        14898368041803969993, 14319973255146216906, 18053223018234822222, 683563194787416168, 7100597460442638648,
        15286766758413086235, 12389508347927742168, 12662518942509934508, 2469328072723726459, 16872903075592678318,
        18265035091944882535, 1603144018078809345, 7360016727838008110, 18381553341777497388, 153317739107592538,
        -177588415073627963679, -250674003688883500466, -272816914513023754788, -144193645992119418816, -72331435551849173010,
        49119057221663574334, 64901548605168611300, 41856221095998688168, 37332699146606767959, 30198863341397503998,
        38740423935229636550, -4626534328238414256, 13456409862019016938, 6874429454073278946, 11189149066756670227,
    );
    lemma_added(
        13164036443244692939285222567185427893843358516154493296367510032nat,
        7,
        15286766758413086235, 12389508347927742168, 12662518942509934508, 2469328072723726459, 16872903075592678318,
        18265035091944882535, 1603144018078809345, 7360016727838008110, 18381553341777497388, 153317739107592538,
        1402190480421472576, 13676834587540684798, 17321958444468468343, 1669201366653940801, 5982097004065554850,
        15760894881285235192, 15255658932026822340, 5186042200108657016, 6691897350347039497, 12315888321054861899,
        15334255663560758775, 5071333141235744443, 17250586118483713546, 9039182556826352559, 629362144124999961,
        4522623898958217503, 9667741784175884785, 3359176983528636069, 7221984791638754856, 17879832331877591488,
        11926880007025964245, 13035014421352185628, 2378006922514752288, 10246560316636097457, 610876580997425296,
        -15787456396322017413, -34000121294454873587, -24848951201106476755, -6098672362348187719, -4758785661498649694,
        64503351144103614573, 25250629337154884818, 31924426840757770663, 24577426738729864893, 22148392804713267004,
        8738946255197304376, -3637521176780323584, 16581338287281976687, 6323709168540514393, 8257412461402177828,
    );
    lemma_doubled(
        13164036443244692939285222567185427893843358516154493296367510039nat,
        4522623898958217503, 9667741784175884785, 3359176983528636069, 7221984791638754856, 17879832331877591488,
        11926880007025964245, 13035014421352185628, 2378006922514752288, 10246560316636097457, 610876580997425296,
        3216007422770478060, 3973324808779371174, 13497588271913694899, 11568497590011948212, 15937328202413573581,
        1528240875333414157, 10114424169764399835, 11879984129914027841, 16864955382748569872, 7126556891742234427,
        9825733694147681814, 2245496335085752817, 10138263600110865517, 4471543872839678480, 8382017474676880100,
        -69218610838764806592, -35027954103972245357, -66829388937923664233, -135361077744272323750, -5781534123838794285,
        71945959260382894849, 93118864366848453901, 65530786952771879929, 51156162847052432671, 20416872283068153814,
        -30885526139922835831, -16055395426847578176, -4153181840322797903, 25905873495191778500, -4130125406139541882,
    );
    lemma_doubled(
        26328072886489385878570445134370855787686717032308986592735020078nat,
        1528240875333414157, 10114424169764399835, 11879984129914027841, 16864955382748569872, 7126556891742234427,
        9825733694147681814, 2245496335085752817, 10138263600110865517, 4471543872839678480, 8382017474676880100,
        4304737718452769217, 10488706608168510070, 10022121680287769348, 10871877574277808063, 16479644667686775919,
        14540689488996589427, 13976366870772119459, 14172513728246885571, 6595245757791088217, 11638060892103488501,
        8409682969351349897, 9438543179670477615, 15343787033940587540, 6528289576522615582, 4482121020752128961,
        -170573234852907709812, -116709271292483608619, -68250265489005437627, 321901636574603581, -41761829133817464571,
        92666076333326268632, 77838205328802594430, 68916565857296188941, 60638094811262020504, 25499778470003790615,
        -8397389723324491079, -3639670735058918691, 9746439386445653102, -20765497639878546767, -10359984274460344831,
    );
    lemma_doubled(
        52656145772978771757140890268741711575373434064617973185470040156nat,
        14540689488996589427, 13976366870772119459, 14172513728246885571, 6595245757791088217, 11638060892103488501,
        8409682969351349897, 9438543179670477615, 15343787033940587540, 6528289576522615582, 4482121020752128961,
        4828686040015887105, 11598265143157324335, 4301843311264424329, 12135812536861193322, 8040299113157598697,
        15069583857308292016, 15352462845414305254, 16730722024896421618, 5796018775546176194, 9108688019802955391,
        4090716598252702305, 9335492437592631411, 3823359672182052446, 310255259884918959, 2841866509706205935,
        -168615264402869492436, -160585421225153848802, -115105030239002147519, -111800810616482677197, -80227959345829364155,
        48576351203227834993, 41274017715963327748, 41281953585831545879, 22276404104677196769, 20473139199220530598,
        -1656708849369363983, -690884438869881705, 4378969283759939406, 1239290206780275006, -567814514242263787,
    );
    lemma_doubled(
        105312291545957543514281780537483423150746868129235946370940080312nat,
        15069583857308292016, 15352462845414305254, 16730722024896421618, 5796018775546176194, 9108688019802955391,
        4090716598252702305, 9335492437592631411, 3823359672182052446, 310255259884918959, 2841866509706205935,
        7900669949408725707, 15864551827926935702, 494974839203959318, 12749626117136618841, 2241743199183158985,
        5927630771788237742, 18040800236843215755, 18443356043977989311, 16911769429070951674, 4524664341726784576,
        14341500595356321263, 11641248066364057864, 730603159179332784, 9796749655350584715, 11192685003633554718,
        -227128691870986831287, -220780251880745834687, -140290266119867435280, -137364703879375197439, -102040331570360669030,
        17004114997349237363, 40386406957764666628, 23364209672780261739, 12589892323500970979, 23863384960247892920,
        10316505169853003806, -16592771013362954799, 2652099541084509614, 1683895420248706601, -8389482710606305873,
    );
    lemma_added(
        210624583091915087028563561074966846301493736258471892741880160624nat,
        1,
        5927630771788237742, 18040800236843215755, 18443356043977989311, 16911769429070951674, 4524664341726784576,
        14341500595356321263, 11641248066364057864, 730603159179332784, 9796749655350584715, 11192685003633554718,
        11712523173042564207, 14090224426659529053, 13197813503519687414, 16280770174934269299, 15998333998318935536,
        14639054205878357578, 17426078571020221072, 2548978194165003307, 8663895577921260088, 9793640284382595140,
        13299789615586446523, 1635745598605085957, 6803741798270106054, 15380492377132011195, 199786220713930098,
        6045516310623396466, 13759059637335142033, 3011480131301673198, 16833546223021184228, 1175641000370631063,
        17074696251717442183, 9431864185760182415, 16330609736244070358, 15212024311275770989, 4115726414280023370,
        -6724357140242772283, 8611451592893201318, 26680374291517333352, 2818931534049382480, 3050395327551866025,
        43732085757572821810, 41272570500236052648, 10955277234991064670, 23391268886225745897, 5525217724153343799,
        39631876188064982350, 7479349794134859457, 19841888892748075564, 3014567832718636325, 11682033654824381813,
    );
    lemma_doubled(
        210624583091915087028563561074966846301493736258471892741880160625nat,
        6045516310623396466, 13759059637335142033, 3011480131301673198, 16833546223021184228, 1175641000370631063,
        17074696251717442183, 9431864185760182415, 16330609736244070358, 15212024311275770989, 4115726414280023370,
        11228737527443455514, 7756336478337393934, 16883318748700205949, 6769239111617455518, 7339653257050438468,
        14560914102601474690, 15976471339653467880, 15540236121364528022, 15890104222751411710, 7906516553260914442,
        9736537998689102337, 13766956037704350176, 4994042627654536799, 16273635182791387246, 5301393709185693371,
        101985794702016858673, -47840635417109914519, 48425135221464006063, 24622012970323092521, -10915651460403596780,
        62524898352888753778, 57200433644121191570, 39975654770996490374, 31199920609136211502, 30080404559090545641,
        -27522917313866499712, -37327812151688815262, -22636210712766146941, -17882315364419749550, -19369207814272208409,
    );
    lemma_doubled(
        421249166183830174057127122149933692602987472516943785483760321250nat,
        14560914102601474690, 15976471339653467880, 15540236121364528022, 15890104222751411710, 7906516553260914442,
        9736537998689102337, 13766956037704350176, 4994042627654536799, 16273635182791387246, 5301393709185693371,
        4364477884754360365, 10356672726224935420, 16024682769680123639, 4009808636800888526, 12387992955891916022,
        1131516959719745916, 12972047185496070021, 3159298765047901547, 16407231743457273576, 14066447534152624602,
        7269545929147675136, 6106855921203309962, 2992998169873199502, 7506346350714698550, 13793395677481126546,
        -229423580133566137929, -232323219883848101737, -130479719606761699576, -123690666025142212432, -110773436438918210360,
        63662967496715544293, 72084296973020378795, 29554283504263043591, 44848746072567642876, 24285112335292455535,
        5581182775888655279, 16803395778140130279, 11223392247649262124, -52310779318620601, 18679200640075271350,
    );
}

proof fn lemma_chain_21()
    ensures
        at(
            862718292344484196468996346163064202450918343714700872670741137919606nat,
            z(6657169473844467947, 13094100859427414395, 386717535558755463, 12823104523231974195, 8795974787592258441),
            z(12246487244846679374, 5840206677732035926, 8087014884790128259, 10634830557526451030, 10041103745802627657),
        ),
{
    lemma_small_multiples();
    lemma_chain_20();
    lemma_doubled(
        842498332367660348114254244299867385205974945033887570967520642500nat,
        1131516959719745916, 12972047185496070021, 3159298765047901547, 16407231743457273576, 14066447534152624602,
        7269545929147675136, 6106855921203309962, 2992998169873199502, 7506346350714698550, 13793395677481126546,
        15562998384653394843, 12162838795745564367, 16791428158448360521, 7971757719962088410, 877917906410189086,
        17521993573466335013, 2068377070362129043, 10215764323300405579, 4286361627008965694, 10308639059820355058,
        3375244145148369495, 11175639622205797913, 11886386623223296432, 16145852340823578434, 10876459801716332586,
        -111504618890542793979, -63934537199912906051, -189485266942998387539, -77952862285498404906, -31435460640652197063,
        60141667314470555716, 35652699183741931853, 38628815827297826542, 35719257002324444296, 27278338971838946315,
        19112984567376660832, 23360486510800886336, -7081319464686686445, 8951978481208015358, 8670947291998061720,
    );
    lemma_doubled(
        1684996664735320696228508488599734770411949890067775141935041285000nat,
        17521993573466335013, 2068377070362129043, 10215764323300405579, 4286361627008965694, 10308639059820355058,
        3375244145148369495, 11175639622205797913, 11886386623223296432, 16145852340823578434, 10876459801716332586,
        300936397706468753, 17268985364607210866, 5138902038405242122, 16187489217177272633, 3945909400230769191,
        11706528564452799035, 4015335444283300303, 11156106839271765171, 1353637301655100769, 6613985655719464273,
        1886871854347090393, 6639260510242160634, 8832407389163151717, 10875422788520011021, 11224389676011661123,
        51652303990962462702, 1617595337514888417, -852827869923996765, -34257384887630420084, -20341950689079101859,
        49225879504983024940, 49773770464330014566, 37109910209163272937, 12681948623170370928, 31868294818408436257,
        9197225435539595378, 15617361264149022490, 11390541610794982651, 6099323191555238117, 2079262946585569640,
    );
    lemma_doubled(
        3369993329470641392457016977199469540823899780135550283870082570000nat,
        11706528564452799035, 4015335444283300303, 11156106839271765171, 1353637301655100769, 6613985655719464273,
        1886871854347090393, 6639260510242160634, 8832407389163151717, 10875422788520011021, 11224389676011661123,
        702618246755537533, 15690988008256365378, 959861308679553739, 15587950081452292540, 16823492723580368225,
        6640638537105770731, 17931540654640602321, 11520496714375205335, 16342422780491126242, 14938226513422116618,
        5430484273714614127, 6359760309273115643, 17085483512524626256, 17556042342517012424, 10056825515817923021,
        78999231946826497598, 22508730216480186928, 74746882069743586907, 40087147327126470931, -12254490745272263205,
        90754803264249759788, 45964286567683764151, 98717612093903876461, 48849640877102931939, 27850063584387906807,
        -62387517813591514309, -36515038013532826504, -73699575507054739348, -20099386239482124603, -20225061246092538459,
    );
    lemma_subtracted(
        6739986658941282784914033954398939081647799560271100567740165140000nat,
        3,
        6640638537105770731, 17931540654640602321, 11520496714375205335, 16342422780491126242, 14938226513422116618,
        5430484273714614127, 6359760309273115643, 17085483512524626256, 17556042342517012424, 10056825515817923021,
        3584413360476155897, 993598265149929043, 9118536478120200325, 4545548208597017001, 16640886554632444604,
        6661501719066134017, 7261582874957064446, 6574521784608599777, 12238551638203620304, 17669239050955015918,
        90964998225574364, 13415510680012493754, 14064613648725627456, 5465504549253605857, 12705265122017207642,
        13356962243882409813, 7053579472752179041, 4779460600828014786, 8865186540481480054, 2094331902170288745,
        12688902115339200087, 11756919276880281184, 9798964428657990952, 1710949360053846160, 11401566281534140380,
        -60416852567885468006, -13860443514157250922, -37522276755105367323, -12106624976571109486, -17525770844697034505,
        80443207102102602415, 63112697332277409646, 32481548267010419362, 46763459755763965859, 18798433692467921781,
        73560743846331233167, 45122348076244392331, 29689792536049893087, 37782065408148793438, 9237957026973206423,
    );
    lemma_doubled(
        6739986658941282784914033954398939081647799560271100567740165139997nat,
        13356962243882409813, 7053579472752179041, 4779460600828014786, 8865186540481480054, 2094331902170288745,
        12688902115339200087, 11756919276880281184, 9798964428657990952, 1710949360053846160, 11401566281534140380,
        15321989641256914709, 17227345537224409815, 1293839827782769525, 17993612871425039530, 14398479307260846676,
        15524229606988087869, 9901730653011371242, 13848409067929662843, 12529074900254752394, 4257851742871618775,
        12051216656865099925, 5321126166239201745, 4284423903447534524, 5815060023171464036, 8306695856529837527,
        113322469155946227642, 25178087488131826589, 67786746191021201275, 49324789821586399107, 33102637392871198882,
        100979010000379662406, 87332522319214740126, 102506643100451297140, 66023758237087320996, 57618032314537804068,
        -41840445769508821744, -36802717880849842444, -25255209896660981244, -18892666120942848236, -10324648588148003628,
    );
    lemma_doubled(
        13479973317882565569828067908797878163295599120542201135480330279994nat,
        15524229606988087869, 9901730653011371242, 13848409067929662843, 12529074900254752394, 4257851742871618775,
        12051216656865099925, 5321126166239201745, 4284423903447534524, 5815060023171464036, 8306695856529837527,
        7748645840007232678, 2143140310707250655, 15645780024462973637, 17249409259921907211, 10614322440212326723,
        9624143707928143738, 16948487943468825934, 17602250098631106950, 10691184624684897482, 3595648937517592886,
        5846250149961739762, 15294393290304724258, 12127777521271576562, 87351852643003902, 6355379127304825367,
        -161722866363109245742, -87162179121508884013, -45966691599903279100, -50587124368237542315, -53622770266136621357,
        98435375710305795240, 104205671568455185111, 72945394192943921799, 36449405401787250743, 26195381159888572611,
        -15309116028395266311, -1913722491358135842, 7638950964358682020, 1019347203732376671, -5886606609612533250,
    );
    lemma_doubled(
        26959946635765131139656135817595756326591198241084402270960660559988nat,
        9624143707928143738, 16948487943468825934, 17602250098631106950, 10691184624684897482, 3595648937517592886,
        5846250149961739762, 15294393290304724258, 12127777521271576562, 87351852643003902, 6355379127304825367,
        10101124482138540068, 1716876773747370272, 6154568057142094637, 7013342524954157036, 11321640434489523119,
        17381870125282008665, 9133990814036044204, 13179721529379044585, 15923981930366083874, 1572452636166199259,
        5752241028118400162, 328863978291223887, 12968603898224050838, 3795515756370102884, 16260743088284145195,
        -164046434028735383699, -95159935775181932421, -104478509670470788292, -96402685186574002346, -86706958808706526596,
        25893157420612306923, 32543658074159923706, 32726590319200894635, 29672292627051120589, 15757978502471808986,
        10511939498901780790, 7756625268335492877, -6766498045693203507, 929202711075420515, 306113562443932682,
    );
    lemma_doubled(
        53919893271530262279312271635191512653182396482168804541921321119976nat,
        17381870125282008665, 9133990814036044204, 13179721529379044585, 15923981930366083874, 1572452636166199259,
        5752241028118400162, 328863978291223887, 12968603898224050838, 3795515756370102884, 16260743088284145195,
        2821605729310391098, 16820648906339205442, 12040122934409010460, 6450108646012293248, 6374483723955421198,
        1769761363285007491, 720313158554821853, 13333353202335457152, 1894029522409917724, 9735459953928622353,
        6121582277379460587, 8668259983523915327, 10278714595174888015, 1991078850213310959, 9417159210847590895,
        -134463988282588638950, -86456449685944182661, -58454863316437004878, -67412374045983382601, -51417832858607292801,
        60566774114506141079, 36875428357706994403, 32394652551085751906, 30539092128090350428, 21571673800901744289,
        16090794137873783705, 14096863359936345094, 23820246789111026087, 4493988126387405539, 19781194881812850918,
    );
    lemma_doubled(
        107839786543060524558624543270383025306364792964337609083842642239952nat,
        1769761363285007491, 720313158554821853, 13333353202335457152, 1894029522409917724, 9735459953928622353,
        6121582277379460587, 8668259983523915327, 10278714595174888015, 1991078850213310959, 9417159210847590895,
        4823582369358243935, 15624625212898223220, 4542886181175118909, 6464015943611606312, 6348735841335018202,
        5309988315511758904, 1389479731405277611, 13347210414016436856, 1462298692011537859, 14779057525859078913,
        10259138747658182645, 12061864776225048073, 17543325263943474407, 6982102716537307525, 15076636903041814286,
        61518721982510634132, -74597443918166699265, 21233733164023540249, -3996318662456113037, -11310749783727047086,
        43077433323402594787, 24347567462661349663, 28958219435010054334, 17631325817630844905, 15389207293660560242,
        -14128207869313911344, -6460313564643800614, -6298565011478573529, -6511689061638534987, -2409476523899047459,
    );
    lemma_doubled(
        215679573086121049117249086540766050612729585928675218167685284479904nat,
        5309988315511758904, 1389479731405277611, 13347210414016436856, 1462298692011537859, 14779057525859078913,
        10259138747658182645, 12061864776225048073, 17543325263943474407, 6982102716537307525, 15076636903041814286,
        2464060123947839448, 7858829673503168583, 8570174012790979089, 2482360311131633539, 7741371976631437389,
        5287624994981072637, 15103333779956810686, 15283392568192615706, 9702392848536974891, 7016946105104847620,
        14292606914608538350, 15976970047597533001, 4550583348169108526, 18201878326210550162, 11135282899891483037,
        61609817422130180385, -92123662619682652370, 9796146986116114041, -46378785133085730083, -17023650351192254698,
        27037069100768643367, 24681050688036033669, 11888130413872931521, 17711687482720501832, 8164865722329226933,
        -19608323467161767721, 3232069478014327444, -13331235252130410898, 1478491837676764276, -5209277533222534087,
    );
    lemma_subtracted(
        431359146172242098234498173081532101225459171857350436335370568959808nat,
        5,
        5287624994981072637, 15103333779956810686, 15283392568192615706, 9702392848536974891, 7016946105104847620,
        14292606914608538350, 15976970047597533001, 4550583348169108526, 18201878326210550162, 11135282899891483037,
        10037045936767333522, 7212327770703274352, 14197565700005564722, 1466131595743240707, 4503357798619727992,
        15228537545328408645, 17691374870506013863, 8726579212570326203, 13461166066247559397, 4831297304748274887,
        18191043130069434612, 3572318300872413005, 7516862091498700775, 8848196501703854972, 10330678177061893583,
        15182307864570038361, 7183735651793337448, 4285118556195651501, 3530583850687728426, 15571163407677565117,
        14396160261659456850, 3503785067630955425, 11931085270724170866, 17585819339519974410, 7490953540476562801,
        -21665328526281296315, -23610791879375039099, -18118179989570323378, -13492793725580131651, -5641417424096573625,
        51575763615775212434, 45035906198672993816, 45248516646588634912, 37718842337524128801, 26865011353054527848,
        21949525261939632344, 22795524341108461170, 6407264391466060471, -7674589602211037338, -4501313852174830198,
    );
    lemma_doubled(
        431359146172242098234498173081532101225459171857350436335370568959803nat,
        15182307864570038361, 7183735651793337448, 4285118556195651501, 3530583850687728426, 15571163407677565117,
        14396160261659456850, 3503785067630955425, 11931085270724170866, 17585819339519974410, 7490953540476562801,
        1319204880631698031, 3223231166251347851, 10165492728012653464, 7042425958806363056, 5450307715871197407,
        6657169473844467947, 13094100859427414395, 386717535558755463, 12823104523231974195, 8795974787592258441,
        12246487244846679374, 5840206677732035926, 8087014884790128259, 10634830557526451030, 10041103745802627657,
        -59799474109066891566, -14930697354904711855, -16065250456894103116, -110923667145134142491, -56580285231556471523,
        29093713714527269378, 26547876069162385327, 14501761646201873736, 9390808117484005100, 8842542648274670527,
        -11975342491648898953, 5080446163706929124, 3466983098198047551, 6019662788759874711, 1271574266629718337,
    );
}

proof fn lemma_chain_22()
    ensures
        at(
            883423531360751817184252258470977743309740383963853693614838925229676324nat,
            z(11471680698899920695, 15994393768939072531, 10631663742100142120, 5166145856803861379, 18329629466798681920),
            z(3928039053570893587, 11633761096168051523, 13149735270318415490, 15038299481955096383, 11759769844695407110),
        ),
{
    lemma_small_multiples();
    lemma_chain_21();
    lemma_doubled(
        862718292344484196468996346163064202450918343714700872670741137919606nat,
        6657169473844467947, 13094100859427414395, 386717535558755463, 12823104523231974195, 8795974787592258441,
        12246487244846679374, 5840206677732035926, 8087014884790128259, 10634830557526451030, 10041103745802627657,
        114913105773265525, 9572766061415612065, 8882472161690425992, 735823354640707218, 5026930407980642295,
        10912973655503354702, 8155565113708285707, 13906569006138243220, 8008505756675966899, 11085918455404249753,
        12572922153257724839, 15083297027794184918, 3069922835643953055, 16632455350382819548, 906618930161518223,
        -50805424159672037144, -54335768497971476558, -101033490591113853869, -35615767555164527001, -47592507037944096377,
        17778669199538810815, 14730718657393015365, 6281480966761786659, 13337793089662143326, 5103413447561879039,
        5782952510712137870, -15962457745863289952, 4091386183662233573, -6649866803142488357, -4988607330929891125,
    );
    lemma_doubled(
        1725436584688968392937992692326128404901836687429401745341482275839212nat,
        10912973655503354702, 8155565113708285707, 13906569006138243220, 8008505756675966899, 11085918455404249753,
        12572922153257724839, 15083297027794184918, 3069922835643953055, 16632455350382819548, 906618930161518223,
        15037940910195014171, 6928677107131611889, 8177348852000833891, 14715854495466462532, 8305186403610012572,
        4325195097970071116, 11275560014967296013, 7963181643424184922, 4118545537023390438, 5074364642125529807,
        17674762480371715248, 3491047178749524004, 7289341001567578874, 2735699333892103309, 14361412642860732754,
        -94043909877102102805, -86321256573254516324, -70058214516304604089, -59971211285392171395, -39964687377300189686,
        70116625815949137121, 68605149434395327195, 55687606891804039905, 41353481188499720098, 28220570815582499128,
        27327386722728350146, 25262837348755452528, 26234733898184758053, 17395456436013340378, 9473441948697697416,
    );
    lemma_doubled(
        3450873169377936785875985384652256809803673374858803490682964551678424nat,
        4325195097970071116, 11275560014967296013, 7963181643424184922, 4118545537023390438, 5074364642125529807,
        17674762480371715248, 3491047178749524004, 7289341001567578874, 2735699333892103309, 14361412642860732754,
        3306664177763306006, 5914013914071600196, 595084474125072388, 1723167939756697451, 5154118051038878811,
        15275684164275562276, 16778103887627952340, 17255336571364084524, 5946644082004270005, 13598303326154039999,
        5893669108971247850, 15700684431916973574, 6676273358856204047, 17854738722790569494, 14971109273166098628,
        -46445805690628470393, -34450177295135404465, -33644542150642666985, -14303795488307779925, -14654010100154125744,
        10840708006097162552, 3600746705687811957, 4998145751639534870, 5319602711473150990, 2971889170453367855,
        -17554501559806869159, -13623149534040597605, -7704116404738308352, -11652083940735370889, -5987438227430690799,
    );
    lemma_doubled(
        6901746338755873571751970769304513619607346749717606981365929103356848nat,
        15275684164275562276, 16778103887627952340, 17255336571364084524, 5946644082004270005, 13598303326154039999,
        5893669108971247850, 15700684431916973574, 6676273358856204047, 17854738722790569494, 14971109273166098628,
        7886024694282781153, 18424439060967808191, 4741630220315576466, 1416672566498172381, 13298592580900298011,
        1125977903242516291, 5145777390985862358, 15406771082731109388, 11206500724031705950, 303370956926308558,
        4897544044910964819, 2661113271944795155, 2233288695646996970, 10651479326353104699, 16676501915734302980,
        -167420126733930944189, -244184918267870785718, -86190763003886781752, -111594241905704991215, -85631113928470701824,
        85251253874579326288, 36589334929998545407, 28584106031865582747, 39444645349565549081, 15419084788180100148,
        67413317225104578313, 32143756418969436363, 7732921559498628521, 32428095658352827488, 11999399270219424563,
    );
    lemma_subtracted(
        13803492677511747143503941538609027239214693499435213962731858206713696nat,
        3,
        1125977903242516291, 5145777390985862358, 15406771082731109388, 11206500724031705950, 303370956926308558,
        4897544044910964819, 2661113271944795155, 2233288695646996970, 10651479326353104699, 16676501915734302980,
        3584413360476155897, 993598265149929043, 9118536478120200325, 4545548208597017001, 16640886554632444604,
        6661501719066134017, 7261582874957064446, 6574521784608599777, 12238551638203620304, 17669239050955015918,
        16222944693011802142, 200474153379557537, 6499683722338356195, 4386972064492156301, 14480536195884523277,
        5366449896292776731, 6900091219561456054, 13295726282108322915, 3476587790319952681, 15931774634494859581,
        10326536491716722158, 1106764622763995607, 2348232116103866082, 18180334754745642665, 5168418487975575712,
        -18610856764580239825, -5916324896140864857, -8739366235971653465, 31669778662262367301, 13022335862236972899,
        24485912404191702629, 34095695367226170626, 32096854240433404023, 41958788508987984989, 27855252462977063144,
        1306833397685905438, -7622449004732985079, 7396952123819725892, -31610085254138229478, -16662473876535173326,
    );
    lemma_doubled(
        13803492677511747143503941538609027239214693499435213962731858206713693nat,
        5366449896292776731, 6900091219561456054, 13295726282108322915, 3476587790319952681, 15931774634494859581,
        10326536491716722158, 1106764622763995607, 2348232116103866082, 18180334754745642665, 5168418487975575712,
        2780717322669458352, 3939421622958047582, 3233697261333613534, 4458955322621823180, 3306489035861246757,
        4856284408334536589, 18271022788059984467, 2833490412545656934, 7812051411581126573, 5927115301565666187,
        9386579216125647440, 16486708033141628823, 2518092266181430276, 13236054345859280758, 12532014063662197118,
        -123602493592886629494, -185562394555458268414, -53148046374152771506, -142322672417343651267, -49977064121375905489,
        9345811070753635377, 7898889380965838261, 6611679522416855936, 4503482639551328148, 3468201783640804655,
        5678831684008133583, 6138287461852296957, 4161864307223690964, 5090600437881714487, -240855804863324518,
    );
    lemma_doubled(
        27606985355023494287007883077218054478429386998870427925463716413427386nat,
        4856284408334536589, 18271022788059984467, 2833490412545656934, 7812051411581126573, 5927115301565666187,
        9386579216125647440, 16486708033141628823, 2518092266181430276, 13236054345859280758, 12532014063662197118,
        17447802355093774280, 16748915680973488993, 2395373034812748666, 14600070335536591378, 15441389654522853057,
        17809801282832347576, 2651938587456236684, 17606360635573364645, 4161980324980760326, 735895206805437681,
        4698869696458394626, 2111483548381852786, 14889936822371621004, 6451672381156884233, 12183407173074186285,
        59996091514583294126, 58476939259725815378, 59181784295262587197, 65374569879326419237, 33114740800846742056,
        111999206358622336940, 78381151019683893766, 93067178185547133532, 70745689516619645111, 56034015087915162449,
        7456471905796372913, -23397136794824666355, 20018879390384348498, -5148529519025871816, 7824850064701624697,
    );
    lemma_doubled(
        55213970710046988574015766154436108956858773997740855850927432826854772nat,
        17809801282832347576, 2651938587456236684, 17606360635573364645, 4161980324980760326, 735895206805437681,
        4698869696458394626, 2111483548381852786, 14889936822371621004, 6451672381156884233, 12183407173074186285,
        14010370290675303610, 9993985601806944117, 10900240084015402051, 14726111520556366247, 15051961528217285622,
        14964348701793703433, 3112105342174590485, 4727246222641940661, 3688151797624308276, 6602435016296652455,
        7772644336624392496, 7485196232996578897, 6753140306409831080, 7558918259279545842, 1204829990109595881,
        26281573706522561789, 118838632030870596747, 14278566574738526666, 56018817120941120407, -4131817721574134417,
        111779829282756753021, 103814197162433959926, 94068293339678732722, 71025806408540122838, 45261507016311441182,
        23183962556070720522, 23454057035757519010, -1676145866794775662, -5023654751256261141, 5365806293743857987,
    );
    lemma_doubled(
        110427941420093977148031532308872217913717547995481711701854865653709544nat,
        14964348701793703433, 3112105342174590485, 4727246222641940661, 3688151797624308276, 6602435016296652455,
        7772644336624392496, 7485196232996578897, 6753140306409831080, 7558918259279545842, 1204829990109595881,
        18161487803066770215, 10898364625299306632, 15779534947317978617, 13442487340307223964, 10710339631521549896,
        13402798203263847608, 18111727365098865315, 2379092776547874484, 17435862464697560147, 10625388500716445554,
        8632263758002834406, 9195863182421069698, 5753605214662524073, 13516655207181212526, 17662434050607209196,
        40493799481797406524, 34442788438226813417, 18694935131895805175, 7190026679025267959, 3288669974995879913,
        124839806013325598991, 105817454497585866755, 84338766671338450752, 63769926624224178717, 50471095702885986081,
        -61866000290755864248, -50133499146510609050, -37955115636339500309, -30848011796908802971, -20098132573130118145,
    );
    lemma_subtracted(
        220855882840187954296063064617744435827435095990963423403709731307419088nat,
        7,
        13402798203263847608, 18111727365098865315, 2379092776547874484, 17435862464697560147, 10625388500716445554,
        8632263758002834406, 9195863182421069698, 5753605214662524073, 13516655207181212526, 17662434050607209196,
        1402190480421472576, 13676834587540684798, 17321958444468468343, 1669201366653940801, 5982097004065554850,
        15760894881285235192, 15255658932026822340, 5186042200108657016, 6691897350347039497, 12315888321054861899,
        6637682474021021267, 14943088532782520006, 18109302258778894024, 14089273211246842819, 2534448843518938411,
        13151485448460481071, 6100801099567836002, 6811798399944868611, 13631620280844910468, 12548089372531027456,
        14667084243286646012, 4112034343853342600, 12847543955268769242, 634328398688473962, 6035577126280904058,
        -29625766981768077668, -54959859536698655336, -27134806226880814694, -9002062033486834093, -4809400417074832548,
        97696115134539390046, 57965807383870769036, 36752000351105054508, 40523593083960623461, 42428467192419553458,
        1415632678080325743, 5752636613778195303, 5543804279038926335, 8968758155327407552, 7246471486161023352,
    );
    lemma_doubled(
        220855882840187954296063064617744435827435095990963423403709731307419081nat,
        13151485448460481071, 6100801099567836002, 6811798399944868611, 13631620280844910468, 12548089372531027456,
        14667084243286646012, 4112034343853342600, 12847543955268769242, 634328398688473962, 6035577126280904058,
        2586530842792795256, 1106463345643515488, 5994924858027398087, 11247848142383172714, 15219261111999332701,
        12357036391233288494, 2651324410542791892, 9042843722539554238, 12996607228414116391, 14688852919850855901,
        2777326184433619328, 9465651272726418183, 9452153114318381615, 9732466900396196961, 4352638114277143141,
        -118555119872348928142, -119562156719856254851, -163249440532036351886, -96493377276558608224, -48936928921806609095,
        27772245001648573016, 50561552960202022870, 57426936710472525272, 41542825389846789836, 7565560808100553092,
        4802012018679804085, -5916325157443557959, -2191982876237203669, -3737971919658039394, 1771620842595983925,
    );
    lemma_doubled(
        441711765680375908592126129235488871654870191981926846807419462614838162nat,
        12357036391233288494, 2651324410542791892, 9042843722539554238, 12996607228414116391, 14688852919850855901,
        2777326184433619328, 9465651272726418183, 9452153114318381615, 9732466900396196961, 4352638114277143141,
        2660327682943295614, 7400119242210536245, 18015265084124652833, 16324255986306618358, 5363137742237338026,
        11471680698899920695, 15994393768939072531, 10631663742100142120, 5166145856803861379, 18329629466798681920,
        3928039053570893587, 11633761096168051523, 13149735270318415490, 15038299481955096383, 11759769844695407110,
        -42508621834518738107, -124051175074129882354, -167936664904396846740, -123915849164674626049, -37650814500932723696,
        108947101017631518177, 76898533854552725785, 36641164395074252281, 23840288426213626541, 32238104626907950715,
        2832003066304729304, 7166702292695835434, -7553015558483692991, -14931089210234774233, -10485846129807040351,
    );
}

proof fn lemma_chain_23()
    ensures
        at(
            1809251392226819721593348625348562418298348306357972364523190118870377112832nat,
            z(8161028874025657704, 8079085103736779987, 13760373306566103928, 6743561288860005274, 2907128659665265774),
            z(1293135174951167018, 7516117486459763508, 11410444590588497338, 7637822039174604933, 16177119657545813536),
        ),
{
    lemma_small_multiples();
    lemma_chain_22();
    lemma_doubled(
        883423531360751817184252258470977743309740383963853693614838925229676324nat,
        11471680698899920695, 15994393768939072531, 10631663742100142120, 5166145856803861379, 18329629466798681920,
        3928039053570893587, 11633761096168051523, 13149735270318415490, 15038299481955096383, 11759769844695407110,
        13376349385866580802, 12082021969468524499, 3889876352680249012, 3689972646598583968, 12523523231131355735,
        13695350871346942929, 8028205883793947284, 1023923883085484942, 11493397004619426295, 5431706147212973608,
        18131441061571955501, 8577020721575445746, 17808078624726238815, 7624834822420978492, 16421037725986308829,
        -226959337303583005700, -154346455978860668500, -62336246706533459491, -145090174715889626034, -61364069895536930602,
        63583299003958670851, 35581570788038725402, 28585461595852071707, 35953649579564677870, 23816335398544237700,
        41718409589543849199, 28250631565371558077, 6568902471513335284, 29208944991230703887, 7318413005772634883,
    );
    lemma_doubled(
        1766847062721503634368504516941955486619480767927707387229677850459352648nat,
        13695350871346942929, 8028205883793947284, 1023923883085484942, 11493397004619426295, 5431706147212973608,
        18131441061571955501, 8577020721575445746, 17808078624726238815, 7624834822420978492, 16421037725986308829,
        6885004659106691841, 585410890719639598, 5334361157216358522, 855909975338930620, 2608826783785063711,
        15867359831478449624, 12637067198142624592, 10551686475272468196, 6388712897680398935, 5597493526883473112,
        136901649573344856, 10148449125477427390, 11796370498994688444, 4818604723554485434, 17258077270405274951,
        -42410911584060653484, -52360075515711048406, -40594271778752925434, -40867024268049978572, -25413028343128127192,
        4551540373004731267, 5082599091363382968, 4726819737590862288, 2084346483455309390, 3544316323465775818,
        320346461129415568, -5264780321573719820, -2187759253166705967, 98999112675874954, -3176105290004410617,
    );
    lemma_doubled(
        3533694125443007268737009033883910973238961535855414774459355700918705296nat,
        15867359831478449624, 12637067198142624592, 10551686475272468196, 6388712897680398935, 5597493526883473112,
        136901649573344856, 10148449125477427390, 11796370498994688444, 4818604723554485434, 17258077270405274951,
        13448162902005319223, 11167813565229394706, 3715320478083226591, 8748713317766251906, 12552068567235689122,
        2563458018484385223, 7781268053987602855, 17216377186429918794, 4427565767604851803, 17019703214477294186,
        11908127982321442348, 17289111522656285428, 11076827109834833451, 17212718826783167462, 13587227887618061651,
        -32035217862258803799, -45075380440209025342, -16998123376890582836, 4356365013686410788, -27693663790049867590,
        65971192153962400806, 43899500508702718517, 47896540613670490268, 42877785348057509307, 29642961838293458955,
        -9431629173538511019, -6121885656995304055, -11487690265362803236, -18634204527113891579, 2873461531946701434,
    );
    lemma_added(
        7067388250886014537474018067767821946477923071710829548918711401837410592nat,
        5,
        2563458018484385223, 7781268053987602855, 17216377186429918794, 4427565767604851803, 17019703214477294186,
        11908127982321442348, 17289111522656285428, 11076827109834833451, 17212718826783167462, 13587227887618061651,
        10037045936767333522, 7212327770703274352, 14197565700005564722, 1466131595743240707, 4503357798619727992,
        15228537545328408645, 17691374870506013863, 8726579212570326203, 13461166066247559397, 4831297304748274887,
        14337476187964532538, 6329100654033248114, 14494948901998011042, 980252205389569637, 16084092026186156168,
        6483988470720156580, 1558348205280912338, 5248858099179798617, 6458265233596913516, 5925213256746107829,
        6770207858221815440, 16952150428710712837, 3134706629274787139, 17472750058521791547, 9974735067626831152,
        -16024887883175487623, -35751611191376590231, -6410736091289809590, -36127175883324058630, -6630187214525505155,
        48875968463144253955, 85825329899165975722, 29831729792346652231, 53542387299429444354, 37064662669365984641,
        21770935289906366577, 60625222872353082230, 4812878663005355855, 36229738653401145448, 14242346467940840208,
    );
    lemma_doubled(
        7067388250886014537474018067767821946477923071710829548918711401837410597nat,
        6483988470720156580, 1558348205280912338, 5248858099179798617, 6458265233596913516, 5925213256746107829,
        6770207858221815440, 16952150428710712837, 3134706629274787139, 17472750058521791547, 9974735067626831152,
        16887662226172167913, 666623530519849023, 17975557376464179410, 844359224075797205, 13617077223327339190,
        14523569339786556321, 738060165739301863, 15635055666574402622, 13688658551192744712, 3837245638446782046,
        3370245499655267821, 13670924603812409375, 16304559627454286510, 2884726889426209117, 5196090714772564116,
        143736300839913963415, 54546902566949720991, 51482722096501602972, 76645866453382505991, 16932469012922543949,
        23349642868175517248, 80952040396692949654, 36676439784613773673, 33000877543356675426, 42509810989311974046,
        -27880496276629182932, -17429286758372692280, -33038307803953068194, -1939379346094274332, -14367832258458849322,
    );
    lemma_doubled(
        14134776501772029074948036135535643892955846143421659097837422803674821194nat,
        14523569339786556321, 738060165739301863, 15635055666574402622, 13688658551192744712, 3837245638446782046,
        3370245499655267821, 13670924603812409375, 16304559627454286510, 2884726889426209117, 5196090714772564116,
        9269480897671350121, 4402175549781801934, 10003556808892402394, 297150116676133903, 6898660215245510103,
        3911344387585705072, 59410208812542264, 11908107360249501559, 3598350299090524150, 8703987359311442644,
        4410066483156935450, 18392716253135639218, 2570114312840217765, 6996558189988771255, 734832606837106733,
        -193442634767340781534, -84331145667971186225, -91660933129679982393, -38325509928661155284, -33925000077017157100,
        15502643904455671311, 26885150748220012317, 11770875791350391355, 12813004748007754451, 12499840626998804630,
        19205649089855801624, -375064181879554179, 18875134383155548276, 1038608496392766983, 5963202641114917427,
    );
    lemma_doubled(
        28269553003544058149896072271071287785911692286843318195674845607349642388nat,
        3911344387585705072, 59410208812542264, 11908107360249501559, 3598350299090524150, 8703987359311442644,
        4410066483156935450, 18392716253135639218, 2570114312840217765, 6996558189988771255, 734832606837106733,
        1062645646374281837, 1152348745316225370, 3966465566831720634, 4738688177714394895, 13298339981937194490,
        9307535895133905249, 12361613423065956896, 13890457475563645200, 2488079203342215442, 5927781571529160857,
        1560513218746239533, 6218661408651456359, 3749108206452589846, 425492719501815552, 3804355174762110020,
        48523300571613470651, -82011936658738068025, -9825344018572743816, -27289166564256706246, -16332120312466391789,
        11159163280312952036, 20941311813297840271, 21025820038338605038, 29802014529966785788, 2977053175882964051,
        -27208220015317255751, -2686556221831190827, 2497689348767530189, 1912810026284477886, -7247353499294775878,
    );
    lemma_doubled(
        56539106007088116299792144542142575571823384573686636391349691214699284776nat,
        9307535895133905249, 12361613423065956896, 13890457475563645200, 2488079203342215442, 5927781571529160857,
        1560513218746239533, 6218661408651456359, 3749108206452589846, 425492719501815552, 3804355174762110020,
        4811100565497901357, 13400095683229962389, 8280306310232744151, 3524925376139861768, 1007855415836268107,
        12347392527301118537, 9564373942661144052, 12936383014110662044, 14854714740112555784, 3467212605097212531,
        17770082362961413451, 3176137314714708634, 12312469063741403087, 14895255851961840301, 13859719674258078523,
        -94436259965856559178, -103315121942198496095, -64402140652564155404, -67431021724662965487, -50812730824107308716,
        15141079241606548760, 11724877902795301596, 15208810118028729507, 14033839862018486229, 9363708527449683098,
        -11078448561570987816, -5098106724946538411, 299841801747721629, -1454241075610659917, -7544946737573475627,
    );
    lemma_doubled(
        113078212014176232599584289084285151143646769147373272782699382429398569552nat,
        12347392527301118537, 9564373942661144052, 12936383014110662044, 14854714740112555784, 3467212605097212531,
        17770082362961413451, 3176137314714708634, 12312469063741403087, 14895255851961840301, 13859719674258078523,
        4902466515875769515, 4528932266629490544, 14333536995557481105, 14072796621355297597, 3882584535967631229,
        5245207066085758981, 10999923821625833685, 12535364932891905737, 5618498779740516628, 5759546867759767223,
        10543247901480722937, 16078325608437781959, 12616521286124241485, 8169557863679895045, 16539803488007153490,
        -84990620708827323148, -31078902520633570945, 882288141609057320, -42252742300330874743, -41211351210038330976,
        72631552387438777616, 52716278963186024268, 26502429438224247659, 16969794327330468437, 20111313312127833826,
        21740697490790736834, 17410385956607190281, 5858292031112717241, 5408378975525923265, 2369672708307956449,
    );
    lemma_doubled(
        226156424028352465199168578168570302287293538294746545565398764858797139104nat,
        5245207066085758981, 10999923821625833685, 12535364932891905737, 5618498779740516628, 5759546867759767223,
        10543247901480722937, 16078325608437781959, 12616521286124241485, 8169557863679895045, 16539803488007153490,
        6941406558941156928, 4857540049906264505, 16604096250306441033, 2047539205099765525, 6704667902904719676,
        10900226849741252659, 13232563284462391104, 14612529227946256028, 3543109836575426309, 8871129252695357690,
        15926197699477268013, 16961579422476616562, 11634518829771117850, 1102397518543705732, 15233048303908416790,
        -13365317350771588944, 35315763730574988817, -6866304527850070797, 9527802917933356115, -4787068957731987771,
        24263225462276086233, 40547170569353343849, 18240383323737683851, 17596245876017334533, 21069716678750224579,
        -2107925959621536315, -12305366861662189619, -5232844872824113545, -5796145097751066793, -4797234432238114827,
    );
    lemma_doubled(
        452312848056704930398337156337140604574587076589493091130797529717594278208nat,
        10900226849741252659, 13232563284462391104, 14612529227946256028, 3543109836575426309, 8871129252695357690,
        15926197699477268013, 16961579422476616562, 11634518829771117850, 1102397518543705732, 15233048303908416790,
        8555006990170432274, 2500340923457339123, 4370654870287981204, 5258054674036857614, 16535497038879611180,
        17196868006215670626, 7325896967971344639, 16979599735935349606, 3832054914763667155, 2320834574893232672,
        12851382719677041844, 2975232534777297758, 4134745571117254184, 214656520543031872, 7743930901303931788,
        -44536919330494917306, -73364954343699381426, -56036718783009047784, -10628279378780008422, -23264384919253566420,
        24890098551059050148, 30322315250339847065, 32672484279950010699, 50528680124368150723, 17798212347142273088,
        13397914210006442419, -70737421760344247, 3035213174153392797, 16764727672175410540, -1522805832296113446,
    );
    lemma_doubled(
        904625696113409860796674312674281209149174153178986182261595059435188556416nat,
        17196868006215670626, 7325896967971344639, 16979599735935349606, 3832054914763667155, 2320834574893232672,
        12851382719677041844, 2975232534777297758, 4134745571117254184, 214656520543031872, 7743930901303931788,
        6862277014098822831, 10878455738780838157, 5978066568920249368, 5810381600060447720, 17537876919414157596,
        8161028874025657704, 8079085103736779987, 13760373306566103928, 6743561288860005274, 2907128659665265774,
        1293135174951167018, 7516117486459763508, 11410444590588497338, 7637822039174604933, 16177119657545813536,
        -66010823299573350303, -30173668887621471648, -81606540087428779983, -5286794800846124784, -33994732738786305874,
        75905538421600018557, 47685332839545383797, 44007638310331779445, 61395145810083598736, 21838692824612655978,
        387266783094042798, 10909078369546362196, -5176531450480968416, 1745167221099945312, 7461580635074401647,
    );
}

proof fn lemma_chain_24()
    ensures
        at(
            1852673425640263394911588992356927916337508665710563701271746681723266163544992nat,
            z(11064279024239939497, 15063983581781864562, 11458180958573580171, 9786417687429465118, 11869163657736941134),
            z(18404318139596128440, 4273584254067871621, 254640053861863064, 1353949078411916768, 8130067061417625110),
        ),
{
    lemma_small_multiples();
    lemma_chain_23();
    lemma_added(
        1809251392226819721593348625348562418298348306357972364523190118870377112832nat,
        5,
        8161028874025657704, 8079085103736779987, 13760373306566103928, 6743561288860005274, 2907128659665265774,
        1293135174951167018, 7516117486459763508, 11410444590588497338, 7637822039174604933, 16177119657545813536,
        10037045936767333522, 7212327770703274352, 14197565700005564722, 1466131595743240707, 4503357798619727992,
        15228537545328408645, 17691374870506013863, 8726579212570326203, 13461166066247559397, 4831297304748274887,
        10894628439562753104, 17534740637112766870, 1823255792812203929, 1037724118232253533, 10970544368485542445,
        8014508553037439099, 16855473211496135226, 7895933101302422195, 14773606472180026509, 2622664854471357673,
        18149274282713169049, 6654159945588920452, 5702499249451235309, 12037886239486374877, 2217403150445267863,
        2622427224500678237, 1634035953421005228, -9526578244981192580, 166500667587395017, -2963636852268158828,
        69618738350736230973, 27393031074045651452, 22524349411534148157, 24265008600128101629, 15111431942569534142,
        -16151926255962029880, 4148105955070733691, -19143213720774884606, 480285026150319049, -7291981662335985550,
    );
    lemma_doubled(
        1809251392226819721593348625348562418298348306357972364523190118870377112837nat,
        8014508553037439099, 16855473211496135226, 7895933101302422195, 14773606472180026509, 2622664854471357673,
        18149274282713169049, 6654159945588920452, 5702499249451235309, 12037886239486374877, 2217403150445267863,
        9634940761323798231, 9267656503681091435, 16363474680687348439, 13197943238148375022, 4522451166915886707,
        4233617760837483945, 8235594395949108549, 15171290059769044031, 17952130397807842413, 13775921404547040518,
        1804490256285768696, 11486223584113779965, 12430801259391777272, 5338208761499308883, 13148438450260054413,
        -43426836771108318978, -73579078716159153568, -32526917365071233034, -25814380486648362465, -55021575060837483389,
        88909591915409233316, 62079348347237570379, 41163578537116424626, 33555115145444385010, 32501042380181425111,
        -32569996069766645563, -35452508414970852725, -22392425642069285750, -3166923237526069738, -6781954999585151383,
    );
    lemma_doubled(
        3618502784453639443186697250697124836596696612715944729046380237740754225674nat,
        4233617760837483945, 8235594395949108549, 15171290059769044031, 17952130397807842413, 13775921404547040518,
        1804490256285768696, 11486223584113779965, 12430801259391777272, 5338208761499308883, 13148438450260054413,
        18161149320406600095, 7623753881924222757, 18294148012202134165, 6088362094836874009, 16997140184209709475,
        14163578802009477623, 8742279146646729065, 12057511872072758543, 15134592134033744566, 1407858837971181520,
        3082955652556069522, 9755598315274056881, 8892478702454370122, 6760117911150357855, 15539695928144316824,
        -223341173583487786650, -190873304665078307372, -180139376363827548603, -40499418183502089854, -38625254168721282943,
        96255892238292953632, 122179063452082786960, 72832126351621412964, 74093931605108555243, 56643242714338624145,
        15623566243107587651, 43591567961741139527, 13042994542360574805, 34469330999553067131, 7112179137418833818,
    );
    lemma_doubled(
        7237005568907278886373394501394249673193393225431889458092760475481508451348nat,
        14163578802009477623, 8742279146646729065, 12057511872072758543, 15134592134033744566, 1407858837971181520,
        3082955652556069522, 9755598315274056881, 8892478702454370122, 6760117911150357855, 15539695928144316824,
        10646820401876982046, 2561023297104163945, 7345674401905227792, 11015353072511906137, 6527151863522124428,
        12870330618277651112, 2195767826492189318, 13487539845999734425, 5036265705882372372, 12869259681511478047,
        3476401862024176215, 14197322817949350755, 5832722066854798637, 15754140326774679200, 8496728235708520021,
        -137473789664172714874, -76247776410789360011, -3310509653428015159, -50260457926890097194, -32435223278504565015,
        37900623140455730902, 38284561851387004055, 32220769382109959714, 21683663580321634092, 13518207355341423123,
        12423911882078706434, 6838294934662079915, -9214303770025207605, -3157416427557233298, -1415782969477120574,
    );
    lemma_doubled(
        14474011137814557772746789002788499346386786450863778916185520950963016902696nat,
        12870330618277651112, 2195767826492189318, 13487539845999734425, 5036265705882372372, 12869259681511478047,
        3476401862024176215, 14197322817949350755, 5832722066854798637, 15754140326774679200, 8496728235708520021,
        5225734122682253300, 9358452760093503900, 18349872082959419147, 7661447830790162375, 5091987792170949919,
        12684818604191086577, 17917856234569905507, 8955960516352989687, 2936034157296547041, 13230628263207112303,
        8063604800796238578, 14073379867165606309, 8029143630428340405, 1943217726993598153, 7895236736412924750,
        39116183115829886901, -79734905382684368025, -48597013609002973144, -51469331477373197231, -40939617106008706897,
        62707358111967444469, 45239792188002655490, 27833407047923310453, 27176135687778969338, 28912156387406238572,
        -1603201404757671945, 931336876502529361, -5218928078823630930, -12967787166800467043, -1007708054674127995,
    );
    lemma_doubled(
        28948022275629115545493578005576998692773572901727557832371041901926033805392nat,
        12684818604191086577, 17917856234569905507, 8955960516352989687, 2936034157296547041, 13230628263207112303,
        8063604800796238578, 14073379867165606309, 8029143630428340405, 1943217726993598153, 7895236736412924750,
        4536186759546147371, 10178254178738404749, 8161260178028049683, 15706048573403971305, 17969352953621013944,
        14351179623853928902, 11353048460954640979, 14788277891538325354, 14083270672542244958, 5738110585949250781,
        7488582424972467301, 3946585886896756336, 505113957203428134, 16491235090514155197, 8846911550847189666,
        -124615051596298143834, -100122596461650054352, -48763232011107786963, -67568416893551698147, -31936780111569453897,
        102296845807090702691, 92823762866809233512, 101427332310856832899, 69243592912516578772, 29780385989276057640,
        1484538120949061578, -34877825262334270843, -11987489291974019853, 17422233675177829703, -2922317675104510548,
    );
    lemma_subtracted(
        57896044551258231090987156011153997385547145803455115664742083803852067610784nat,
        3,
        14351179623853928902, 11353048460954640979, 14788277891538325354, 14083270672542244958, 5738110585949250781,
        7488582424972467301, 3946585886896756336, 505113957203428134, 16491235090514155197, 8846911550847189666,
        3584413360476155897, 993598265149929043, 9118536478120200325, 4545548208597017001, 16640886554632444604,
        6661501719066134017, 7261582874957064446, 6574521784608599777, 12238551638203620304, 17669239050955015918,
        6376909833595240132, 4414536865368862543, 15310168110449708237, 12855093662547008280, 15130822271207385775,
        984519736379621889, 3827334675609785858, 15847381302661630054, 1039867835816201483, 13048728026540609169,
        2018058471168775321, 12631798832273112488, 4839067709221924233, 15620572553855230412, 531219904674552671,
        -56987571750167489622, -12902551389035666597, -14051300150041257455, 6073738783822865513, -19269797982317512979,
        87946158928297647526, 105275765454060800482, 74907532658197602404, 53448537777322976535, 29320924817972573895,
        48153493864761642452, 12260442450084703959, 29341262420912610232, 1827086725338324848, 15923606505040939587,
    );
    lemma_doubled(
        57896044551258231090987156011153997385547145803455115664742083803852067610781nat,
        984519736379621889, 3827334675609785858, 15847381302661630054, 1039867835816201483, 13048728026540609169,
        2018058471168775321, 12631798832273112488, 4839067709221924233, 15620572553855230412, 531219904674552671,
        7932017025066497810, 2919222851403387689, 4324131158263625080, 6204379049208994155, 3472705504559282385,
        5931920073111312202, 10647542267231229389, 16011125323609121323, 17267822143035556937, 5385425470847129304,
        1362690771416874611, 11469497659904506959, 4646041054638022752, 6525375567116075603, 13262530114925082150,
        -16726819842538696250, -154295403492357761216, 7124300973806184820, -80289208590488723169, -29389497223875389552,
        15434365717406462910, 13655104249289043950, 11188744901040042140, 8665579976530915072, 5963825292351931888,
        -13918289034715658417, -14793300822514087939, -3742034430670617439, -5938622825123654296, -2536579714414103867,
    );
    lemma_doubled(
        115792089102516462181974312022307994771094291606910231329484167607704135221562nat,
        5931920073111312202, 10647542267231229389, 16011125323609121323, 17267822143035556937, 5385425470847129304,
        1362690771416874611, 11469497659904506959, 4646041054638022752, 6525375567116075603, 13262530114925082150,
        4630693933470563546, 15261980582839015633, 9377176276016765816, 4961576306635458063, 4696853446292327802,
        10317818964569840843, 2835179432886993919, 12000967764539860999, 9082055736443589172, 9818419686533700368,
        2443247885583472384, 6714141726363431302, 7195442688406064242, 5838301284356557885, 1555413554654364166,
        -220013641106072501053, -184067503636376590876, -86003394569341384897, -59298288425440581928, -82840936208858445293,
        39611136466564942353, 25991479828738754078, 24914776115478961032, 21595190050279469858, 15334835127088650182,
        9582733449355743979, 1240356228846365103, 7916449257897037498, 4778202821996119207, 8682769830217214657,
    );
    lemma_doubled(
        231584178205032924363948624044615989542188583213820462658968335215408270443124nat,
        10317818964569840843, 2835179432886993919, 12000967764539860999, 9082055736443589172, 9818419686533700368,
        2443247885583472384, 6714141726363431302, 7195442688406064242, 5838301284356557885, 1555413554654364166,
        13541921402968688282, 13174120108313498010, 7815522658433980099, 8255422565553554249, 2755576932177010693,
        11159585352552741113, 11849463758482631664, 16107405245199542547, 957363446263133645, 6176981042561378508,
        65808202422655563, 13549773269306073865, 14213900282776863734, 541187858205905045, 15301581582784575066,
        -100397529261877234736, -125307252788853361879, -96959980643808630279, -60459846327058781402, -41288814163713975495,
        42734918088911985091, 37430965835072224423, 28282635554241331373, 24518876961181929094, 19148629287261659509,
        7957798604542080701, 6477591271971782040, -1279015633850203759, 467700757826957879, 2575929625040662971,
    );
    lemma_doubled(
        463168356410065848727897248089231979084377166427640925317936670430816540886248nat,
        11159585352552741113, 11849463758482631664, 16107405245199542547, 957363446263133645, 6176981042561378508,
        65808202422655563, 13549773269306073865, 14213900282776863734, 541187858205905045, 15301581582784575066,
        14162093645513621279, 7829321430693731184, 14261289815022603636, 2947105698741508078, 8985167206057159300,
        6712215479268507023, 2863299540499247115, 2669051613227673924, 4933726195356370031, 16860427822802402231,
        8021824975121139367, 5204816292750003608, 13776333994384741896, 9069534933124097886, 412500725018932282,
        -11919271404329493342, -6644977959148884718, -37393739231845758958, -5583539965742233324, -17979443830443762355,
        47424555630651378640, 55113026998680481761, 33833566525973086206, 29760618179033856331, 27323500542335817593,
        160829316377248718, 1739324520148578150, 6638322063961276741, -5302666790707954229, 4101515008099593841,
    );
    lemma_doubled(
        926336712820131697455794496178463958168754332855281850635873340861633081772496nat,
        6712215479268507023, 2863299540499247115, 2669051613227673924, 4933726195356370031, 16860427822802402231,
        8021824975121139367, 5204816292750003608, 13776333994384741896, 9069534933124097886, 412500725018932282,
        7799241888013129805, 6559557604236795716, 17942203300433634511, 8607770820229832928, 18325070336719341863,
        11064279024239939497, 15063983581781864562, 11458180958573580171, 9786417687429465118, 11869163657736941134,
        18404318139596128440, 4273584254067871621, 254640053861863064, 1353949078411916768, 8130067061417625110,
        62901746479553823742, 57980118076021194838, -2161778239903590791, -114415132220247042311, 11829843885315494018,
        92629275853286041418, 124539762928379533718, 68810354424242547011, 74651581278223201679, 39068808348114747931,
        -59339734028363287163, -25128427852482792478, -19762404015220599736, -4199821555297952457, -18180571040743148214,
    );
}

proof fn lemma_chain_25()
    ensures
        at(
            1897137587855629716389467128173494186329608873687617230102268602084624551470068744nat,
            z(1086758669174486534, 2078444301169666715, 12746724331328704647, 9151537956951513321, 4373855542848785655),
            z(5797119819229382681, 17710442160068464696, 15543466447469446213, 7929891936226666211, 16034911747285087129),
        ),
{
    lemma_small_multiples();
    lemma_chain_24();
    lemma_subtracted(
        1852673425640263394911588992356927916337508665710563701271746681723266163544992nat,
        3,
        11064279024239939497, 15063983581781864562, 11458180958573580171, 9786417687429465118, 11869163657736941134,
        18404318139596128440, 4273584254067871621, 254640053861863064, 1353949078411916768, 8130067061417625110,
        3584413360476155897, 993598265149929043, 9118536478120200325, 4545548208597017001, 16640886554632444604,
        6661501719066134017, 7261582874957064446, 6574521784608599777, 12238551638203620304, 17669239050955015918,
        11019186453894105272, 9778427802275544148, 14336296243952908726, 14193283668212219478, 7516598342898345542,
        14922463291650619444, 3798320254949627217, 8799603552318021505, 2459351212660350922, 6591616059846617773,
        12649854550957715221, 19302649435369271, 13881984381887998628, 17915160343164703854, 9443313088882090035,
        -31699479279326968707, -16201936255369402815, -10061508827340404545, -15228045427357311054, -15619933294413215006,
        96672901447284187410, 79494225118696837614, 57011555213877327543, 41344288341000779499, 35169295138786145981,
        43079337748710675221, 37151743290306998430, 25700188541576843808, 18024330867894915888, 16198628740274494767,
    );
    lemma_doubled(
        1852673425640263394911588992356927916337508665710563701271746681723266163544989nat,
        14922463291650619444, 3798320254949627217, 8799603552318021505, 2459351212660350922, 6591616059846617773,
        12649854550957715221, 19302649435369271, 13881984381887998628, 17915160343164703854, 9443313088882090035,
        7202906686430201624, 6757972570724559502, 175620920877069648, 9566937684043756242, 3139424177143108541,
        13395100457477685544, 14289428641116618316, 13764794462710207081, 10558094141353931848, 9572830595548324555,
        12070450495533143697, 1332510311729858350, 5862786530787298129, 1796016681047802523, 387851987581825376,
        -6885961500451669103, 1760150288789092271, -2100396522039269907, 2919384815069879815, -22533822916218035201,
        10259785971959595892, 20341859330945186526, 12382033784214034069, 9202770603401363679, 9463079541535413059,
        -15993039486880531567, -18757744789349831249, -14540974860559019029, -5811176064592609171, -9359333212995468497,
    );
    lemma_doubled(
        3705346851280526789823177984713855832675017331421127402543493363446532327089978nat,
        13395100457477685544, 14289428641116618316, 13764794462710207081, 10558094141353931848, 9572830595548324555,
        12070450495533143697, 1332510311729858350, 5862786530787298129, 1796016681047802523, 387851987581825376,
        13599881341672615087, 14591518316741385152, 2386536976629300587, 9083527552635989910, 1497691035796422484,
        16675010992148387461, 16927154081757854136, 4315470243180422145, 1907139231327912541, 15754900128936262176,
        6141623610819604325, 12755095384453894074, 6874995834611290949, 298101761911782026, 11913375779349743236,
        -265464800276216752335, -215697469660003272117, -175905268765707252276, -130341880117459684991, -113390636212697253693,
        24185695546822423288, 36096506869552948868, 19485907733554213575, 17534011632321642839, 16887387586939479259,
        -414065905508420510, 8142750046562190693, -2569666629880906611, 10390303546183969330, 1942574371053376749,
    );
    lemma_doubled(
        7410693702561053579646355969427711665350034662842254805086986726893064654179956nat,
        16675010992148387461, 16927154081757854136, 4315470243180422145, 1907139231327912541, 15754900128936262176,
        6141623610819604325, 12755095384453894074, 6874995834611290949, 298101761911782026, 11913375779349743236,
        10327866392512903490, 8143360502295153915, 7654135157960348867, 10413410750428493595, 17666931832715730462,
        303092392568889303, 17904611170077730774, 17077790677177382652, 3888248186221980911, 14824386235835415989,
        18443946939794565598, 6754164473601708598, 6889072276543200906, 14986295966514025863, 16416777105200352543,
        -177722419881267208210, -70045728968181786578, -33202282068878117984, -62825108851170696262, -53505864968536977441,
        78502087311825815045, 70737412977229113293, 72004804372999029923, 69178540670058929969, 32152531712411833598,
        -16489379670361426501, -32185040930014152447, -4899798473617723614, 4766971123761356112, 9478947627790297558,
    );
    lemma_doubled(
        14821387405122107159292711938855423330700069325684509610173973453786129308359912nat,
        303092392568889303, 17904611170077730774, 17077790677177382652, 3888248186221980911, 14824386235835415989,
        18443946939794565598, 6754164473601708598, 6889072276543200906, 14986295966514025863, 16416777105200352543,
        9435655521221951476, 16612355848082364011, 4350951472399921600, 9300862363065382622, 11605628588066761853,
        7909900199065593628, 15165237111678462873, 7771815568269412771, 6908963825722424285, 15944218441794876753,
        5878014913002675816, 13568519654172136208, 4824566211020526452, 11622364017693280189, 8797699276795624595,
        -148686968459355443020, -121473753513779549672, 24084661047311329752, -95563538651592957561, 5518514547162647144,
        80698153882679999040, 47487416419446039743, 54520876226818416002, 39256272919402855184, 29650906096166205729,
        10192797223853758399, 6753662091962252090, -1962381351015500261, 1532610789560650109, -4502743286639665639,
    );
    lemma_doubled(
        29642774810244214318585423877710846661400138651369019220347946907572258616719824nat,
        7909900199065593628, 15165237111678462873, 7771815568269412771, 6908963825722424285, 15944218441794876753,
        5878014913002675816, 13568519654172136208, 4824566211020526452, 11622364017693280189, 8797699276795624595,
        6931565056129266705, 2319989870306579817, 4219647329441683375, 17817651553369038729, 1626979928055329261,
        16397659137515124622, 16812158871880329619, 5322219788940865777, 6102491255960252480, 16605513454054441114,
        17127763526186775950, 16350540738555442182, 6664491507194942563, 1019309003264842000, 1050918789030944926,
        -236363701434214200147, -89560800931314376514, -98023464952486659429, -147975320366173593143, -45932799934029402665,
        28286796230386014339, 55606568143079386418, 12891903346944319254, 14882230160846984193, 6669686519609737281,
        3776961882763384078, 844925037315711814, -2931058548110721189, -8138885991657664005, -1926088542783285579,
    );
    lemma_doubled(
        59285549620488428637170847755421693322800277302738038440695893815144517233439648nat,
        16397659137515124622, 16812158871880329619, 5322219788940865777, 6102491255960252480, 16605513454054441114,
        17127763526186775950, 16350540738555442182, 6664491507194942563, 1019309003264842000, 1050918789030944926,
        6988118691319113690, 5193540763158371872, 7983564953553723138, 7669136937168732818, 9648879119353232122,
        444921505525100330, 18372273395883684801, 3084098889055220391, 6804842180575194433, 10033776331854031416,
        16973275528345491572, 1715849690997822721, 14984747401703636035, 354808469595908281, 7434057691286287990,
        -262496293098262137219, -145855106223195809251, -138332196657610070931, -159966536762428733246, -87890785851245701335,
        38861448912112188854, 38555739649186054429, 31579801506223252055, 25446996034114026451, 15084086599341132512,
        11025408174515034296, 15068967996641939887, 14407171823548101668, 16633493933757952869, 10956181686603369024,
    );
    lemma_doubled(
        118571099240976857274341695510843386645600554605476076881391787630289034466879296nat,
        444921505525100330, 18372273395883684801, 3084098889055220391, 6804842180575194433, 10033776331854031416,
        16973275528345491572, 1715849690997822721, 14984747401703636035, 354808469595908281, 7434057691286287990,
        4819286444702656393, 16872830745913449783, 6029991523146785138, 12777794913596678503, 11300901474048217769,
        6730810193371363463, 5700326246953903721, 4487899110599587836, 9814531508135113645, 10825725419063976784,
        18199661398321563056, 7767903429800055982, 16824911549807099189, 4624069847116880122, 3571597987407416196,
        -81441076726057222037, 47635206444362386194, -67699130902387977665, 11025652426488733894, -6159571986631181453,
        88340504582928467332, 57533848473084227794, 65551759914554224261, 38477081922253382078, 31251070646384248360,
        13605376289700910598, -12049906136752388437, 1992099620126553261, -3737674068283967109, 1508115547296617507,
    );
    lemma_added(
        237142198481953714548683391021686773291201109210952153762783575260578068933758592nat,
        1,
        6730810193371363463, 5700326246953903721, 4487899110599587836, 9814531508135113645, 10825725419063976784,
        18199661398321563056, 7767903429800055982, 16824911549807099189, 4624069847116880122, 3571597987407416196,
        11712523173042564207, 14090224426659529053, 13197813503519687414, 16280770174934269299, 15998333998318935536,
        14639054205878357578, 17426078571020221072, 2548978194165003307, 8663895577921260088, 9793640284382595140,
        3230497199588878898, 5201347706098087064, 14474376035500900431, 5110845053683020778, 2530577093787402245,
        13276852714772154916, 10750437367945979277, 18113076996677098290, 11039762589160184179, 13434964469043225734,
        9588587639345895077, 12124864665119467788, 1655575626722994660, 11638325153117227466, 3855136564394337731,
        31161610206375558108, 24009286871545816384, 14760462167511219376, 13680507348846176922, 12571319190033605062,
        28908534607422180286, 17983620051920395515, 10742990971602199652, 10994088006288440048, 15125930591825006191,
        -19641006623665331885, -15498047858241007126, -11619461824496725798, -10906480336380399176, -13790701510035277830,
    );
    lemma_doubled(
        237142198481953714548683391021686773291201109210952153762783575260578068933758593nat,
        13276852714772154916, 10750437367945979277, 18113076996677098290, 11039762589160184179, 13434964469043225734,
        9588587639345895077, 12124864665119467788, 1655575626722994660, 11638325153117227466, 3855136564394337731,
        18150165759577559579, 4689364804099102518, 4405983910983821488, 2131744283378664319, 5692048320498135085,
        3474826343279310998, 18308163526480911397, 16122163391118604905, 11806778131743668582, 14299624237848001846,
        10948565425766930817, 11608435024675741663, 2493712313166452303, 7249577561259180029, 14707562453022262841,
        -299699188408072230349, -297948091832486582216, -203519375132969858861, -160184175667810236636, -126962928589458558114,
        29595230869981280463, 18124224889664334536, 13809091010953999273, 11704168356004458105, 13337258194877709264,
        2129451258271243073, -3986928508384816551, 1369058851215684987, -1721398673842746080, 1580976436655165936,
    );
    lemma_doubled(
        474284396963907429097366782043373546582402218421904307525567150521156137867517186nat,
        3474826343279310998, 18308163526480911397, 16122163391118604905, 11806778131743668582, 14299624237848001846,
        10948565425766930817, 11608435024675741663, 2493712313166452303, 7249577561259180029, 14707562453022262841,
        14466597379625895441, 16329345477634277525, 3346580773386762371, 12992997871887687015, 2852765676866211225,
        11166457836049109061, 14122112345444458933, 3111667360995318964, 8866966981781599913, 14072050100052402268,
        301725099880703500, 6346552698282093323, 8258041171322930562, 16855086512512843755, 9092889432306299412,
        -318674101687920703449, -227110024444210320053, -140158814582211301253, -160046174694907497516, -72194520557422142189,
        40640121419215322684, 56172307415553950688, 31760112517872434163, 27627569357080791818, 28084822336940682361,
        25606314582164235752, 8846112017896990717, 14358241461600638168, 9269993772133459139, 6900134922729151046,
    );
    lemma_doubled(
        948568793927814858194733564086747093164804436843808615051134301042312275735034372nat,
        11166457836049109061, 14122112345444458933, 3111667360995318964, 8866966981781599913, 14072050100052402268,
        301725099880703500, 6346552698282093323, 8258041171322930562, 16855086512512843755, 9092889432306299412,
        3301998988475882528, 10283153383337654401, 6712025189295090016, 2825558243107299690, 789884886304981048,
        1086758669174486534, 2078444301169666715, 12746724331328704647, 9151537956951513321, 4373855542848785655,
        5797119819229382681, 17710442160068464696, 15543466447469446213, 7929891936226666211, 16034911747285087129,
        -164577075928091475434, -92306353150740445162, -142551294149327820165, -120823219751541930050, -63387041969654858164,
        9401634777549398336, 6704252270838888423, 8861218986458225202, 8596276057935584197, 5875236168504340773,
        14832057594457669472, 16992639804314143844, 13076629513273112329, 1749963592082036477, 347935878150176543,
    );
}

proof fn lemma_chain_26()
    ensures
        at(
            1942668889964164829582814339249658046801519486656120043624723048534655540705350393779nat,
            z(16138486240714879989, 12888181121657936974, 17807562178455089643, 10341135014499671094, 747969924284606816),
            z(925147563208260905, 16608865368576287955, 17710458915632550185, 7236586238787321150, 2777659855859336799),
        ),
{
    lemma_small_multiples();
    lemma_chain_25();
    lemma_doubled(
        1897137587855629716389467128173494186329608873687617230102268602084624551470068744nat,
        1086758669174486534, 2078444301169666715, 12746724331328704647, 9151537956951513321, 4373855542848785655,
        5797119819229382681, 17710442160068464696, 15543466447469446213, 7929891936226666211, 16034911747285087129,
        1876557803442170335, 13719137042490794729, 12548250312597300503, 16280182595773661165, 899653006322064309,
        3411142076081752582, 4866725083554875902, 9060319348686746320, 9027442881569382241, 18043331673168985744,
        14776664872218728033, 6404745101626003470, 8661201842151829845, 16027137009800675450, 13018413755172637509,
        69697500745198015045, 28213397599679006510, 80356181036281933415, 42566892130017775217, 33873545835535189107,
        70652201801642704991, 49567390682524352135, 17520102482928814507, 22108609725804110204, 32934549185300815955,
        -21129472821220243281, -29040062543524273375, -39453671111333063875, -3193822195283945922, -1364794294901389459,
    );
    lemma_doubled(
        3794275175711259432778934256346988372659217747375234460204537204169249102940137488nat,
        3411142076081752582, 4866725083554875902, 9060319348686746320, 9027442881569382241, 18043331673168985744,
        14776664872218728033, 6404745101626003470, 8661201842151829845, 16027137009800675450, 13018413755172637509,
        10268788921192740741, 15675484200718364771, 3058259381382474518, 10946320000101687024, 2396353658902594055,
        6914585684044745718, 14397774459799510287, 16452692772942880289, 17021389358093703167, 2546516180643806689,
        441168844935000702, 6826014752272989682, 14355016002389119937, 17022565363023143235, 13896781072568943825,
        -32788683609436313235, -95671390596191362608, -88574146075523803510, -120825293977513618632, 8385409368285058948,
        28823089994396250901, 39322617869275307119, 25257442027907927748, 18318561997873501750, 21778693365878289865,
        16705620213187224967, -17687011634744048780, 11676931121352008156, -8351493669376161089, -5502795277151273147,
    );
    lemma_doubled(
        7588550351422518865557868512693976745318435494750468920409074408338498205880274976nat,
        6914585684044745718, 14397774459799510287, 16452692772942880289, 17021389358093703167, 2546516180643806689,
        441168844935000702, 6826014752272989682, 14355016002389119937, 17022565363023143235, 13896781072568943825,
        4880159162272604698, 2898856399769769069, 15871275758254251710, 8245724469479230353, 18049701891638995856,
        3947929749148489834, 6452004258261218077, 16140763435086707714, 8243598105645543438, 18014828443002814746,
        3762207688363280561, 4599563766493097210, 11261879851160541776, 3301643193930710403, 939148305328554571,
        -137030366125514046879, -9198448683347802468, 34697328475373967265, -11249231966102126165, -85091009843691411403,
        60876754920467347938, 105769367560778334860, 57262641005750509597, 62334751599058857524, 25797212279173214946,
        39891773820258712545, -24671051690901583315, 8907140944309934556, -34872402344214990945, 4010156687566178443,
    );
    lemma_doubled(
        15177100702845037731115737025387953490636870989500937840818148816676996411760549952nat,
        3947929749148489834, 6452004258261218077, 16140763435086707714, 8243598105645543438, 18014828443002814746,
        3762207688363280561, 4599563766493097210, 11261879851160541776, 3301643193930710403, 939148305328554571,
        16045374052292741347, 5725799316283472095, 4693394034134873902, 13486262308275896924, 18285774766152680062,
        4659248967498958534, 17717125995418129435, 17480927167815009862, 15688020919915935194, 16401690331578988990,
        3435580904125539441, 2954448396532829782, 2989454303560096182, 15068159378367837381, 5881555225530714799,
        -155695663065224991935, -231936454716386284113, -124288871320306248399, -176633365859716062122, -59203684750780593216,
        68599430989085789035, 67454563753840222253, 90153570044431177531, 80753534721388739938, 41377025648166762510,
        -41238634251982650782, -29101222180259099502, -23443663547274253348, -5480333497582412356, -10189505102931552226,
    );
    lemma_doubled(
        30354201405690075462231474050775906981273741979001875681636297633353992823521099904nat,
        4659248967498958534, 17717125995418129435, 17480927167815009862, 15688020919915935194, 16401690331578988990,
        3435580904125539441, 2954448396532829782, 2989454303560096182, 15068159378367837381, 5881555225530714799,
        5752718510044733972, 8356617373129284993, 8822035274683088921, 510709707590008898, 15850366607246734552,
        13150024580443892503, 13230872362828417812, 15760530937802937613, 14526855049025771035, 10793842897541437740,
        9296712169859703228, 14349350805140353189, 1816167293991298936, 768368337612995921, 9616103477815847480,
        -477588231418253831679, -386952110840885582407, -242131076818739599497, -210316811953500134372, -138710863604326087330,
        46342024106552890537, 50736539984329283194, 11921021992084668272, 49169818055752382067, 14567845217111657997,
        18346683017151133944, 10129574257609037448, 1967154679765329224, 17507557517803608044, -4073865275559123257,
    );
    lemma_doubled(
        60708402811380150924462948101551813962547483958003751363272595266707985647042199808nat,
        13150024580443892503, 13230872362828417812, 15760530937802937613, 14526855049025771035, 10793842897541437740,
        9296712169859703228, 14349350805140353189, 1816167293991298936, 768368337612995921, 9616103477815847480,
        2749926433069912598, 2079242303730291241, 9872279391545157316, 11858319058813483377, 12794120684181182148,
        10441912816696871527, 16483206729128400945, 16735383952325285329, 12791560722741567572, 811392258957605985,
        13938728042424727136, 764848738919060728, 17562055279409071756, 1464293851976124861, 16246280292880966112,
        -312420909579410052288, -277773697744570388494, -194869001501802102648, -118835255242445142138, -112751057078843803519,
        47140372690416143551, 64571694535551165622, 52525254316883175278, 32381936993862239194, 11771200281128164153,
        -2081873576497456775, 17165719015327878574, 23799431385433049380, 20919719438917119080, 949531851779672092,
    );
    lemma_subtracted(
        121416805622760301848925896203103627925094967916007502726545190533415971294084399616nat,
        5,
        10441912816696871527, 16483206729128400945, 16735383952325285329, 12791560722741567572, 811392258957605985,
        13938728042424727136, 764848738919060728, 17562055279409071756, 1464293851976124861, 16246280292880966112,
        10037045936767333522, 7212327770703274352, 14197565700005564722, 1466131595743240707, 4503357798619727992,
        15228537545328408645, 17691374870506013863, 8726579212570326203, 13461166066247559397, 4831297304748274887,
        11540364126031797408, 3982749081991087616, 10299240418928712580, 12128577129567115096, 8385434001761278330,
        8901890424443629549, 6109581972770712773, 16729559312841563419, 1146847418956018736, 183917158536695525,
        13836658295215275804, 4290643963347888690, 15372132977078372155, 11294768293847953200, 16616528483411771156,
        -34480401971552378029, -25503396301543753543, -11977821176285524739, -8040678567712148184, -7831998458593280463,
        58712435555194127706, 56997240253993937354, 46826505243589841026, 31058135869230617061, 21479478115132682450,
        35032671412432262284, 30850128083905251194, 20221069230025135161, 14946329692826125435, 10430584123685129640,
    );
    lemma_doubled(
        121416805622760301848925896203103627925094967916007502726545190533415971294084399611nat,
        8901890424443629549, 6109581972770712773, 16729559312841563419, 1146847418956018736, 183917158536695525,
        13836658295215275804, 4290643963347888690, 15372132977078372155, 11294768293847953200, 16616528483411771156,
        13769325003037328315, 7855519174546134490, 2145137876061496514, 13807453014078960299, 1853027035141872848,
        1521526547509895788, 10772318316231106287, 3175529165548274252, 15188801756593670059, 5459176963181457409,
        9848551607618016902, 16713232120570831133, 5205933506360378496, 15018681004312592484, 15321599257858845860,
        109910964342081343026, 68440011785108401825, 56538117181307350093, 25098379926593132129, -1123946509967447937,
        24646441038925031575, 44024986587689700462, 14869663935400147502, 22998209626990133551, 14775556177378780757,
        22901413010739599326, -29624606937841141174, -7087458831761632372, -1317201080687191312, -11089916098321289546,
    );
    lemma_doubled(
        242833611245520603697851792406207255850189935832015005453090381066831942588168799222nat,
        1521526547509895788, 10772318316231106287, 3175529165548274252, 15188801756593670059, 5459176963181457409,
        9848551607618016902, 16713232120570831133, 5205933506360378496, 15018681004312592484, 15321599257858845860,
        3403386884989511421, 17927477253981735917, 5105899367754276807, 18274786417371004095, 10014332214565584330,
        2375821250347402514, 12761731688700397770, 11025280975243218499, 7390569932637362649, 16376020030267660180,
        18206376683124942096, 9437334958804047492, 14521753290200735657, 3946312917832096545, 9222311884680137558,
        98477392234743954243, 22180888540142975142, 78497129007161589461, 61149106922383912329, 23974976880514224888,
        89372337823608090881, 77559745366938165105, 78832764801808675880, 32977346745460782841, 40629237062807343621,
        -52080543362659183220, 129887268451374539, -23362904597125705208, -25366553722321578679, 957190321259651527,
    );
    lemma_doubled(
        485667222491041207395703584812414511700379871664030010906180762133663885176337598444nat,
        2375821250347402514, 12761731688700397770, 11025280975243218499, 7390569932637362649, 16376020030267660180,
        18206376683124942096, 9437334958804047492, 14521753290200735657, 3946312917832096545, 9222311884680137558,
        4772923721447651472, 4982903523673176839, 14051158333418183373, 7797497253094666289, 13270163845263207123,
        14623752913436310979, 6580299013164713584, 4499983226714469970, 15504844595018648071, 11071252722605289353,
        3311510625898721803, 14460774955643665629, 9851656025274028946, 9644291163324464610, 17214003965864053792,
        -164384249033290378905, -83131647825500274356, -72330740773495692714, -102853253379909248926, 99096723506038713,
        58379282812719562021, 73115123287969903049, 42273256203260972107, 40264915835684346968, 21782617121179656070,
        4202636527921224359, 14205749671676406356, -16755961488623365215, 10642777074387294488, -2046852373268242228,
    );
    lemma_doubled(
        971334444982082414791407169624829023400759743328060021812361524267327770352675196888nat,
        14623752913436310979, 6580299013164713584, 4499983226714469970, 15504844595018648071, 11071252722605289353,
        3311510625898721803, 14460774955643665629, 9851656025274028946, 9644291163324464610, 17214003965864053792,
        6936323676529335346, 9238904589452271301, 1101908105705883204, 12034548703293881366, 17966968434513495881,
        1913378428195675007, 6033032472503402883, 12622380443109278021, 3347168828456776047, 5982714063837539283,
        7712007734002465536, 3206499015568628700, 7125419766809267380, 12880318378349234192, 6988122440538236431,
        6798141982836233420, -81516785484465243630, -49914889948590583556, -19415437840346341903, -40037113274267705640,
        60913135959081825501, 36941307318371820693, 75785183302403871204, 62653211740526858294, 25632475372531460491,
        305786902182740896, 7544915280651111228, 43462779016395004329, 23696920079926729277, 20254101422045227915,
    );
    lemma_added(
        1942668889964164829582814339249658046801519486656120043624723048534655540705350393776nat,
        3,
        1913378428195675007, 6033032472503402883, 12622380443109278021, 3347168828456776047, 5982714063837539283,
        7712007734002465536, 3206499015568628700, 7125419766809267380, 12880318378349234192, 6988122440538236431,
        3584413360476155897, 993598265149929043, 9118536478120200325, 4545548208597017001, 16640886554632444604,
        6661501719066134017, 7261582874957064446, 6574521784608599777, 12238551638203620304, 17669239050955015918,
        5259447500134618441, 11354585861175798027, 13007178318290662850, 6968551911100992881, 17312418857052806260,
        16138486240714879989, 12888181121657936974, 17807562178455089643, 10341135014499671094, 747969924284606816,
        925147563208260905, 16608865368576287955, 17710458915632550185, 7236586238787321150, 2777659855859336799,
        4533276115702602542, 13630610539954808816, 12530292547208494810, 25271138802754111680, 970370419041334952,
        94919788752305543448, 87616229332627791157, 53646469881482672800, 68729920423103497600, 27622448929184649971,
        -34361277223622157612, -22162410502380425311, -29487520092013898643, -654656604857386695, -22408713073530887183,
    );
}

proof fn lemma_chain_27()
    ensures
        at(
            1989292943323304785492801883391649839924755954335866924671716401699487273682278803229876nat,
            z(9860157730999587028, 13566270520213635099, 14054952906391285721, 1479109346442919911, 3242272606957069836),
            z(13684322869422199159, 2361478775278195060, 10796310849673400621, 11344399229429531156, 6526588703873717652),
        ),
{
    lemma_small_multiples();
    lemma_chain_26();
    lemma_doubled(
        1942668889964164829582814339249658046801519486656120043624723048534655540705350393779nat,
        16138486240714879989, 12888181121657936974, 17807562178455089643, 10341135014499671094, 747969924284606816,
        925147563208260905, 16608865368576287955, 17710458915632550185, 7236586238787321150, 2777659855859336799,
        2326591661765369409, 13197073288200478142, 5532907614663209304, 15320283710647260260, 9356807988653548966,
        7851266006037497215, 7033469608426667376, 4725896366937698088, 1992488638133895630, 4036965276808398379,
        10352011469851330346, 7689364023584346677, 3803726963933398994, 1809283585056242590, 17590603760740569576,
        -67474494611784885612, -32351733339983577321, -63384952882287612192, -82085801387475677348, -48642616253057230505,
        68028384579216982160, 58338956795564624896, 57462828719361098182, 26019444334063121946, 25940503192156973073,
        43001151476727526469, 44415114622620137672, 12833603161941964360, 14045635459098951624, 18547607422708730530,
    );
    lemma_doubled(
        3885337779928329659165628678499316093603038973312240087249446097069311081410700787558nat,
        7851266006037497215, 7033469608426667376, 4725896366937698088, 1992488638133895630, 4036965276808398379,
        10352011469851330346, 7689364023584346677, 3803726963933398994, 1809283585056242590, 17590603760740569576,
        7548581914771843263, 16999164954758890053, 17964172504146834713, 1393463760895038066, 840535908604426842,
        6423664563368907855, 13399748017243259817, 16264215204159667171, 2510375769024094339, 10099680393772814935,
        9266879087922128978, 11983443125513474826, 16232110969850973405, 15918982487902615776, 7282614491063096053,
        73212067081189282386, 91500353206619870095, 17952102948275936870, 5989848933665563373, 8744956156676882846,
        15878470447705350028, 19139507387658936693, 30748364066430056492, 34364260353578728547, 20750363386354231684,
        -21174745023554340919, -20696519970957832130, -10642751480348074383, -17765438679036111241, -14610498601624083519,
    );
    lemma_doubled(
        7770675559856659318331257356998632187206077946624480174498892194138622162821401575116nat,
        6423664563368907855, 13399748017243259817, 16264215204159667171, 2510375769024094339, 10099680393772814935,
        9266879087922128978, 11983443125513474826, 16232110969850973405, 15918982487902615776, 7282614491063096053,
        4005990853749102408, 11291352895133859711, 6830943023901361896, 7892793193934034687, 12654802937036118155,
        8659789169006345309, 14134282373823756431, 5709347874469666138, 15909569673650681079, 3360476451498042823,
        5305837592170801990, 13435663279766385183, 7163600090888022493, 12603298942783059571, 484834260975079126,
        -21469721295458180874, -50946121393506923510, 24881178968006619267, -52331058070265015517, -17420765504162144827,
        64882905977467244947, 43152335724370231138, 42365985713586166047, 37834872147034400782, 17688349639021658877,
        9040885295026191399, 10481635277981197626, -17911294767836590240, 16191732510965147954, -4677973730855779683,
    );
    lemma_doubled(
        15541351119713318636662514713997264374412155893248960348997784388277244325642803150232nat,
        8659789169006345309, 14134282373823756431, 5709347874469666138, 15909569673650681079, 3360476451498042823,
        5305837592170801990, 13435663279766385183, 7163600090888022493, 12603298942783059571, 484834260975079126,
        6115214852377582895, 6611035043153705250, 11208617284699254726, 569822676263101034, 14035767397380043356,
        17834203993863439778, 712742663751515531, 7983763529170541962, 9788453486892183954, 1704331240378899757,
        18244399237090412927, 7262785513817238224, 13339962662705844561, 6731287717275115171, 3557684203402793598,
        -34003224779739926396, -132507165977146939280, -22285161883844777111, -44210124105340829173, -60943206523837594508,
        34285893317045973373, 55606515680163694191, 12402155118519706506, 40450422903213808436, 16524910962935140953,
        40322970556296048630, -444151024333029971, 12607321911374418524, 12866260700585863075, -5205282388238661352,
    );
    lemma_added(
        31082702239426637273325029427994528748824311786497920697995568776554488651285606300464nat,
        3,
        17834203993863439778, 712742663751515531, 7983763529170541962, 9788453486892183954, 1704331240378899757,
        18244399237090412927, 7262785513817238224, 13339962662705844561, 6731287717275115171, 3557684203402793598,
        3584413360476155897, 993598265149929043, 9118536478120200325, 4545548208597017001, 16640886554632444604,
        6661501719066134017, 7261582874957064446, 6574521784608599777, 12238551638203620304, 17669239050955015918,
        8873951163303373065, 13556233832923862388, 8210008270283954685, 4328594760862639373, 2382513301116088112,
        5353074240999596574, 9344442970476254250, 1182202956853521732, 13050191193551287699, 9164971161362872380,
        2085861173516493493, 5272355062180677259, 650714393418048314, 10553258955366277164, 14266128985815319868,
        19982324154209589727, 6355274974694505456, 2893484906346326935, 880472176936285665, 2062917011555400330,
        26333169943325165102, 22452072499814783163, 21215641454082508711, 17154581236172359268, 12308282361171843852,
        -13355533407954273201, -4602314437596249186, -4032262476448761734, -374415947332413951, -3372304600267835610,
    );
    lemma_doubled(
        31082702239426637273325029427994528748824311786497920697995568776554488651285606300467nat,
        5353074240999596574, 9344442970476254250, 1182202956853521732, 13050191193551287699, 9164971161362872380,
        2085861173516493493, 5272355062180677259, 650714393418048314, 10553258955366277164, 14266128985815319868,
        18046115568315426361, 12417861761399939687, 10756862976367809152, 13177477815294633742, 18366963172115573872,
        2912250395074455652, 6227837585776390224, 14346301434044375047, 1370985900675722679, 2706168477852546208,
        4431305942138759492, 6981032471501636504, 9074901800175846940, 10196608816737137940, 11674801104450034204,
        29630483522313627335, 2224012747989557020, 2029138686112696122, 48583148633153883572, -1283150554772253536,
        137944272160847881329, 116798472962602625926, 108128782319360933026, 95127630754536237407, 59950253159332563468,
        16960969355940700895, 1698710107269248869, 39370803053078793549, 25417434308249463859, 11160894961835443636,
    );
    lemma_doubled(
        62165404478853274546650058855989057497648623572995841395991137553108977302571212600934nat,
        2912250395074455652, 6227837585776390224, 14346301434044375047, 1370985900675722679, 2706168477852546208,
        4431305942138759492, 6981032471501636504, 9074901800175846940, 10196608816737137940, 11674801104450034204,
        11740392403917871187, 1058475617196229988, 16146692513366696928, 16722214964698586680, 2806993166408564642,
        9825380317052588040, 5239987811524426150, 7521154783616878425, 3160177890922313936, 18027042698950747105,
        8380993038085137869, 11283290784689080466, 2768099704779323570, 14432264994336734720, 6724054584656211528,
        81927258001308212567, 89755364613093770912, 69402388942846655088, 11002539293266523360, 7110602002136366245,
        96261670304858750921, 61566051286104252370, 35881250328237684617, 24420034340893536926, 19625479372821423531,
        7276709559034137571, -41749769337546000592, -44133114813586374810, -13143277189290810813, -4035911106659234707,
    );
    lemma_doubled(
        124330808957706549093300117711978114995297247145991682791982275106217954605142425201868nat,
        9825380317052588040, 5239987811524426150, 7521154783616878425, 3160177890922313936, 18027042698950747105,
        8380993038085137869, 11283290784689080466, 2768099704779323570, 14432264994336734720, 6724054584656211528,
        1297980136381290074, 16988050459170745208, 12163024721790010727, 16361839820018297213, 3514417971013844332,
        10137466599602108456, 17691379496721048394, 6313749805538119414, 9793376329611227618, 2775677422611845226,
        19483039251159824, 8708396683089469317, 8214845524625253783, 17966908776047108346, 7768824185105863112,
        -8007254766848976091, -30322504051824200689, 415275538285968306, -136907423288725831231, -17808592813706355419,
        84240350432208200942, 59831991099521768861, 36059623762795046252, 26713670485833654178, 38650396951857117797,
        25089330224177841142, 12044444671495899090, 25204019429826623566, 875375231181560602, -15342974395239611497,
    );
    lemma_doubled(
        248661617915413098186600235423956229990594494291983365583964550212435909210284850403736nat,
        10137466599602108456, 17691379496721048394, 6313749805538119414, 9793376329611227618, 2775677422611845226,
        19483039251159824, 8708396683089469317, 8214845524625253783, 17966908776047108346, 7768824185105863112,
        15921748514849094032, 10126374951605849247, 1265470772113479704, 8634046790304278354, 5356294114306642327,
        16411329190284087297, 8262136552417816329, 14461046973215323360, 11245088332070171709, 6946243827962060843,
        16971625440547162820, 13241119842777575729, 173279152768214321, 3274627546133386017, 520004496786845519,
        -53706214525243002505, -39207900970080516773, -21380657736241208314, -17599926651343239610, -29562241318133780628,
        34938303031109710725, 31808804974338990847, 22785562963586160425, 20959642787948432194, 18812411609603920125,
        -15808500165854353392, -5299311743528596665, -9407001144505151710, -11648077907855742608, -2363863470573446473,
    );
    lemma_subtracted(
        497323235830826196373200470847912459981188988583966731167929100424871818420569700807472nat,
        3,
        16411329190284087297, 8262136552417816329, 14461046973215323360, 11245088332070171709, 6946243827962060843,
        16971625440547162820, 13241119842777575729, 173279152768214321, 3274627546133386017, 520004496786845519,
        3584413360476155897, 993598265149929043, 9118536478120200325, 4545548208597017001, 16640886554632444604,
        6661501719066134017, 7261582874957064446, 6574521784608599777, 12238551638203620304, 17669239050955015918,
        12463890813847893120, 4335442466616442519, 9892798621634832783, 14416764388566815260, 12015264820552360446,
        2834369104129670443, 6149082863209653382, 15567126665945443330, 5932348969704633009, 3906320130688796806,
        16785665846342721366, 10631146503725947070, 3191291267734379613, 7689601287169237241, 3572211453547021806,
        -39339113965764265026, -18475633799149389306, -2558120735022302260, -761228822986038444, -11924731889308697660,
        71754147321208390047, 78322213148776923034, 70729502838191862106, 47610409500512822823, 28318681354874746236,
        21400090954013375809, 19804420280138707720, 24539214003965316381, 21013918286885480079, 13204189117906425729,
    );
    lemma_doubled(
        497323235830826196373200470847912459981188988583966731167929100424871818420569700807469nat,
        2834369104129670443, 6149082863209653382, 15567126665945443330, 5932348969704633009, 3906320130688796806,
        16785665846342721366, 10631146503725947070, 3191291267734379613, 7689601287169237241, 3572211453547021806,
        13424379057182975022, 11320350117374012572, 10575211554915044936, 8467302718847131894, 18175684454856860544,
        8346502248812974491, 12077162210320578946, 13756248543212608181, 14812622339167682849, 8518668332638309441,
        11674980801506555699, 13325020886320114239, 529991102488489694, 16204282377391936389, 9840637026171329631,
        20814617095324139622, 6230228140048167688, 49123573291881230968, 19777114764515605262, 6256481537511070076,
        105818442590455828339, 90655198086407901870, 72396285935872252983, 79029300132050667941, 42909215555789214915,
        -42804865677116908811, -22504989187719829165, -38080843762349624715, -24913541894483649458, -15920258286128497831,
    );
    lemma_doubled(
        994646471661652392746400941695824919962377977167933462335858200849743636841139401614938nat,
        8346502248812974491, 12077162210320578946, 13756248543212608181, 14812622339167682849, 8518668332638309441,
        11674980801506555699, 13325020886320114239, 529991102488489694, 16204282377391936389, 9840637026171329631,
        450837270397782131, 8029226827508192880, 13339786477437590365, 13788380042704442699, 18184251289932507949,
        9860157730999587028, 13566270520213635099, 14054952906391285721, 1479109346442919911, 3242272606957069836,
        13684322869422199159, 2361478775278195060, 10796310849673400621, 11344399229429531156, 6526588703873717652,
        -132781899083549535202, -124863564185365224596, -15707155277705654658, -33473443140564220495, -53797304383175285947,
        107327363051310799161, 110211438459118778242, 85699938634746248293, 66063146672364318292, 22538733124078330185,
        30705769099341431854, 39767485974843846499, 49513117396529667151, 13591534201241784160, 3111381633308376912,
    );
}

proof fn lemma_chain_28()
    ensures
        at(
            2037035973963064100344629128593049436082950097239927730863837595340274968250653494507393680nat,
            z(10074226486342721520, 12552449209643819472, 10387831033240921125, 8200831934123426889, 4152189522205201197),
            z(17784140596832726765, 1347709604687221616, 11405353993466040502, 18292693068097781450, 6438826345731738094),
        ),
{
    lemma_small_multiples();
    lemma_chain_27();
    lemma_doubled(
        1989292943323304785492801883391649839924755954335866924671716401699487273682278803229876nat,
        9860157730999587028, 13566270520213635099, 14054952906391285721, 1479109346442919911, 3242272606957069836,
        13684322869422199159, 2361478775278195060, 10796310849673400621, 11344399229429531156, 6526588703873717652,
        8440328376365757375, 1939691748302690877, 17485316199480487952, 10732328096539531144, 2616492646464001353,
        440786805955873828, 15215627822442764331, 5504978333584789985, 4367883176260213418, 11625255047695704348,
        11005071269241813280, 15217286639142867715, 6763823791423900105, 13731636615165381969, 16021765741428224294,
        41839561062015963789, 1904155319917240780, -10930388037210771557, -33285006368970782904, -13596037138698473603,
        66550453326816475155, 35387983636044832965, 25338475373225102214, 14611743630491321995, 21225383291562902410,
        7672075314974477641, -25006294025859754007, -3193847808179288847, -73057611483117050, 4341407042450339599,
    );
    lemma_doubled(
        3978585886646609570985603766783299679849511908671733849343432803398974547364557606459752nat,
        440786805955873828, 15215627822442764331, 5504978333584789985, 4367883176260213418, 11625255047695704348,
        11005071269241813280, 15217286639142867715, 6763823791423900105, 13731636615165381969, 16021765741428224294,
        11339622146755313085, 12318859830557184472, 5626256048449976364, 12476069976353688399, 10569417234589920765,
        5180774161680539816, 9125144096745583510, 7709736710349267753, 4625315061668611841, 12429926392478468219,
        4641549776633330156, 8645881085712988678, 3659809862315648669, 7446819883789234326, 8765529914027076972,
        -13478785743398708271, 67766011077436850475, 59587319216722638161, 11357258617831710500, 47146834256690255559,
        72151889072477625569, 59801170298481264911, 58034213140555786431, 41020989789260513964, 31373724544455117247,
        1234132825748400711, -4469816714043636327, -808913329602021226, -4361951571856196779, 64289157521898250,
    );
    lemma_added(
        7957171773293219141971207533566599359699023817343467698686865606797949094729115212919504nat,
        3,
        5180774161680539816, 9125144096745583510, 7709736710349267753, 4625315061668611841, 12429926392478468219,
        4641549776633330156, 8645881085712988678, 3659809862315648669, 7446819883789234326, 8765529914027076972,
        3584413360476155897, 993598265149929043, 9118536478120200325, 4545548208597017001, 16640886554632444604,
        6661501719066134017, 7261582874957064446, 6574521784608599777, 12238551638203620304, 17669239050955015918,
        7524148833763440562, 10879848662996547816, 2091886394154534737, 6072741742907646598, 1477598400953529132,
        4284659716878243154, 12413622730058766009, 4895526982856648298, 16334005081235139660, 9955833603731835825,
        2293168906185874903, 569179899043234325, 694353861204338319, 16674145723618867288, 12659440554834904275,
        6209894586929451097, -2565919691306737459, -262742508737933489, 362617793882145453, -974506348427470106,
        12429836490135558005, 15878335218955848178, 11041996150727934204, 7776609831314793186, 8605982222330010825,
        2748927937268285674, -10858479186230053901, -1060224645766984536, -2599366896611509475, -6588279741056696286,
    );
    lemma_doubled(
        7957171773293219141971207533566599359699023817343467698686865606797949094729115212919507nat,
        4284659716878243154, 12413622730058766009, 4895526982856648298, 16334005081235139660, 9955833603731835825,
        2293168906185874903, 569179899043234325, 694353861204338319, 16674145723618867288, 12659440554834904275,
        2455654668790344660, 8210424387854751839, 13296003185493664409, 946971461150293686, 6837991892027886210,
        322552233302242590, 17760068904876196274, 13999754548480889790, 2804338411988613536, 12117472262699182651,
        13013967746977543089, 4433328122765201246, 15188239469720783281, 8402196348128426562, 6676137690258466065,
        -93599671433020831791, -131406973166098257607, -145581906619939283211, -56619500297012304769, -62750700789492138866,
        22683284596322760166, 31903839965707475596, 9300511332540399775, 19692197462560590546, 12246999711527222328,
        19549028797015887308, -11663260598396551145, 13977154145127561873, -8305181004647350379, 366251912970736598,
    );
    lemma_doubled(
        15914343546586438283942415067133198719398047634686935397373731213595898189458230425839014nat,
        322552233302242590, 17760068904876196274, 13999754548480889790, 2804338411988613536, 12117472262699182651,
        13013967746977543089, 4433328122765201246, 15188239469720783281, 8402196348128426562, 6676137690258466065,
        14434057225776257295, 16092821856374299473, 1618313315652812260, 1833211119612257894, 6934595328415749901,
        6637289646684006169, 6974532923119298737, 10469461083853192635, 7004676333375025308, 4327470965700654588,
        527438894589930787, 12711112064356143402, 16147575803770901730, 8836988263148098672, 14974510719793068949,
        -169531362782129782011, -98806953576231276239, -29204428053206617698, -94732418250825809441, -10906967129522249756,
        48557377281078009674, 29381092833392537293, 20706745400422040118, 13513151175983713883, 14192787006987744944,
        27557434522705813937, 7709774603522801581, 9203042152507268425, 8897186123693943544, 1438799787763299234,
    );
    lemma_doubled(
        31828687093172876567884830134266397438796095269373870794747462427191796378916460851678028nat,
        6637289646684006169, 6974532923119298737, 10469461083853192635, 7004676333375025308, 4327470965700654588,
        527438894589930787, 12711112064356143402, 16147575803770901730, 8836988263148098672, 14974510719793068949,
        7590574022649555846, 6360515811173076879, 18174645451797653745, 1805019968582222079, 17425582183597010180,
        7329916200737847302, 2605046239617608040, 3662900444069831356, 11524402573366026400, 7341726435006279919,
        17150234151393596888, 320332779728431281, 16867096397012608853, 756660329608001684, 1990019719361317653,
        57003833576673085080, 112852104612695845771, 21880932355042464663, 80422744947492693192, 10661897450995050697,
        49844273021502962606, 108775667063652751237, 27380945146280955875, 63401717603707856522, 33492078275587493132,
        -2381280729199314717, 10612313639808593583, -10068405942152568938, -3817794752438214249, 3680687302871490042,
    );
    lemma_doubled(
        63657374186345753135769660268532794877592190538747741589494924854383592757832921703356056nat,
        7329916200737847302, 2605046239617608040, 3662900444069831356, 11524402573366026400, 7341726435006279919,
        17150234151393596888, 320332779728431281, 16867096397012608853, 756660329608001684, 1990019719361317653,
        7932105814527468790, 1255813468442803627, 13481581546585511786, 7123669851075258866, 6774393564202748045,
        14730485782171090338, 6848801310051619249, 13071693919717958600, 16700424202885629761, 9713206440326300214,
        10906294730182562773, 15558679374200063252, 8904037901255341374, 1255255750323742147, 8514414696915025018,
        -9922753466784318743, -46993429581908249521, -46500794876588651274, -35830766178112858769, 9862120313871603008,
        37415414025140482824, 39038853683244298939, 27376266915851424877, 15425450305733298478, 16648762192939239448,
        -30590840199034938241, -23890555883273105083, -18193261420283624151, -11438343869737610004, -12605034505330034746,
    );
    lemma_subtracted(
        127314748372691506271539320537065589755184381077495483178989849708767185515665843406712112nat,
        7,
        14730485782171090338, 6848801310051619249, 13071693919717958600, 16700424202885629761, 9713206440326300214,
        10906294730182562773, 15558679374200063252, 8904037901255341374, 1255255750323742147, 8514414696915025018,
        1402190480421472576, 13676834587540684798, 17321958444468468343, 1669201366653940801, 5982097004065554850,
        15760894881285235192, 15255658932026822340, 5186042200108657016, 6691897350347039497, 12315888321054861899,
        11994969849189019525, 13420357921591139657, 1664374306030964290, 329874638951035023, 2135787391948538102,
        687622402276254310, 18021750184298527829, 12649029923932080710, 16708888880632744311, 7230129828440297076,
        17321844351387069288, 1648641024143362653, 8024440802783638267, 2096160640088697556, 16601707295782218579,
        -18278991072938806908, -5596684230782087699, 1107528201047120462, -7600139403162137305, -14399230218326661930,
        17301248241310716905, 18627055580037624321, 12157240199447018332, 3592581628647951469, 3407735467212431842,
        10690338411149541427, 3769725370381323721, -6456395440788978829, 407505798447813869, 3072693969561625639,
    );
    lemma_doubled(
        127314748372691506271539320537065589755184381077495483178989849708767185515665843406712105nat,
        687622402276254310, 18021750184298527829, 12649029923932080710, 16708888880632744311, 7230129828440297076,
        17321844351387069288, 1648641024143362653, 8024440802783638267, 2096160640088697556, 16601707295782218579,
        7586182980403750437, 593039866310314119, 4435304974790510035, 7001190021688883378, 4705397850559541749,
        4633981234659371029, 5522979747408176105, 16172534391446733203, 17606256604045071547, 8457814548383954954,
        14138684470396157668, 5125961499967211144, 13855025697974782806, 11066472762573660037, 1484255244369074382,
        -292183575447199326375, -186008243439204115010, -117480919923061611243, -61797177038484173430, -97844458459171939858,
        14127565271183184366, 15247517337028592985, 14382271060220079660, 9644387575145940416, 5386745629164695429,
        3164059344485930861, 409597817778982045, -4080620604703364827, 85610832797443300, 2356168962892626555,
    );
    lemma_doubled(
        254629496745383012543078641074131179510368762154990966357979699417534371031331686813424210nat,
        4633981234659371029, 5522979747408176105, 16172534391446733203, 17606256604045071547, 8457814548383954954,
        14138684470396157668, 5125961499967211144, 13855025697974782806, 11066472762573660037, 1484255244369074382,
        6032709846641282619, 15029582112957219850, 16053748229642418303, 9488239693817998233, 4064676948951845188,
        8727661384716950634, 18269288459079947431, 975154788509350177, 12901776436609110379, 6818763337551002414,
        13532989766534929437, 375520592404606112, 1810463354590516474, 12033788128553819408, 9255703729491811011,
        -203090950607945725290, -206420369009019709128, -113405551361717286113, -35246491787177735298, -32289078950359538429,
        71387493969789367903, 45695765742582182110, 35289876690378032255, 35052616450769865153, 32090943446236268811,
        29974973235762693182, 14080895982099137136, -3338665811090182509, 1805728965752957584, 10136730738831666607,
    );
    lemma_doubled(
        509258993490766025086157282148262359020737524309981932715959398835068742062663373626848420nat,
        8727661384716950634, 18269288459079947431, 975154788509350177, 12901776436609110379, 6818763337551002414,
        13532989766534929437, 375520592404606112, 1810463354590516474, 12033788128553819408, 9255703729491811011,
        4453555739904522972, 7926720856731945374, 10781688794975036981, 14956833857139570875, 13463747476255935582,
        11178061388440962792, 640289675694399442, 10571395641266634729, 4894009264140505966, 10289813397538445259,
        333217439706812704, 12621151127192708601, 6804064299746470715, 7088211216454527010, 15286913808872741304,
        -63170484379928854029, -28821339539773967162, -28149618286721740747, 5179225299937003248, -58886306063142214753,
        88239633412656943542, 87424448953195705599, 74111550906470583917, 45968358782268441116, 25656842474198482742,
        24233309399304269126, -4416758512949524919, 12917142215094064368, -1473623556646980121, 9499539648466001834,
    );
    lemma_doubled(
        1018517986981532050172314564296524718041475048619963865431918797670137484125326747253696840nat,
        11178061388440962792, 640289675694399442, 10571395641266634729, 4894009264140505966, 10289813397538445259,
        333217439706812704, 12621151127192708601, 6804064299746470715, 7088211216454527010, 15286913808872741304,
        2217991121804776790, 3646666373194825953, 6113118236647917897, 1937192067254297061, 6848778596321277018,
        10074226486342721520, 12552449209643819472, 10387831033240921125, 8200831934123426889, 4152189522205201197,
        17784140596832726765, 1347709604687221616, 11405353993466040502, 18292693068097781450, 6438826345731738094,
        -12524318177418740837, -66971018618604822197, -55371587531671906546, -24769698202057823165, -42718920918933799527,
        12241968139197507982, 15105052987305587263, 6506311170126311394, 10511104782793035253, 4438716168607971600,
        -12725038482014051172, 4050473228183555688, -3716562311930313879, 2643202344897845972, -696044335450731823,
    );
}

proof fn lemma_chain_29()
    ensures
        at(
            4171849674676355277505800455358565245097881799147371992809139395256883134977338356751142259712nat,
            z(1779915402622839198, 1705222011637611734, 6575163476424857295, 14748888735906696736, 16237757306721343914),
            z(468057184502607703, 5661985081155708517, 10169640236470394208, 13728339941957682286, 17820396799225183468),
        ),
{
    lemma_small_multiples();
    lemma_chain_28();
    lemma_doubled(
        2037035973963064100344629128593049436082950097239927730863837595340274968250653494507393680nat,
        10074226486342721520, 12552449209643819472, 10387831033240921125, 8200831934123426889, 4152189522205201197,
        17784140596832726765, 1347709604687221616, 11405353993466040502, 18292693068097781450, 6438826345731738094,
        14790947783561262996, 2678934280523395567, 2504515629391744222, 3607068451069612571, 4859108610738070793,
        1785563503984173249, 9545971318609012200, 11694056981014995462, 12483623652334669892, 318894634464474361,
        5815385895147244966, 3672751480662587023, 14448766112519203087, 18060921560743004708, 6586677921909290764,
        -85946391113443092993, -63971919988412253916, -32913694235596798534, -27550338942586661467, -36005260921376255165,
        19032046342022652885, 10370343004321672239, 10106273074175980339, 10351723671595270617, 9179963684882991619,
        8181233949222551430, 1631118843786755364, -621131634946675844, 1434447833242832264, 5045517438743238338,
    );
    lemma_added(
        4074071947926128200689258257186098872165900194479855461727675190680549936501306989014787360nat,
        3,
        1785563503984173249, 9545971318609012200, 11694056981014995462, 12483623652334669892, 318894634464474361,
        5815385895147244966, 3672751480662587023, 14448766112519203087, 18060921560743004708, 6586677921909290764,
        3584413360476155897, 993598265149929043, 9118536478120200325, 4545548208597017001, 16640886554632444604,
        6661501719066134017, 7261582874957064446, 6574521784608599777, 12238551638203620304, 17669239050955015918,
        16119310551909723509, 15793009447236605933, 12484681386017002135, 14892474784891615431, 792111093061577615,
        1860920243508041078, 15867213023941728082, 4149819814370637835, 8504742405829246487, 2595214105499153056,
        257759186768713270, 4658955961401835215, 2386902795772475520, 17236336442953731092, 12048401653018936821,
        20036728244094674437, 7649178680316840635, 30153602633571955280, -11374872230079446148, -1103853765065286372,
        78629480167272521697, 66886480692024736062, 39176942248901917647, 47506299794269407003, 35334031100559494120,
        19623864104196244464, 398566268245193132, -3871104617321604295, 5303526748518214052, 1416758548776849633,
    );
    lemma_doubled(
        4074071947926128200689258257186098872165900194479855461727675190680549936501306989014787363nat,
        1860920243508041078, 15867213023941728082, 4149819814370637835, 8504742405829246487, 2595214105499153056,
        257759186768713270, 4658955961401835215, 2386902795772475520, 17236336442953731092, 12048401653018936821,
        9424050202549094948, 7652363953528098034, 6149696015325547689, 18309470682857830907, 5765319219975799088,
        1233173184724318899, 10026216883302668234, 4825156932527011183, 3354276937430965911, 8264442556907297081,
        11846440147614456185, 7949812843074370198, 8652674396026481923, 8849691744072488383, 15841418976546369883,
        12497356051175117935, 80795970805881266238, 45556571006319398010, 15952355631912449970, -10652110122556798525,
        55788095591902604259, 73870620900308168205, 43792466486654258983, 29215718563505918551, 23131753870717650212,
        1882106602388213683, 12277710440939107406, -9764650717117969745, -394126380826915954, 5008891227918600976,
    );
    lemma_doubled(
        8148143895852256401378516514372197744331800388959710923455350381361099873002613978029574726nat,
        1233173184724318899, 10026216883302668234, 4825156932527011183, 3354276937430965911, 8264442556907297081,
        11846440147614456185, 7949812843074370198, 8652674396026481923, 8849691744072488383, 15841418976546369883,
        18342590587188121785, 16117500798449983919, 5245961394477874687, 5638273215913125104, 1761590604628481197,
        674015844228555671, 17746000356266640661, 17470189246646701222, 17207112968597372202, 12398671469626803479,
        14005229684977534612, 6092826226502119636, 13675312171435479528, 15141146079813240008, 2856144073813004142,
        45234900777287890218, 36306285612707420592, 26626219829061738434, 3155456540029408667, 40972126582401773315,
        37094580835910109862, 40228846157197632823, 27745647090520333771, 20884674893841473509, 14847830409870110370,
        -35905739297583420699, -27039837282929650896, -26919209218697830000, -28031867136615117282, -22116757082992958689,
    );
    lemma_doubled(
        16296287791704512802757033028744395488663600777919421846910700762722199746005227956059149452nat,
        674015844228555671, 17746000356266640661, 17470189246646701222, 17207112968597372202, 12398671469626803479,
        14005229684977534612, 6092826226502119636, 13675312171435479528, 15141146079813240008, 2856144073813004142,
        14037910080623144571, 9291608709520498455, 12068672505802843375, 16760708478658059727, 8975399753597195169,
        8765391618237582552, 9972083147284779893, 13852024543204370124, 9926162518700674505, 12900145472253883345,
        16060771249497538740, 14386273112099720430, 678331983691025257, 13228038355416438130, 13471484565190406223,
        -326380295564954229252, -202648700187264779669, -158174082652695184087, -101031661408938013901, -89480168997859247914,
        103601770422836726627, 95060707519289948792, 71978893335817002685, 50768786125233792898, 38441063230308110090,
        28585031951724074426, 25983792174428457200, 10636275239280941551, 4365473902018768090, 8779412121420716961,
    );
    lemma_doubled(
        32592575583409025605514066057488790977327201555838843693821401525444399492010455912118298904nat,
        8765391618237582552, 9972083147284779893, 13852024543204370124, 9926162518700674505, 12900145472253883345,
        16060771249497538740, 14386273112099720430, 678331983691025257, 13228038355416438130, 13471484565190406223,
        12941499023653324985, 1499405236172107484, 11236629890040911936, 13913651287984078036, 2629000221415810873,
        3602200207825699019, 13012253579543474981, 4707705826393245028, 1853819651561802190, 5465441426108045889,
        1340259512095989701, 10562076186255495614, 5089715122156119845, 1614378409376218276, 18268055373659533447,
        -179365472610873878277, -118390566699171505910, -85478368755199539527, -82476134385080117947, -52020995213081797624,
        61213475536411831070, 43195958652958372889, 27785924580328296908, 22473259098654454555, 12795356252886846175,
        39578523086008507452, 34048769978173493340, 29587759514334130947, 11627761870053263777, 9884964672325362707,
    );
    lemma_doubled(
        65185151166818051211028132114977581954654403111677687387642803050888798984020911824236597808nat,
        3602200207825699019, 13012253579543474981, 4707705826393245028, 1853819651561802190, 5465441426108045889,
        1340259512095989701, 10562076186255495614, 5089715122156119845, 1614378409376218276, 18268055373659533447,
        7754546437086082776, 11942459728877596870, 9243269856179403270, 8007965729284675326, 17866856518504037381,
        1563339292821565476, 10045851271761125375, 2732951004745245652, 12632442968843690818, 5371941087711624868,
        5255952649670146607, 8273600700840055705, 2930553282542655171, 11421156832240079089, 10821439912372822847,
        71556893881812647952, 57291924912397461761, 33323557943534289193, 89188068420293593669, 16462418846352891616,
        96737776588758011762, 74185900503029627031, 62040223405889420908, 70616512102429574997, 30021904631495539286,
        -3972879873384707344, -5591864311917548779, -27425376245638628756, -609421820395100492, -2686769374099846319,
    );
    lemma_doubled(
        130370302333636102422056264229955163909308806223355374775285606101777597968041823648473195616nat,
        1563339292821565476, 10045851271761125375, 2732951004745245652, 12632442968843690818, 5371941087711624868,
        5255952649670146607, 8273600700840055705, 2930553282542655171, 11421156832240079089, 10821439912372822847,
        4405570648606932843, 13553263428455769488, 7403431768289582352, 14406102658268780367, 15640919890046947997,
        12808839024423304232, 15093544248815134939, 2255960803877624363, 9970303551302081701, 10356353484229086171,
        14993036089438930029, 10686478482788323575, 12794465273131974398, 12647510281990257831, 18193367139776880098,
        46796527263524080863, 8868240644982462519, 42566939638625839747, 50231868249528808578, 916587833575230138,
        104693255304920752585, 77889409334082825610, 86783435199534846783, 57545692028398971324, 31611246056910191611,
        -22189177514848437239, -8018846099977511372, -13014195328110016302, -22500634280559116310, -12520078476205886870,
    );
    lemma_doubled(
        260740604667272204844112528459910327818617612446710749550571212203555195936083647296946391232nat,
        12808839024423304232, 15093544248815134939, 2255960803877624363, 9970303551302081701, 10356353484229086171,
        14993036089438930029, 10686478482788323575, 12794465273131974398, 12647510281990257831, 18193367139776880098,
        274758633142094303, 1586463259542918615, 12638591338109042023, 9075894996789075883, 15826401261649408189,
        9904323922450238713, 571381107499368929, 12505139044426040649, 11846016690682281079, 13261401091998279004,
        18260405292343915515, 6385912596156409527, 14211823534354743718, 6451496181290654566, 1540398363874534031,
        -46551487164709775841, 46704803492627587540, -5626823428925493367, 20686379296669971339, -36430441056233077335,
        45480258266492417576, 78503171122010671592, 47232970909321682910, 43179089508438345670, 10691752373520774367,
        17688325734517548962, -34653447719724067688, -6029426094750385030, 2992186517637188375, 2410210543342616945,
    );
    lemma_doubled(
        521481209334544409688225056919820655637235224893421499101142424407110391872167294593892782464nat,
        9904323922450238713, 571381107499368929, 12505139044426040649, 11846016690682281079, 13261401091998279004,
        18260405292343915515, 6385912596156409527, 14211823534354743718, 6451496181290654566, 1540398363874534031,
        6704016295469692769, 15243352943307715365, 2432311139030991403, 10921118900511153235, 16151769780391504474,
        15314688192796194547, 10084377380542502510, 9967233944243934403, 11451227074239488744, 12807028618081292130,
        8330446879599050909, 16509237370728502181, 17778606997684440706, 739209816682364393, 9902609942451724841,
        -57849659630935938276, -98506564031538506816, -128564227269898852535, -66713511321185522648, -15286504875430180385,
        91157981463067819918, 43254932224641203529, 71738660239986111918, 54384820964022648426, 30109841112148123473,
        -21164538433214680637, -380676324741469574, -5808020702216484037, -1023279785343386579, -9543283523755996524,
    );
    lemma_doubled(
        1042962418669088819376450113839641311274470449786842998202284848814220783744334589187785564928nat,
        15314688192796194547, 10084377380542502510, 9967233944243934403, 11451227074239488744, 12807028618081292130,
        8330446879599050909, 16509237370728502181, 17778606997684440706, 739209816682364393, 9902609942451724841,
        4793368717802208821, 7073738713674657019, 11247434478756833104, 8178674871159889193, 6665952242024746747,
        17666468284043175830, 5623846956853479450, 2810638225593805651, 11152609441466899027, 7905767412731397471,
        8345888856809883822, 13187898737199782720, 11969872682989123166, 6639384645790133248, 14403227631472046404,
        -162632121128944996408, -147060142293197232053, -149287275013894487400, -106749656673990922670, -69459137184823094791,
        46503072058834305267, 38941040622756672843, 26290597153708699538, 20102972668142035970, 16594643110456304433,
        19928138901461070941, 17378047645751948165, 8979065025508452466, 9812304558427982264, 6879458538820614124,
    );
    lemma_doubled(
        2085924837338177638752900227679282622548940899573685996404569697628441567488669178375571129856nat,
        17666468284043175830, 5623846956853479450, 2810638225593805651, 11152609441466899027, 7905767412731397471,
        8345888856809883822, 13187898737199782720, 11969872682989123166, 6639384645790133248, 14403227631472046404,
        7768033103108728264, 5911239900499969618, 18126482137807821660, 7415183899211688153, 10352960035565458472,
        1779915402622839198, 1705222011637611734, 6575163476424857295, 14748888735906696736, 16237757306721343914,
        468057184502607703, 5661985081155708517, 10169640236470394208, 13728339941957682286, 17820396799225183468,
        22417034728270770411, 43013530751040544046, -15297296785013966170, -5327801235715148469, -7233084424949921435,
        66895410232629540414, 74960043733341742377, 42130556818321465343, 35293713566524142586, 31283541796467198508,
        -9863497855310147279, -28496243987556063072, -821707446494228103, -6512732381250549454, 2131049731632791906,
    );
}

proof fn lemma_chain_30()
    ensures
        at(
            533996758358573475520742458285896351372528870290863615079569842592881041277099309664146209243120nat,
            z(10499742225496041246, 14959445780414452409, 4822419025247110574, 16319486232970484252, 17452930063467340236),
            z(261391527465384023, 3016003161902446223, 3250907400810851232, 12210163635152818572, 6433538800991995932),
        ),
{
    lemma_small_multiples();
    lemma_chain_29();
    lemma_doubled(
        4171849674676355277505800455358565245097881799147371992809139395256883134977338356751142259712nat,
        1779915402622839198, 1705222011637611734, 6575163476424857295, 14748888735906696736, 16237757306721343914,
        468057184502607703, 5661985081155708517, 10169640236470394208, 13728339941957682286, 17820396799225183468,
        220624362908055700, 11079043923803861912, 8054061846326892419, 9568286998827965610, 197790781724160700,
        3794064365356414961, 17449292661801468811, 11948350938029189570, 5027575421720428062, 11572453965295204718,
        12602012926513036098, 4793743852533206755, 14380936300176255460, 3363270367170984134, 8372971874673943429,
        10044747515568225881, -120537625290811281875, -174171703178049819838, -121704922914849332934, 7068827696002220417,
        25781141722484467223, 15672309234324040301, 7462247650126124904, 9909714541470250482, 15014580892096434055,
        12247495351646222463, 19667221474089589384, -2827140879116705729, -10879558618296963553, -4639627114229348624,
    );
    lemma_doubled(
        8343699349352710555011600910717130490195763598294743985618278790513766269954676713502284519424nat,
        3794064365356414961, 17449292661801468811, 11948350938029189570, 5027575421720428062, 11572453965295204718,
        12602012926513036098, 4793743852533206755, 14380936300176255460, 3363270367170984134, 8372971874673943429,
        3043468162766142931, 2108091207996588139, 8097991198551660562, 10974416935029061824, 1052436239311880035,
        4379762913756127268, 1430868435934411922, 12565616493966043494, 6146021493290530890, 12356466658376396299,
        17313958634153118127, 3221654112186825994, 13157369947378088471, 17600480127490179299, 18369097498754520201,
        -186265633709563877466, -125344374505213973187, -73090267427399166833, -112890971708954185306, -42733442354543251390,
        30129917581083546409, 23054530000559097982, 6669754260969561851, 5652273968276821985, 6410546874259004431,
        -198389659085934910, -558456488810443365, -119090747593605110, 6294269637912400548, 8968191896457474470,
    );
    lemma_doubled(
        16687398698705421110023201821434260980391527196589487971236557581027532539909353427004569038848nat,
        4379762913756127268, 1430868435934411922, 12565616493966043494, 6146021493290530890, 12356466658376396299,
        17313958634153118127, 3221654112186825994, 13157369947378088471, 17600480127490179299, 18369097498754520201,
        284739023779537182, 8169052642997685016, 8957316573051022641, 11195529123424048489, 867049859016949027,
        16190802416143346290, 3901791843808007771, 8247203907416959514, 4302477181849830975, 7869300825764526426,
        4310374542984326650, 9236714524122691576, 1903106202472632602, 4812777972645102784, 3443983851952421139,
        53711373506812063425, -35220037643682572193, -409249478115740026, -47573915842294535793, -11669825398300991716,
        34925964219468780304, 23162372288196102534, 7051483309818313976, 8401293751785613140, 14292008313746837973,
        15978849549289981279, 5233526396303373944, 1667135348163163967, -5794498001807723287, 927806837073806491,
    );
    lemma_subtracted(
        33374797397410842220046403642868521960783054393178975942473115162055065079818706854009138077696nat,
        1,
        16190802416143346290, 3901791843808007771, 8247203907416959514, 4302477181849830975, 7869300825764526426,
        4310374542984326650, 9236714524122691576, 1903106202472632602, 4812777972645102784, 3443983851952421139,
        11712523173042564207, 14090224426659529053, 13197813503519687414, 16280770174934269299, 15998333998318935536,
        14639054205878357578, 17426078571020221072, 2548978194165003307, 8663895577921260088, 9793640284382595140,
        14980439874546351323, 15480900477679819665, 4801264019147444896, 15362791421251503761, 5187017169270232529,
        4425670378044971079, 15585557753685209529, 1649791817703175416, 14975024914663915245, 214695186575732159,
        11022837705722989380, 9870165815616222877, 13037803808557431809, 18350370122712100931, 9750996409970450656,
        47145923309660299215, 44966474744809668091, 41819617263358569209, 19661723490031737343, 25168359778545041484,
        62275307775732606519, 71627432289144794824, 46709096602552232991, 37386216560778766490, 35459885033836163279,
        27119938981447447096, -14737314645471961960, 8736321540611641300, 10083977798381509537, -7445470526338976715,
    );
    lemma_doubled(
        33374797397410842220046403642868521960783054393178975942473115162055065079818706854009138077695nat,
        4425670378044971079, 15585557753685209529, 1649791817703175416, 14975024914663915245, 214695186575732159,
        11022837705722989380, 9870165815616222877, 13037803808557431809, 18350370122712100931, 9750996409970450656,
        18339839880757271, 2395259000983129649, 3878357114577133469, 15305463507186343824, 18178350646578859851,
        4000435333223923819, 9063161016927302401, 13965218666192220482, 6305870406833598353, 7269993150303966495,
        12745436832839188560, 17165856619502054307, 11637926081415828613, 6054332555594354578, 15871057639489385563,
        123474495343021614876, 51433310810339340350, 119250947110248979677, 53576549776175732483, -28294762941205811356,
        33469960974786527514, 61033660247821307221, 90815377007841743749, 54779208296213521530, 4826300409063967302,
        -8652175751412382676, -19218398922536001542, 8991568055704745428, -20724312231974379907, 4360131559102782291,
    );
    lemma_doubled(
        66749594794821684440092807285737043921566108786357951884946230324110130159637413708018276155390nat,
        4000435333223923819, 9063161016927302401, 13965218666192220482, 6305870406833598353, 7269993150303966495,
        12745436832839188560, 17165856619502054307, 11637926081415828613, 6054332555594354578, 15871057639489385563,
        12383102423165497871, 8104588330522398970, 17940608729705460134, 881859654089877218, 2005994396943304019,
        8064411367026397483, 8098952066544621143, 8419996300423725232, 12689650427939112202, 3894362581616077826,
        10415951308922968381, 2051656609794082779, 6316648757263652299, 8727686040389976872, 16847368433433293598,
        -44009032980953688846, 5927904778932866794, -12260718811700084699, -11841003073710350445, -6087397596146484278,
        18746634693684523132, 22713248804127871083, 28222822090765277704, 17602827495475279171, 20916456975776177798,
        -15794880867198186547, 9604291542928556014, -1404888273718573345, -4343874362548556, 4458538498906288016,
    );
    lemma_doubled(
        133499189589643368880185614571474087843132217572715903769892460648220260319274827416036552310780nat,
        8064411367026397483, 8098952066544621143, 8419996300423725232, 12689650427939112202, 3894362581616077826,
        10415951308922968381, 2051656609794082779, 6316648757263652299, 8727686040389976872, 16847368433433293598,
        1732957824713377939, 2217923372714349079, 2367508871023602919, 14099920594968233362, 3871476705002120350,
        128192751082373045, 2394211491573189828, 5673949560712747135, 9401851454003680873, 8676551490274339660,
        11229893476261544322, 7811501522505259056, 17568024812616721333, 2738670931012199466, 838869714880317748,
        -93228005902117194556, -67959702673527886713, 11633939743782249439, -22042031050542421192, -40778924941746326098,
        13813445691279441918, 35730150960954245680, 18466665640636036644, 5656067932941838141, 4421831653742619345,
        10175218952793018346, 8916980487733814998, -6933419314198363696, 4426353791659178357, 6324548044764873352,
    );
    lemma_doubled(
        266998379179286737760371229142948175686264435145431807539784921296440520638549654832073104621560nat,
        128192751082373045, 2394211491573189828, 5673949560712747135, 9401851454003680873, 8676551490274339660,
        11229893476261544322, 7811501522505259056, 17568024812616721333, 2738670931012199466, 838869714880317748,
        14683229409454759828, 13783695206706961389, 16776697422088986313, 15807341155430064363, 17003870369521719525,
        10499742225496041246, 14959445780414452409, 4822419025247110574, 16319486232970484252, 17452930063467340236,
        261391527465384023, 3016003161902446223, 3250907400810851232, 12210163635152818572, 6433538800991995932,
        97785123877227201702, 53774715270758169910, -1241319265477509610, 27168130396096593648, 58554837430332357391,
        174178385655567370272, 155366558957573035456, 124432708462776108655, 97257825914384519039, 65950293223173506387,
        -79361287675223027352, -57125676385354933036, -59835264716451976608, -49454957628767748597, -31708018763336633794,
    );
}

/// The generator has the order of the group: that many times the generator is the
/// point at infinity.
pub proof fn lemma_generator_order()
    ensures
        times(generator_point(), group_order()) == infinity(),
{
    let g = generator_point();
    let h = 533996758358573475520742458285896351372528870290863615079569842592881041277099309664146209243120nat;
    lemma_small_multiples();
    lemma_chain_30();
    lemma_added(
        533996758358573475520742458285896351372528870290863615079569842592881041277099309664146209243120nat,
        1,
        10499742225496041246, 14959445780414452409, 4822419025247110574, 16319486232970484252, 17452930063467340236,
        261391527465384023, 3016003161902446223, 3250907400810851232, 12210163635152818572, 6433538800991995932,
        11712523173042564207, 14090224426659529053, 13197813503519687414, 16280770174934269299, 15998333998318935536,
        14639054205878357578, 17426078571020221072, 2548978194165003307, 8663895577921260088, 9793640284382595140,
        6873827119795618117, 15473813096684495382, 610438609907649363, 8074337904252027555, 17464466457255561716,
        10499742225496041246, 14959445780414452409, 4822419025247110574, 16319486232970484252, 17452930063467340236,
        18185352541949200298, 15430740907512138098, 15195836668603733089, 6236580434261765749, 12013205268422588389,
        5316761359400943937, 24286411200845424956, 411888781013857472, 3381828542579911590, 470387752865844222,
        92063626907642125012, 25602314206881236240, 59301251621337629304, 56645096479493746727, 26581909035238105325,
        -1, -1, -1, -1, -1,
    );
    // half the order and one more are opposite
    reveal(at);
    let x = z(10499742225496041246, 14959445780414452409, 4822419025247110574, 16319486232970484252, 17452930063467340236);
    let y = z(261391527465384023, 3016003161902446223, 3250907400810851232, 12210163635152818572, 6433538800991995932);
    let w = z(18185352541949200298, 15430740907512138098, 15195836668603733089, 6236580434261765749, 12013205268422588389);
    lemma_generator_proper();
    lemma_times_proper(g, h);
    lemma_opposite_proper(times(g, h));
    lemma_of_ops(z(0, 0, 0, 0, 0), y);
    assert((z(0, 0, 0, 0, 0) - y).reduce() == w.reduce());
    lemma_of_equal(z(0, 0, 0, 0, 0) - y, w);
    assert(opposite(point(x, y)) == point(x, w));
    lemma_times_add(g, h, h + 1);
    assert(h + (h + 1) == group_order());
}

} // verus!
