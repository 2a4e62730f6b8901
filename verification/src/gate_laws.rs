//! What the constraints of the signature gates mean on the curve.
use vstd::arithmetic::div_mod::lemma_small_mod;
use vstd::arithmetic::mul::lemma_mul_basics;
use vstd::prelude::*;

use crate::algebra::{
    lemma_class_add, lemma_class_equal, lemma_class_scale, lemma_class_self,
    lemma_class_sub, lemma_mul_sub, lemma_sub_add,
};
use crate::curve_laws::{lemma_has_inverse, lemma_quotient_times};
use crate::ecgfp5::{
    can_double, can_encode, chord_slope, chord_sum, coeff_a_third, coeff_cap_a, coeff_cap_b,
    compressed, lemma_difference_zero, lemma_twice_nonzero, on_curve, point_double, quotient, small,
    tangent_slope, PointEw,
};
use crate::field::F;
use crate::gates::{
    addition, addition_of_three, blended, chain, chain_constraints, compression, doubling,
    doubling_constraints, equality, generator_coordinates, middle, offset_end, offset_point, scaled,
    times_base, unchanged, DoubleAdd4xTargets, LocalPointEw,
};
use crate::primes::{goldilocks, lemma_prime_divides_product};
use crate::quintic::{lemma_mul_assoc, lemma_mul_comm, lemma_of_view, QuinticExtension};
use crate::quintic_field::lemma_mul_swap_inner;
use crate::quintic_ring::Z5;
use crate::quintic_power::{lemma_cancel, lemma_mul_canonical, lemma_one_times, lemma_units_canonical};
use crate::schnorr::coefficients;

verus! {

/// Whether all constraints hold.
pub open spec fn zeros(s: Seq<F>) -> bool {
    forall|i: int| 0 <= i < s.len() ==> #[trigger] s[i] == F::of(0)
}

pub(crate) proof fn lemma_zeros_concat(a: Seq<F>, b: Seq<F>)
    ensures
        zeros(a + b) <==> zeros(a) && zeros(b),
{
    if zeros(a + b) {
        assert forall|i: int| 0 <= i < a.len() implies #[trigger] a[i] == F::of(0) by {
            assert((a + b)[i] == a[i]);
        }
        assert forall|i: int| 0 <= i < b.len() implies #[trigger] b[i] == F::of(0) by {
            assert((a + b)[a.len() + i] == b[i]);
        }
    }
    if zeros(a) && zeros(b) {
        assert forall|i: int| 0 <= i < (a + b).len() implies #[trigger] (a + b)[i] == F::of(0) by {
            if i < a.len() {
                assert((a + b)[i] == a[i]);
            } else {
                assert((a + b)[i] == b[i - a.len()]);
            }
        }
    }
}

/// The constraint of an equality holds exactly when the two sides are equal.
pub proof fn lemma_equality(x: QuinticExtension, y: QuinticExtension)
    requires
        x.canonical(),
        y.canonical(),
    ensures
        zeros(equality(x, y)) <==> x == y,
{
    lemma_difference_zero(x, y);
    let s = equality(x, y);
    let d = x - y;
    let o = QuinticExtension::nought();
    if zeros(s) {
        assert(s[0] == F::of(0) && s[1] == F::of(0) && s[2] == F::of(0) && s[3] == F::of(0) && s[4]
            == F::of(0));
        assert(d == o);
    }
    if d == o {
        assert forall|i: int| 0 <= i < s.len() implies #[trigger] s[i] == F::of(0) by {
            assert(s[i] == coefficients(o)[i]);
        }
    }
}

/// A product of elements that are not zero is not zero.
pub proof fn lemma_product_nonzero(a: QuinticExtension, b: QuinticExtension)
    requires
        a.canonical(),
        b.canonical(),
        a != QuinticExtension::nought(),
        b != QuinticExtension::nought(),
    ensures
        a * b != QuinticExtension::nought(),
{
    let i = lemma_has_inverse(b);
    lemma_units_canonical();
    lemma_one_times(b);
    if a * b == QuinticExtension::nought() {
        lemma_cancel(b, i, a, QuinticExtension::nought());
    }
}

/// A factor that is not zero can be cancelled.
pub proof fn lemma_cancel_factor(a: QuinticExtension, b: QuinticExtension, d: QuinticExtension)
    requires
        a.canonical(),
        b.canonical(),
        d.canonical(),
        d != QuinticExtension::nought(),
    ensures
        a * d == b * d <==> a == b,
{
    let i = lemma_has_inverse(d);
    if a * d == b * d {
        lemma_cancel(d, i, a, b);
    }
}

/// `a + x + y == s` solved for `a`.
proof fn lemma_solve_sum(
    a: QuinticExtension,
    x: QuinticExtension,
    y: QuinticExtension,
    s: QuinticExtension,
)
    requires
        a.canonical(),
        x.canonical(),
        y.canonical(),
        s.canonical(),
    ensures
        (a + x) + y == s <==> a == (s - x) - y,
{
    lemma_class_self(a);
    lemma_class_self(x);
    lemma_class_self(y);
    lemma_class_self(s);
    lemma_class_add(a, a@, x, x@);
    lemma_class_add(a + x, a@ + x@, y, y@);
    lemma_class_sub(s, s@, x, x@);
    lemma_class_sub(s - x, s@ - x@, y, y@);
    if (a + x) + y == s {
        lemma_class_sub((a + x) + y, a@ + x@ + y@, x, x@);
        lemma_class_sub(((a + x) + y) - x, a@ + x@ + y@ - x@, y, y@);
        lemma_class_equal(
            (((a + x) + y) - x) - y,
            a@ + x@ + y@ - x@ - y@,
            a,
            a@,
        );
    }
    if a == (s - x) - y {
        lemma_class_add((s - x) - y, s@ - x@ - y@, x, x@);
        lemma_class_add(((s - x) - y) + x, s@ - x@ - y@ + x@, y, y@);
        lemma_class_equal((((s - x) - y) + x) + y, s@ - x@ - y@ + x@ + y@, s, s@);
    }
}

/// `a + x == s` solved for `a`.
proof fn lemma_solve_one(a: QuinticExtension, x: QuinticExtension, s: QuinticExtension)
    requires
        a.canonical(),
        x.canonical(),
        s.canonical(),
    ensures
        a + x == s <==> a == s - x,
{
    lemma_sub_add(a, x);
    lemma_sub_add(s, x);
}

/// `a d^2 == (l d)^2` solved for `a`.
proof fn lemma_square_factor(a: QuinticExtension, l: QuinticExtension, d: QuinticExtension)
    requires
        a.canonical(),
        l.canonical(),
        d.canonical(),
        d != QuinticExtension::nought(),
    ensures
        a * (d * d) == (l * d) * (l * d) <==> a == l * l,
{
    lemma_mul_swap_inner(l, d, l, d);
    lemma_mul_canonical(l, l);
    lemma_mul_canonical(d, d);
    lemma_product_nonzero(d, d);
    lemma_cancel_factor(a, l * l, d * d);
}

/// The constraints of an addition hold exactly for the sum of the points.
pub proof fn lemma_addition(p1: LocalPointEw, p2: LocalPointEw, po: LocalPointEw)
    requires
        p1.canonical(),
        p2.canonical(),
        po.canonical(),
        p1.x != p2.x,
    ensures
        zeros(addition(p1, p2, po)) <==> po.point() == chord_sum(p1.point(), p2.point()),
{
    let dx = p2.x - p1.x;
    let dy = p2.y - p1.y;
    lemma_difference_zero(p2.x, p1.x);
    lemma_mul_canonical(p2.x, p1.x);
    lemma_mul_canonical(p2.y, p1.y);
    lemma_quotient_times(dy, dx);
    let l = chord_slope(p1.point(), p2.point());
    assert(l == quotient(dy, dx));
    let a = (po.x + p1.x) + p2.x;
    let b = po.y + p1.y;
    let u = p1.x - po.x;
    let e1 = equality(a * (dx * dx), dy * dy);
    let e2 = equality(b * dx, dy * u);
    assert(addition(p1, p2, po) =~= e1 + e2);
    lemma_zeros_concat(e1, e2);
    lemma_mul_canonical(po.x + p1.x, p2.x);
    lemma_mul_canonical(po.y, p1.y);
    lemma_mul_canonical(p1.x, po.x);
    lemma_mul_canonical(a, dx * dx);
    lemma_mul_canonical(dy, dy);
    lemma_mul_canonical(b, dx);
    lemma_mul_canonical(dy, u);
    lemma_equality(a * (dx * dx), dy * dy);
    lemma_equality(b * dx, dy * u);
    lemma_square_factor(a, l, dx);
    lemma_mul_canonical(l, l);
    lemma_solve_sum(po.x, p1.x, p2.x, l * l);
    // dy * u == (l * u) * dx
    lemma_mul_assoc(l, dx, u);
    lemma_mul_comm(dx, u);
    lemma_mul_assoc(l, u, dx);
    lemma_mul_canonical(l, u);
    lemma_cancel_factor(b, l * u, dx);
    lemma_solve_one(po.y, p1.y, l * u);
}

/// The slope of a line is the one that meets its equation.
pub proof fn lemma_slope_unique(p1: LocalPointEw, p2: LocalPointEw, l: QuinticExtension)
    requires
        p1.canonical(),
        p2.canonical(),
        l.canonical(),
        p1.x != p2.x,
    ensures
        l * (p2.x - p1.x) == p2.y - p1.y <==> l == chord_slope(p1.point(), p2.point()),
{
    let dx = p2.x - p1.x;
    let dy = p2.y - p1.y;
    lemma_difference_zero(p2.x, p1.x);
    lemma_mul_canonical(p2.x, p1.x);
    lemma_mul_canonical(p2.y, p1.y);
    lemma_quotient_times(dy, dx);
    lemma_cancel_factor(l, quotient(dy, dx), dx);
}

/// The sum of two points does not depend on their order.
pub proof fn lemma_chord_comm(p1: LocalPointEw, p2: LocalPointEw)
    requires
        p1.canonical(),
        p2.canonical(),
        p1.x != p2.x,
    ensures
        chord_sum(p1.point(), p2.point()) == chord_sum(p2.point(), p1.point()),
{
    let (x1, y1, x2, y2) = (p1.x, p1.y, p2.x, p2.y);
    let dx = x2 - x1;
    let dy = y2 - y1;
    lemma_difference_zero(x2, x1);
    lemma_mul_canonical(x2, x1);
    lemma_mul_canonical(y2, y1);
    lemma_quotient_times(dy, dx);
    let l = chord_slope(p1.point(), p2.point());
    lemma_mul_sub(x2, x1, l);
    lemma_mul_sub(x1, x2, l);
    let (a, b) = (l * x1, l * x2);
    lemma_mul_canonical(l, x1);
    lemma_mul_canonical(l, x2);
    lemma_class_self(a);
    lemma_class_self(b);
    lemma_class_self(x1);
    lemma_class_self(x2);
    lemma_class_self(y1);
    lemma_class_self(y2);
    // l x1 - l x2 == y1 - y2
    assert(b - a == dy);
    lemma_class_sub(b, b@, a, a@);
    lemma_class_sub(y2, y2@, y1, y1@);
    lemma_sub_add(b, a);
    // b == dy + a
    lemma_class_add(dy, y2@ - y1@, a, a@);
    assert(b == dy + a);
    lemma_class_sub(a, a@, b, y2@ - y1@ + a@);
    lemma_class_sub(y1, y1@, y2, y2@);
    lemma_class_equal(a - b, a@ - (y2@ - y1@ + a@), y1 - y2, y1@ - y2@);
    lemma_slope_unique(p2, p1, l);
    // the same third point
    let s = l * l;
    lemma_mul_canonical(l, l);
    lemma_class_self(s);
    lemma_class_sub(s, s@, x1, x1@);
    lemma_class_sub(s - x1, s@ - x1@, x2, x2@);
    lemma_class_sub(s, s@, x2, x2@);
    lemma_class_sub(s - x2, s@ - x2@, x1, x1@);
    lemma_class_equal((s - x1) - x2, s@ - x1@ - x2@, (s - x2) - x1, s@ - x2@ - x1@);
    let x3 = (s - x1) - x2;
    lemma_mul_canonical(s - x1, x2);
    lemma_mul_sub(x1, x3, l);
    lemma_mul_sub(x2, x3, l);
    let c = l * x3;
    lemma_mul_canonical(l, x3);
    lemma_class_self(c);
    lemma_class_sub(a, a@, c, c@);
    lemma_class_sub(a - c, a@ - c@, y1, y1@);
    lemma_class_sub(b, y2@ - y1@ + a@, c, c@);
    lemma_class_sub(b - c, y2@ - y1@ + a@ - c@, y2, y2@);
    lemma_class_equal((a - c) - y1, a@ - c@ - y1@, (b - c) - y2, y2@ - y1@ + a@ - c@ - y2@);
}

/// The constraints of the addition of three points hold exactly for the sum of
/// the third with the sum of the first two.
pub proof fn lemma_addition_of_three(
    p1: LocalPointEw,
    p2: LocalPointEw,
    p3: LocalPointEw,
    l: QuinticExtension,
    po: LocalPointEw,
)
    requires
        p1.canonical(),
        p2.canonical(),
        p3.canonical(),
        l.canonical(),
        po.canonical(),
        p1.x != p2.x,
        chord_sum(p1.point(), p2.point()).x != p3.x,
    ensures
        zeros(addition_of_three(p1, p2, p3, l, po)) <==> {
            &&& l == chord_slope(p1.point(), p2.point())
            &&& po.point() == chord_sum(chord_sum(p1.point(), p2.point()), p3.point())
        },
{
    let m = middle(p1, p2, l);
    let dx = m.x - p3.x;
    let dy = m.y - p3.y;
    let e1 = equality(l * (p2.x - p1.x), p2.y - p1.y);
    let e2 = equality(((po.x + m.x) + p3.x) * (dx * dx), dy * dy);
    let e3 = equality((po.y + p3.y) * dx, dy * (p3.x - po.x));
    assert(addition_of_three(p1, p2, p3, l, po) =~= e1 + (e2 + e3));
    lemma_zeros_concat(e1, e2 + e3);
    lemma_mul_canonical(p2.x, p1.x);
    lemma_mul_canonical(p2.y, p1.y);
    lemma_mul_canonical(l, p2.x - p1.x);
    lemma_equality(l * (p2.x - p1.x), p2.y - p1.y);
    lemma_slope_unique(p1, p2, l);
    if l == chord_slope(p1.point(), p2.point()) {
        assert(m.point() == chord_sum(p1.point(), p2.point()));
        lemma_mul_canonical(l * l - p1.x, p2.x);
        lemma_mul_canonical(l * (p1.x - m.x), p1.y);
        // the order of the sum of three coordinates
        lemma_class_self(po.x);
        lemma_class_self(m.x);
        lemma_class_self(p3.x);
        lemma_class_add(po.x, po.x@, m.x, m.x@);
        lemma_class_add(po.x + m.x, po.x@ + m.x@, p3.x, p3.x@);
        lemma_class_add(po.x, po.x@, p3.x, p3.x@);
        lemma_class_add(po.x + p3.x, po.x@ + p3.x@, m.x, m.x@);
        lemma_class_equal(
            (po.x + m.x) + p3.x,
            po.x@ + m.x@ + p3.x@,
            (po.x + p3.x) + m.x,
            po.x@ + p3.x@ + m.x@,
        );
        assert(addition(p3, m, po) =~= e2 + e3);
        lemma_addition(p3, m, po);
        lemma_chord_comm(p3, m);
    }
}

/// The constraints of a doubling hold exactly for twice the point.
pub proof fn lemma_doubling(p1: LocalPointEw, p2: LocalPointEw)
    requires
        p1.canonical(),
        p2.canonical(),
        can_double(p1.point()),
    ensures
        zeros(doubling(p1, p2)) <==> p2.point() == point_double(p1.point()),
{
    let (x, y) = (p1.x, p1.y);
    let n = (x * x) * small(3) + coeff_cap_a();
    let m = y * small(2);
    lemma_twice_nonzero(y);
    lemma_mul_canonical(y, small(2));
    lemma_mul_canonical((x * x) * small(3), coeff_cap_a());
    lemma_quotient_times(n, m);
    let l = tangent_slope(p1.point());
    let a = (p2.x + x) + x;
    let b = p2.y + y;
    let mm = m * m;
    let m3 = mm * m;
    let t1 = ((x * n) * mm) * small(3);
    let t2 = (n * n) * n;
    let e1 = equality(a * mm, n * n);
    let e2 = equality(b * m3, t1 - t2);
    assert(doubling(p1, p2) =~= e1 + e2);
    lemma_zeros_concat(e1, e2);
    lemma_mul_canonical(p2.x + x, x);
    lemma_mul_canonical(p2.y, y);
    lemma_mul_canonical(a, mm);
    lemma_mul_canonical(n, n);
    lemma_mul_canonical(b, m3);
    lemma_mul_canonical(t1, t2);
    lemma_equality(a * mm, n * n);
    lemma_equality(b * m3, t1 - t2);
    lemma_square_factor(a, l, m);
    lemma_mul_canonical(l, l);
    lemma_solve_sum(p2.x, x, x, l * l);
    // t1 == ((x l) 3) m^3
    let u = x * l;
    lemma_mul_assoc(x, l, m);
    lemma_mul_assoc(u, m, mm);
    lemma_mul_comm(m, mm);
    assert((x * n) * mm == u * m3);
    lemma_mul_assoc(u, m3, small(3));
    lemma_mul_comm(m3, small(3));
    lemma_mul_assoc(u, small(3), m3);
    assert(t1 == (u * small(3)) * m3);
    // t2 == (l^2 l) m^3
    lemma_mul_swap_inner(l, m, l, m);
    lemma_mul_swap_inner(l * l, mm, l, m);
    let l3 = (l * l) * l;
    assert(t2 == l3 * m3);
    let t = u * small(3) - l3;
    lemma_mul_canonical(u, small(3));
    lemma_mul_canonical(l * l, l);
    lemma_mul_sub(u * small(3), l3, m3);
    lemma_product_nonzero(m, m);
    lemma_mul_canonical(m, m);
    lemma_product_nonzero(mm, m);
    lemma_mul_canonical(mm, m);
    lemma_mul_canonical(u * small(3), l3);
    lemma_cancel_factor(b, t, m3);
    lemma_solve_one(p2.y, y, t);
    if p2.x == (l * l - x) - x {
        lemma_tangent_line(x, l, p2.x);
    }
}

/// On the tangent, `l (x - x2) == 3 x l - l^3` where `x2 = l^2 - 2 x`.
proof fn lemma_tangent_line(x: QuinticExtension, l: QuinticExtension, x2: QuinticExtension)
    requires
        x.canonical(),
        l.canonical(),
        x2.canonical(),
        x2 == (l * l - x) - x,
    ensures
        l * (x - x2) == (x * l) * small(3) - (l * l) * l,
{
    let s = l * l;
    let u = x * l;
    let l3 = s * l;
    lemma_mul_canonical(l, l);
    lemma_mul_canonical(x, l);
    lemma_mul_canonical(s, l);
    lemma_mul_canonical(s, x);
    lemma_mul_sub(x, x2, l);
    lemma_mul_sub(s - x, x, l);
    lemma_mul_sub(s, x, l);
    lemma_mul_comm(l, x);
    lemma_mul_comm(l, s);
    assert(l * x2 == (l3 - u) - u);
    lemma_class_self(u);
    lemma_class_self(l3);
    lemma_class_sub(l3, l3@, u, u@);
    lemma_class_sub(l3 - u, l3@ - u@, u, u@);
    lemma_class_sub(u, u@, (l3 - u) - u, l3@ - u@ - u@);
    lemma_class_scale(3, u, u@);
    lemma_class_sub(u * small(3), u@.scale(3), l3, l3@);
    lemma_class_equal(
        u - ((l3 - u) - u),
        u@ - (l3@ - u@ - u@),
        u * small(3) - l3,
        u@.scale(3) - l3@,
    );
}

/// Whether an element is zero or one.
pub open spec fn is_bit(b: F) -> bool {
    b == F::of(0) || b == F::of(1)
}

/// The constraint `(1 - b) b == 0` holds exactly for zero and one.
pub proof fn lemma_bit(b: F)
    requires
        b.canonical(),
    ensures
        (F::of(1) - b) * b == F::of(0) <==> is_bit(b),
        b * (F::of(1) - b) == F::of(0) <==> is_bit(b),
{
    let p = goldilocks();
    let c = F::of(1) - b;
    assert(c@ == (1 - b@) % p);
    vstd::arithmetic::mul::lemma_mul_is_commutative(c@, b@);
    lemma_mul_basics(c@);
    lemma_mul_basics(b@);
    if (c@ * b@) % p == 0 {
        if c@ > 0 {
            lemma_prime_divides_product(c@, b@);
            lemma_small_mod(b@ as nat, p as nat);
        } else if b@ > 1 {
            crate::arith::lemma_cong_multiple(1 - b@, 1, p);
            lemma_small_mod((1 - b@ + p) as nat, p as nat);
        }
    }
}

/// Whether all elements are canonical.
pub open spec fn all_canonical(c: Seq<F>) -> bool {
    forall|i: int| 0 <= i < c.len() ==> (#[trigger] c[i]).canonical()
}

proof fn lemma_concat_canonical(a: Seq<F>, b: Seq<F>)
    requires
        all_canonical(a),
        all_canonical(b),
    ensures
        all_canonical(a + b),
{
    assert forall|i: int| 0 <= i < (a + b).len() implies (#[trigger] (a + b)[i]).canonical() by {
        if i < a.len() {
            assert((a + b)[i] == a[i]);
        } else {
            assert((a + b)[i] == b[i - a.len()]);
        }
    }
}

proof fn lemma_equality_canonical(x: QuinticExtension, y: QuinticExtension)
    ensures
        all_canonical(equality(x, y)),
        equality(x, y).len() == 5,
{
    lemma_mul_canonical(x, y);
}

/// Constraints times one.
proof fn lemma_scaled_one(c: Seq<F>)
    requires
        all_canonical(c),
    ensures
        zeros(scaled(F::of(1), c)) <==> zeros(c),
{
    assert forall|i: int| 0 <= i < c.len() implies #[trigger] scaled(F::of(1), c)[i] == c[i] by {
        assert(c[i].canonical());
        lemma_small_mod(c[i]@ as nat, goldilocks() as nat);
        lemma_mul_basics(c[i]@);
        assert(F::of(1)@ == 1);
    }
    assert(scaled(F::of(1), c) =~= c);
}

/// Constraints times zero.
proof fn lemma_scaled_zero(c: Seq<F>)
    ensures
        zeros(scaled(F::of(0), c)),
{
    assert forall|i: int| 0 <= i < c.len() implies #[trigger] scaled(F::of(0), c)[i] == F::of(0) by {
        lemma_mul_basics(c[i]@);
        assert(F::of(0)@ == 0);
    }
}

proof fn lemma_gap(s: F, a: F, b: F)
    requires
        a.canonical(),
        b.canonical(),
    ensures
        s == F::of(0) ==> s * (a - b) == F::of(0),
        s == F::of(1) ==> (s * (a - b) == F::of(0) <==> a == b),
{
    let p = goldilocks();
    let d = a - b;
    lemma_mul_basics(d@);
    if s == F::of(1) {
        lemma_small_mod(d@ as nat, p as nat);
        if d@ == 0 {
            if a@ >= b@ {
                lemma_small_mod((a@ - b@) as nat, p as nat);
            } else {
                crate::arith::lemma_cong_multiple(a@ - b@, 1, p);
                lemma_small_mod((a@ - b@ + p) as nat, p as nat);
            }
        }
    }
}

/// The constraints of an unchanged point, selected or not.
proof fn lemma_unchanged(s: F, p: LocalPointEw, q: LocalPointEw)
    requires
        p.canonical(),
        q.canonical(),
    ensures
        s == F::of(0) ==> zeros(unchanged(s, p, q)),
        s == F::of(1) ==> (zeros(unchanged(s, p, q)) <==> p == q),
{
    lemma_gap(s, p.x.c0, q.x.c0);
    lemma_gap(s, p.x.c1, q.x.c1);
    lemma_gap(s, p.x.c2, q.x.c2);
    lemma_gap(s, p.x.c3, q.x.c3);
    lemma_gap(s, p.x.c4, q.x.c4);
    lemma_gap(s, p.y.c0, q.y.c0);
    lemma_gap(s, p.y.c1, q.y.c1);
    lemma_gap(s, p.y.c2, q.y.c2);
    lemma_gap(s, p.y.c3, q.y.c3);
    lemma_gap(s, p.y.c4, q.y.c4);
    let u = unchanged(s, p, q);
    if zeros(u) && s == F::of(1) {
        assert(u[0] == F::of(0) && u[1] == F::of(0) && u[2] == F::of(0) && u[3] == F::of(0) && u[4]
            == F::of(0));
        assert(u[5] == F::of(0) && u[6] == F::of(0) && u[7] == F::of(0) && u[8] == F::of(0) && u[9]
            == F::of(0));
    }
}

/// `pi + b0 p1 + b1 p2`, where the bits select.
pub open spec fn selected(pi: PointEw, p1: PointEw, p2: PointEw, b0: bool, b1: bool) -> PointEw {
    if b0 {
        if b1 {
            chord_sum(chord_sum(pi, p1), p2)
        } else {
            chord_sum(pi, p1)
        }
    } else if b1 {
        chord_sum(pi, p2)
    } else {
        pi
    }
}

/// Whether that sum meets no two points with the same first coordinate.
pub open spec fn regular(pi: PointEw, p1: PointEw, p2: PointEw, b0: bool, b1: bool) -> bool {
    &&& b0 ==> pi.x != p1.x
    &&& b1 && !b0 ==> pi.x != p2.x
    &&& b0 && b1 ==> chord_sum(pi, p1).x != p2.x
}

/// The bits of a chain whose constraints hold are zero or one.
pub proof fn lemma_chain_bits(
    pi: LocalPointEw,
    p1: LocalPointEw,
    p2: LocalPointEw,
    po: LocalPointEw,
    l: QuinticExtension,
    b0: F,
    b1: F,
)
    requires
        b0.canonical(),
        b1.canonical(),
        zeros(chain(pi, p1, p2, po, l, b0, b1)),
    ensures
        is_bit(b0),
        is_bit(b1),
{
    let c = chain(pi, p1, p2, po, l, b0, b1);
    lemma_bit(b0);
    lemma_bit(b1);
    assert(c[0] == (F::of(1) - b0) * b0);
    assert(c[1] == (F::of(1) - b1) * b1);
}

proof fn lemma_selector_values()
    ensures
        F::of(1) - F::of(0) == F::of(1),
        F::of(1) - F::of(1) == F::of(0),
        F::of(1) * F::of(1) == F::of(1),
        F::of(0) * F::of(1) == F::of(0),
        F::of(1) * F::of(0) == F::of(0),
        F::of(0) * F::of(0) == F::of(0),
        F::of(0) != F::of(1),
{
}

/// The constraints of a chain hold exactly for the selected sum.
pub proof fn lemma_chain(
    pi: LocalPointEw,
    p1: LocalPointEw,
    p2: LocalPointEw,
    po: LocalPointEw,
    l: QuinticExtension,
    b0: F,
    b1: F,
)
    requires
        pi.canonical(),
        p1.canonical(),
        p2.canonical(),
        po.canonical(),
        l.canonical(),
        is_bit(b0),
        is_bit(b1),
        regular(pi.point(), p1.point(), p2.point(), b0 == F::of(1), b1 == F::of(1)),
    ensures
        zeros(chain(pi, p1, p2, po, l, b0, b1)) <==> {
            &&& po.point() == selected(
                pi.point(),
                p1.point(),
                p2.point(),
                b0 == F::of(1),
                b1 == F::of(1),
            )
            &&& b0 == F::of(1) && b1 == F::of(1) ==> l == chord_slope(pi.point(), p1.point())
        },
{
    let one = F::of(1);
    lemma_selector_values();
    let s0 = (one - b0) * (one - b1);
    let s1 = b0 * (one - b1);
    let s2 = (one - b0) * b1;
    let s3 = b0 * b1;
    let c0 = seq![(one - b0) * b0, (one - b1) * b1];
    let c1 = unchanged(s0, pi, po);
    let a1 = addition(pi, p1, po);
    let a2 = addition(pi, p2, po);
    let a3 = addition_of_three(pi, p1, p2, l, po);
    lemma_zeros_concat(c0, c1);
    lemma_zeros_concat(c0 + c1, scaled(s1, a1));
    lemma_zeros_concat(c0 + c1 + scaled(s1, a1), scaled(s2, a2));
    lemma_zeros_concat(c0 + c1 + scaled(s1, a1) + scaled(s2, a2), scaled(s3, a3));
    lemma_bit(b0);
    lemma_bit(b1);
    assert(zeros(c0)) by {
        assert forall|i: int| 0 <= i < c0.len() implies #[trigger] c0[i] == F::of(0) by {}
    }
    lemma_unchanged(s0, pi, po);
    lemma_addition_canonical(pi, p1, po);
    lemma_addition_canonical(pi, p2, po);
    lemma_three_canonical(pi, p1, p2, l, po);
    lemma_scaled_zero(a1);
    lemma_scaled_zero(a2);
    lemma_scaled_zero(a3);
    lemma_scaled_one(a1);
    lemma_scaled_one(a2);
    lemma_scaled_one(a3);
    if b0 == one {
        if b1 == one {
            lemma_addition_of_three(pi, p1, p2, l, po);
        } else {
            lemma_addition(pi, p1, po);
        }
    } else if b1 == one {
        lemma_addition(pi, p2, po);
    }
}

proof fn lemma_addition_canonical(p1: LocalPointEw, p2: LocalPointEw, po: LocalPointEw)
    ensures
        all_canonical(addition(p1, p2, po)),
{
    let dx = p2.x - p1.x;
    let dy = p2.y - p1.y;
    let e1 = equality(((po.x + p1.x) + p2.x) * (dx * dx), dy * dy);
    let e2 = equality((po.y + p1.y) * dx, dy * (p1.x - po.x));
    lemma_equality_canonical(((po.x + p1.x) + p2.x) * (dx * dx), dy * dy);
    lemma_equality_canonical((po.y + p1.y) * dx, dy * (p1.x - po.x));
    lemma_concat_canonical(e1, e2);
}

proof fn lemma_three_canonical(
    p1: LocalPointEw,
    p2: LocalPointEw,
    p3: LocalPointEw,
    l: QuinticExtension,
    po: LocalPointEw,
)
    ensures
        all_canonical(addition_of_three(p1, p2, p3, l, po)),
{
    let m = middle(p1, p2, l);
    let dx = m.x - p3.x;
    let dy = m.y - p3.y;
    let e1 = equality(l * (p2.x - p1.x), p2.y - p1.y);
    let e2 = equality(((po.x + m.x) + p3.x) * (dx * dx), dy * dy);
    let e3 = equality((po.y + p3.y) * dx, dy * (p3.x - po.x));
    lemma_equality_canonical(l * (p2.x - p1.x), p2.y - p1.y);
    lemma_equality_canonical(((po.x + m.x) + p3.x) * (dx * dx), dy * dy);
    lemma_equality_canonical((po.y + p3.y) * dx, dy * (p3.x - po.x));
    lemma_concat_canonical(e1, e2);
    lemma_concat_canonical(e1 + e2, e3);
}

pub(crate) proof fn lemma_doubling_canonical(p1: LocalPointEw, p2: LocalPointEw)
    ensures
        all_canonical(doubling(p1, p2)),
{
    let n = (p1.x * p1.x) * small(3) + coeff_cap_a();
    let m = p1.y * small(2);
    lemma_equality_canonical(((p2.x + p1.x) + p1.x) * (m * m), n * n);
    lemma_equality_canonical(
        (p2.y + p1.y) * ((m * m) * m),
        ((p1.x * n) * (m * m)) * small(3) - (n * n) * n,
    );
    lemma_concat_canonical(
        equality(((p2.x + p1.x) + p1.x) * (m * m), n * n),
        equality(
            (p2.y + p1.y) * ((m * m) * m),
            ((p1.x * n) * (m * m)) * small(3) - (n * n) * n,
        ),
    );
}

proof fn lemma_blend_one(a: F, b: F)
    requires
        a.canonical(),
        b.canonical(),
    ensures
        F::of(1) * a + F::of(0) * b == a,
        F::of(0) * a + F::of(1) * b == b,
{
    let p = goldilocks();
    lemma_mul_basics(a@);
    lemma_mul_basics(b@);
    lemma_small_mod(a@ as nat, p as nat);
    lemma_small_mod(b@ as nat, p as nat);
    assert(F::of(0)@ == 0 && F::of(1)@ == 1);
}

/// The fixed points have canonical coordinates.
pub proof fn lemma_fixed_points_canonical()
    ensures
        generator_coordinates().canonical(),
        offset_point().canonical(),
        offset_end().canonical(),
{
    let g = generator_coordinates();
    let o = offset_point();
    let e = offset_end();
    lemma_of_view(
        Z5 {
            c0: 11712523173042564207,
            c1: 14090224426659529053,
            c2: 13197813503519687414,
            c3: 16280770174934269299,
            c4: 15998333998318935536,
        },
    );
    lemma_of_view(
        Z5 {
            c0: 14639054205878357578,
            c1: 17426078571020221072,
            c2: 2548978194165003307,
            c3: 8663895577921260088,
            c4: 9793640284382595140,
        },
    );
    lemma_of_view(
        Z5 {
            c0: 2626390539619063455,
            c1: 3069873143820007175,
            c2: 16481805966921623903,
            c3: 2169403494164322467,
            c4: 15849876939764656634,
        },
    );
    lemma_of_view(
        Z5 {
            c0: 8052493994140007067,
            c1: 12476750341447220703,
            c2: 7297584762312352412,
            c3: 4456043296886321460,
            c4: 17416054515469523789,
        },
    );
    lemma_of_view(
        Z5 {
            c0: 4290739547668160462,
            c1: 4414444320864360104,
            c2: 13341412719882091143,
            c3: 6277196213122332219,
            c4: 5576063673169056362,
        },
    );
    lemma_of_view(
        Z5 {
            c0: 31345035390588453,
            c1: 16142908491486898889,
            c2: 1937863704661416826,
            c3: 5598663702127262288,
            c4: 17388813215359868465,
        },
    );
}

/// The blended point is one of the two.
pub proof fn lemma_blended()
    ensures
        blended(F::of(0)) == generator_coordinates(),
        blended(F::of(1)) == offset_end(),
{
    let g = generator_coordinates();
    let e = offset_end();
    lemma_fixed_points_canonical();
    lemma_selector_values();
    lemma_blend_one(g.x.c0, e.x.c0);
    lemma_blend_one(g.x.c1, e.x.c1);
    lemma_blend_one(g.x.c2, e.x.c2);
    lemma_blend_one(g.x.c3, e.x.c3);
    lemma_blend_one(g.x.c4, e.x.c4);
    lemma_blend_one(g.y.c0, e.y.c0);
    lemma_blend_one(g.y.c1, e.y.c1);
    lemma_blend_one(g.y.c2, e.y.c2);
    lemma_blend_one(g.y.c3, e.y.c3);
    lemma_blend_one(g.y.c4, e.y.c4);
}

/// Whether a row of wires satisfies the constraints.
#[verifier::opaque]
pub open spec fn row_holds(t: DoubleAdd4xTargets) -> bool {
    zeros(doubling_constraints(t) + chain_constraints(t))
}

/// The second point of the last chain of a row.
pub open spec fn last_point(lgs: F) -> LocalPointEw {
    if lgs == F::of(1) {
        offset_end()
    } else {
        generator_coordinates()
    }
}

/// Whether a row meets no vertical line and no vertical tangent.
pub open spec fn row_regular(t: DoubleAdd4xTargets) -> bool {
    let one = F::of(1);
    let (p, g) = (t.p.point(), generator_coordinates().point());
    &&& can_double(t.accin.point())
    &&& can_double(t.acco1.point())
    &&& can_double(t.acco2.point())
    &&& t.lgs != one ==> can_double(t.acco3.point())
    &&& regular(t.accdblin.point(), p, g, t.sp.0 == one, t.sg.0 == one)
    &&& regular(t.accdblo1.point(), p, g, t.sp.1 == one, t.sg.1 == one)
    &&& regular(t.accdblo2.point(), p, g, t.sp.2 == one, t.sg.2 == one)
    &&& regular(
        t.accdblo3.point(),
        p,
        last_point(t.lgs).point(),
        t.sp.3 == one,
        t.sg.3 == one,
    )
}

/// What a step of a row computes: `acco == accdbl + sp P + sg P2`, and the slope
/// where both are added.
pub open spec fn step_holds(
    accdbl: LocalPointEw,
    p: LocalPointEw,
    p2: LocalPointEw,
    acco: LocalPointEw,
    l: QuinticExtension,
    sp: F,
    sg: F,
) -> bool {
    let one = F::of(1);
    &&& acco.point() == selected(accdbl.point(), p.point(), p2.point(), sp == one, sg == one)
    &&& sp == one && sg == one ==> l == chord_slope(accdbl.point(), p.point())
}

/// What a row computes: four times `acc := 2 acc + sp P + sg G`; on the last row
/// the fourth step does not double and adds the end of the offset.
pub open spec fn row_computes(t: DoubleAdd4xTargets) -> bool {
    let g = generator_coordinates();
    &&& t.accdblin.point() == point_double(t.accin.point())
    &&& t.accdblo1.point() == point_double(t.acco1.point())
    &&& t.accdblo2.point() == point_double(t.acco2.point())
    &&& t.accdblo3.point() == (if t.lgs == F::of(1) {
        t.acco3.point()
    } else {
        point_double(t.acco3.point())
    })
    &&& step_holds(t.accdblin, t.p, g, t.acco1, t.lambda1, t.sp.0, t.sg.0)
    &&& step_holds(t.accdblo1, t.p, g, t.acco2, t.lambda2, t.sp.1, t.sg.1)
    &&& step_holds(t.accdblo2, t.p, g, t.acco3, t.lambda3, t.sp.2, t.sg.2)
    &&& step_holds(t.accdblo3, t.p, last_point(t.lgs), t.acco4, t.lambda4, t.sp.3, t.sg.3)
}

/// Whether the selectors of a row are bits.
pub open spec fn row_bits(t: DoubleAdd4xTargets) -> bool {
    &&& is_bit(t.lgs)
    &&& is_bit(t.sp.0) && is_bit(t.sp.1) && is_bit(t.sp.2) && is_bit(t.sp.3)
    &&& is_bit(t.sg.0) && is_bit(t.sg.1) && is_bit(t.sg.2) && is_bit(t.sg.3)
}

/// The constraints of the doublings of a row hold exactly for doubled points.
proof fn lemma_row_doublings(t: DoubleAdd4xTargets)
    requires
        t.canonical(),
        can_double(t.accin.point()),
        can_double(t.acco1.point()),
        can_double(t.acco2.point()),
        t.lgs != F::of(1) ==> can_double(t.acco3.point()),
    ensures
        zeros(doubling_constraints(t)) <==> {
            &&& is_bit(t.lgs)
            &&& t.accdblin.point() == point_double(t.accin.point())
            &&& t.accdblo1.point() == point_double(t.acco1.point())
            &&& t.accdblo2.point() == point_double(t.acco2.point())
            &&& t.accdblo3.point() == (if t.lgs == F::of(1) {
                t.acco3.point()
            } else {
                point_double(t.acco3.point())
            })
        },
{
    let one = F::of(1);
    let nlgs = one - t.lgs;
    let d0 = doubling(t.accin, t.accdblin);
    let d1 = doubling(t.acco1, t.accdblo1);
    let d2 = doubling(t.acco2, t.accdblo2);
    let d3 = doubling(t.acco3, t.accdblo3);
    let b = seq![t.lgs * nlgs];
    let e = equality(t.acco3.x, t.accdblo3.x) + equality(t.acco3.y, t.accdblo3.y);
    lemma_zeros_concat(d0, d1);
    lemma_zeros_concat(d0 + d1, d2);
    lemma_zeros_concat(d0 + d1 + d2, b);
    lemma_zeros_concat(d0 + d1 + d2 + b, scaled(nlgs, d3));
    lemma_zeros_concat(d0 + d1 + d2 + b + scaled(nlgs, d3), scaled(t.lgs, e));
    lemma_doubling(t.accin, t.accdblin);
    lemma_doubling(t.acco1, t.accdblo1);
    lemma_doubling(t.acco2, t.accdblo2);
    lemma_bit(t.lgs);
    assert(zeros(b) <==> is_bit(t.lgs)) by {
        assert(b[0] == t.lgs * nlgs);
    }
    lemma_selector_values();
    lemma_equality_canonical(t.acco3.x, t.accdblo3.x);
    lemma_equality_canonical(t.acco3.y, t.accdblo3.y);
    lemma_concat_canonical(
        equality(t.acco3.x, t.accdblo3.x),
        equality(t.acco3.y, t.accdblo3.y),
    );
    lemma_doubling_canonical(t.acco3, t.accdblo3);
    lemma_scaled_zero(d3);
    lemma_scaled_zero(e);
    lemma_scaled_one(d3);
    lemma_scaled_one(e);
    if t.lgs == one {
        lemma_zeros_concat(
            equality(t.acco3.x, t.accdblo3.x),
            equality(t.acco3.y, t.accdblo3.y),
        );
        lemma_equality(t.acco3.x, t.accdblo3.x);
        lemma_equality(t.acco3.y, t.accdblo3.y);
    } else if t.lgs == F::of(0) {
        lemma_doubling(t.acco3, t.accdblo3);
    }
}

/// A row that satisfies the constraints has bits for selectors.
proof fn lemma_row_bits(t: DoubleAdd4xTargets)
    requires
        t.canonical(),
        zeros(chain_constraints(t)),
    ensures
        is_bit(t.sp.0) && is_bit(t.sp.1) && is_bit(t.sp.2) && is_bit(t.sp.3),
        is_bit(t.sg.0) && is_bit(t.sg.1) && is_bit(t.sg.2) && is_bit(t.sg.3),
{
    let g = generator_coordinates();
    let c1 = chain(t.accdblin, t.p, g, t.acco1, t.lambda1, t.sp.0, t.sg.0);
    let c2 = chain(t.accdblo1, t.p, g, t.acco2, t.lambda2, t.sp.1, t.sg.1);
    let c3 = chain(t.accdblo2, t.p, g, t.acco3, t.lambda3, t.sp.2, t.sg.2);
    let c4 = chain(t.accdblo3, t.p, blended(t.lgs), t.acco4, t.lambda4, t.sp.3, t.sg.3);
    lemma_zeros_concat(c1, c2);
    lemma_zeros_concat(c1 + c2, c3);
    lemma_zeros_concat(c1 + c2 + c3, c4);
    lemma_chain_bits(t.accdblin, t.p, g, t.acco1, t.lambda1, t.sp.0, t.sg.0);
    lemma_chain_bits(t.accdblo1, t.p, g, t.acco2, t.lambda2, t.sp.1, t.sg.1);
    lemma_chain_bits(t.accdblo2, t.p, g, t.acco3, t.lambda3, t.sp.2, t.sg.2);
    lemma_chain_bits(t.accdblo3, t.p, blended(t.lgs), t.acco4, t.lambda4, t.sp.3, t.sg.3);
}

/// A row that satisfies the constraints has bits for selectors, whatever lines it
/// meets.
pub proof fn lemma_row_selectors(t: DoubleAdd4xTargets)
    requires
        t.canonical(),
        row_holds(t),
    ensures
        is_bit(t.sp.0) && is_bit(t.sp.1) && is_bit(t.sp.2) && is_bit(t.sp.3),
        is_bit(t.sg.0) && is_bit(t.sg.1) && is_bit(t.sg.2) && is_bit(t.sg.3),
{
    reveal(row_holds);
    lemma_zeros_concat(doubling_constraints(t), chain_constraints(t));
    lemma_row_bits(t);
}

/// A row without vertical lines satisfies the constraints exactly when its selectors are
/// bits and its points are those that the four steps compute.
pub proof fn lemma_row(t: DoubleAdd4xTargets)
    requires
        t.canonical(),
        row_regular(t),
    ensures
        row_holds(t) <==> row_bits(t) && row_computes(t),
{
    reveal(row_holds);
    let g = generator_coordinates();
    lemma_zeros_concat(doubling_constraints(t), chain_constraints(t));
    lemma_row_doublings(t);
    lemma_fixed_points_canonical();
    lemma_blended();
    if zeros(chain_constraints(t)) {
        lemma_row_bits(t);
    }
    if row_bits(t) {
        let c1 = chain(t.accdblin, t.p, g, t.acco1, t.lambda1, t.sp.0, t.sg.0);
        let c2 = chain(t.accdblo1, t.p, g, t.acco2, t.lambda2, t.sp.1, t.sg.1);
        let c3 = chain(t.accdblo2, t.p, g, t.acco3, t.lambda3, t.sp.2, t.sg.2);
        let c4 = chain(t.accdblo3, t.p, blended(t.lgs), t.acco4, t.lambda4, t.sp.3, t.sg.3);
        lemma_zeros_concat(c1, c2);
        lemma_zeros_concat(c1 + c2, c3);
        lemma_zeros_concat(c1 + c2 + c3, c4);
        assert(blended(t.lgs) == last_point(t.lgs));
        lemma_chain(t.accdblin, t.p, g, t.acco1, t.lambda1, t.sp.0, t.sg.0);
        lemma_chain(t.accdblo1, t.p, g, t.acco2, t.lambda2, t.sp.1, t.sg.1);
        lemma_chain(t.accdblo2, t.p, g, t.acco3, t.lambda3, t.sp.2, t.sg.2);
        lemma_chain(t.accdblo3, t.p, last_point(t.lgs), t.acco4, t.lambda4, t.sp.3, t.sg.3);
    }
}

/// An active compression holds exactly for a point of the curve and an element
/// `w` with `w (a/3 - x) == y`.
pub proof fn lemma_compression(w: QuinticExtension, x: QuinticExtension, y: QuinticExtension)
    requires
        w.canonical(),
        x.canonical(),
        y.canonical(),
    ensures
        zeros(compression(w, x, y, F::of(1))) <==> {
            &&& w * (coeff_a_third() - x) == y
            &&& on_curve(PointEw { x, y, at_inf: false })
        },
{
    let k = coeff_cap_a() * x + coeff_cap_b();
    lemma_mul_canonical(coeff_cap_a() * x, coeff_cap_b());
    lemma_class_self(k);
    assert(F::of(1)@ == 1);
    assert(k@.scale(1) == k@);
    assert(times_base(k, F::of(1)) == k) by {
        crate::quintic_field::lemma_shape(k);
    }
    let lhs = (x * x) * x + k;
    let e1 = equality(w * (coeff_a_third() - x), y);
    let e2 = equality(lhs, y * y);
    lemma_zeros_concat(e1, e2);
    lemma_mul_canonical(w, coeff_a_third() - x);
    lemma_mul_canonical((x * x) * x, k);
    lemma_mul_canonical(y, y);
    lemma_equality(w * (coeff_a_third() - x), y);
    lemma_equality(lhs, y * y);
    crate::quintic::lemma_add_assoc((x * x) * x, coeff_cap_a() * x, coeff_cap_b());
}

/// The element of an active compression is the compressed form of the point.
pub proof fn lemma_compression_encodes(w: QuinticExtension, p: PointEw)
    requires
        w.canonical(),
        p.canonical(),
        !p.at_inf,
        can_encode(p),
    ensures
        w * (coeff_a_third() - p.x) == p.y <==> w == compressed(p),
{
    lemma_of_view(Z5 { c0: 6148914689804861441, c1: 0, c2: 0, c3: 0, c4: 0 });
    let d = coeff_a_third() - p.x;
    lemma_difference_zero(coeff_a_third(), p.x);
    lemma_mul_canonical(coeff_a_third(), p.x);
    lemma_quotient_times(p.y, d);
    lemma_cancel_factor(w, quotient(p.y, d), d);
}

} // verus!
