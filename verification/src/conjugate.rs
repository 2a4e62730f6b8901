//! The Frobenius map of the quintic extension, the norm, and the proof that the
//! extension is a field.
use vstd::arithmetic::div_mod::{lemma_mod_twice, lemma_small_mod};
use vstd::arithmetic::mul::{lemma_mul_is_associative, lemma_mul_is_distributive_add};
use vstd::prelude::*;

use crate::arith::{lemma_cong_add, lemma_cong_mul};
use crate::primes::{goldilocks, lemma_prime_divides_product};
use crate::quintic::{
    lemma_mul_assoc, lemma_mul_comm, lemma_of_equal, lemma_of_view, QuinticExtension,
};
use crate::quintic_ring::{dot, lemma_reduce_add, lemma_reduce_mul, lemma_reduce_twice, Z5};

verus! {

/// A primitive fifth root of unity: `3^((p-1)/5)`.
pub const ROOT1: u64 = 1041288259238279555;

/// Its square.
pub const ROOT2: u64 = 15820824984080659046;

/// Its cube.
pub const ROOT3: u64 = 211587555138949697;

/// Its fourth power.
pub const ROOT4: u64 = 1373043270956696022;

/// The map that multiplies `z` by the fifth root of unity.
pub open spec fn conjugate_poly(a: Z5) -> Z5 {
    Z5 { c0: a.c0, c1: ROOT1 * a.c1, c2: ROOT2 * a.c2, c3: ROOT3 * a.c3, c4: ROOT4 * a.c4 }
}

/// The conjugate of an element; it is the power `p` (see
/// `lemma_frobenius_is_power`).
pub open spec fn conjugate(x: QuinticExtension) -> QuinticExtension {
    QuinticExtension::of(conjugate_poly(x@))
}

proof fn lemma_term(gi: int, gj: int, gk: int, x: int, y: int)
    requires
        (gi * gj) % goldilocks() == gk % goldilocks(),
    ensures
        ((gi * x) * (gj * y)) % goldilocks() == (gk * (x * y)) % goldilocks(),
{
    assert((gi * x) * (gj * y) == (gi * gj) * (x * y)) by (nonlinear_arith);
    lemma_cong_mul(gi * gj, gk, x * y, goldilocks());
}

proof fn lemma_term3(gi: int, gj: int, gk: int, x: int, y: int)
    requires
        (gi * gj) % goldilocks() == gk % goldilocks(),
    ensures
        ((gi * x) * (3 * (gj * y))) % goldilocks() == (gk * (x * (3 * y))) % goldilocks(),
{
    lemma_term(gi, gj, gk, x, 3 * y);
    assert((gi * x) * (3 * (gj * y)) == (gi * x) * (gj * (3 * y))) by (nonlinear_arith);
}

/// Five congruent terms make congruent sums, also with a common factor.
proof fn lemma_sum(x: Z5, k: int, a: Z5, r: Z5, s: int)
    requires
        x.c0 % goldilocks() == (k * (a.c0 * r.c0)) % goldilocks(),
        x.c1 % goldilocks() == (k * (a.c1 * r.c1)) % goldilocks(),
        x.c2 % goldilocks() == (k * (a.c2 * r.c2)) % goldilocks(),
        x.c3 % goldilocks() == (k * (a.c3 * r.c3)) % goldilocks(),
        x.c4 % goldilocks() == (k * (a.c4 * r.c4)) % goldilocks(),
        s == x.c0 + x.c1 + x.c2 + x.c3 + x.c4,
    ensures
        s % goldilocks() == (k * dot(a, r)) % goldilocks(),
{
    let p = goldilocks();
    let (y0, y1, y2, y3, y4) = (
        a.c0 * r.c0,
        a.c1 * r.c1,
        a.c2 * r.c2,
        a.c3 * r.c3,
        a.c4 * r.c4,
    );
    lemma_cong_add(x.c0, k * y0, x.c1, k * y1, p);
    lemma_cong_add(x.c0 + x.c1, k * y0 + k * y1, x.c2, k * y2, p);
    lemma_cong_add(x.c0 + x.c1 + x.c2, k * y0 + k * y1 + k * y2, x.c3, k * y3, p);
    lemma_cong_add(
        x.c0 + x.c1 + x.c2 + x.c3,
        k * y0 + k * y1 + k * y2 + k * y3,
        x.c4,
        k * y4,
        p,
    );
    lemma_mul_is_distributive_add(k, y0, y1);
    lemma_mul_is_distributive_add(k, y0 + y1, y2);
    lemma_mul_is_distributive_add(k, y0 + y1 + y2, y3);
    lemma_mul_is_distributive_add(k, y0 + y1 + y2 + y3, y4);
}

/// The conjugate of a product of polynomials is congruent to the product of the
/// conjugates.
proof fn lemma_conjugate_poly_mul(a: Z5, b: Z5)
    ensures
        conjugate_poly(a * b).reduce() == (conjugate_poly(a) * conjugate_poly(b)).reduce(),
{
    let (g0, g1, g2, g3, g4) = (1int, ROOT1 as int, ROOT2 as int, ROOT3 as int, ROOT4 as int);
    let ca = conjugate_poly(a);
    let cb = conjugate_poly(b);
    // coefficient of 1
    lemma_term(g0, g0, g0, a.c0, b.c0);
    lemma_term3(g1, g4, g0, a.c1, b.c4);
    lemma_term3(g2, g3, g0, a.c2, b.c3);
    lemma_term3(g3, g2, g0, a.c3, b.c2);
    lemma_term3(g4, g1, g0, a.c4, b.c1);
    let r = cb.row(0);
    lemma_sum(
        Z5 {
            c0: ca.c0 * r.c0,
            c1: ca.c1 * r.c1,
            c2: ca.c2 * r.c2,
            c3: ca.c3 * r.c3,
            c4: ca.c4 * r.c4,
        },
        g0,
        a,
        b.row(0),
        dot(ca, r),
    );
    // coefficient of z
    lemma_term(g0, g1, g1, a.c0, b.c1);
    lemma_term(g1, g0, g1, a.c1, b.c0);
    lemma_term3(g2, g4, g1, a.c2, b.c4);
    lemma_term3(g3, g3, g1, a.c3, b.c3);
    lemma_term3(g4, g2, g1, a.c4, b.c2);
    let r = cb.row(1);
    lemma_sum(
        Z5 {
            c0: ca.c0 * r.c0,
            c1: ca.c1 * r.c1,
            c2: ca.c2 * r.c2,
            c3: ca.c3 * r.c3,
            c4: ca.c4 * r.c4,
        },
        g1,
        a,
        b.row(1),
        dot(ca, r),
    );
    // coefficient of z^2
    lemma_term(g0, g2, g2, a.c0, b.c2);
    lemma_term(g1, g1, g2, a.c1, b.c1);
    lemma_term(g2, g0, g2, a.c2, b.c0);
    lemma_term3(g3, g4, g2, a.c3, b.c4);
    lemma_term3(g4, g3, g2, a.c4, b.c3);
    let r = cb.row(2);
    lemma_sum(
        Z5 {
            c0: ca.c0 * r.c0,
            c1: ca.c1 * r.c1,
            c2: ca.c2 * r.c2,
            c3: ca.c3 * r.c3,
            c4: ca.c4 * r.c4,
        },
        g2,
        a,
        b.row(2),
        dot(ca, r),
    );
    // coefficient of z^3
    lemma_term(g0, g3, g3, a.c0, b.c3);
    lemma_term(g1, g2, g3, a.c1, b.c2);
    lemma_term(g2, g1, g3, a.c2, b.c1);
    lemma_term(g3, g0, g3, a.c3, b.c0);
    lemma_term3(g4, g4, g3, a.c4, b.c4);
    let r = cb.row(3);
    lemma_sum(
        Z5 {
            c0: ca.c0 * r.c0,
            c1: ca.c1 * r.c1,
            c2: ca.c2 * r.c2,
            c3: ca.c3 * r.c3,
            c4: ca.c4 * r.c4,
        },
        g3,
        a,
        b.row(3),
        dot(ca, r),
    );
    // coefficient of z^4
    lemma_term(g0, g4, g4, a.c0, b.c4);
    lemma_term(g1, g3, g4, a.c1, b.c3);
    lemma_term(g2, g2, g4, a.c2, b.c2);
    lemma_term(g3, g1, g4, a.c3, b.c1);
    lemma_term(g4, g0, g4, a.c4, b.c0);
    let r = cb.row(4);
    lemma_sum(
        Z5 {
            c0: ca.c0 * r.c0,
            c1: ca.c1 * r.c1,
            c2: ca.c2 * r.c2,
            c3: ca.c3 * r.c3,
            c4: ca.c4 * r.c4,
        },
        g4,
        a,
        b.row(4),
        dot(ca, r),
    );
}

/// Congruent polynomials have congruent conjugates.
proof fn lemma_conjugate_poly_reduce(a: Z5, b: Z5)
    requires
        a.reduce() == b.reduce(),
    ensures
        conjugate_poly(a).reduce() == conjugate_poly(b).reduce(),
{
    let p = goldilocks();
    assert(a.reduce().c0 == b.reduce().c0);
    lemma_cong_mul(a.c1, b.c1, ROOT1 as int, p);
    lemma_cong_mul(a.c2, b.c2, ROOT2 as int, p);
    lemma_cong_mul(a.c3, b.c3, ROOT3 as int, p);
    lemma_cong_mul(a.c4, b.c4, ROOT4 as int, p);
}

/// Conjugation respects products.
pub proof fn lemma_conjugate_mul(x: QuinticExtension, y: QuinticExtension)
    ensures
        conjugate(x * y) == conjugate(x) * conjugate(y),
{
    reveal(QuinticExtension::spec_mul);
    let (a, b) = (x@, y@);
    lemma_of_view(a * b);
    lemma_reduce_twice(a * b);
    lemma_conjugate_poly_reduce((a * b).reduce(), a * b);
    lemma_conjugate_poly_mul(a, b);
    let (ca, cb) = (conjugate_poly(a), conjugate_poly(b));
    lemma_of_view(ca);
    lemma_of_view(cb);
    lemma_reduce_twice(ca);
    lemma_reduce_twice(cb);
    lemma_reduce_mul(ca.reduce(), ca, cb.reduce());
    lemma_reduce_mul(cb.reduce(), cb, ca);
    lemma_of_equal(conjugate_poly((x * y)@), conjugate(x)@ * conjugate(y)@);
}

/// Conjugation respects sums.
pub proof fn lemma_conjugate_add(x: QuinticExtension, y: QuinticExtension)
    ensures
        conjugate(x + y) == conjugate(x) + conjugate(y),
{
    reveal(QuinticExtension::spec_add);
    let (a, b) = (x@, y@);
    lemma_of_view(a + b);
    lemma_reduce_twice(a + b);
    lemma_conjugate_poly_reduce((a + b).reduce(), a + b);
    let (ca, cb) = (conjugate_poly(a), conjugate_poly(b));
    lemma_mul_is_distributive_add(ROOT1 as int, a.c1, b.c1);
    lemma_mul_is_distributive_add(ROOT2 as int, a.c2, b.c2);
    lemma_mul_is_distributive_add(ROOT3 as int, a.c3, b.c3);
    lemma_mul_is_distributive_add(ROOT4 as int, a.c4, b.c4);
    assert(conjugate_poly(a + b) == ca + cb);
    lemma_of_view(ca);
    lemma_of_view(cb);
    lemma_reduce_twice(ca);
    lemma_reduce_twice(cb);
    lemma_reduce_add(ca.reduce(), ca, cb.reduce());
    lemma_reduce_add(cb.reduce(), cb, ca);
    lemma_of_equal(conjugate_poly((x + y)@), conjugate(x)@ + conjugate(y)@);
}

proof fn lemma_root_times(g: int, h: int, k: int, x: int)
    requires
        (g * h) % goldilocks() == k % goldilocks(),
    ensures
        (g * ((h * x) % goldilocks())) % goldilocks() == (k * x) % goldilocks(),
{
    let p = goldilocks();
    lemma_mod_twice(h * x, p);
    lemma_cong_mul((h * x) % p, h * x, g, p);
    lemma_mul_is_associative(g, h, x);
    lemma_cong_mul(g * h, k, x, p);
}

/// The conjugate taken twice.
pub open spec fn conjugate2(x: QuinticExtension) -> QuinticExtension {
    QuinticExtension::of(
        Z5 {
            c0: x.c0@,
            c1: ROOT2 * x.c1@,
            c2: ROOT4 * x.c2@,
            c3: ROOT1 * x.c3@,
            c4: ROOT3 * x.c4@,
        },
    )
}

pub proof fn lemma_conjugate_twice(x: QuinticExtension)
    ensures
        conjugate(conjugate(x)) == conjugate2(x),
{
    let p = goldilocks();
    lemma_mod_twice(x.c0@, p);
    lemma_root_times(ROOT1 as int, ROOT1 as int, ROOT2 as int, x.c1@);
    lemma_root_times(ROOT2 as int, ROOT2 as int, ROOT4 as int, x.c2@);
    lemma_root_times(ROOT3 as int, ROOT3 as int, ROOT1 as int, x.c3@);
    lemma_root_times(ROOT4 as int, ROOT4 as int, ROOT3 as int, x.c4@);
}

/// Five conjugations give the element back.
pub proof fn lemma_conjugate_five(x: QuinticExtension)
    requires
        x.canonical(),
    ensures
        conjugate(conjugate2(conjugate2(x))) == x,
{
    let p = goldilocks();
    lemma_small_mod(x.c0@ as nat, p as nat);
    lemma_small_mod(x.c1@ as nat, p as nat);
    lemma_small_mod(x.c2@ as nat, p as nat);
    lemma_small_mod(x.c3@ as nat, p as nat);
    lemma_small_mod(x.c4@ as nat, p as nat);
    lemma_root_times(ROOT2 as int, ROOT2 as int, ROOT4 as int, x.c1@);
    lemma_root_times(ROOT4 as int, ROOT4 as int, ROOT3 as int, x.c2@);
    lemma_root_times(ROOT1 as int, ROOT1 as int, ROOT2 as int, x.c3@);
    lemma_root_times(ROOT3 as int, ROOT3 as int, ROOT1 as int, x.c4@);
    lemma_root_times(ROOT1 as int, ROOT4 as int, 1, x.c1@);
    lemma_root_times(ROOT2 as int, ROOT3 as int, 1, x.c2@);
    lemma_root_times(ROOT3 as int, ROOT2 as int, 1, x.c3@);
    lemma_root_times(ROOT4 as int, ROOT1 as int, 1, x.c4@);
}

/// The product of the other four conjugates.
pub open spec fn cofactor(x: QuinticExtension) -> QuinticExtension {
    let e = conjugate(x) * conjugate(conjugate(x));
    e * conjugate2(e)
}

/// An element of the base field as an element of the extension.
pub open spec fn konst(k: int) -> QuinticExtension {
    QuinticExtension::of_ints(k, 0, 0, 0, 0)
}

/// The norm: the product of all conjugates, which lies in the base field.
pub open spec fn norm(x: QuinticExtension) -> int {
    (x * cofactor(x)).c0@
}

/// An element that conjugation fixes lies in the base field.
pub proof fn lemma_fixed_is_base(x: QuinticExtension)
    requires
        x.canonical(),
        conjugate(x) == x,
    ensures
        x == konst(x.c0@),
{
    let p = goldilocks();
    lemma_small_mod(0, p as nat);
    lemma_small_mod(x.c0@ as nat, p as nat);
    lemma_fixed_coefficient(ROOT1 as int, x.c1@);
    lemma_fixed_coefficient(ROOT2 as int, x.c2@);
    lemma_fixed_coefficient(ROOT3 as int, x.c3@);
    lemma_fixed_coefficient(ROOT4 as int, x.c4@);
}

proof fn lemma_fixed_coefficient(g: int, c: int)
    requires
        1 < g < goldilocks(),
        0 <= c < goldilocks(),
        (g * c) % goldilocks() == c,
    ensures
        c == 0,
{
    let p = goldilocks();
    lemma_small_mod(c as nat, p as nat);
    lemma_cong_add(g * c, c, c, c, p);
    assert((g - 1) * c == g * c - c) by (nonlinear_arith);
    lemma_prime_divides_product(g - 1, c);
}

/// Conjugation permutes the factors of the norm.
pub proof fn lemma_norm_is_base(x: QuinticExtension)
    requires
        x.canonical(),
    ensures
        x * cofactor(x) == konst(norm(x)),
        0 <= norm(x) < goldilocks(),
{
    reveal(QuinticExtension::spec_mul);
    let s1 = conjugate(x);
    let s2 = conjugate(s1);
    let s3 = conjugate(s2);
    let s4 = conjugate(s3);
    let e = s1 * s2;
    let f = cofactor(x);
    lemma_conjugate_twice(e);
    lemma_conjugate_mul(s1, s2);
    lemma_conjugate_mul(s2, s3);
    assert(conjugate2(e) == s3 * s4);
    // conjugating s1 s2 s3 s4 gives s2 s3 s4 x
    lemma_conjugate_twice(x);
    lemma_conjugate_twice(s2);
    lemma_conjugate_twice(conjugate2(x));
    lemma_conjugate_five(x);
    assert(conjugate(s4) == x);
    lemma_conjugate_mul(e, s3 * s4);
    lemma_conjugate_mul(s3, s4);
    assert(conjugate(f) == (s2 * s3) * (s4 * x));
    lemma_conjugate_mul(x, f);
    // both are the product of the same five factors
    assert(conjugate(x * f) == s1 * ((s2 * s3) * (s4 * x)));
    lemma_mul_assoc(s2, s3, s4 * x);
    lemma_mul_assoc(s3, s4, x);
    lemma_mul_assoc(s1, s2, (s3 * s4) * x);
    lemma_mul_assoc(e, s3 * s4, x);
    lemma_mul_comm(f, x);
    lemma_of_view(x@ * f@);
    lemma_fixed_is_base(x * f);
}

} // verus!
