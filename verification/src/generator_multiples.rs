//! Multiples of the generator: the generator makes a group of prime order, so every
//! multiple of each of its points can be computed, and multiples add and compose as
//! scalars do.
use vstd::arithmetic::div_mod::{lemma_fundamental_div_mod, lemma_mod_bound};
use vstd::arithmetic::power2::{lemma_pow2_adds, lemma_pow2_pos, lemma2_to64, pow2};
use vstd::prelude::*;

use crate::ecgfp5::{
    can_add, can_encode, can_multiply, generator_point, infinity, multiple, on_curve,
    point_add, point_double, PointEw,
};
use crate::generator_order::{lemma_generator_order, lemma_generator_proper};
use crate::group_law::lemma_sum_proper;
use crate::multiples::{
    lemma_multiple_is_times, lemma_times_add, lemma_times_of_order, lemma_times_proper,
    lemma_times_times, times,
};
use crate::order_prime::lemma_order_prime;
use crate::proper::{lemma_proper_regular, proper};
use crate::scalar::{group_order, Scalar};
use crate::signature_laws::lemma_scalar_bits;

verus! {

/// Whether a point belongs to the group that the generator makes.
pub open spec fn generated(p: PointEw) -> bool {
    proper(p) && times(p, group_order()) == infinity()
}

/// The multiples of the generator belong to its group.
pub proof fn lemma_generated(j: nat)
    ensures
        generated(times(generator_point(), j)),
{
    let g = generator_point();
    let n = group_order();
    lemma_generator_proper();
    lemma_generator_order();
    lemma_times_proper(g, j);
    lemma_times_times(g, j, n);
    lemma_times_of_order(g, n, j);
    assert(j * n == n * j) by (nonlinear_arith);
}

/// A point of the group other than infinity has the order of the group: no smaller
/// multiple is at infinity.
pub proof fn lemma_no_smaller_order(p: PointEw, j: nat)
    requires
        generated(p),
        !p.at_inf,
        0 < j < group_order(),
    ensures
        !times(p, j).at_inf,
    decreases j,
{
    let n = group_order();
    lemma_times_proper(p, j);
    if times(p, j).at_inf {
        assert(times(p, j) == infinity());
        if j == 1 {
            assert(times(p, 0) == infinity());
        } else {
            let (k, r) = (n / j, n % j);
            lemma_order_prime();
            assert((n as int) % (j as int) != 0);
            lemma_fundamental_div_mod(n as int, j as int);
            lemma_times_of_order(p, j, k);
            lemma_times_add(p, j * k, r);
            lemma_no_smaller_order(p, r);
        }
    }
}

/// Every multiple of a point of the group by up to twice its order can be computed by
/// doubling and adding.
pub proof fn lemma_can_multiply(p: PointEw, k: nat)
    requires
        generated(p),
        k / 2 < group_order(),
    ensures
        can_multiply(p, k),
        multiple(p, k) == times(p, k),
        proper(multiple(p, k)),
        can_encode(multiple(p, k)),
    decreases k,
{
    if k > 1 && !p.at_inf {
        let h = k / 2;
        lemma_can_multiply(p, h);
        let m = multiple(p, h);
        lemma_no_smaller_order(p, h);
        lemma_proper_regular(m);
        assert(point_add(m, m) == point_double(m));
        lemma_sum_proper(m, m);
        lemma_sum_proper(point_double(m), p);
    }
    lemma_multiple_is_times(p, k);
    if !multiple(p, k).at_inf {
        lemma_proper_regular(multiple(p, k));
    }
}

/// The low 319 bits of a scalar are below twice the order.
proof fn lemma_half_of_bits(v: nat)
    ensures
        (v % pow2(319)) / 2 < group_order(),
{
    lemma_pow2_pos(319);
    lemma_mod_bound(v as int, pow2(319) as int);
    lemma2_to64();
    lemma_pow2_adds(64, 64);
    assert(pow2(128) == 0x1_0000_0000_0000_0000_0000_0000_0000_0000nat);
    lemma_pow2_adds(128, 64);
    assert(pow2(192) == 0x1_0000_0000_0000_0000_0000_0000_0000_0000_0000_0000_0000_0000nat);
    lemma_pow2_adds(192, 64);
    assert(pow2(256)
        == 0x1_0000_0000_0000_0000_0000_0000_0000_0000_0000_0000_0000_0000_0000_0000_0000_0000nat);
    lemma_pow2_adds(256, 32);
    lemma_pow2_adds(288, 31);
}

/// Every scalar has a multiple of the generator, and that multiple a compressed form.
pub proof fn lemma_generator_multiple(v: nat)
    ensures
        can_multiply(generator_point(), v % pow2(319)),
        can_encode(multiple(generator_point(), v % pow2(319))),
        multiple(generator_point(), v % pow2(319)) == times(generator_point(), v % pow2(319)),
        generated(multiple(generator_point(), v % pow2(319))),
{
    let g = generator_point();
    lemma_generator_proper();
    lemma_generator_order();
    lemma_half_of_bits(v);
    lemma_can_multiply(g, v % pow2(319));
    lemma_generated(v % pow2(319));
}

/// Multiples of a multiple of the generator by reduced scalars can be computed, and
/// add and compose as the scalars do; each is at infinity or on the curve.
pub proof fn lemma_scalar_multiples(j: nat, a: nat, b: nat)
    requires
        a < group_order(),
        b < group_order(),
    ensures
        ({
            let p = times(generator_point(), j);
            let n = group_order();
            &&& can_multiply(p, a) && can_multiply(p, b)
            &&& can_add(multiple(p, a), multiple(p, b))
            &&& can_multiply(p, (a + b) % n) && can_multiply(p, (a * b) % n)
            &&& can_multiply(multiple(p, a), b)
            &&& point_add(multiple(p, a), multiple(p, b)) == multiple(p, (a + b) % n)
            &&& multiple(multiple(p, a), b) == multiple(p, (a * b) % n)
            &&& multiple(p, a).at_inf || on_curve(multiple(p, a))
        }),
{
    let g = generator_point();
    let n = group_order();
    let p = times(g, j);
    lemma_generated(j);
    lemma_generated(j * a);
    lemma_generator_proper();
    lemma_times_times(g, j, a);
    lemma_can_multiply(p, a);
    lemma_can_multiply(p, b);
    lemma_mod_bound((a + b) as int, n as int);
    lemma_mod_bound((a * b) as int, n as int);
    lemma_can_multiply(p, (a + b) % n);
    lemma_can_multiply(p, (a * b) % n);
    lemma_can_multiply(multiple(p, a), b);
    lemma_sum_proper(multiple(p, a), multiple(p, b));
    lemma_times_add(p, a, b);
    lemma_times_times(p, a, b);
    lemma_reduced_multiple(p, a + b);
    lemma_reduced_multiple(p, a * b);
}

/// `scalar_mul` on a multiple of the generator: what it gives for two reduced scalars
/// adds up to what it gives for their sum, and what it gives for one after the other
/// is what it gives for their product.
pub proof fn lemma_scalar_mul_laws(
    j: nat,
    a: Scalar,
    b: Scalar,
    sum: Scalar,
    product: Scalar,
)
    requires
        a.reduced(),
        b.reduced(),
        sum.value() == (a.value() + b.value()) % group_order(),
        product.value() == (a.value() * b.value()) % group_order(),
    ensures
        ({
            let p = times(generator_point(), j);
            let scaled = |q: PointEw, s: Scalar| multiple(q, s.value() % pow2(319));
            &&& can_multiply(p, a.value() % pow2(319))
            &&& can_multiply(scaled(p, a), b.value() % pow2(319))
            &&& can_add(scaled(p, a), scaled(p, b))
            &&& point_add(scaled(p, a), scaled(p, b)) == scaled(p, sum)
            &&& scaled(scaled(p, a), b) == scaled(p, product)
            &&& scaled(p, a).at_inf || on_curve(scaled(p, a))
        }),
{
    lemma_mod_bound((a.value() + b.value()) as int, group_order() as int);
    lemma_mod_bound((a.value() * b.value()) as int, group_order() as int);
    lemma_scalar_bits(a.value());
    lemma_scalar_bits(b.value());
    lemma_scalar_bits(sum.value());
    lemma_scalar_bits(product.value());
    lemma_scalar_multiples(j, a.value(), b.value());
}

/// Multiples depend on the factor modulo the order alone.
pub proof fn lemma_reduced_multiple(p: PointEw, a: nat)
    requires
        generated(p),
    ensures
        times(p, a) == times(p, a % group_order()),
{
    let n = group_order();
    let (q, r) = (a / n, a % n);
    lemma_fundamental_div_mod(a as int, n as int);
    lemma_times_of_order(p, n, q);
    lemma_times_add(p, n * q, r);
}

} // verus!
