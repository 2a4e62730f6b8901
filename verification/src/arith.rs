//! Facts of integer arithmetic shared by the other modules.
use vstd::arithmetic::div_mod::{
    lemma_add_mod_noop, lemma_mod_multiples_vanish, lemma_mul_mod_noop_left, lemma_sub_mod_noop,
};
use vstd::arithmetic::mul::{
    lemma_mul_is_associative, lemma_mul_is_commutative, lemma_mul_is_distributive_add_other_way,
};
use vstd::prelude::*;

verus! {

pub(crate) proof fn lemma_mul_swap(x: int, y: int, z: int)
    ensures
        (x * y) * z == (x * z) * y,
{
    lemma_mul_is_associative(x, y, z);
    lemma_mul_is_commutative(y, z);
    lemma_mul_is_associative(x, z, y);
}

/// A sum of five terms with weights, times a factor.
pub(crate) proof fn lemma_weighted_sum_times(
    x: (int, int, int, int, int),
    w1: int,
    w2: int,
    w3: int,
    w4: int,
    m: int,
)
    ensures
        (x.0 + x.1 * w1 + x.2 * w2 + x.3 * w3 + x.4 * w4) * m == x.0 * m + (x.1 * m) * w1 + (x.2
            * m) * w2 + (x.3 * m) * w3 + (x.4 * m) * w4,
{
    let (a, b, c, d, e) = (x.0, x.1 * w1, x.2 * w2, x.3 * w3, x.4 * w4);
    lemma_mul_is_distributive_add_other_way(m, a, b);
    lemma_mul_is_distributive_add_other_way(m, a + b, c);
    lemma_mul_is_distributive_add_other_way(m, a + b + c, d);
    lemma_mul_is_distributive_add_other_way(m, a + b + c + d, e);
    lemma_mul_swap(x.1, w1, m);
    lemma_mul_swap(x.2, w2, m);
    lemma_mul_swap(x.3, w3, m);
    lemma_mul_swap(x.4, w4, m);
}

/// Congruent numbers stay congruent under a common factor.
pub(crate) proof fn lemma_cong_mul(a: int, b: int, c: int, n: int)
    requires
        n > 0,
        a % n == b % n,
    ensures
        (a * c) % n == (b * c) % n,
        (c * a) % n == (c * b) % n,
{
    lemma_mul_mod_noop_left(a, c, n);
    lemma_mul_mod_noop_left(b, c, n);
    lemma_mul_is_commutative(a, c);
    lemma_mul_is_commutative(b, c);
}

/// Sums and differences of congruent numbers are congruent.
pub(crate) proof fn lemma_cong_add(a: int, b: int, c: int, d: int, n: int)
    requires
        n > 0,
        a % n == b % n,
        c % n == d % n,
    ensures
        (a + c) % n == (b + d) % n,
        (a - c) % n == (b - d) % n,
{
    lemma_add_mod_noop(a, c, n);
    lemma_add_mod_noop(b, d, n);
    lemma_sub_mod_noop(a, c, n);
    lemma_sub_mod_noop(b, d, n);
}

/// Adding a multiple of the modulus changes nothing.
pub(crate) proof fn lemma_cong_multiple(a: int, k: int, n: int)
    requires
        n > 0,
    ensures
        (a + k * n) % n == a % n,
{
    lemma_mod_multiples_vanish(k, a, n);
    lemma_mul_is_commutative(k, n);
}

} // verus!
