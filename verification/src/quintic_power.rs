//! Powers in the quintic extension: conjugation is the power `p`; inverses,
//! square roots and the quadratic character.
use vstd::arithmetic::div_mod::{lemma_mod_twice, lemma_small_mod};
use vstd::arithmetic::mul::lemma_mul_is_commutative;
use vstd::arithmetic::power::{lemma_pow0, lemma_pow1, lemma_pow_adds, pow};
use vstd::prelude::*;

use crate::arith::lemma_cong_mul;
use crate::conjugate::{
    cofactor, conjugate, conjugate2, konst, lemma_conjugate_mul, lemma_conjugate_twice,
    lemma_norm_is_base, norm, ROOT1, ROOT2, ROOT3, ROOT4,
};
use crate::field::GoldilocksField;
use crate::primes::{
    binomial, goldilocks, lemma_binomial_above, lemma_binomial_diagonal, lemma_binomial_prime,
    lemma_fermat,
};
use crate::quintic::{
    lemma_add_assoc, lemma_add_comm, lemma_distribute, lemma_mul_assoc, lemma_mul_comm,
    lemma_of_equal, lemma_of_view, lemma_zero_one, QuinticExtension,
};
use crate::quintic_field::{
    lemma_base_inverse, lemma_cofactor_canonical, lemma_konst_add, lemma_konst_mul, lemma_konst_scale,
    lemma_konst_view, lemma_mul_swap_inner, lemma_norm_mul, lemma_norm_zero, lemma_power_next,
    lemma_root_is_power, lemma_shape,
};
use crate::quintic_ring::{lemma_reduce_mul, lemma_reduce_twice, lemma_z5_expand, Z5};
use crate::residue::{squares_to, Legendre, LegendreSymbol, Sqrt};

verus! {

/// The element times itself `n` times.
pub open spec fn qpow(x: QuinticExtension, n: nat) -> QuinticExtension
    decreases n,
{
    if n == 0 {
        QuinticExtension::unit()
    } else {
        x * qpow(x, (n - 1) as nat)
    }
}

pub(crate) proof fn lemma_mul_canonical(x: QuinticExtension, y: QuinticExtension)
    ensures
        (x * y).canonical(),
        (x + y).canonical(),
        (x - y).canonical(),
{
    reveal(QuinticExtension::spec_add);
    reveal(QuinticExtension::spec_sub);
    reveal(QuinticExtension::spec_mul);
    lemma_of_view(x@ * y@);
    lemma_of_view(x@ + y@);
    lemma_of_view(x@ - y@);
}

pub(crate) proof fn lemma_units_canonical()
    ensures
        QuinticExtension::unit().canonical(),
        QuinticExtension::nought().canonical(),
        konst(1) == QuinticExtension::unit(),
        konst(0) == QuinticExtension::nought(),
{
    lemma_konst_view(1);
    lemma_konst_view(0);
}

pub proof fn lemma_qpow_canonical(x: QuinticExtension, n: nat)
    ensures
        qpow(x, n).canonical(),
{
    lemma_units_canonical();
    if n > 0 {
        lemma_mul_canonical(x, qpow(x, (n - 1) as nat));
    }
}

pub(crate) proof fn lemma_one_times(x: QuinticExtension)
    requires
        x.canonical(),
    ensures
        QuinticExtension::unit() * x == x,
        x * QuinticExtension::unit() == x,
        QuinticExtension::nought() + x == x,
        x + QuinticExtension::nought() == x,
        QuinticExtension::nought() * x == QuinticExtension::nought(),
        x * QuinticExtension::nought() == QuinticExtension::nought(),
{
    lemma_zero_one(x);
    lemma_mul_comm(QuinticExtension::unit(), x);
    lemma_mul_comm(QuinticExtension::nought(), x);
    lemma_add_comm(QuinticExtension::nought(), x);
}

pub proof fn lemma_qpow_adds(x: QuinticExtension, m: nat, n: nat)
    ensures
        qpow(x, m + n) == qpow(x, m) * qpow(x, n),
    decreases m,
{
    lemma_qpow_canonical(x, n);
    if m == 0 {
        lemma_one_times(qpow(x, n));
    } else {
        lemma_qpow_adds(x, (m - 1) as nat, n);
        lemma_mul_assoc(x, qpow(x, (m - 1) as nat), qpow(x, n));
    }
}

pub proof fn lemma_qpow_mul(x: QuinticExtension, y: QuinticExtension, n: nat)
    ensures
        qpow(x * y, n) == qpow(x, n) * qpow(y, n),
    decreases n,
{
    lemma_units_canonical();
    if n == 0 {
        lemma_one_times(QuinticExtension::unit());
    } else {
        let m = (n - 1) as nat;
        lemma_qpow_mul(x, y, m);
        lemma_mul_swap_inner(x, y, qpow(x, m), qpow(y, m));
    }
}

pub proof fn lemma_qpow_multiplies(x: QuinticExtension, m: nat, n: nat)
    ensures
        qpow(qpow(x, m), n) == qpow(x, m * n),
    decreases n,
{
    if n == 0 {
        assert(m * 0 == 0);
    } else {
        lemma_qpow_multiplies(x, m, (n - 1) as nat);
        lemma_qpow_adds(x, m, m * ((n - 1) as nat));
        assert(m + m * (n - 1) == m * n) by (nonlinear_arith);
    }
}

pub(crate) proof fn lemma_qpow_one(x: QuinticExtension)
    requires
        x.canonical(),
    ensures
        qpow(x, 1) == x,
        qpow(x, 2) == x * x,
{
    lemma_one_times(x);
    reveal_with_fuel(qpow, 3);
}

proof fn lemma_qpow_konst(k: int, n: nat)
    ensures
        qpow(konst(k), n) == konst(pow(k, n)),
    decreases n,
{
    if n == 0 {
        lemma_pow0(k);
        lemma_units_canonical();
    } else {
        let m = (n - 1) as nat;
        lemma_qpow_konst(k, m);
        lemma_konst_mul(k, pow(k, m));
        lemma_pow_adds(k, 1, m);
        lemma_pow1(k);
    }
}

// The binomial theorem, and from it that the power p respects sums.

spec fn term(u: QuinticExtension, v: QuinticExtension, n: nat, k: nat) -> QuinticExtension {
    if k > n {
        QuinticExtension::nought()
    } else {
        konst(binomial(n, k) as int) * (qpow(u, k) * qpow(v, (n - k) as nat))
    }
}

spec fn partial(u: QuinticExtension, v: QuinticExtension, n: nat, j: nat) -> QuinticExtension
    decreases j,
{
    if j == 0 {
        term(u, v, n, 0)
    } else {
        partial(u, v, n, (j - 1) as nat) + term(u, v, n, j)
    }
}

/// A factor moved into a term.
proof fn lemma_into_term(w: QuinticExtension, c: QuinticExtension, a: QuinticExtension, b: QuinticExtension)
    ensures
        w * (c * (a * b)) == c * ((w * a) * b),
        w * (c * (a * b)) == c * (a * (w * b)),
{
    lemma_mul_assoc(w, c, a * b);
    lemma_mul_comm(w, c);
    lemma_mul_assoc(c, w, a * b);
    lemma_mul_assoc(w, a, b);
    lemma_mul_comm(w, a);
    lemma_mul_assoc(a, w, b);
}

proof fn lemma_term_canonical(u: QuinticExtension, v: QuinticExtension, n: nat, k: nat)
    ensures
        term(u, v, n, k).canonical(),
{
    lemma_units_canonical();
    if k <= n {
        lemma_mul_canonical(konst(binomial(n, k) as int), qpow(u, k) * qpow(v, (n - k) as nat));
    }
}

proof fn lemma_partial_canonical(u: QuinticExtension, v: QuinticExtension, n: nat, j: nat)
    ensures
        partial(u, v, n, j).canonical(),
{
    lemma_term_canonical(u, v, n, 0);
    if j > 0 {
        lemma_mul_canonical(partial(u, v, n, (j - 1) as nat), term(u, v, n, j));
    }
}

proof fn lemma_term_step(u: QuinticExtension, v: QuinticExtension, n: nat, k: nat)
    requires
        n >= 1,
        k >= 1,
        u.canonical(),
        v.canonical(),
    ensures
        term(u, v, n, k) == u * term(u, v, (n - 1) as nat, (k - 1) as nat) + v * term(
            u,
            v,
            (n - 1) as nat,
            k,
        ),
{
    let m = (n - 1) as nat;
    let i = (k - 1) as nat;
    lemma_units_canonical();
    lemma_one_times(u);
    lemma_one_times(v);
    if k > n {
        lemma_one_times(QuinticExtension::nought());
    } else {
        let d = qpow(u, k) * qpow(v, (n - k) as nat);
        let (x, y) = (binomial(m, i) as int, binomial(m, k) as int);
        lemma_into_term(u, konst(x), qpow(u, i), qpow(v, (n - k) as nat));
        assert(u * term(u, v, m, i) == konst(x) * d);
        lemma_mul_canonical(konst(x), d);
        if k == n {
            lemma_binomial_above(m, k);
            lemma_one_times(konst(x) * d);
        } else {
            lemma_into_term(v, konst(y), qpow(u, k), qpow(v, (m - k) as nat));
            assert(v * term(u, v, m, k) == konst(y) * d);
            lemma_distribute(konst(x), konst(y), d);
            lemma_konst_add(x, y);
        }
    }
}

proof fn lemma_term_zero(u: QuinticExtension, v: QuinticExtension, n: nat)
    ensures
        term(u, v, n, 0) == qpow(v, n),
{
    lemma_units_canonical();
    lemma_qpow_canonical(v, n);
    lemma_one_times(qpow(v, n));
    assert(binomial(n, 0) == 1);
}

proof fn lemma_partial_step(u: QuinticExtension, v: QuinticExtension, n: nat, j: nat)
    requires
        n >= 1,
        j >= 1,
        u.canonical(),
        v.canonical(),
    ensures
        partial(u, v, n, j) == u * partial(u, v, (n - 1) as nat, (j - 1) as nat) + v * partial(
            u,
            v,
            (n - 1) as nat,
            j,
        ),
    decreases j,
{
    let m = (n - 1) as nat;
    let i = (j - 1) as nat;
    lemma_term_step(u, v, n, j);
    let (ut, vt) = (u * term(u, v, m, i), v * term(u, v, m, j));
    if j == 1 {
        lemma_term_zero(u, v, n);
        lemma_term_zero(u, v, m);
        let v0 = v * term(u, v, m, 0);
        assert(term(u, v, n, 0) == v0);
        // v0 + (ut + vt) == ut + (v0 + vt)
        lemma_add_assoc(v0, ut, vt);
        lemma_add_comm(v0, ut);
        lemma_add_assoc(ut, v0, vt);
        lemma_distribute(term(u, v, m, 0), term(u, v, m, 1), v);
        assert(partial(u, v, m, 1) == partial(u, v, m, 0) + term(u, v, m, 1));
        assert(partial(u, v, n, 1) == partial(u, v, n, 0) + term(u, v, n, 1));
    } else {
        lemma_partial_step(u, v, n, i);
        let (up, vp) = (u * partial(u, v, m, (i - 1) as nat), v * partial(u, v, m, i));
        // (up + vp) + (ut + vt) == (up + ut) + (vp + vt)
        lemma_add_assoc(up, vp, ut + vt);
        lemma_add_assoc(vp, ut, vt);
        lemma_add_comm(vp, ut);
        lemma_add_assoc(ut, vp, vt);
        lemma_add_assoc(up, ut, vp + vt);
        lemma_distribute(partial(u, v, m, (i - 1) as nat), term(u, v, m, i), u);
        lemma_distribute(partial(u, v, m, i), term(u, v, m, j), v);
    }
}

proof fn lemma_binomial_theorem(u: QuinticExtension, v: QuinticExtension, n: nat)
    requires
        u.canonical(),
        v.canonical(),
    ensures
        partial(u, v, n, n) == qpow(u + v, n),
    decreases n,
{
    if n == 0 {
        lemma_term_zero(u, v, 0);
    } else {
        let m = (n - 1) as nat;
        lemma_binomial_theorem(u, v, m);
        lemma_partial_step(u, v, n, n);
        let b = partial(u, v, m, m);
        lemma_partial_canonical(u, v, m, m);
        lemma_one_times(b);
        assert(partial(u, v, m, n) == b + term(u, v, m, n));
        assert(term(u, v, m, n) == QuinticExtension::nought());
        lemma_distribute(u, v, b);
    }
}

proof fn lemma_partial_prime(u: QuinticExtension, v: QuinticExtension, j: nat)
    requires
        j < goldilocks(),
    ensures
        partial(u, v, goldilocks() as nat, j) == qpow(v, goldilocks() as nat),
    decreases j,
{
    let p = goldilocks() as nat;
    lemma_term_zero(u, v, p);
    if j > 0 {
        lemma_partial_prime(u, v, (j - 1) as nat);
        lemma_binomial_prime(j);
        lemma_konst_view(binomial(p, j) as int);
        lemma_units_canonical();
        let d = qpow(u, j) * qpow(v, (p - j) as nat);
        lemma_mul_canonical(qpow(u, j), qpow(v, (p - j) as nat));
        lemma_one_times(d);
        lemma_qpow_canonical(v, p);
        lemma_one_times(qpow(v, p));
    }
}

/// The power `p` of a sum is the sum of the powers.
pub proof fn lemma_power_p_adds(u: QuinticExtension, v: QuinticExtension)
    requires
        u.canonical(),
        v.canonical(),
    ensures
        qpow(u + v, goldilocks() as nat) == qpow(u, goldilocks() as nat) + qpow(
            v,
            goldilocks() as nat,
        ),
{
    let p = goldilocks() as nat;
    lemma_binomial_theorem(u, v, p);
    lemma_partial_prime(u, v, (p - 1) as nat);
    lemma_binomial_diagonal(p);
    lemma_units_canonical();
    lemma_qpow_canonical(u, p);
    lemma_one_times(qpow(u, p));
    let d = qpow(u, p) * qpow(v, 0);
    lemma_mul_canonical(qpow(u, p), qpow(v, 0));
    lemma_one_times(d);
    assert(term(u, v, p, p) == qpow(u, p));
    lemma_add_comm(qpow(u, p), qpow(v, p));
}

/// The element `z`.
spec fn gen_z() -> QuinticExtension {
    QuinticExtension::of_ints(0, 1, 0, 0, 0)
}

/// A multiple of a power of `z`.
spec fn mono(k: int, i: int) -> QuinticExtension {
    if i == 0 {
        QuinticExtension::of_ints(k, 0, 0, 0, 0)
    } else if i == 1 {
        QuinticExtension::of_ints(0, k, 0, 0, 0)
    } else if i == 2 {
        QuinticExtension::of_ints(0, 0, k, 0, 0)
    } else if i == 3 {
        QuinticExtension::of_ints(0, 0, 0, k, 0)
    } else {
        QuinticExtension::of_ints(0, 0, 0, 0, k)
    }
}

proof fn lemma_z_times(k: int, i: int)
    requires
        0 <= i <= 4,
    ensures
        gen_z() * mono(k, i) == if i == 4 { mono(3 * k, 0) } else { mono(k, i + 1) },
        mono(k, i).canonical(),
{
    reveal(QuinticExtension::spec_mul);
    let p = goldilocks();
    let zz = Z5 { c0: 0, c1: 1, c2: 0, c3: 0, c4: 0 };
    let m = if i == 0 {
        Z5 { c0: k, c1: 0, c2: 0, c3: 0, c4: 0 }
    } else if i == 1 {
        Z5 { c0: 0, c1: k, c2: 0, c3: 0, c4: 0 }
    } else if i == 2 {
        Z5 { c0: 0, c1: 0, c2: k, c3: 0, c4: 0 }
    } else if i == 3 {
        Z5 { c0: 0, c1: 0, c2: 0, c3: k, c4: 0 }
    } else {
        Z5 { c0: 0, c1: 0, c2: 0, c3: 0, c4: k }
    };
    lemma_of_view(m);
    lemma_of_view(zz);
    lemma_reduce_twice(m);
    lemma_reduce_twice(zz);
    lemma_reduce_mul(zz.reduce(), zz, m.reduce());
    lemma_reduce_mul(m.reduce(), m, zz);
    lemma_z5_expand(zz, m);
    assert(zz * m == m.shift());
    lemma_of_equal(gen_z()@ * mono(k, i)@, m.shift());
}

/// The power `p` of `k z^i`.
proof fn lemma_mono_power(k: int, i: nat)
    requires
        0 <= k < goldilocks(),
        i <= 4,
    ensures
        qpow(mono(k, i as int), goldilocks() as nat) == mono(root_power(i) * k, i as int),
{
    let p = goldilocks() as nat;
    let z = gen_z();
    lemma_z_times(1, 0);
    lemma_z_times(1, 1);
    lemma_z_times(1, 2);
    lemma_z_times(1, 3);
    lemma_z_times(1, 4);
    lemma_units_canonical();
    lemma_qpow_one(z);
    // the powers of z
    reveal_with_fuel(qpow, 6);
    lemma_one_times(z);
    assert(qpow(z, 0) == mono(1, 0));
    assert(qpow(z, 1) == mono(1, 1));
    assert(qpow(z, 2) == mono(1, 2));
    assert(qpow(z, 3) == mono(1, 3));
    assert(qpow(z, 4) == mono(1, 4));
    assert(qpow(z, 5) == konst(3));
    // z^p
    let e: nat = 3689348813882916864;
    lemma_qpow_multiplies(z, 5, e);
    lemma_qpow_konst(3, e);
    lemma_root_is_power();
    lemma_konst_view(pow(3, e));
    lemma_qpow_adds(z, 5 * e, 1);
    assert(qpow(z, p) == konst(ROOT1 as int) * z);
    // (z^i)^p == (z^p)^i
    lemma_qpow_multiplies(z, i, p);
    lemma_qpow_multiplies(z, p, i);
    lemma_mul_is_commutative(i as int, p as int);
    lemma_qpow_mul(konst(ROOT1 as int), z, i);
    lemma_qpow_konst(ROOT1 as int, i);
    lemma_root_powers(i);
    // k^p == k
    let kk = konst(k);
    lemma_konst_view(k);
    lemma_qpow_konst(k, p);
    if k == 0 {
        vstd::arithmetic::power::lemma0_pow(p);
    } else {
        lemma_fermat(k);
        lemma_pow_adds(k, 1, (p - 1) as nat);
        lemma_pow1(k);
        lemma_cong_mul(pow(k, (p - 1) as nat), 1, k, p as int);
        lemma_small_mod(k as nat, p);
    }
    lemma_konst_view(pow(k, p));
    assert(qpow(kk, p) == kk);
    let g = root_power(i);
    lemma_konst_view(g);
    lemma_konst_view(pow(ROOT1 as int, i));
    assert(qpow(qpow(z, i), p) == konst(g) * qpow(z, i));
    // together
    lemma_mono_scale(k, 1, i as int);
    lemma_qpow_mul(kk, qpow(z, i), p);
    lemma_mono_scale(g, 1, i as int);
    lemma_mono_scale(k, g, i as int);
    lemma_mul_is_commutative(k, g);
    assert(k * 1 == k && g * 1 == g);
}

/// The power `i` of the fifth root of unity.
spec fn root_power(i: nat) -> int {
    if i == 0 {
        1
    } else if i == 1 {
        ROOT1 as int
    } else if i == 2 {
        ROOT2 as int
    } else if i == 3 {
        ROOT3 as int
    } else {
        ROOT4 as int
    }
}

proof fn lemma_root_powers(i: nat)
    requires
        i <= 4,
    ensures
        pow(ROOT1 as int, i) % goldilocks() == root_power(i),
{
    lemma_pow0(ROOT1 as int);
    lemma_pow1(ROOT1 as int);
    lemma_power_next(ROOT1 as int, 1, ROOT1 as int, ROOT2 as int);
    lemma_power_next(ROOT1 as int, 2, ROOT2 as int, ROOT3 as int);
    lemma_power_next(ROOT1 as int, 3, ROOT3 as int, ROOT4 as int);
}

proof fn lemma_mono_scale(j: int, k: int, i: int)
    requires
        0 <= i <= 4,
    ensures
        konst(j) * mono(k, i) == mono(j * k, i),
{
    let p = goldilocks();
    lemma_konst_scale(j, mono(k, i));
    lemma_z_times(k, i);
    lemma_small_mod(0, p as nat);
    lemma_mod_twice(k, p);
    lemma_cong_mul(k % p, k, j, p);
    assert(j * 0 == 0);
}

/// An element as the sum of its terms.
proof fn lemma_as_sum(c0: int, c1: int, c2: int, c3: int, c4: int)
    ensures
        (((mono(c0, 0) + mono(c1, 1)) + mono(c2, 2)) + mono(c3, 3)) + mono(c4, 4)
            == QuinticExtension::of_ints(c0, c1, c2, c3, c4),
{
    reveal(QuinticExtension::spec_add);
    let p = goldilocks();
    lemma_small_mod(0, p as nat);
    lemma_mod_twice(c0, p);
    lemma_mod_twice(c1, p);
    lemma_mod_twice(c2, p);
    lemma_mod_twice(c3, p);
    lemma_mod_twice(c4, p);
}

/// Conjugation is the power `p`.
pub proof fn lemma_frobenius_is_power(x: QuinticExtension)
    requires
        x.canonical(),
    ensures
        conjugate(x) == qpow(x, goldilocks() as nat),
{
    let p = goldilocks() as nat;
    let (c0, c1, c2, c3, c4) = (x.c0@, x.c1@, x.c2@, x.c3@, x.c4@);
    lemma_shape(x);
    lemma_as_sum(c0, c1, c2, c3, c4);
    let (m0, m1, m2, m3, m4) = (mono(c0, 0), mono(c1, 1), mono(c2, 2), mono(c3, 3), mono(c4, 4));
    lemma_z_times(c0, 0);
    lemma_z_times(c1, 1);
    lemma_z_times(c2, 2);
    lemma_z_times(c3, 3);
    lemma_z_times(c4, 4);
    lemma_mul_canonical(m0, m1);
    lemma_mul_canonical(m0 + m1, m2);
    lemma_mul_canonical((m0 + m1) + m2, m3);
    lemma_power_p_adds(m0, m1);
    lemma_power_p_adds(m0 + m1, m2);
    lemma_power_p_adds((m0 + m1) + m2, m3);
    lemma_power_p_adds(((m0 + m1) + m2) + m3, m4);
    lemma_mono_power(c0, 0);
    lemma_mono_power(c1, 1);
    lemma_mono_power(c2, 2);
    lemma_mono_power(c3, 3);
    lemma_mono_power(c4, 4);
    lemma_as_sum(1 * c0, ROOT1 * c1, ROOT2 * c2, ROOT3 * c3, ROOT4 * c4);
}

// Inverses.

/// The inverse of an element that is not zero.
pub proof fn lemma_inverse(x: QuinticExtension, i: int)
    requires
        x.canonical(),
        (norm(x) * i) % goldilocks() == 1,
    ensures
        x * (konst(i) * cofactor(x)) == QuinticExtension::unit(),
{
    let f = cofactor(x);
    lemma_mul_comm(konst(i), f);
    lemma_mul_assoc(x, f, konst(i));
    lemma_norm_is_base(x);
    lemma_konst_mul(norm(x), i);
    lemma_konst_view(norm(x) * i);
    lemma_units_canonical();
}

/// A product of non-zero elements is not zero: `x` has an inverse.
pub proof fn lemma_cancel(x: QuinticExtension, i: QuinticExtension, a: QuinticExtension, b: QuinticExtension)
    requires
        a.canonical(),
        b.canonical(),
        x * i == QuinticExtension::unit(),
        a * x == b * x,
    ensures
        a == b,
{
    lemma_mul_assoc(a, x, i);
    lemma_mul_assoc(b, x, i);
    lemma_one_times(a);
    lemma_one_times(b);
}

/// The conjugate taken `n` times.
pub open spec fn conjugate_times(x: QuinticExtension, n: nat) -> QuinticExtension
    decreases n,
{
    if n == 0 {
        x
    } else {
        conjugate(conjugate_times(x, (n - 1) as nat))
    }
}

impl QuinticExtension {
    /// The power `p` of the element.
    pub fn frobenius(&self) -> (r: Self)
        ensures
            r == conjugate(*self),
            r == qpow(*self, goldilocks() as nat),
    {
        self.show_canonical();
        proof {
            lemma_frobenius_is_power(*self);
            lemma_small_mod(self.c0@ as nat, goldilocks() as nat);
        }
        QuinticExtension {
            c0: self.c0,
            c1: GoldilocksField::from_canonical_u64(ROOT1) * self.c1,
            c2: GoldilocksField::from_canonical_u64(ROOT2) * self.c2,
            c3: GoldilocksField::from_canonical_u64(ROOT3) * self.c3,
            c4: GoldilocksField::from_canonical_u64(ROOT4) * self.c4,
        }
    }

    /// The Frobenius map applied `count` times.
    pub fn repeated_frobenius(&self, count: usize) -> (r: Self)
        ensures
            r == conjugate_times(*self, count as nat),
    {
        let mut r = *self;
        for i in 0..count
            invariant
                r == conjugate_times(*self, i as nat),
        {
            r = r.frobenius();
        }
        r
    }

    /// The product of the other four conjugates.
    fn conjugate_product(&self) -> (r: Self)
        ensures
            r == cofactor(*self),
    {
        let d = self.frobenius();
        let e = d * d.frobenius();
        proof {
            reveal_with_fuel(conjugate_times, 3);
            lemma_conjugate_twice(e);
        }
        e * e.repeated_frobenius(2)
    }

    /// The multiplicative inverse; zero has none.
    pub fn try_inverse(&self) -> (r: Option<Self>)
        ensures
            r is None <==> *self == Self::nought(),
            r matches Some(i) ==> *self * i == Self::unit() && i * *self == Self::unit(),
    {
        if self.is_zero() {
            None
        } else {
            Some(self.inverse())
        }
    }

    /// The multiplicative inverse of a non-zero element.
    pub fn inverse(&self) -> (r: Self)
        requires
            *self != Self::nought(),
        ensures
            *self * r == Self::unit(),
            r * *self == Self::unit(),
    {
        let f = self.conjugate_product();
        let g = *self * f;
        self.show_canonical();
        proof {
            lemma_norm_is_base(*self);
            if norm(*self) == 0 {
                lemma_norm_zero(*self);
            }
        }
        let i = g.c0.inverse();
        let r = f.scalar_mul(i);
        proof {
            lemma_inverse(*self, i@);
            lemma_konst_scale(i@, f);
            lemma_mul_comm(*self, r);
        }
        r
    }

    /// The quotient by a non-zero element.
    pub fn div_by(&self, d: &Self) -> (r: Self)
        requires
            *d != Self::nought(),
        ensures
            r * *d == *self,
            r.canonical(),
    {
        let i = d.inverse();
        let r = *self * i;
        self.show_canonical();
        proof {
            lemma_mul_assoc(*self, i, *d);
            lemma_one_times(*self);
        }
        r.show_canonical();
        r
    }

    /// The power `e` of the element.
    pub fn exp_u64(&self, e: u64) -> (r: Self)
        ensures
            r == qpow(*self, e as nat),
    {
        let mut current = *self;
        let mut product = Self::one();
        let mut rest = e;
        proof {
            lemma_qpow_canonical(*self, e as nat);
            lemma_one_times(qpow(*self, e as nat));
        }
        while rest > 0
            invariant
                product * qpow(current, rest as nat) == qpow(*self, e as nat),
            decreases rest,
        {
            current.show_canonical();
            let next = current * current;
            proof {
                let h = (rest / 2) as nat;
                lemma_qpow_one(current);
                lemma_qpow_multiplies(current, 2, h);
                if rest % 2 == 1 {
                    lemma_qpow_adds(current, 1, 2 * h);
                    lemma_mul_assoc(product, current, qpow(next, h));
                }
            }
            if rest % 2 == 1 {
                product = product * current;
            }
            current = next;
            rest = rest / 2;
        }
        product.show_canonical();
        proof {
            lemma_one_times(product);
        }
        product
    }
}

// Square roots.

/// Whether the square of `s` is `x`.
pub open spec fn qsquares_to(s: QuinticExtension, x: QuinticExtension) -> bool {
    s * s == x
}

/// The element whose square is the product of the other four conjugates: the
/// power `(r - 1) / 2` with `r = 1 + p + p^2 + p^3 + p^4`.
spec fn half_cofactor(x: QuinticExtension) -> QuinticExtension {
    let u = qpow(x, 0x7fff_ffff_8000_0001);
    conjugate(u * conjugate2(u))
}

proof fn lemma_half_cofactor(x: QuinticExtension)
    requires
        x.canonical(),
    ensures
        half_cofactor(x) * half_cofactor(x) == cofactor(x),
        half_cofactor(x).canonical(),
{
    let h: nat = 0x7fff_ffff_8000_0001;
    let u = qpow(x, h);
    let p = goldilocks() as nat;
    // u * u == x * conjugate(x)
    lemma_qpow_adds(x, h, h);
    lemma_qpow_adds(x, 1, p);
    lemma_qpow_one(x);
    lemma_frobenius_is_power(x);
    let w = x * conjugate(x);
    assert(u * u == w);
    let v = conjugate2(u);
    lemma_conjugate_twice(u);
    lemma_conjugate_twice(w);
    lemma_conjugate_mul(u, u);
    lemma_conjugate_mul(conjugate(u), conjugate(u));
    assert(v * v == conjugate2(w));
    lemma_mul_swap_inner(u, v, u, v);
    lemma_conjugate_mul(u * v, u * v);
    lemma_conjugate_mul(w, conjugate2(w));
    lemma_conjugate_mul(x, conjugate(x));
    let e = conjugate(w);
    lemma_conjugate_twice(e);
    lemma_of_view(crate::conjugate::conjugate_poly((u * v)@));
}

/// From a root of the norm, a root of the element.
proof fn lemma_root_from_norm(x: QuinticExtension, m: int, i: QuinticExtension)
    requires
        x.canonical(),
        (m * m) % goldilocks() == norm(x),
        half_cofactor(x) * i == QuinticExtension::unit(),
    ensures
        qsquares_to(konst(m) * i, x),
{
    let t = half_cofactor(x);
    lemma_half_cofactor(x);
    lemma_norm_is_base(x);
    lemma_konst_mul(m, m);
    lemma_konst_view(m * m);
    lemma_mul_swap_inner(konst(m), i, konst(m), i);
    // konst(norm) * (i * i) == (x * (t * t)) * (i * i) == x
    lemma_mul_assoc(x, t * t, i * i);
    lemma_mul_swap_inner(t, t, i, i);
    lemma_units_canonical();
    lemma_one_times(QuinticExtension::unit());
    lemma_one_times(x);
}

/// The half cofactor of a non-zero element is not zero.
proof fn lemma_half_cofactor_nonzero(x: QuinticExtension)
    requires
        x.canonical(),
        x != QuinticExtension::nought(),
    ensures
        half_cofactor(x) != QuinticExtension::nought(),
        norm(x) != 0,
{
    lemma_half_cofactor(x);
    lemma_norm_is_base(x);
    if norm(x) == 0 {
        lemma_norm_zero(x);
    }
    if half_cofactor(x) == QuinticExtension::nought() {
        lemma_units_canonical();
        lemma_one_times(QuinticExtension::nought());
        lemma_one_times(x);
        lemma_konst_view(norm(x));
        lemma_konst_view(0);
        lemma_small_mod(norm(x) as nat, goldilocks() as nat);
    }
}

/// The norm of a square is a square.
proof fn lemma_norm_of_square(s: QuinticExtension, x: QuinticExtension)
    requires
        qsquares_to(s, x),
    ensures
        exists|m: GoldilocksField| #[trigger] squares_to(m, GoldilocksField::of(norm(x))),
{
    reveal(QuinticExtension::spec_mul);
    let c = QuinticExtension::of(s@);
    lemma_of_view(s@);
    lemma_reduce_twice(s@);
    lemma_reduce_mul(s@.reduce(), s@, s@.reduce());
    lemma_reduce_mul(s@.reduce(), s@, s@);
    lemma_of_equal(c@ * c@, s@ * s@);
    lemma_norm_mul(c, c);
    let n = norm(c);
    lemma_norm_is_base(c);
    let m = GoldilocksField::of(n);
    lemma_small_mod(n as nat, goldilocks() as nat);
    lemma_mod_twice(n * n, goldilocks());
    assert(squares_to(m, GoldilocksField::of(norm(x))));
}

/// An element is a square exactly when its norm is one.
pub proof fn lemma_square_iff_norm(x: QuinticExtension)
    requires
        x.canonical(),
        x != QuinticExtension::nought(),
    ensures
        (exists|s: QuinticExtension| #[trigger] qsquares_to(s, x)) <==> (exists|m: GoldilocksField|
            #[trigger] squares_to(m, GoldilocksField::of(norm(x)))),
{
    if exists|s: QuinticExtension| #[trigger] qsquares_to(s, x) {
        let s = choose|s: QuinticExtension| #[trigger] qsquares_to(s, x);
        lemma_norm_of_square(s, x);
    }
    if exists|m: GoldilocksField| #[trigger] squares_to(m, GoldilocksField::of(norm(x))) {
        let m = choose|m: GoldilocksField| #[trigger] squares_to(m, GoldilocksField::of(norm(x)));
        let t = half_cofactor(x);
        lemma_norm_is_base(x);
        lemma_small_mod(norm(x) as nat, goldilocks() as nat);
        lemma_half_cofactor(x);
        lemma_half_cofactor_nonzero(x);
        lemma_norm_is_base(t);
        if norm(t) == 0 {
            lemma_norm_zero(t);
        }
        let k = lemma_base_inverse(norm(t));
        lemma_inverse(t, k);
        let i = konst(k) * cofactor(t);
        lemma_root_from_norm(x, m@, i);
        assert(qsquares_to(konst(m@) * i, x));
    }
}

impl Legendre for QuinticExtension {
    open spec fn character(self) -> LegendreSymbol {
        if self == QuinticExtension::nought() {
            LegendreSymbol::ZERO
        } else if exists|s: QuinticExtension| #[trigger] qsquares_to(s, self) {
            LegendreSymbol::ONE
        } else {
            LegendreSymbol::NEGONE
        }
    }

    fn legendre(&self) -> (r: LegendreSymbol) {
        let n = *self * self.conjugate_product();
        self.show_canonical();
        proof {
            lemma_norm_is_base(*self);
            lemma_small_mod(norm(*self) as nat, goldilocks() as nat);
            assert(n.c0 == GoldilocksField::of(norm(*self)));
            if *self == QuinticExtension::nought() {
                lemma_cofactor_canonical(*self);
                lemma_one_times(cofactor(*self));
            } else {
                lemma_half_cofactor_nonzero(*self);
                lemma_square_iff_norm(*self);
            }
        }
        n.c0.legendre()
    }
}

impl Sqrt for QuinticExtension {
    open spec fn root_of(self, x: QuinticExtension) -> bool {
        qsquares_to(self, x)
    }

    fn sqrt(&self) -> (r: Option<QuinticExtension>) {
        let x = *self;
        x.show_canonical();
        if x.is_zero() {
            proof {
                lemma_one_times(x);
            }
            return Some(x);
        }
        let u = x.exp_u64(0x7fff_ffff_8000_0001);
        let t = (u * u.repeated_frobenius(2)).frobenius();
        proof {
            reveal_with_fuel(conjugate_times, 3);
            lemma_conjugate_twice(u);
            lemma_half_cofactor(x);
            lemma_half_cofactor_nonzero(x);
            lemma_norm_is_base(x);
            lemma_small_mod(norm(x) as nat, goldilocks() as nat);
        }
        let n = x * t.square();
        assert(n.c0 == GoldilocksField::of(norm(x)));
        match n.c0.sqrt() {
            Some(m) => {
                let i = t.inverse();
                let r = i.scalar_mul(m);
                proof {
                    lemma_konst_scale(m@, i);
                    lemma_root_from_norm(x, m@, i);
                }
                Some(r)
            },
            None => {
                proof {
                    assert forall|s: QuinticExtension| !#[trigger] s.root_of(x) by {
                        if s.root_of(x) {
                            lemma_norm_of_square(s, x);
                            let m = choose|m: GoldilocksField| #[trigger]
                                squares_to(m, GoldilocksField::of(norm(x)));
                            assert(m.root_of(n.c0));
                        }
                    }
                }
                None
            },
        }
    }
}

} // verus!
