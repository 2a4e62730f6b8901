//! The Goldilocks prime `2^64 - 2^32 + 1`: that it is prime, and Fermat's
//! theorem for it.
use vstd::arithmetic::div_mod::{
    lemma_fundamental_div_mod, lemma_mod_mod, lemma_mod_multiples_basic, lemma_mul_mod_noop_general,
    lemma_small_mod,
};
use vstd::arithmetic::mul::{
    lemma_mul_is_associative, lemma_mul_is_commutative, lemma_mul_is_distributive_add,
    lemma_mul_is_distributive_add_other_way,
};
use vstd::arithmetic::power::{
    lemma0_pow, lemma1_pow, lemma_pow0, lemma_pow1, lemma_pow_adds, lemma_pow_mod_noop,
    lemma_pow_multiplies, pow,
};
use vstd::arithmetic::power2::{lemma2_to64, lemma_pow2_adds, lemma_pow2_strictly_increases, pow2};
use vstd::prelude::*;
use vstd::set_lib::{lemma_int_range, lemma_len_subset, lemma_map_size, set_int_range};

use crate::arith::{lemma_cong_add, lemma_cong_mul, lemma_mul_swap};

verus! {

/// The order of the field.
pub open spec fn goldilocks() -> int {
    0xffff_ffff_0000_0001
}

/// A number greater than one that no smaller number greater than one divides.
pub open spec fn prime(n: int) -> bool {
    n > 1 && forall|d: int| 1 < d < n ==> #[trigger] (n % d) != 0
}

pub(crate) proof fn lemma_pow_cong(b: int, c: int, e: nat, n: int)
    requires
        n > 0,
        b % n == c % n,
    ensures
        pow(b, e) % n == pow(c, e) % n,
{
    lemma_pow_mod_noop(b, e, n);
    lemma_pow_mod_noop(c, e, n);
}

proof fn lemma_minus_one_odd_power(o: nat)
    requires
        o % 2 == 1,
    ensures
        pow(-1, o) == -1,
{
    let h = o / 2;
    lemma_pow_adds(-1, 2 * h, 1);
    lemma_pow1(-1);
    lemma_pow_multiplies(-1, 2, h);
    lemma_pow_adds(-1, 1, 1);
    lemma1_pow(h);
}

/// Every positive number is a power of two times an odd number.
proof fn lemma_two_adic(d: nat) -> (r: (nat, nat))
    requires
        d > 0,
    ensures
        d == pow2(r.0) * r.1,
        r.1 % 2 == 1,
    decreases d,
{
    if d % 2 == 1 {
        lemma2_to64();
        (0, d)
    } else {
        let (s, o) = lemma_two_adic(d / 2);
        lemma_pow2_adds(1, s);
        lemma2_to64();
        lemma_mul_is_associative(2, pow2(s) as int, o as int);
        (s + 1, o)
    }
}

/// A number whose `2^k`-th power is minus one has no smaller power equal to one.
proof fn lemma_no_small_order(b: int, k: nat, q: int, d: nat)
    requires
        q > 2,
        pow(b, pow2(k)) % q == (-1) % q,
        0 < d < pow2(k + 1),
    ensures
        pow(b, d) % q != 1,
{
    if pow(b, d) % q == 1 {
        let (s, o) = lemma_two_adic(d);
        assert(s <= k) by {
            if s > k {
                if s > k + 1 {
                    lemma_pow2_strictly_increases(k + 1, s);
                }
                assert(pow2(s) * o >= pow2(s)) by (nonlinear_arith)
                    requires
                        o >= 1,
                        pow2(s) >= 0,
                ;
            }
        }
        let e = (k - s) as nat;
        // b^(d * 2^(k - s)) is one, and also minus one to an odd power
        lemma_pow_multiplies(b, d, pow2(e));
        lemma_small_mod(1, q as nat);
        lemma_pow_cong(pow(b, d), 1, pow2(e), q);
        lemma1_pow(pow2(e));
        lemma_pow2_adds(s, e);
        lemma_mul_swap(pow2(s) as int, o as int, pow2(e) as int);
        assert(d * pow2(e) == pow2(k) * o);
        lemma_pow_multiplies(b, pow2(k), o);
        lemma_pow_cong(pow(b, pow2(k)), -1, o, q);
        lemma_minus_one_odd_power(o);
        lemma_cong_add(1, -1, 1, 1, q);
        lemma_small_mod(2, q as nat);
        lemma_small_mod(0, q as nat);
        assert(2int % q == 0int % q);
        assert(false);
    }
}

/// If a power `2^k` of `b` is minus one modulo `n`, the odd divisors of `n` are
/// large: the powers of `b` are pairwise different modulo each of them.
proof fn lemma_divisor_is_large(n: int, b: int, k: nat, q: int)
    requires
        n > 0,
        q > 2,
        n % q == 0,
        pow(b, pow2(k)) % n == (-1) % n,
    ensures
        q > pow2(k + 1),
{
    let m = pow2(k + 1);
    lemma_fundamental_div_mod(n, q);
    lemma_mod_of_multiple(pow(b, pow2(k)), -1, q, n / q);
    lemma_pow2_adds(k, 1);
    lemma2_to64();
    // b^m is one
    lemma_pow_multiplies(b, pow2(k), 2);
    lemma_pow_cong(pow(b, pow2(k)), -1, 2, q);
    lemma_pow_adds(-1, 1, 1);
    lemma_pow1(-1);
    lemma_small_mod(1, q as nat);
    assert(pow(b, m) % q == 1);
    let f = |i: int| pow(b, i as nat) % q;
    let dom = set_int_range(0, m as int);
    let img = dom.map(f);
    lemma_int_range(0, m as int);
    lemma_int_range(1, q);
    assert forall|i: int| dom.contains(i) implies #[trigger] set_int_range(1, q).contains(f(i)) by {
        lemma_pow_adds(b, i as nat, (m - i) as nat);
        lemma_small_mod(0, q as nat);
        if pow(b, i as nat) % q == 0 {
            lemma_cong_mul(pow(b, i as nat), 0, pow(b, (m - i) as nat), q);
            assert(0 * pow(b, (m - i) as nat) == 0);
        }
    }
    assert forall|i: int, j: int| 0 <= i < j < m implies #[trigger] f(i) != #[trigger] f(j) by {
        if f(i) == f(j) {
            let r = (m - i) as nat;
            let d = (j - i) as nat;
            lemma_cong_mul(pow(b, i as nat), pow(b, j as nat), pow(b, r), q);
            lemma_pow_adds(b, i as nat, r);
            lemma_pow_adds(b, j as nat, r);
            lemma_pow_adds(b, d, m);
            lemma_cong_mul(pow(b, m), 1, pow(b, d), q);
            lemma_no_small_order(b, k, q, d);
            assert(false);
        }
    }
    lemma_map_size(dom, img, f);
    assert(img.subset_of(set_int_range(1, q))) by {
        assert forall|y: int| img.contains(y) implies set_int_range(1, q).contains(y) by {
            let i = choose|i: int| dom.contains(i) && f(i) == y;
            assert(set_int_range(1, q).contains(f(i)));
        }
    }
    lemma_len_subset(img, set_int_range(1, q));
}

/// Numbers congruent modulo a multiple of `q` are congruent modulo `q`.
proof fn lemma_mod_of_multiple(x: int, y: int, q: int, h: int)
    requires
        q > 0,
        q * h > 0,
        x % (q * h) == y % (q * h),
    ensures
        x % q == y % q,
{
    assert(h > 0) by (nonlinear_arith)
        requires
            q > 0,
            q * h > 0,
    ;
    lemma_mod_mod(x, q, h);
    lemma_mod_mod(y, q, h);
}

proof fn lemma_square_step(b: int, i: nat, x: int, y: int)
    requires
        pow(b, pow2(i)) % goldilocks() == x,
        (x * x) % goldilocks() == y,
    ensures
        pow(b, pow2(i + 1)) % goldilocks() == y,
{
    lemma_pow2_adds(i, 1);
    lemma2_to64();
    lemma_pow_adds(b, pow2(i), pow2(i));
    lemma_mul_mod_noop_general(pow(b, pow2(i)), pow(b, pow2(i)), goldilocks());
}

/// The generator of the roots of unity of order `2^32`: its power `2^31` is
/// minus one.
pub proof fn lemma_power_of_two_generator()
    ensures
        pow(1753635133440165772, pow2(31)) % goldilocks() == goldilocks() - 1,
{
    let b: int = 1753635133440165772;
    lemma2_to64();
    lemma_pow1(b);
    lemma_square_step(b, 0, 1753635133440165772, 4614640910117430873);
    lemma_square_step(b, 1, 4614640910117430873, 9123114210336311365);
    lemma_square_step(b, 2, 9123114210336311365, 16116352524544190054);
    lemma_square_step(b, 3, 16116352524544190054, 6414415596519834757);
    lemma_square_step(b, 4, 6414415596519834757, 1213594585890690845);
    lemma_square_step(b, 5, 1213594585890690845, 17096174751763063430);
    lemma_square_step(b, 6, 17096174751763063430, 5456943929260765144);
    lemma_square_step(b, 7, 5456943929260765144, 9713644485405565297);
    lemma_square_step(b, 8, 9713644485405565297, 16905767614792059275);
    lemma_square_step(b, 9, 16905767614792059275, 5416168637041100469);
    lemma_square_step(b, 10, 5416168637041100469, 17654865857378133588);
    lemma_square_step(b, 11, 17654865857378133588, 3511170319078647661);
    lemma_square_step(b, 12, 3511170319078647661, 18146160046829613826);
    lemma_square_step(b, 13, 18146160046829613826, 9306717745644682924);
    lemma_square_step(b, 14, 9306717745644682924, 12380578893860276750);
    lemma_square_step(b, 15, 12380578893860276750, 6115771955107415310);
    lemma_square_step(b, 16, 6115771955107415310, 17776499369601055404);
    lemma_square_step(b, 17, 17776499369601055404, 16207902636198568418);
    lemma_square_step(b, 18, 16207902636198568418, 1532612707718625687);
    lemma_square_step(b, 19, 1532612707718625687, 17492915097719143606);
    lemma_square_step(b, 20, 17492915097719143606, 455906449640507599);
    lemma_square_step(b, 21, 455906449640507599, 11353340290879379826);
    lemma_square_step(b, 22, 11353340290879379826, 1803076106186727246);
    lemma_square_step(b, 23, 1803076106186727246, 13797081185216407910);
    lemma_square_step(b, 24, 13797081185216407910, 17870292113338400769);
    lemma_square_step(b, 25, 17870292113338400769, 549755813888);
    lemma_square_step(b, 26, 549755813888, 70368744161280);
    lemma_square_step(b, 27, 70368744161280, 17293822564807737345);
    lemma_square_step(b, 28, 17293822564807737345, 18446744069397807105);
    lemma_square_step(b, 29, 18446744069397807105, 281474976710656);
    lemma_square_step(b, 30, 281474976710656, 18446744069414584320);
}

/// The order of the field is a prime number.
pub proof fn lemma_goldilocks_prime()
    ensures
        prime(goldilocks()),
{
    let p = goldilocks();
    let b: int = 1753635133440165772;
    lemma_power_of_two_generator();
    lemma2_to64();
    assert forall|d: int| 1 < d < p implies #[trigger] (p % d) != 0 by {
        if p % d == 0 {
            let e = p / d;
            lemma_fundamental_div_mod(p, d);
            lemma_mul_is_commutative(d, e);
            assert(1 < e < p) by (nonlinear_arith)
                requires
                    p == d * e,
                    1 < d < p,
                    p > 1,
            ;
            lemma_mod_multiples_basic(d, e);
            assert(p % 2 == 1);
            assert(p % e == 0);
            assert(d != 2 && e != 2);
            lemma_divisor_is_large(p, b, 31, d);
            lemma_divisor_is_large(p, b, 31, e);
            assert(d * e > 0x1_0000_0000 * 0x1_0000_0000) by (nonlinear_arith)
                requires
                    d > 0x1_0000_0000,
                    e > 0x1_0000_0000,
            ;
        }
    }
}

/// A product divisible by the prime has a factor divisible by it.
pub proof fn lemma_prime_divides_product(k: int, x: int)
    requires
        0 < k < goldilocks(),
        (k * x) % goldilocks() == 0,
    ensures
        x % goldilocks() == 0,
    decreases k,
{
    let p = goldilocks();
    if k > 1 {
        lemma_goldilocks_prime();
        let q = p / k;
        let r = p % k;
        lemma_fundamental_div_mod(p, k);
        // r * x == p * x - q * (k * x)
        lemma_mul_is_distributive_add_other_way(x, k * q, r);
        lemma_mul_swap(k, q, x);
        lemma_cong_mul(k * x, 0, q, p);
        lemma_mod_multiples_basic(x, p);
        lemma_mul_is_commutative(x, p);
        lemma_small_mod(0, p as nat);
        assert(0 * q == 0);
        lemma_cong_add(p * x, 0, (k * x) * q, 0, p);
        assert(r * x == p * x - (k * x) * q);
        lemma_prime_divides_product(r, x);
    } else {
        assert(k * x == x) by (nonlinear_arith)
            requires
                k == 1,
        ;
    }
}

// Fermat's theorem, by the binomial expansion of (a + 1)^p.

/// The binomial coefficient.
pub open spec fn binomial(n: nat, k: nat) -> nat
    decreases n, k,
{
    if k == 0 {
        1
    } else if n == 0 {
        0
    } else {
        binomial((n - 1) as nat, (k - 1) as nat) + binomial((n - 1) as nat, k)
    }
}

pub(crate) proof fn lemma_binomial_above(n: nat, k: nat)
    requires
        k > n,
    ensures
        binomial(n, k) == 0,
    decreases n,
{
    if n > 0 {
        lemma_binomial_above((n - 1) as nat, (k - 1) as nat);
        lemma_binomial_above((n - 1) as nat, k);
    }
}

pub(crate) proof fn lemma_binomial_diagonal(n: nat)
    ensures
        binomial(n, n) == 1,
    decreases n,
{
    if n > 0 {
        lemma_binomial_diagonal((n - 1) as nat);
        lemma_binomial_above((n - 1) as nat, n);
    }
}

proof fn lemma_binomial_absorb(n: nat, k: nat)
    requires
        n >= 1,
        k >= 1,
    ensures
        k * binomial(n, k) == n * binomial((n - 1) as nat, (k - 1) as nat),
    decreases n,
{
    if n == 1 {
        if k == 1 {
            assert(binomial(0, 0) == 1 && binomial(0, 1) == 0);
            assert(binomial(1, 1) == 1);
        } else {
            lemma_binomial_above(1, k);
            lemma_binomial_above(0, (k - 1) as nat);
        }
    } else if k == 1 {
        let m = (n - 1) as nat;
        lemma_binomial_absorb(m, 1);
        assert(binomial((m - 1) as nat, 0) == 1 && binomial(m, 0) == 1);
        assert(m * binomial((m - 1) as nat, 0) == m) by (nonlinear_arith)
            requires
                binomial((m - 1) as nat, 0) == 1,
        ;
        assert(n * binomial(m, 0) == n) by (nonlinear_arith)
            requires
                binomial(m, 0) == 1,
        ;
    } else {
        let (n1, n2, k1, k2) = ((n - 1) as nat, (n - 2) as nat, (k - 1) as nat, (k - 2) as nat);
        lemma_binomial_absorb(n1, k1);
        lemma_binomial_absorb(n1, k);
        let (x, y) = (binomial(n1, k1) as int, binomial(n1, k) as int);
        let (u, v) = (binomial(n2, k2) as int, binomial(n2, k1) as int);
        assert(k * (x + y) == k1 * x + x + k * y) by (nonlinear_arith)
            requires
                k1 == k - 1,
        ;
        assert(n1 * u + n1 * v + x == n * x) by (nonlinear_arith)
            requires
                x == u + v,
                n1 == n - 1,
        ;
    }
}

/// The prime divides its binomial coefficients, except the first and the last.
pub(crate) proof fn lemma_binomial_prime(j: nat)
    requires
        0 < j < goldilocks(),
    ensures
        binomial(goldilocks() as nat, j) as int % goldilocks() == 0,
{
    let p = goldilocks();
    let c = binomial((p - 1) as nat, (j - 1) as nat) as int;
    lemma_binomial_absorb(p as nat, j);
    lemma_mul_is_commutative(p, c);
    lemma_mod_multiples_basic(c, p);
    lemma_prime_divides_product(j as int, binomial(p as nat, j) as int);
}

/// The first `j + 1` terms of the expansion of `(a + 1)^n`.
spec fn expansion(a: int, n: nat, j: nat) -> int
    decreases j,
{
    if j == 0 {
        1
    } else {
        expansion(a, n, (j - 1) as nat) + binomial(n, j) * pow(a, j)
    }
}

proof fn lemma_expansion_step(a: int, n: nat, j: nat)
    requires
        n >= 1,
        j >= 1,
    ensures
        expansion(a, n, j) == a * expansion(a, (n - 1) as nat, (j - 1) as nat) + expansion(
            a,
            (n - 1) as nat,
            j,
        ),
    decreases j,
{
    let m = (n - 1) as nat;
    let i = (j - 1) as nat;
    lemma_pow_adds(a, 1, i);
    lemma_pow1(a);
    let (x, y) = (binomial(m, i) as int, binomial(m, j) as int);
    let (pi, pj) = (pow(a, i), pow(a, j));
    lemma_mul_is_distributive_add_other_way(pj, x, y);
    assert(x * pj == a * (x * pi)) by (nonlinear_arith)
        requires
            pj == a * pi,
    ;
    if j == 1 {
        lemma_pow0(a);
        assert(expansion(a, n, 0) == 1);
        assert(expansion(a, m, 0) == 1);
    } else {
        lemma_expansion_step(a, n, i);
        lemma_mul_is_distributive_add(a, expansion(a, m, (i - 1) as nat), x * pi);
    }
}

proof fn lemma_expansion(a: int, n: nat)
    ensures
        expansion(a, n, n) == pow(a + 1, n),
    decreases n,
{
    if n == 0 {
        lemma_pow0(a + 1);
    } else {
        let m = (n - 1) as nat;
        lemma_expansion(a, m);
        lemma_expansion_step(a, n, n);
        lemma_binomial_above(m, n);
        assert(0 * pow(a, n) == 0);
        lemma_pow_adds(a + 1, 1, m);
        lemma_pow1(a + 1);
        lemma_mul_is_distributive_add_other_way(pow(a + 1, m), a, 1);
    }
}

proof fn lemma_expansion_inner(a: int, j: nat)
    requires
        j < goldilocks(),
    ensures
        expansion(a, goldilocks() as nat, j) % goldilocks() == 1,
    decreases j,
{
    let p = goldilocks();
    if j > 0 {
        let i = (j - 1) as nat;
        lemma_expansion_inner(a, i);
        let c = binomial(p as nat, j) as int;
        lemma_binomial_prime(j);
        lemma_cong_mul(c, 0, pow(a, j), p);
        assert(0 * pow(a, j) == 0);
        lemma_cong_add(expansion(a, p as nat, i), 1, c * pow(a, j), 0, p);
    }
}

proof fn lemma_fermat_all(a: nat)
    ensures
        pow(a as int, goldilocks() as nat) % goldilocks() == (a as int) % goldilocks(),
    decreases a,
{
    let p = goldilocks();
    if a == 0 {
        lemma0_pow(p as nat);
    } else {
        let c = (a - 1) as nat;
        lemma_fermat_all(c);
        lemma_expansion(c as int, p as nat);
        lemma_expansion_inner(c as int, (p - 1) as nat);
        lemma_binomial_diagonal(p as nat);
        let inner = expansion(c as int, p as nat, (p - 1) as nat);
        assert(1 * pow(c as int, p as nat) == pow(c as int, p as nat));
        lemma_cong_add(inner, 1, pow(c as int, p as nat), c as int, p);
    }
}

/// Fermat's theorem: the power `p - 1` of a number that `p` does not divide is
/// one modulo `p`.
pub proof fn lemma_fermat(a: int)
    requires
        0 < a < goldilocks(),
    ensures
        pow(a, (goldilocks() - 1) as nat) % goldilocks() == 1,
{
    let p = goldilocks();
    let e = (p - 1) as nat;
    lemma_fermat_all(a as nat);
    lemma_pow_adds(a, 1, e);
    lemma_pow1(a);
    let x = pow(a, e);
    // a * (x - 1) is divisible by p
    lemma_cong_add(a * x, a, a, a, p);
    assert(a * (x - 1) == a * x - a) by (nonlinear_arith);
    lemma_prime_divides_product(a, x - 1);
    lemma_cong_add(x - 1, 0, 1, 1, p);
}

} // verus!
