//! The order of the group is a prime.
//!
//! A number is a prime if its divisors are large; they are where some element has a
//! large order modulo each of them. The order is shown by a power that is one, and
//! by powers that are not: for these an inverse of their difference to one is given.
//! Powers are followed by squaring, with the quotient of every reduction.
use vstd::arithmetic::div_mod::{
    lemma_fundamental_div_mod, lemma_mod_multiples_basic, lemma_mod_multiples_vanish,
    lemma_mod_twice, lemma_mul_mod_noop_general, lemma_small_mod,
};
use vstd::arithmetic::power::{
    lemma1_pow, lemma_pow1, lemma_pow_adds, lemma_pow_multiplies, pow,
};
use vstd::prelude::*;
use vstd::set_lib::{lemma_int_range, lemma_len_subset, lemma_map_size, set_int_range};

use crate::arith::{lemma_cong_add, lemma_cong_mul};
use crate::primes::{lemma_pow_cong, prime};
use crate::scalar::group_order;

verus! {

/// Whether a power of `b` is `x` modulo `n`.
#[verifier::opaque]
pub open spec fn powers_to(b: int, n: int, k: nat, x: int) -> bool {
    pow(b, k) % n == x
}

proof fn lemma_first_power(b: int, n: int)
    requires
        0 <= b < n,
    ensures
        powers_to(b, n, 1, b),
{
    reveal(powers_to);
    lemma_pow1(b);
    lemma_small_mod(b as nat, n as nat);
}

/// A power squared: `t` is the quotient.
proof fn lemma_square(b: int, n: int, k: nat, x: int, y: int, t: int)
    requires
        powers_to(b, n, k, x),
        x * x == y + t * n,
        0 <= y < n,
    ensures
        powers_to(b, n, k + k, y),
{
    reveal(powers_to);
    lemma_pow_adds(b, k, k);
    lemma_mul_mod_noop_general(pow(b, k), pow(b, k), n);
    lemma_mod_multiples_vanish(t, y, n);
    lemma_small_mod(y as nat, n as nat);
    assert(t * n == n * t) by (nonlinear_arith);
}

/// A power squared, times the base.
proof fn lemma_square_times(b: int, n: int, k: nat, x: int, y: int, t: int)
    requires
        powers_to(b, n, k, x),
        x * x * b == y + t * n,
        0 <= y < n,
    ensures
        powers_to(b, n, k + k + 1, y),
{
    reveal(powers_to);
    let s = (x * x) % n;
    lemma_pow_adds(b, k, k);
    lemma_mul_mod_noop_general(pow(b, k), pow(b, k), n);
    assert(pow(b, k + k) % n == s);
    lemma_pow_adds(b, k + k, 1);
    lemma_pow1(b);
    lemma_mod_twice(x * x, n);
    lemma_cong_mul(pow(b, k + k), x * x, b, n);
    lemma_mod_multiples_vanish(t, y, n);
    lemma_small_mod(y as nat, n as nat);
    assert(t * n == n * t) by (nonlinear_arith);
}

/// A number is a prime where none of its divisors is small.
proof fn lemma_prime_by_large_divisors(n: int, m: int)
    requires
        n > 1,
        m > 0,
        m * m >= n,
        forall|d: int| 1 < d < n && #[trigger] (n % d) == 0 ==> d > m,
    ensures
        prime(n),
{
    assert forall|d: int| 1 < d < n implies #[trigger] (n % d) != 0 by {
        if n % d == 0 {
            let e = n / d;
            lemma_fundamental_div_mod(n, d);
            assert(n == d * e);
            assert(1 < e < n) by (nonlinear_arith)
                requires
                    n == d * e,
                    1 < d < n,
            ;
            assert(e * d == d * e) by (nonlinear_arith);
            lemma_mod_multiples_basic(d, e);
            assert(d * e == n);
            assert(n % e == 0);
            assert(d * e > m * m) by (nonlinear_arith)
                requires
                    d > m,
                    e > m,
                    m > 0,
            ;
        }
    }
}

/// A number is a prime where no number up to its root divides it.
proof fn lemma_prime_by_divisors(n: int, s: int)
    requires
        n > 1,
        s > 0,
        (s + 1) * (s + 1) > n,
        forall|d: int| 1 < d <= s ==> #[trigger] (n % d) != 0,
    ensures
        prime(n),
{
    assert forall|d: int| 1 < d < n implies #[trigger] (n % d) != 0 by {
        if n % d == 0 {
            let e = n / d;
            lemma_fundamental_div_mod(n, d);
            assert(1 < e < n) by (nonlinear_arith)
                requires
                    n == d * e,
                    1 < d < n,
            ;
            assert(e * d == d * e) by (nonlinear_arith);
            lemma_mod_multiples_basic(d, e);
            assert(n % e == 0);
            assert(d * e >= (s + 1) * (s + 1)) by (nonlinear_arith)
                requires
                    d >= s + 1,
                    e >= s + 1,
                    s > 0,
            ;
        }
    }
}

/// The modulus of an element is larger than its order: its powers are pairwise
/// different, and none is zero.
proof fn lemma_order_bounds(d: int, b: int, m: nat)
    requires
        d > 1,
        m > 0,
        pow(b, m) % d == 1,
        forall|i: nat| 0 < i < m ==> #[trigger] pow(b, i) % d != 1,
    ensures
        d > m,
{
    let f = |i: int| pow(b, i as nat) % d;
    let dom = set_int_range(0, m as int);
    let img = dom.map(f);
    lemma_int_range(0, m as int);
    lemma_int_range(1, d);
    lemma_small_mod(1, d as nat);
    assert forall|i: int| dom.contains(i) implies #[trigger] set_int_range(1, d).contains(f(i)) by {
        lemma_pow_adds(b, i as nat, (m - i) as nat);
        lemma_small_mod(0, d as nat);
        if pow(b, i as nat) % d == 0 {
            lemma_cong_mul(pow(b, i as nat), 0, pow(b, (m - i) as nat), d);
            assert(0 * pow(b, (m - i) as nat) == 0);
        }
    }
    assert forall|i: int, j: int| 0 <= i < j < m implies #[trigger] f(i) != #[trigger] f(j) by {
        if f(i) == f(j) {
            let r = (m - i) as nat;
            let e = (j - i) as nat;
            lemma_cong_mul(pow(b, i as nat), pow(b, j as nat), pow(b, r), d);
            lemma_pow_adds(b, i as nat, r);
            lemma_pow_adds(b, j as nat, r);
            lemma_pow_adds(b, e, m);
            lemma_cong_mul(pow(b, m), 1, pow(b, e), d);
            assert(pow(b, e) % d == 1);
        }
    }
    lemma_map_size(dom, img, f);
    assert(img.subset_of(set_int_range(1, d))) by {
        assert forall|y: int| img.contains(y) implies set_int_range(1, d).contains(y) by {
            let i = choose|i: int| dom.contains(i) && f(i) == y;
            assert(set_int_range(1, d).contains(f(i)));
        }
    }
    lemma_len_subset(img, set_int_range(1, d));
}

/// Where two powers are one, so is the power by the remainder of the exponents.
proof fn lemma_power_remainder(d: int, b: int, m: nat, i: nat)
    requires
        d > 1,
        i > 0,
        pow(b, m) % d == 1,
        pow(b, i) % d == 1,
    ensures
        pow(b, m % i) % d == 1,
{
    let (k, r) = (m / i, m % i);
    lemma_fundamental_div_mod(m as int, i as int);
    lemma_small_mod(1, d as nat);
    lemma_pow_multiplies(b, i, k);
    lemma_pow_cong(pow(b, i), 1, k, d);
    lemma1_pow(k);
    lemma_pow_adds(b, i * k, r);
    lemma_cong_mul(pow(b, i * k), 1, pow(b, r), d);
    assert(1 * pow(b, r) == pow(b, r));
}

/// An element that is not one, but a prime power of which is, has no smaller power
/// that is one.
proof fn lemma_prime_order(d: int, b: int, q: nat, i: nat)
    requires
        d > 1,
        prime(q as int),
        pow(b, q) % d == 1,
        b % d != 1,
        0 < i < q,
    ensures
        pow(b, i) % d != 1,
    decreases i,
{
    if pow(b, i) % d == 1 {
        if i == 1 {
            lemma_pow1(b);
        } else {
            lemma_power_remainder(d, b, q, i);
            assert((q as int) % (i as int) != 0);
            lemma_prime_order(d, b, q, q % i);
        }
    }
}

/// What is invertible less one is not one modulo a divisor.
proof fn lemma_not_one(n: int, d: int, c: int, v: int, k: int)
    requires
        d > 1,
        n % d == 0,
        (c - 1) * v == 1 + k * n,
    ensures
        c % d != 1,
{
    if c % d == 1 {
        lemma_small_mod(1, d as nat);
        lemma_small_mod(0, d as nat);
        lemma_cong_add(c, 1, -1, -1, d);
        lemma_cong_mul(c - 1, 0, v, d);
        assert(0 * v == 0);
        lemma_fundamental_div_mod(n, d);
        let e = n / d;
        assert(k * n == (k * e) * d) by (nonlinear_arith)
            requires
                n == d * e,
        ;
        lemma_mod_multiples_vanish(k * e, 1, d);
        assert((k * e) * d == d * (k * e)) by (nonlinear_arith);
    }
}

/// A power that is known modulo a number is known modulo its divisors.
proof fn lemma_power_modulo_divisor(n: int, d: int, b: int, k: nat, x: int)
    requires
        d > 1,
        n > 0,
        n % d == 0,
        powers_to(b, n, k, x),
    ensures
        pow(b, k) % d == x % d,
{
    reveal(powers_to);
    lemma_fundamental_div_mod(n, d);
    let e = n / d;
    let y = pow(b, k);
    lemma_fundamental_div_mod(y, n);
    let t = y / n;
    assert(n * t == d * (e * t)) by (nonlinear_arith)
        requires
            n == d * e,
    ;
    lemma_mod_multiples_vanish(e * t, x, d);
}

/// A number is a prime where an element has an order that is a prime above the root.
proof fn lemma_prime_by_order(n: int, b: int, q: int, v: int, k: int)
    requires
        n > 1,
        prime(q),
        q * q >= n,
        powers_to(b, n, q as nat, 1),
        (b - 1) * v == 1 + k * n,
    ensures
        prime(n),
{
    assert forall|d: int| 1 < d < n && #[trigger] (n % d) == 0 implies d > q by {
        lemma_power_modulo_divisor(n, d, b, q as nat, 1);
        lemma_small_mod(1, d as nat);
        lemma_not_one(n, d, b, v, k);
        assert forall|i: nat| 0 < i < q implies #[trigger] pow(b, i) % d != 1 by {
            lemma_prime_order(d, b, q as nat, i);
        }
        lemma_order_bounds(d, b, q as nat);
    }
    lemma_prime_by_large_divisors(n, q);
}

/// An element whose powers by two primes are not one, but by their product is, has
/// no smaller power that is one.
proof fn lemma_product_order(d: int, b: int, l: nat, s: nat, i: nat)
    requires
        d > 1,
        prime(l as int),
        prime(s as int),
        pow(b, l * s) % d == 1,
        pow(b, s) % d != 1,
        pow(b, l) % d != 1,
        0 < i < l * s,
    ensures
        pow(b, i) % d != 1,
{
    if pow(b, i) % d == 1 {
        let c = pow(b, s);
        lemma_small_mod(1, d as nat);
        // the order of b^s is l, so l divides i
        lemma_pow_multiplies(b, s, l);
        assert(s * l == l * s) by (nonlinear_arith);
        lemma_pow_multiplies(b, s, i);
        lemma_pow_multiplies(b, i, s);
        assert(s * i == i * s) by (nonlinear_arith);
        lemma_pow_cong(pow(b, i), 1, s, d);
        lemma1_pow(s);
        assert(pow(c, i) % d == 1);
        assert(pow(c, l) % d == 1);
        if i % l != 0 {
            let r = i % l;
            lemma_power_remainder(d, c, i, l);
            lemma_prime_order(d, c, l, r);
        }
        // then i is a multiple of l, and the power of b^l by a smaller number is one
        lemma_fundamental_div_mod(i as int, l as int);
        let k = i / l;
        let e = pow(b, l);
        assert(0 < k < s) by (nonlinear_arith)
            requires
                i == l * k,
                0 < i < l * s,
        ;
        lemma_pow_multiplies(b, l, k);
        lemma_pow_multiplies(b, l, s);
        lemma_prime_order(d, e, s, k);
    }
}

/// A number is a prime where an element has an order that is the product of two
/// primes and above the root.
proof fn lemma_prime_by_two(
    n: int,
    b: int,
    l: int,
    s: int,
    x: int,
    v: int,
    k: int,
    y: int,
    w: int,
    m: int,
)
    requires
        n > 1,
        prime(l),
        prime(s),
        (l * s) * (l * s) >= n,
        powers_to(b, n, (l * s) as nat, 1),
        powers_to(b, n, s as nat, x),
        powers_to(b, n, l as nat, y),
        (x - 1) * v == 1 + k * n,
        (y - 1) * w == 1 + m * n,
    ensures
        prime(n),
{
    assert(l * s > 0) by (nonlinear_arith)
        requires
            l > 1,
            s > 1,
    ;
    assert forall|d: int| 1 < d < n && #[trigger] (n % d) == 0 implies d > l * s by {
        lemma_power_modulo_divisor(n, d, b, (l * s) as nat, 1);
        lemma_power_modulo_divisor(n, d, b, s as nat, x);
        lemma_power_modulo_divisor(n, d, b, l as nat, y);
        lemma_small_mod(1, d as nat);
        lemma_not_one(n, d, x, v, k);
        lemma_not_one(n, d, y, w, m);
        assert forall|i: nat| 0 < i < l * s implies #[trigger] pow(b, i) % d != 1 by {
            lemma_product_order(d, b, l as nat, s as nat, i);
        }
        lemma_order_bounds(d, b, (l * s) as nat);
    }
    lemma_prime_by_large_divisors(n, l * s);
}

/// 113 is a prime.
proof fn lemma_113_prime()
    ensures
        prime(113),
{
    assert(113int % 2 != 0);
    assert(113int % 3 != 0);
    assert(113int % 4 != 0);
    assert(113int % 5 != 0);
    assert(113int % 6 != 0);
    assert(113int % 7 != 0);
    assert(113int % 8 != 0);
    assert(113int % 9 != 0);
    assert(113int % 10 != 0);
    lemma_prime_by_divisors(113, 10);
}

/// 19 is a prime.
proof fn lemma_19_prime()
    ensures
        prime(19),
{
    assert(19int % 2 != 0);
    assert(19int % 3 != 0);
    assert(19int % 4 != 0);
    lemma_prime_by_divisors(19, 4);
}

proof fn lemma_factor_4_whole_1()
    ensures
        powers_to(
            306217int,
            1339729int,
            2147nat,
            1int,
        ),
{
    lemma_first_power(
        306217int,
        1339729int,
    );
    lemma_square(
        306217int,
        1339729int,
        1nat,
        306217int,
        1218379int,
        69990int,
    );
    lemma_square(
        306217int,
        1339729int,
        2nat,
        1218379int,
        861061int,
        1108020int,
    );
    lemma_square(
        306217int,
        1339729int,
        4nat,
        861061int,
        1260915int,
        553414int,
    );
    lemma_square(
        306217int,
        1339729int,
        8nat,
        1260915int,
        662952int,
        1186737int,
    );
    lemma_square_times(
        306217int,
        1339729int,
        16nat,
        662952int,
        322642int,
        100456145294int,
    );
    lemma_square_times(
        306217int,
        1339729int,
        33nat,
        322642int,
        375332int,
        23793270464int,
    );
    lemma_square(
        306217int,
        1339729int,
        67nat,
        375332int,
        266145int,
        105151int,
    );
    lemma_square(
        306217int,
        1339729int,
        134nat,
        266145int,
        349066int,
        52871int,
    );
    lemma_square(
        306217int,
        1339729int,
        268nat,
        349066int,
        59535int,
        90949int,
    );
    lemma_square_times(
        306217int,
        1339729int,
        536nat,
        59535int,
        483740int,
        810134365int,
    );
    lemma_square_times(
        306217int,
        1339729int,
        1073nat,
        483740int,
        1int,
        53485534431int,
    );
}

proof fn lemma_factor_4_small_1()
    ensures
        powers_to(
            306217int,
            1339729int,
            19nat,
            360835int,
        ),
{
    lemma_first_power(
        306217int,
        1339729int,
    );
    lemma_square(
        306217int,
        1339729int,
        1nat,
        306217int,
        1218379int,
        69990int,
    );
    lemma_square(
        306217int,
        1339729int,
        2nat,
        1218379int,
        861061int,
        1108020int,
    );
    lemma_square_times(
        306217int,
        1339729int,
        4nat,
        861061int,
        1031297int,
        169465063040int,
    );
    lemma_square_times(
        306217int,
        1339729int,
        9nat,
        1031297int,
        360835int,
        243097139142int,
    );
}

proof fn lemma_factor_4_large_1()
    ensures
        powers_to(
            306217int,
            1339729int,
            113nat,
            531833int,
        ),
{
    lemma_first_power(
        306217int,
        1339729int,
    );
    lemma_square_times(
        306217int,
        1339729int,
        1nat,
        306217int,
        630323int,
        21432406310int,
    );
    lemma_square_times(
        306217int,
        1339729int,
        3nat,
        630323int,
        899139int,
        90811039726int,
    );
    lemma_square(
        306217int,
        1339729int,
        7nat,
        899139int,
        854374int,
        603443int,
    );
    lemma_square(
        306217int,
        1339729int,
        14nat,
        854374int,
        906768int,
        544852int,
    );
    lemma_square(
        306217int,
        1339729int,
        28nat,
        906768int,
        345841int,
        613727int,
    );
    lemma_square_times(
        306217int,
        1339729int,
        56nat,
        345841int,
        531833int,
        27337909136int,
    );
}

/// A prime factor further down.
proof fn lemma_factor_4_prime()
    ensures
        prime(1339729int),
{
    lemma_113_prime();
    lemma_19_prime();
    lemma_factor_4_whole_1();
    lemma_factor_4_small_1();
    lemma_factor_4_large_1();
    lemma_prime_by_two(
        1339729int,
        306217int,
        113int,
        19int,
        360835int,
        465033int,
        125249int,
        531833int,
        900479int,
        357463int,
    );
}

proof fn lemma_factor_3_1()
    ensures
        powers_to(
            558848695920int,
            684681902741int,
            20933nat,
            684185285638int,
        ),
{
    lemma_first_power(
        558848695920int,
        684681902741int,
    );
    lemma_square(
        558848695920int,
        684681902741int,
        1nat,
        558848695920int,
        239885362485int,
        456141550815int,
    );
    lemma_square_times(
        558848695920int,
        684681902741int,
        2nat,
        239885362485int,
        341351399906int,
        46969170483606256942934int,
    );
    lemma_square(
        558848695920int,
        684681902741int,
        5nat,
        341351399906int,
        412880523105int,
        170182354391int,
    );
    lemma_square(
        558848695920int,
        684681902741int,
        10nat,
        412880523105int,
        553914770236int,
        248977409329int,
    );
    lemma_square(
        558848695920int,
        684681902741int,
        20nat,
        553914770236int,
        594050113789int,
        448122801927int,
    );
    lemma_square_times(
        558848695920int,
        684681902741int,
        40nat,
        594050113789int,
        358665628772int,
        288039175923959063156828int,
    );
    lemma_square_times(
        558848695920int,
        684681902741int,
        81nat,
        358665628772int,
        619467397343int,
        104998939496866176433757int,
    );
    lemma_square_times(
        558848695920int,
        684681902741int,
        163nat,
        619467397343int,
        276225909796int,
        313214819096122555946524int,
    );
    lemma_square(
        558848695920int,
        684681902741int,
        327nat,
        276225909796int,
        222251014960int,
        111439710816int,
    );
    lemma_square(
        558848695920int,
        684681902741int,
        654nat,
        222251014960int,
        159548153864int,
        72143740696int,
    );
    lemma_square(
        558848695920int,
        684681902741int,
        1308nat,
        159548153864int,
        241235754858int,
        37178744318int,
    );
    lemma_square_times(
        558848695920int,
        684681902741int,
        2616nat,
        241235754858int,
        277392420355int,
        47499468238764980262025int,
    );
    lemma_square(
        558848695920int,
        684681902741int,
        5233nat,
        277392420355int,
        580473120305int,
        112382924920int,
    );
    lemma_square_times(
        558848695920int,
        684681902741int,
        10466nat,
        580473120305int,
        684185285638int,
        275023383471733601583682int,
    );
}

proof fn lemma_factor_3_2()
    ensures
        powers_to(
            558848695920int,
            684681902741int,
            1339729nat,
            1int,
        ),
{
    lemma_factor_3_1();
    lemma_square(
        558848695920int,
        684681902741int,
        20933nat,
        684185285638int,
        648169582481int,
        683689028743int,
    );
    lemma_square_times(
        558848695920int,
        684681902741int,
        41866nat,
        648169582481int,
        352151205486int,
        342912002043918566186874int,
    );
    lemma_square(
        558848695920int,
        684681902741int,
        83733nat,
        352151205486int,
        246013355786int,
        181121293010int,
    );
    lemma_square(
        558848695920int,
        684681902741int,
        167466nat,
        246013355786int,
        42555768984int,
        88395167132int,
    );
    lemma_square(
        558848695920int,
        684681902741int,
        334932nat,
        42555768984int,
        136643295863int,
        2645014373int,
    );
    lemma_square_times(
        558848695920int,
        684681902741int,
        669864nat,
        136643295863int,
        1int,
        15239897652911083634419int,
    );
}

/// A prime factor further down.
proof fn lemma_factor_3_prime()
    ensures
        prime(684681902741int),
{
    lemma_factor_4_prime();
    lemma_factor_3_2();
    lemma_prime_by_order(
        684681902741int,
        558848695920int,
        1339729int,
        155519267017int,
        126937398542int,
    );
}

proof fn lemma_factor_2_1()
    ensures
        powers_to(
            238215371158735264886435int,
            295669217107717914048023int,
            20405nat,
            174055221561213339624850int,
        ),
{
    lemma_first_power(
        238215371158735264886435int,
        295669217107717914048023int,
    );
    lemma_square(
        238215371158735264886435int,
        295669217107717914048023int,
        1nat,
        238215371158735264886435int,
        100143440403686156818830int,
        191925840678977919594365int,
    );
    lemma_square(
        238215371158735264886435int,
        295669217107717914048023int,
        2nat,
        100143440403686156818830int,
        294186179307461982955279int,
        33918676939009825579027int,
    );
    lemma_square_times(
        238215371158735264886435int,
        295669217107717914048023int,
        4nat,
        294186179307461982955279int,
        95192404806255120879388int,
        69728159511394688543197712422908840543998155889int,
    );
    lemma_square_times(
        238215371158735264886435int,
        295669217107717914048023int,
        9nat,
        95192404806255120879388int,
        37449474056584570774320int,
        7300763275619533267026501815157274798891939840int,
    );
    lemma_square_times(
        238215371158735264886435int,
        295669217107717914048023int,
        19nat,
        37449474056584570774320int,
        100245120429149746878277int,
        1129939304692888155984845564952267471508539901int,
    );
    lemma_square_times(
        238215371158735264886435int,
        295669217107717914048023int,
        39nat,
        100245120429149746878277int,
        129759830198398884779763int,
        8096366401427556367908482238257752738121815624int,
    );
    lemma_square_times(
        238215371158735264886435int,
        295669217107717914048023int,
        79nat,
        129759830198398884779763int,
        104092012389220523114409int,
        13565762430241794422938728315283114683976704222int,
    );
    lemma_square(
        238215371158735264886435int,
        295669217107717914048023int,
        159nat,
        104092012389220523114409int,
        153325202193610058687968int,
        36646178960490800506231int,
    );
    lemma_square_times(
        238215371158735264886435int,
        295669217107717914048023int,
        318nat,
        153325202193610058687968int,
        98798964056597879185636int,
        18940470463564799569010025463589652151805786948int,
    );
    lemma_square_times(
        238215371158735264886435int,
        295669217107717914048023int,
        637nat,
        98798964056597879185636int,
        260270250045720189530109int,
        7864451742333946967281456518952174033464717637int,
    );
    lemma_square(
        238215371158735264886435int,
        295669217107717914048023int,
        1275nat,
        260270250045720189530109int,
        30289889635980977132639int,
        229109420728714282862054int,
    );
    lemma_square_times(
        238215371158735264886435int,
        295669217107717914048023int,
        2550nat,
        30289889635980977132639int,
        155767708067086121777602int,
        739195053451352576036688145137710131210660871int,
    );
    lemma_square(
        238215371158735264886435int,
        295669217107717914048023int,
        5101nat,
        155767708067086121777602int,
        232365117236191085898974int,
        82063256749630733534410int,
    );
    lemma_square_times(
        238215371158735264886435int,
        295669217107717914048023int,
        10202nat,
        232365117236191085898974int,
        174055221561213339624850int,
        43501630414224611465741867417410238481522533270int,
    );
}

proof fn lemma_factor_2_2()
    ensures
        powers_to(
            238215371158735264886435int,
            295669217107717914048023int,
            334317335nat,
            175691640051458399521149int,
        ),
{
    lemma_factor_2_1();
    lemma_square(
        238215371158735264886435int,
        295669217107717914048023int,
        20405nat,
        174055221561213339624850int,
        237635822502204479984543int,
        102463220382140561700259int,
    );
    lemma_square(
        238215371158735264886435int,
        295669217107717914048023int,
        40810nat,
        237635822502204479984543int,
        35213272068727340416397int,
        190993112805943046041324int,
    );
    lemma_square(
        238215371158735264886435int,
        295669217107717914048023int,
        81620nat,
        35213272068727340416397int,
        2792459600051552007335int,
        4193789742184986357838int,
    );
    lemma_square_times(
        238215371158735264886435int,
        295669217107717914048023int,
        163240nat,
        2792459600051552007335int,
        193609432789314771779332int,
        6282571899272269511868050620419847872955241int,
    );
    lemma_square_times(
        238215371158735264886435int,
        295669217107717914048023int,
        326481nat,
        193609432789314771779332int,
        55513001206701711704668int,
        30200678171506171830747772572141102519778617164int,
    );
    lemma_square_times(
        238215371158735264886435int,
        295669217107717914048023int,
        652963nat,
        55513001206701711704668int,
        213142148745400420316804int,
        2482864875643082925311268025874083391576737332int,
    );
    lemma_square(
        238215371158735264886435int,
        295669217107717914048023int,
        1305927nat,
        213142148745400420316804int,
        154793242690647377048886int,
        153650001228418514541110int,
    );
    lemma_square(
        238215371158735264886435int,
        295669217107717914048023int,
        2611854nat,
        154793242690647377048886int,
        213164730330293840232620int,
        81039711259343677192712int,
    );
    lemma_square(
        238215371158735264886435int,
        295669217107717914048023int,
        5223708nat,
        213164730330293840232620int,
        9164247170002265254422int,
        153682560197778485160086int,
    );
    lemma_square_times(
        238215371158735264886435int,
        295669217107717914048023int,
        10447416nat,
        9164247170002265254422int,
        251273022397058935668855int,
        67663936196760046197806126834728228547096595int,
    );
    lemma_square(
        238215371158735264886435int,
        295669217107717914048023int,
        20894833nat,
        251273022397058935668855int,
        81276085124633314224780int,
        213543135812986782333315int,
    );
    lemma_square_times(
        238215371158735264886435int,
        295669217107717914048023int,
        41789666nat,
        81276085124633314224780int,
        120423949573591491314964int,
        5322175888872065275903182022459971251598600132int,
    );
    lemma_square_times(
        238215371158735264886435int,
        295669217107717914048023int,
        83579333nat,
        120423949573591491314964int,
        70944902874897669429195int,
        11683942301826044765199078867320504381455789155int,
    );
    lemma_square_times(
        238215371158735264886435int,
        295669217107717914048023int,
        167158667nat,
        70944902874897669429195int,
        175691640051458399521149int,
        4055142004397764884076902038986600175552880162int,
    );
}

proof fn lemma_factor_2_3()
    ensures
        powers_to(
            238215371158735264886435int,
            295669217107717914048023int,
            684681902741nat,
            1int,
        ),
{
    lemma_factor_2_2();
    lemma_square(
        238215371158735264886435int,
        295669217107717914048023int,
        334317335nat,
        175691640051458399521149int,
        165526093488352760798008int,
        104398938401239062152791int,
    );
    lemma_square_times(
        238215371158735264886435int,
        295669217107717914048023int,
        668634670nat,
        165526093488352760798008int,
        174596065739218608536273int,
        22074791041472064340802145280791472371573412329int,
    );
    lemma_square(
        238215371158735264886435int,
        295669217107717914048023int,
        1337269341nat,
        174596065739218608536273int,
        161194788337148952790213int,
        103100980446360513231492int,
    );
    lemma_square_times(
        238215371158735264886435int,
        295669217107717914048023int,
        2674538682nat,
        161194788337148952790213int,
        207198020844842256275203int,
        20934647990488860702021783255418928640934973144int,
    );
    lemma_square(
        238215371158735264886435int,
        295669217107717914048023int,
        5349077365nat,
        207198020844842256275203int,
        289054292340911426753903int,
        145199491046033039829622int,
    );
    lemma_square(
        238215371158735264886435int,
        295669217107717914048023int,
        10698154730nat,
        289054292340911426753903int,
        85308464309101708863013int,
        282587361437309739268452int,
    );
    lemma_square_times(
        238215371158735264886435int,
        295669217107717914048023int,
        21396309460nat,
        85308464309101708863013int,
        202727841639608741573009int,
        5863378337480242003902733506097739548179596022int,
    );
    lemma_square(
        238215371158735264886435int,
        295669217107717914048023int,
        42792618921nat,
        202727841639608741573009int,
        165531188509999262308636int,
        139001882501962614203715int,
    );
    lemma_square_times(
        238215371158735264886435int,
        295669217107717914048023int,
        85585237842nat,
        165531188509999262308636int,
        77334392050218459737085int,
        22076150020794401064977741443613734493627366725int,
    );
    lemma_square(
        238215371158735264886435int,
        295669217107717914048023int,
        171170475685nat,
        77334392050218459737085int,
        6935928558568343164345int,
        20227361685738298880560int,
    );
    lemma_square_times(
        238215371158735264886435int,
        295669217107717914048023int,
        342340951370nat,
        6935928558568343164345int,
        1int,
        38759029356518601090774588750561245790987038int,
    );
}

/// A prime factor further down.
proof fn lemma_factor_2_prime()
    ensures
        prime(295669217107717914048023int),
{
    lemma_factor_3_prime();
    lemma_factor_2_3();
    lemma_prime_by_order(
        295669217107717914048023int,
        238215371158735264886435int,
        684681902741int,
        295211017268550808865236int,
        237846207788196426354801int,
    );
}

proof fn lemma_factor_1_whole_1()
    ensures
        powers_to(
            98964692081032854820995872345106173621276801480131int,
            198400523053184002814403536918162724916343842520561int,
            28299nat,
            170935061045704490588717701333953168074142234085820int,
        ),
{
    lemma_first_power(
        98964692081032854820995872345106173621276801480131int,
        198400523053184002814403536918162724916343842520561int,
    );
    lemma_square_times(
        98964692081032854820995872345106173621276801480131int,
        198400523053184002814403536918162724916343842520561int,
        1nat,
        98964692081032854820995872345106173621276801480131int,
        79983362618803511738010701219591725245248840788886int,
        4885376291117759244930665252768027543664048971073036901519497304654449066216754882803315971418352405int,
    );
    lemma_square(
        98964692081032854820995872345106173621276801480131int,
        198400523053184002814403536918162724916343842520561int,
        3nat,
        79983362618803511738010701219591725245248840788886int,
        88346966087327722676517004770587436170145996255924int,
        32244563660228456105874781736692147389491223931952int,
    );
    lemma_square_times(
        98964692081032854820995872345106173621276801480131int,
        198400523053184002814403536918162724916343842520561int,
        6nat,
        88346966087327722676517004770587436170145996255924int,
        166046435935930277487339338313687925055040258044135int,
        3893325776011771392879101370282833148252612547727648568827586018234104006181868691746744530585718361int,
    );
    lemma_square_times(
        98964692081032854820995872345106173621276801480131int,
        198400523053184002814403536918162724916343842520561int,
        13nat,
        166046435935930277487339338313687925055040258044135int,
        113114480076674834919503704126860944583137359730693int,
        13752972716005211097348579759211732982545231802391361306411995505272510952813087217718203904172142062int,
    );
    lemma_square_times(
        98964692081032854820995872345106173621276801480131int,
        198400523053184002814403536918162724916343842520561int,
        27nat,
        113114480076674834919503704126860944583137359730693int,
        71218274346778063098539338016648130046044622277142int,
        6382250885372572841623210414524353891382087033105382304228174475988259742542133336911114162528703557int,
    );
    lemma_square(
        98964692081032854820995872345106173621276801480131int,
        198400523053184002814403536918162724916343842520561int,
        55nat,
        71218274346778063098539338016648130046044622277142int,
        93106280481974244339190814586605643471301230382268int,
        25564663453902867065806589979888691659928438093736int,
    );
    lemma_square_times(
        98964692081032854820995872345106173621276801480131int,
        198400523053184002814403536918162724916343842520561int,
        110nat,
        93106280481974244339190814586605643471301230382268int,
        47840144784980186483589640844502075123344867625306int,
        4324096919143424130771279350579273832224848705028184486205525633466925850743223135053509841491247158int,
    );
    lemma_square(
        98964692081032854820995872345106173621276801480131int,
        198400523053184002814403536918162724916343842520561int,
        221nat,
        47840144784980186483589640844502075123344867625306int,
        70820140412516342402618349983588310438000019871811int,
        11535652314960655461843762910158918035425685619825int,
    );
    lemma_square(
        98964692081032854820995872345106173621276801480131int,
        198400523053184002814403536918162724916343842520561int,
        442nat,
        70820140412516342402618349983588310438000019871811int,
        141800997855716905872029549560159498934867543800221int,
        25279632386372582156290698711765047417345444899500int,
    );
    lemma_square(
        98964692081032854820995872345106173621276801480131int,
        198400523053184002814403536918162724916343842520561int,
        884nat,
        141800997855716905872029549560159498934867543800221int,
        35994866665015697378436863997993411252824690146545int,
        101348134991997632185779875316542752496520076946136int,
    );
    lemma_square_times(
        98964692081032854820995872345106173621276801480131int,
        198400523053184002814403536918162724916343842520561int,
        1768nat,
        35994866665015697378436863997993411252824690146545int,
        196631283457782902387294388444205869311523703105687int,
        646276855573214403818519350585870243233741045567818345561727457973233592958294096408352426628884108int,
    );
    lemma_square(
        98964692081032854820995872345106173621276801480131int,
        198400523053184002814403536918162724916343842520561int,
        3537nat,
        196631283457782902387294388444205869311523703105687int,
        157692489721437752358675950908040002749409341979425int,
        194877821082611689931874089243001739646839307992304int,
    );
    lemma_square_times(
        98964692081032854820995872345106173621276801480131int,
        198400523053184002814403536918162724916343842520561int,
        7074nat,
        157692489721437752358675950908040002749409341979425int,
        132711145615707850537018445233876697042839399167387int,
        12403935095663039611939727472204041477253163882467416010803629424133375985388059743189917051281180008int,
    );
    lemma_square_times(
        98964692081032854820995872345106173621276801480131int,
        198400523053184002814403536918162724916343842520561int,
        14149nat,
        132711145615707850537018445233876697042839399167387int,
        170935061045704490588717701333953168074142234085820int,
        8785212308105946637423858345833392966346443791914966157568860908439769298869669479417849892976631679int,
    );
}

proof fn lemma_factor_1_whole_2()
    ensures
        powers_to(
            98964692081032854820995872345106173621276801480131int,
            198400523053184002814403536918162724916343842520561int,
            463665516nat,
            40294316067690734365183576288456161270786424473465int,
        ),
{
    lemma_factor_1_whole_1();
    lemma_square_times(
        98964692081032854820995872345106173621276801480131int,
        198400523053184002814403536918162724916343842520561int,
        28299nat,
        170935061045704490588717701333953168074142234085820int,
        187359770150923121220353474072590109084354013395954int,
        14574704819455092732631395352170438705824374792114629516527292390920037074949986873183654330946528286int,
    );
    lemma_square_times(
        98964692081032854820995872345106173621276801480131int,
        198400523053184002814403536918162724916343842520561int,
        56599nat,
        187359770150923121220353474072590109084354013395954int,
        77538523613033974115146804832349886630654855678601int,
        17510161627381216180823042894597274325284820820847467380553823598092175426243658007598068235995665395int,
    );
    lemma_square_times(
        98964692081032854820995872345106173621276801480131int,
        198400523053184002814403536918162724916343842520561int,
        113199nat,
        77538523613033974115146804832349886630654855678601int,
        73798796497460485644039515385193967281120444710392int,
        2998972752382242383196184843039543820581297937854145622157412401046362280368109486899024219969083499int,
    );
    lemma_square(
        98964692081032854820995872345106173621276801480131int,
        198400523053184002814403536918162724916343842520561int,
        226399nat,
        73798796497460485644039515385193967281120444710392int,
        36034144519452719309101243462165886581664260247858int,
        27450846805548189658319102017607634960995400600046int,
    );
    lemma_square(
        98964692081032854820995872345106173621276801480131int,
        198400523053184002814403536918162724916343842520561int,
        452798nat,
        36034144519452719309101243462165886581664260247858int,
        3958540776016837676588267695039419617192700592228int,
        6544637843019871524835528241974329128006620865376int,
    );
    lemma_square_times(
        98964692081032854820995872345106173621276801480131int,
        198400523053184002814403536918162724916343842520561int,
        905596nat,
        3958540776016837676588267695039419617192700592228int,
        7064496729018345581000186333778503112064459691296int,
        7816416821471630447139586026623374907940705316319692845349895483348079232015556906981545004870928int,
    );
    lemma_square(
        98964692081032854820995872345106173621276801480131int,
        198400523053184002814403536918162724916343842520561int,
        1811193nat,
        7064496729018345581000186333778503112064459691296int,
        23370128590562194758715154652781490858869597888757int,
        251547290633566587029228690799501480939954988219int,
    );
    lemma_square_times(
        98964692081032854820995872345106173621276801480131int,
        198400523053184002814403536918162724916343842520561int,
        3622386nat,
        23370128590562194758715154652781490858869597888757int,
        148796852758310257516006597055632943280385038556848int,
        272432972534712718081404632250473251931096760886446781693798954774265076661376824437371774380634411int,
    );
    lemma_square_times(
        98964692081032854820995872345106173621276801480131int,
        198400523053184002814403536918162724916343842520561int,
        7244773nat,
        148796852758310257516006597055632943280385038556848int,
        37550720485879487302569576875957955458113259138417int,
        11043963326649458719053502456815347548281392262029841758965186028469402463472364999462912489527407487int,
    );
    lemma_square(
        98964692081032854820995872345106173621276801480131int,
        198400523053184002814403536918162724916343842520561int,
        14489547nat,
        37550720485879487302569576875957955458113259138417int,
        170251107876404156524115384702760469700944502492085int,
        7107121429466515231194790099065019902251352073964int,
    );
    lemma_square_times(
        98964692081032854820995872345106173621276801480131int,
        198400523053184002814403536918162724916343842520561int,
        28979094nat,
        170251107876404156524115384702760469700944502492085int,
        126666163364796067269242548428523396847846820197282int,
        14458304211500904973010116767576807052153393889251734220207280079909265618208080129466637926094997913int,
    );
    lemma_square_times(
        98964692081032854820995872345106173621276801480131int,
        198400523053184002814403536918162724916343842520561int,
        57958189nat,
        126666163364796067269242548428523396847846820197282int,
        115383031801702341483254776211443320803843753369797int,
        8003108365526185117054668053414156811297731147912391543296770664853855338851782021577360003780988727int,
    );
    lemma_square(
        98964692081032854820995872345106173621276801480131int,
        198400523053184002814403536918162724916343842520561int,
        115916379nat,
        115383031801702341483254776211443320803843753369797int,
        169375863295672426080296834602491092651773366618635int,
        67102867587621504326185561651479871440923079143534int,
    );
    lemma_square(
        98964692081032854820995872345106173621276801480131int,
        198400523053184002814403536918162724916343842520561int,
        231832758nat,
        169375863295672426080296834602491092651773366618635int,
        40294316067690734365183576288456161270786424473465int,
        144597315700947268710253221365927009091429861500160int,
    );
}

proof fn lemma_factor_1_whole_3()
    ensures
        powers_to(
            98964692081032854820995872345106173621276801480131int,
            198400523053184002814403536918162724916343842520561int,
            7596695816840nat,
            134723499423061158414163023075795135798307380861252int,
        ),
{
    lemma_factor_1_whole_2();
    lemma_square(
        98964692081032854820995872345106173621276801480131int,
        198400523053184002814403536918162724916343842520561int,
        463665516nat,
        40294316067690734365183576288456161270786424473465int,
        10930640569707936449353177185377008785853118719389int,
        8183606990429771744788086681422729693699367192276int,
    );
    lemma_square(
        98964692081032854820995872345106173621276801480131int,
        198400523053184002814403536918162724916343842520561int,
        927331032nat,
        10930640569707936449353177185377008785853118719389int,
        15467696074658458551518653678589399093429385309722int,
        602210626390924734910148501642785162124289430559int,
    );
    lemma_square_times(
        98964692081032854820995872345106173621276801480131int,
        198400523053184002814403536918162724916343842520561int,
        1854662064nat,
        15467696074658458551518653678589399093429385309722int,
        96423587575840625822238009184790364005760367456418int,
        119340739597415089601320562882352041450690120296453637495968296501813640887815862046637950238421226int,
    );
    lemma_square(
        98964692081032854820995872345106173621276801480131int,
        198400523053184002814403536918162724916343842520561int,
        3709324129nat,
        96423587575840625822238009184790364005760367456418int,
        173561589478404384033828775768812725440931447977178int,
        46862317185038272740560800048057785834753156557386int,
    );
    lemma_square_times(
        98964692081032854820995872345106173621276801480131int,
        198400523053184002814403536918162724916343842520561int,
        7418648258nat,
        173561589478404384033828775768812725440931447977178int,
        140886978396440106368343472418192111877990700125747int,
        15026045599501873285770155362568440493541311997001232570505623740671334835567794215274679247101400137int,
    );
    lemma_square(
        98964692081032854820995872345106173621276801480131int,
        198400523053184002814403536918162724916343842520561int,
        14837296517nat,
        140886978396440106368343472418192111877990700125747int,
        184923852397319407781879801405468949731071374393705int,
        100045808227824806183982591140039858808540081334464int,
    );
    lemma_square_times(
        98964692081032854820995872345106173621276801480131int,
        198400523053184002814403536918162724916343842520561int,
        29674593034nat,
        184923852397319407781879801405468949731071374393705int,
        54478699407999983791111576925741214865024332670626int,
        17057812229201934199785583636346063835999976857379149514864235683128500955650481019550018443738368609int,
    );
    lemma_square(
        98964692081032854820995872345106173621276801480131int,
        198400523053184002814403536918162724916343842520561int,
        59349186069nat,
        54478699407999983791111576925741214865024332670626int,
        173522944232622784548521808108133374581379329772117int,
        14959278551859580893252651893102855655434035033119int,
    );
    lemma_square(
        98964692081032854820995872345106173621276801480131int,
        198400523053184002814403536918162724916343842520561int,
        118698372138nat,
        173522944232622784548521808108133374581379329772117int,
        170695692455209684860378723493307262207225371467293int,
        151764782228353593007553173132280290928531172022236int,
    );
    lemma_square(
        98964692081032854820995872345106173621276801480131int,
        198400523053184002814403536918162724916343842520561int,
        237396744276nat,
        170695692455209684860378723493307262207225371467293int,
        166033630367026945799331354169605901004822641104249int,
        146859589754977348003530879075557589142695886587600int,
    );
    lemma_square_times(
        98964692081032854820995872345106173621276801480131int,
        198400523053184002814403536918162724916343842520561int,
        474793488552nat,
        166033630367026945799331354169605901004822641104249int,
        151639155837678902179459943992242226975934973030215int,
        13750851528064845395768871085098388664878969124824949316568072374653530394879683637191852505513572556int,
    );
    lemma_square(
        98964692081032854820995872345106173621276801480131int,
        198400523053184002814403536918162724916343842520561int,
        949586977105nat,
        151639155837678902179459943992242226975934973030215int,
        131455282661558896224936213290522643497309768670976int,
        115899057267101517113781136045979883842609232598209int,
    );
    lemma_square(
        98964692081032854820995872345106173621276801480131int,
        198400523053184002814403536918162724916343842520561int,
        1899173954210nat,
        131455282661558896224936213290522643497309768670976int,
        40861535305232736563192409679448030807258208477210int,
        87099021079687740445833996606639498036188232872006int,
    );
    lemma_square(
        98964692081032854820995872345106173621276801480131int,
        198400523053184002814403536918162724916343842520561int,
        3798347908420nat,
        40861535305232736563192409679448030807258208477210int,
        134723499423061158414163023075795135798307380861252int,
        8415628355239792323946186705490789463776646012768int,
    );
}

proof fn lemma_factor_1_whole_4()
    ensures
        powers_to(
            98964692081032854820995872345106173621276801480131int,
            198400523053184002814403536918162724916343842520561int,
            124464264263108835nat,
            194328072040295944502715608905143708848897020822518int,
        ),
{
    lemma_factor_1_whole_3();
    lemma_square(
        98964692081032854820995872345106173621276801480131int,
        198400523053184002814403536918162724916343842520561int,
        7596695816840nat,
        134723499423061158414163023075795135798307380861252int,
        152009190737258994464284579924039625047098851677918int,
        91483737126691389574922152831759028777602144595026int,
    );
    lemma_square(
        98964692081032854820995872345106173621276801480131int,
        198400523053184002814403536918162724916343842520561int,
        15193391633680nat,
        152009190737258994464284579924039625047098851677918int,
        79064137311266974234505239631166633788246055969902int,
        116465388865947143253168014815806278226537746851702int,
    );
    lemma_square_times(
        98964692081032854820995872345106173621276801480131int,
        198400523053184002814403536918162724916343842520561int,
        30386783267360nat,
        79064137311266974234505239631166633788246055969902int,
        66167782464709195560547773603132964549069506475414int,
        3118146660508917955020143025746213687260715073795921248498534298700203644261056966954522505851561110int,
    );
    lemma_square(
        98964692081032854820995872345106173621276801480131int,
        198400523053184002814403536918162724916343842520561int,
        60773566534721nat,
        66167782464709195560547773603132964549069506475414int,
        24383051469500601081590932018203115958751535062712int,
        22067358336164503248759066601464880837807848664044int,
    );
    lemma_square(
        98964692081032854820995872345106173621276801480131int,
        198400523053184002814403536918162724916343842520561int,
        121547133069442nat,
        24383051469500601081590932018203115958751535062712int,
        113033577887219486065239953229006576056140107109101int,
        2996631207494057761450027487348730698002961010563int,
    );
    lemma_square(
        98964692081032854820995872345106173621276801480131int,
        198400523053184002814403536918162724916343842520561int,
        243094266138884nat,
        113033577887219486065239953229006576056140107109101int,
        147901101957297970821731362975493765541300399243587int,
        64397963943679586367054881164186995946945246487174int,
    );
    lemma_square_times(
        98964692081032854820995872345106173621276801480131int,
        198400523053184002814403536918162724916343842520561int,
        486188532277768nat,
        147901101957297970821731362975493765541300399243587int,
        76609716481031062640214691026824189880384485213537int,
        10911395168414452237871251397592445865195144311299685493665745859355750550540692218336294838321341082int,
    );
    lemma_square_times(
        98964692081032854820995872345106173621276801480131int,
        198400523053184002814403536918162724916343842520561int,
        972377064555537nat,
        76609716481031062640214691026824189880384485213537int,
        4985928488461264621615167081382013050779152411204int,
        2927555756599070104103610759170442788414124786813502591411864423927323662908234233699007522131087535int,
    );
    lemma_square_times(
        98964692081032854820995872345106173621276801480131int,
        198400523053184002814403536918162724916343842520561int,
        1944754129111075nat,
        4985928488461264621615167081382013050779152411204int,
        61765309713219449508944480637738257254615425217084int,
        12400224716372860874246881661267907935957619366070843875244082601413804579725338924949047467191092int,
    );
    lemma_square(
        98964692081032854820995872345106173621276801480131int,
        198400523053184002814403536918162724916343842520561int,
        3889508258222151nat,
        61765309713219449508944480637738257254615425217084int,
        36347267462276574725284681112892897557393091137674int,
        19228545496058343850043368915370899243587132274662int,
    );
    lemma_square(
        98964692081032854820995872345106173621276801480131int,
        198400523053184002814403536918162724916343842520561int,
        7779016516444302nat,
        36347267462276574725284681112892897557393091137674int,
        98416942401635126685074342561046392479159875396582int,
        6658872827770337486748896238150154918781801359454int,
    );
    lemma_square(
        98964692081032854820995872345106173621276801480131int,
        198400523053184002814403536918162724916343842520561int,
        15558033032888604nat,
        98416942401635126685074342561046392479159875396582int,
        169786472450701705905195543610159140121695172370523int,
        48819904315929289002069354309762881940917064737241int,
    );
    lemma_square_times(
        98964692081032854820995872345106173621276801480131int,
        198400523053184002814403536918162724916343842520561int,
        31116066065777208nat,
        169786472450701705905195543610159140121695172370523int,
        123072699623829848101480395924961085240545482634312int,
        14379495051017861276948593130899694471571249498542708224684123302084261528673566661658145898348076467int,
    );
    lemma_square_times(
        98964692081032854820995872345106173621276801480131int,
        198400523053184002814403536918162724916343842520561int,
        62232132131554417nat,
        123072699623829848101480395924961085240545482634312int,
        194328072040295944502715608905143708848897020822518int,
        7555460145293750207702188096907825809262028908890706659706253261052716375286371971939946121343169386int,
    );
}

proof fn lemma_factor_1_whole_5()
    ensures
        powers_to(
            98964692081032854820995872345106173621276801480131int,
            198400523053184002814403536918162724916343842520561int,
            2039222505686775164027nat,
            112503952238130076289920915947991294411498675606551int,
        ),
{
    lemma_factor_1_whole_4();
    lemma_square_times(
        98964692081032854820995872345106173621276801480131int,
        198400523053184002814403536918162724916343842520561int,
        124464264263108835nat,
        194328072040295944502715608905143708848897020822518int,
        123192827909380848341078084827438357558526826961980int,
        18836861688377353637771413456728168835801172438322265409988675620110587849548713530804820256619447024int,
    );
    lemma_square(
        98964692081032854820995872345106173621276801480131int,
        198400523053184002814403536918162724916343842520561int,
        248928528526217671nat,
        123192827909380848341078084827438357558526826961980int,
        20877894941222526973175768903421467694525645740650int,
        76494117126102845706938478108754114119360386719750int,
    );
    lemma_square_times(
        98964692081032854820995872345106173621276801480131int,
        198400523053184002814403536918162724916343842520561int,
        497857057052435342nat,
        20877894941222526973175768903421467694525645740650int,
        87441448309589213242455438637419521568177768531311int,
        217425701865770965785350393534156996242058944560961390795934722403393582897855999669106935389556749int,
    );
    lemma_square_times(
        98964692081032854820995872345106173621276801480131int,
        198400523053184002814403536918162724916343842520561int,
        995714114104870685nat,
        87441448309589213242455438637419521568177768531311int,
        196283418335402348470822592582106744802770178854247int,
        3813925009517787811869353790456281636342066821655383399561730102583462015961771181745984539389514364int,
    );
    lemma_square(
        98964692081032854820995872345106173621276801480131int,
        198400523053184002814403536918162724916343842520561int,
        1991428228209741371nat,
        196283418335402348470822592582106744802770178854247int,
        7293301268568914607585457795899968177018560382526int,
        194188904951136744590173289502819878093978915304803int,
    );
    lemma_square(
        98964692081032854820995872345106173621276801480131int,
        198400523053184002814403536918162724916343842520561int,
        3982856456419482742nat,
        7293301268568914607585457795899968177018560382526int,
        186209566317769600907780314014522281410711601835235int,
        268105358673122161738803221737754311563785740081int,
    );
    lemma_square(
        98964692081032854820995872345106173621276801480131int,
        198400523053184002814403536918162724916343842520561int,
        7965712912838965484nat,
        186209566317769600907780314014522281410711601835235int,
        5273090436338386689635877891893461443835972083069int,
        174767697456911387948429323115452324087612928480396int,
    );
    lemma_square_times(
        98964692081032854820995872345106173621276801480131int,
        198400523053184002814403536918162724916343842520561int,
        15931425825677930968nat,
        5273090436338386689635877891893461443835972083069int,
        193856278007710619334832674369996686320153456800028int,
        13869726733336849016121883908316550637992258449528291923345504260007222488185685038002049231915183int,
    );
    lemma_square_times(
        98964692081032854820995872345106173621276801480131int,
        198400523053184002814403536918162724916343842520561int,
        31862851651355861937nat,
        193856278007710619334832674369996686320153456800028int,
        96150457996921319368560671507151385776730712464835int,
        18745507612035055795051758523135430945903674740694899045175000517716669124778977802014394597805325629int,
    );
    lemma_square_times(
        98964692081032854820995872345106173621276801480131int,
        198400523053184002814403536918162724916343842520561int,
        63725703302711723875nat,
        96150457996921319368560671507151385776730712464835int,
        57770211594330132559113438117309426003946732835312int,
        4611478407897784947807454302789487244632660057396741034019708467226537982725897298257016854150758683int,
    );
    lemma_square_times(
        98964692081032854820995872345106173621276801480131int,
        198400523053184002814403536918162724916343842520561int,
        127451406605423447751nat,
        57770211594330132559113438117309426003946732835312int,
        119698866122126722536194335728408117209575678429129int,
        1664736038896754544138408884477747309800697704041816348343457894487708248200470258977431428245095335int,
    );
    lemma_square(
        98964692081032854820995872345106173621276801480131int,
        198400523053184002814403536918162724916343842520561int,
        254902813210846895503nat,
        119698866122126722536194335728408117209575678429129int,
        97658492380838481998675609172042119179826517690064int,
        72216636984782779942710646580701238293396902000657int,
    );
    lemma_square_times(
        98964692081032854820995872345106173621276801480131int,
        198400523053184002814403536918162724916343842520561int,
        509805626421693791006nat,
        97658492380838481998675609172042119179826517690064int,
        93709116809507974945643783214362642923182046392850int,
        4757266663072568031848111784709424677091843326807859065213200536561278627383172606390973685805154766int,
    );
    lemma_square_times(
        98964692081032854820995872345106173621276801480131int,
        198400523053184002814403536918162724916343842520561int,
        1019611252843387582013nat,
        93709116809507974945643783214362642923182046392850int,
        112503952238130076289920915947991294411498675606551int,
        4380272755663961513271448273308106765176443607584710216897237020417720201559360088121367735547291909int,
    );
}

proof fn lemma_factor_1_whole_6()
    ensures
        powers_to(
            98964692081032854820995872345106173621276801480131int,
            198400523053184002814403536918162724916343842520561int,
            33410621533172124287426599nat,
            1int,
        ),
{
    lemma_factor_1_whole_5();
    lemma_square_times(
        98964692081032854820995872345106173621276801480131int,
        198400523053184002814403536918162724916343842520561int,
        2039222505686775164027nat,
        112503952238130076289920915947991294411498675606551int,
        60829705127349654240335758979013912603595121055954int,
        6313541270590772206026619017449256763974201936774895253612648791460649417461203533049754821054327857int,
    );
    lemma_square(
        98964692081032854820995872345106173621276801480131int,
        198400523053184002814403536918162724916343842520561int,
        4078445011373550328055nat,
        60829705127349654240335758979013912603595121055954int,
        155547355065136289381419345296578792402633721923112int,
        18650419711284757250294170567153279570720280755164int,
    );
    lemma_square(
        98964692081032854820995872345106173621276801480131int,
        198400523053184002814403536918162724916343842520561int,
        8156890022747100656110nat,
        155547355065136289381419345296578792402633721923112int,
        17826336643071647406826146148175085260887520832144int,
        121950180853473764774820164058735059603312935028400int,
    );
    lemma_square(
        98964692081032854820995872345106173621276801480131int,
        198400523053184002814403536918162724916343842520561int,
        16313780045494201312220nat,
        17826336643071647406826146148175085260887520832144int,
        74165354003368049771457186203852785235996112218943int,
        1601700808152275237438581865018077599069523170513int,
    );
    lemma_square(
        98964692081032854820995872345106173621276801480131int,
        198400523053184002814403536918162724916343842520561int,
        32627560090988402624440nat,
        74165354003368049771457186203852785235996112218943int,
        166981652932479694053997084430115453176701367272689int,
        27724219925420338819621601826047456141863584066960int,
    );
    lemma_square(
        98964692081032854820995872345106173621276801480131int,
        198400523053184002814403536918162724916343842520561int,
        65255120181976805248880nat,
        166981652932479694053997084430115453176701367272689int,
        192243114045427394718109308618535274468103590073554int,
        140538300942829243528886659295128093544388066382847int,
    );
    lemma_square(
        98964692081032854820995872345106173621276801480131int,
        198400523053184002814403536918162724916343842520561int,
        130510240363953610497760nat,
        192243114045427394718109308618535274468103590073554int,
        186269607886057208298626145137972830682850893032367int,
        186276801739964454111344557106265022857554002913509int,
    );
    lemma_square(
        98964692081032854820995872345106173621276801480131int,
        198400523053184002814403536918162724916343842520561int,
        261020480727907220995520nat,
        186269607886057208298626145137972830682850893032367int,
        74950902111740081276328297140621455245349810869297int,
        174880420112222511471249109639923338121971329193072int,
    );
    lemma_square_times(
        98964692081032854820995872345106173621276801480131int,
        198400523053184002814403536918162724916343842520561int,
        522040961455814441991040nat,
        74950902111740081276328297140621455245349810869297int,
        189009500887868963340978198486311209057132838469331int,
        2802148801605259431849103418809197265429132135583110366950157531579214279794537789153786075701629968int,
    );
    lemma_square(
        98964692081032854820995872345106173621276801480131int,
        198400523053184002814403536918162724916343842520561int,
        1044081922911628883982081nat,
        189009500887868963340978198486311209057132838469331int,
        58823477312798030713745749422831743517700371859331int,
        180062990137908395872727095782380596406720366367430int,
    );
    lemma_square(
        98964692081032854820995872345106173621276801480131int,
        198400523053184002814403536918162724916343842520561int,
        2088163845823257767964162nat,
        58823477312798030713745749422831743517700371859331int,
        39586822404232828605008187189129699817670518386823int,
        17440485689857328594336944330406614028544898116258int,
    );
    lemma_square_times(
        98964692081032854820995872345106173621276801480131int,
        198400523053184002814403536918162724916343842520561int,
        4176327691646515535928324nat,
        39586822404232828605008187189129699817670518386823int,
        82683761431338136789593720285897839247452681484943int,
        781697549426873936134334771708026591270405495800741509338709757280516737020886491883961238621019396int,
    );
    lemma_square_times(
        98964692081032854820995872345106173621276801480131int,
        198400523053184002814403536918162724916343842520561int,
        8352655383293031071856649nat,
        82683761431338136789593720285897839247452681484943int,
        107935779675817750216945042369736349688903270303938int,
        3410184808753352346718669988549021445495173482616459312889279724304103217455038426512498967418815921int,
    );
    lemma_square_times(
        98964692081032854820995872345106173621276801480131int,
        198400523053184002814403536918162724916343842520561int,
        16705310766586062143713299nat,
        107935779675817750216945042369736349688903270303938int,
        1int,
        5811233565366664383984712499269808558089912086839068075227571948982685524150108619007444144704881083int,
    );
}

proof fn lemma_factor_1_small_1()
    ensures
        powers_to(
            98964692081032854820995872345106173621276801480131int,
            198400523053184002814403536918162724916343842520561int,
            113nat,
            39353613582323558400163662926641377744268210487109int,
        ),
{
    lemma_first_power(
        98964692081032854820995872345106173621276801480131int,
        198400523053184002814403536918162724916343842520561int,
    );
    lemma_square_times(
        98964692081032854820995872345106173621276801480131int,
        198400523053184002814403536918162724916343842520561int,
        1nat,
        98964692081032854820995872345106173621276801480131int,
        79983362618803511738010701219591725245248840788886int,
        4885376291117759244930665252768027543664048971073036901519497304654449066216754882803315971418352405int,
    );
    lemma_square_times(
        98964692081032854820995872345106173621276801480131int,
        198400523053184002814403536918162724916343842520561int,
        3nat,
        79983362618803511738010701219591725245248840788886int,
        185106684352612078813617832679377000831656267473843int,
        3191073313921770853999068926028294220696349158559199607852018397910992574821138868453573545499842953int,
    );
    lemma_square(
        98964692081032854820995872345106173621276801480131int,
        198400523053184002814403536918162724916343842520561int,
        7nat,
        185106684352612078813617832679377000831656267473843int,
        163267381876358572138058780076900776569217187073995int,
        172703600095008281131878048813130422334877491498814int,
    );
    lemma_square(
        98964692081032854820995872345106173621276801480131int,
        198400523053184002814403536918162724916343842520561int,
        14nat,
        163267381876358572138058780076900776569217187073995int,
        184918796333365031144871859422503602244672598016499int,
        134355684020122902955794491893473300350441586846566int,
    );
    lemma_square(
        98964692081032854820995872345106173621276801480131int,
        198400523053184002814403536918162724916343842520561int,
        28nat,
        184918796333365031144871859422503602244672598016499int,
        80283875133176792447659074010520598886498245938374int,
        172353180884579142110022545923267435054305651922707int,
    );
    lemma_square_times(
        98964692081032854820995872345106173621276801480131int,
        198400523053184002814403536918162724916343842520561int,
        56nat,
        80283875133176792447659074010520598886498245938374int,
        39353613582323558400163662926641377744268210487109int,
        3215097284040161466320355532334789602197098213204445924204484358346420815559376834145341321906725527int,
    );
}

proof fn lemma_factor_1_large_1()
    ensures
        powers_to(
            98964692081032854820995872345106173621276801480131int,
            198400523053184002814403536918162724916343842520561int,
            32056nat,
            130637179979118714545434649772006056858414678966775int,
        ),
{
    lemma_first_power(
        98964692081032854820995872345106173621276801480131int,
        198400523053184002814403536918162724916343842520561int,
    );
    lemma_square_times(
        98964692081032854820995872345106173621276801480131int,
        198400523053184002814403536918162724916343842520561int,
        1nat,
        98964692081032854820995872345106173621276801480131int,
        79983362618803511738010701219591725245248840788886int,
        4885376291117759244930665252768027543664048971073036901519497304654449066216754882803315971418352405int,
    );
    lemma_square_times(
        98964692081032854820995872345106173621276801480131int,
        198400523053184002814403536918162724916343842520561int,
        3nat,
        79983362618803511738010701219591725245248840788886int,
        185106684352612078813617832679377000831656267473843int,
        3191073313921770853999068926028294220696349158559199607852018397910992574821138868453573545499842953int,
    );
    lemma_square_times(
        98964692081032854820995872345106173621276801480131int,
        198400523053184002814403536918162724916343842520561int,
        7nat,
        185106684352612078813617832679377000831656267473843int,
        147844332321704892376718748606885117069928621339640int,
        17091558604688331033227857473244531691975192858788805242130141839266418822506589220414118463123751539int,
    );
    lemma_square_times(
        98964692081032854820995872345106173621276801480131int,
        198400523053184002814403536918162724916343842520561int,
        15nat,
        147844332321704892376718748606885117069928621339640int,
        117113997591269521797427516451750796366500742055343int,
        10903020422875728793122538956068753783188854019378016415129099012124254442336267445757255856280821537int,
    );
    lemma_square(
        98964692081032854820995872345106173621276801480131int,
        198400523053184002814403536918162724916343842520561int,
        31nat,
        117113997591269521797427516451750796366500742055343int,
        88711942723935959644994472147174703828131906046170int,
        69131311857132571516342331715640787337508455683639int,
    );
    lemma_square_times(
        98964692081032854820995872345106173621276801480131int,
        198400523053184002814403536918162724916343842520561int,
        62nat,
        88711942723935959644994472147174703828131906046170int,
        56727306277474715453634235618696139839854584074121int,
        3925560229617443420185474994511700638417791157603407401347322475124324300487739617276105527804545939int,
    );
    lemma_square(
        98964692081032854820995872345106173621276801480131int,
        198400523053184002814403536918162724916343842520561int,
        125nat,
        56727306277474715453634235618696139839854584074121int,
        33310516172887122170396214281639412906169816092221int,
        16219651178216885470023501035432545399589362587220int,
    );
    lemma_square(
        98964692081032854820995872345106173621276801480131int,
        198400523053184002814403536918162724916343842520561int,
        250nat,
        33310516172887122170396214281639412906169816092221int,
        176442798610563548738722758071145197296206240565195int,
        5592679246146611516869413789702823493573552355486int,
    );
    lemma_square_times(
        98964692081032854820995872345106173621276801480131int,
        198400523053184002814403536918162724916343842520561int,
        500nat,
        176442798610563548738722758071145197296206240565195int,
        92400084951627444980032934225180274038782594266692int,
        15529066160031671082860917862618618879687287008459226163575370096644265383654149429124825792758418903int,
    );
    lemma_square_times(
        98964692081032854820995872345106173621276801480131int,
        198400523053184002814403536918162724916343842520561int,
        1001nat,
        92400084951627444980032934225180274038782594266692int,
        77429393766352057974110418268010115360927981945076int,
        4258750582470436010077305073950598268675179181985440715433043909597367527925034074244376453832370428int,
    );
    lemma_square_times(
        98964692081032854820995872345106173621276801480131int,
        198400523053184002814403536918162724916343842520561int,
        2003nat,
        77429393766352057974110418268010115360927981945076int,
        140799697026205316083099215030197648259679813851584int,
        2990537019747492323791843044285405889755811992393802441957961995711153734626591776449062078192691952int,
    );
    lemma_square(
        98964692081032854820995872345106173621276801480131int,
        198400523053184002814403536918162724916343842520561int,
        4007nat,
        140799697026205316083099215030197648259679813851584int,
        151169514837433243691979137058123999468911271373783int,
        99921887188558289232983092548659334240447539147193int,
    );
    lemma_square(
        98964692081032854820995872345106173621276801480131int,
        198400523053184002814403536918162724916343842520561int,
        8014nat,
        151169514837433243691979137058123999468911271373783int,
        43136126881898988828175218691778054049370210235009int,
        115182267992605521251203691958176045704481776299280int,
    );
    lemma_square(
        98964692081032854820995872345106173621276801480131int,
        198400523053184002814403536918162724916343842520561int,
        16028nat,
        43136126881898988828175218691778054049370210235009int,
        130637179979118714545434649772006056858414678966775int,
        9378631738145646943272176963813111633418544517546int,
    );
}

proof fn lemma_factor_1_large_2()
    ensures
        powers_to(
            98964692081032854820995872345106173621276801480131int,
            198400523053184002814403536918162724916343842520561int,
            525214036nat,
            154266036543475252606219727230770736641056360031964int,
        ),
{
    lemma_factor_1_large_1();
    lemma_square_times(
        98964692081032854820995872345106173621276801480131int,
        198400523053184002814403536918162724916343842520561int,
        32056nat,
        130637179979118714545434649772006056858414678966775int,
        159546886291820211719588075515171043185426970989355int,
        8512773116675536937508163317196205756831069941969530172364735747329622289975934125446867382225933320int,
    );
    lemma_square(
        98964692081032854820995872345106173621276801480131int,
        198400523053184002814403536918162724916343842520561int,
        64113nat,
        159546886291820211719588075515171043185426970989355int,
        31738533625803994312315784491802841019096837011043int,
        128302126091630250155387849354376791869944948638262int,
    );
    lemma_square(
        98964692081032854820995872345106173621276801480131int,
        198400523053184002814403536918162724916343842520561int,
        128226nat,
        31738533625803994312315784491802841019096837011043int,
        67958251053301248363405376966047301185891562624386int,
        5077277525353402921519666336913317562523532092983int,
    );
    lemma_square(
        98964692081032854820995872345106173621276801480131int,
        198400523053184002814403536918162724916343842520561int,
        256452nat,
        67958251053301248363405376966047301185891562624386int,
        154235622542932598340517539216853045315446266527158int,
        23277780799930223334399925496002351403772845549358int,
    );
    lemma_square(
        98964692081032854820995872345106173621276801480131int,
        198400523053184002814403536918162724916343842520561int,
        512904nat,
        154235622542932598340517539216853045315446266527158int,
        26309589485619909498254998891305803921178304878196int,
        119902039042654680558126945918770582378079727445488int,
    );
    lemma_square_times(
        98964692081032854820995872345106173621276801480131int,
        198400523053184002814403536918162724916343842520561int,
        1025808nat,
        26309589485619909498254998891305803921178304878196int,
        71195911499607453806633250152466239160700237458394int,
        345275377251109722060920416619870955227416319670699673457137726387523326902303100129401418222288182int,
    );
    lemma_square(
        98964692081032854820995872345106173621276801480131int,
        198400523053184002814403536918162724916343842520561int,
        2051617nat,
        71195911499607453806633250152466239160700237458394int,
        35894351097101117476444858129888749273420136456997int,
        25548611144039975514208843336859774827296935634799int,
    );
    lemma_square_times(
        98964692081032854820995872345106173621276801480131int,
        198400523053184002814403536918162724916343842520561int,
        4103234nat,
        35894351097101117476444858129888749273420136456997int,
        84632533833157607256302510582248735460002112203355int,
        642672442520456730823912540695719957821610259589920359637690351178632114318939292452433266972636784int,
    );
    lemma_square(
        98964692081032854820995872345106173621276801480131int,
        198400523053184002814403536918162724916343842520561int,
        8206469nat,
        84632533833157607256302510582248735460002112203355int,
        87913299933420989256698944880782922935318337862958int,
        36102050905886551003735568835208716581029431894747int,
    );
    lemma_square_times(
        98964692081032854820995872345106173621276801480131int,
        198400523053184002814403536918162724916343842520561int,
        16412938nat,
        87913299933420989256698944880782922935318337862958int,
        73431523317325149301579729040059333083629420090943int,
        3855197478432395737129925207835003402995510915544794803572975938143531257519092459202253479240850781int,
    );
    lemma_square(
        98964692081032854820995872345106173621276801480131int,
        198400523053184002814403536918162724916343842520561int,
        32825877nat,
        73431523317325149301579729040059333083629420090943int,
        12574113959942404052767736570784689875350491299682int,
        27178298392174179910553619312951734539143353791247int,
    );
    lemma_square_times(
        98964692081032854820995872345106173621276801480131int,
        198400523053184002814403536918162724916343842520561int,
        65651754nat,
        12574113959942404052767736570784689875350491299682int,
        113470256399078679594008723348292807086300333827266int,
        78866442127104414915340912450613683005364896457885198035399208683232983473550413272721538955125098int,
    );
    lemma_square(
        98964692081032854820995872345106173621276801480131int,
        198400523053184002814403536918162724916343842520561int,
        131303509nat,
        113470256399078679594008723348292807086300333827266int,
        190063625072114654647713111532622169336416589022533int,
        64896497696335208342597261928414856215158642452143int,
    );
    lemma_square(
        98964692081032854820995872345106173621276801480131int,
        198400523053184002814403536918162724916343842520561int,
        262607018nat,
        190063625072114654647713111532622169336416589022533int,
        154266036543475252606219727230770736641056360031964int,
        182077048082528412102401303178305777124482029994125int,
    );
}

proof fn lemma_factor_1_large_3()
    ensures
        powers_to(
            98964692081032854820995872345106173621276801480131int,
            198400523053184002814403536918162724916343842520561int,
            8605106765978nat,
            3682228987590403711172226722095618636986407635488int,
        ),
{
    lemma_factor_1_large_2();
    lemma_square(
        98964692081032854820995872345106173621276801480131int,
        198400523053184002814403536918162724916343842520561int,
        525214036nat,
        154266036543475252606219727230770736641056360031964int,
        41960020840782942257158404659784414329468316086147int,
        119949331103595208263066390505380854715409175670109int,
    );
    lemma_square(
        98964692081032854820995872345106173621276801480131int,
        198400523053184002814403536918162724916343842520561int,
        1050428072nat,
        41960020840782942257158404659784414329468316086147int,
        191701291505444175629477857088870439439962587387093int,
        8874187032697358687566866441441591801989700151156int,
    );
    lemma_square(
        98964692081032854820995872345106173621276801480131int,
        198400523053184002814403536918162724916343842520561int,
        2100856144nat,
        191701291505444175629477857088870439439962587387093int,
        117890578914243568709636045295636744507681917984366int,
        185228267543448474409209321605356293463666865428603int,
    );
    lemma_square(
        98964692081032854820995872345106173621276801480131int,
        198400523053184002814403536918162724916343842520561int,
        4201712288nat,
        117890578914243568709636045295636744507681917984366int,
        94020314903960008144384934121821945741451801746901int,
        70051169134316691067255709559850019488059897212255int,
    );
    lemma_square(
        98964692081032854820995872345106173621276801480131int,
        198400523053184002814403536918162724916343842520561int,
        8403424576nat,
        94020314903960008144384934121821945741451801746901int,
        156094510827163293409465977828886212286140269295711int,
        44555424948502623602664822172675651436480716461690int,
    );
    lemma_square(
        98964692081032854820995872345106173621276801480131int,
        198400523053184002814403536918162724916343842520561int,
        16806849152nat,
        156094510827163293409465977828886212286140269295711int,
        170778892675826031025617944016457885247685625661790int,
        122809637471771637057318520739424469888599497629971int,
    );
    lemma_square_times(
        98964692081032854820995872345106173621276801480131int,
        198400523053184002814403536918162724916343842520561int,
        33613698304nat,
        170778892675826031025617944016457885247685625661790int,
        104777029184720997862881864215664677551176890804211int,
        14548085726342868769784536891758838906625706756526834314241001354438102165431422285882432003149041449int,
    );
    lemma_square(
        98964692081032854820995872345106173621276801480131int,
        198400523053184002814403536918162724916343842520561int,
        67227396609nat,
        104777029184720997862881864215664677551176890804211int,
        61655716530163377915222452344544295051175720769713int,
        55333653741593264538793288817490325021757996171128int,
    );
    lemma_square(
        98964692081032854820995872345106173621276801480131int,
        198400523053184002814403536918162724916343842520561int,
        134454793218nat,
        61655716530163377915222452344544295051175720769713int,
        178999157149957564484991381865424988914188186417692int,
        19160369752799676071915153703947490383152288420757int,
    );
    lemma_square_times(
        98964692081032854820995872345106173621276801480131int,
        198400523053184002814403536918162724916343842520561int,
        268909586436nat,
        178999157149957564484991381865424988914188186417692int,
        169465700297411905866580482270751109241922957720683int,
        15982305835712406069435777712314090904827266904138087286800801683637234095036641243786024182816875541int,
    );
    lemma_square_times(
        98964692081032854820995872345106173621276801480131int,
        198400523053184002814403536918162724916343842520561int,
        537819172873nat,
        169465700297411905866580482270751109241922957720683int,
        10024619524449400707152037371915067358828681539090int,
        14325212935834569317343623322697331430104491889304546059637976721741241431282814017576652347819802729int,
    );
    lemma_square(
        98964692081032854820995872345106173621276801480131int,
        198400523053184002814403536918162724916343842520561int,
        1075638345747nat,
        10024619524449400707152037371915067358828681539090int,
        119088885141696593836344530662097616596065220850870int,
        506515784653620050516073775393576115673258776430int,
    );
    lemma_square_times(
        98964692081032854820995872345106173621276801480131int,
        198400523053184002814403536918162724916343842520561int,
        2151276691494nat,
        119088885141696593836344530662097616596065220850870int,
        191844686664417025872197852341345462503658944419764int,
        7074242192607994013267722774764899633490012667653043457433259945611230495741726678578535787946531576int,
    );
    lemma_square(
        98964692081032854820995872345106173621276801480131int,
        198400523053184002814403536918162724916343842520561int,
        4302553382989nat,
        191844686664417025872197852341345462503658944419764int,
        3682228987590403711172226722095618636986407635488int,
        185505477682145142315611994320298765805676976284528int,
    );
}

proof fn lemma_factor_1_large_4()
    ensures
        powers_to(
            98964692081032854820995872345106173621276801480131int,
            198400523053184002814403536918162724916343842520561int,
            140986069253786999nat,
            110578428370408829308924469506380075675356499932662int,
        ),
{
    lemma_factor_1_large_3();
    lemma_square(
        98964692081032854820995872345106173621276801480131int,
        198400523053184002814403536918162724916343842520561int,
        8605106765978nat,
        3682228987590403711172226722095618636986407635488int,
        128915077782944634165028101502204972221034518541011int,
        68340597637519448226848779387574510495253363453int,
    );
    lemma_square(
        98964692081032854820995872345106173621276801480131int,
        198400523053184002814403536918162724916343842520561int,
        17210213531956nat,
        128915077782944634165028101502204972221034518541011int,
        73149207686673333667789281004016640901229530572984int,
        83765390453772576252745589448856264797974639863617int,
    );
    lemma_square_times(
        98964692081032854820995872345106173621276801480131int,
        198400523053184002814403536918162724916343842520561int,
        34420427063912nat,
        73149207686673333667789281004016640901229530572984int,
        59913591078139408063743091185731958600484143146357int,
        2669050050570428136647115385601685682769181099934612140960071982571656460516099081881744799506521339int,
    );
    lemma_square_times(
        98964692081032854820995872345106173621276801480131int,
        198400523053184002814403536918162724916343842520561int,
        68840854127825nat,
        59913591078139408063743091185731958600484143146357int,
        197630167993248512167034115234752663658176050658127int,
        1790557066400173140256382619668954185135571762057295819666985309969674985098034532921615720182793372int,
    );
    lemma_square(
        98964692081032854820995872345106173621276801480131int,
        198400523053184002814403536918162724916343842520561int,
        137681708255651nat,
        197630167993248512167034115234752663658176050658127int,
        74199428236924448505398737943478556964136308768086int,
        196862804089330332682385411701213713768883750872763int,
    );
    lemma_square_times(
        98964692081032854820995872345106173621276801480131int,
        198400523053184002814403536918162724916343842520561int,
        275363416511302nat,
        74199428236924448505398737943478556964136308768086int,
        34521697209541927577808177133322179206732101397244int,
        2746240593714452864067203148856420232738673842384751734056634530941984738707242739574589440522516912int,
    );
    lemma_square(
        98964692081032854820995872345106173621276801480131int,
        198400523053184002814403536918162724916343842520561int,
        550726833022605nat,
        34521697209541927577808177133322179206732101397244int,
        99523335502649591431198955366759781525998638601906int,
        6006776392962585570367070889507352777803501248830int,
    );
    lemma_square_times(
        98964692081032854820995872345106173621276801480131int,
        198400523053184002814403536918162724916343842520561int,
        1101453666045210nat,
        99523335502649591431198955366759781525998638601906int,
        61836594632741966757250514147056583155301983044182int,
        4940686649194449330783184132797860879581937199419899625764850972380470659955712746929571221458788694int,
    );
    lemma_square_times(
        98964692081032854820995872345106173621276801480131int,
        198400523053184002814403536918162724916343842520561int,
        2202907332090421nat,
        61836594632741966757250514147056583155301983044182int,
        52246683035885480957289664315115754778836772738988int,
        1907342098464848094492889640242324474937476997090489007682923531695148052466200747394141905437738496int,
    );
    lemma_square_times(
        98964692081032854820995872345106173621276801480131int,
        198400523053184002814403536918162724916343842520561int,
        4405814664180843nat,
        52246683035885480957289664315115754778836772738988int,
        169830709859111801558751865574269858452435034674592int,
        1361616835441376896176968641869591675240102293906517612402227695789341644506608276373840147042843152int,
    );
    lemma_square(
        98964692081032854820995872345106173621276801480131int,
        198400523053184002814403536918162724916343842520561int,
        8811629328361687nat,
        169830709859111801558751865574269858452435034674592int,
        38386146865386903086650925037911307337684827745528int,
        145374969618997383805751212728528786915748240490376int,
    );
    lemma_square_times(
        98964692081032854820995872345106173621276801480131int,
        198400523053184002814403536918162724916343842520561int,
        17623258656723374nat,
        38386146865386903086650925037911307337684827745528int,
        186131122570891732815634070779542176982450202658171int,
        734998590300607012982121320897732642950282700791916556085858927343182850023274218699370827398024853int,
    );
    lemma_square_times(
        98964692081032854820995872345106173621276801480131int,
        198400523053184002814403536918162724916343842520561int,
        35246517313446749nat,
        186131122570891732815634070779542176982450202658171int,
        179312710434070644082536527056813727070417628602513int,
        17281262144830052283661277020649987094614947094687057105025153562727133646662571655155138118424932378int,
    );
    lemma_square_times(
        98964692081032854820995872345106173621276801480131int,
        198400523053184002814403536918162724916343842520561int,
        70493034626893499nat,
        179312710434070644082536527056813727070417628602513int,
        110578428370408829308924469506380075675356499932662int,
        16038347369313180817891275413640675490815411447639851812720876975691815647199546882968444343224002557int,
    );
}

proof fn lemma_factor_1_large_5()
    ensures
        powers_to(
            98964692081032854820995872345106173621276801480131int,
            198400523053184002814403536918162724916343842520561int,
            2309915758654046203500nat,
            121958522844050269894877487920527932538371600152953int,
        ),
{
    lemma_factor_1_large_4();
    lemma_square_times(
        98964692081032854820995872345106173621276801480131int,
        198400523053184002814403536918162724916343842520561int,
        140986069253786999nat,
        110578428370408829308924469506380075675356499932662int,
        60420943703418017147273345302091088572614831621447int,
        6099276070086061410516806581037437097090342349217292661148774076016842337563680116004092615788806197int,
    );
    lemma_square(
        98964692081032854820995872345106173621276801480131int,
        198400523053184002814403536918162724916343842520561int,
        281972138507573999nat,
        60420943703418017147273345302091088572614831621447int,
        106893105009559234679599795284930966080264264765739int,
        18400608939085262873277345901823841881652601520870int,
    );
    lemma_square_times(
        98964692081032854820995872345106173621276801480131int,
        198400523053184002814403536918162724916343842520561int,
        563944277015147998nat,
        106893105009559234679599795284930966080264264765739int,
        133493920354486282056452888581552884516039961441255int,
        5699501208352883191552807400922502743066535473112893581849690038047103761302825793801680512056426436int,
    );
    lemma_square_times(
        98964692081032854820995872345106173621276801480131int,
        198400523053184002814403536918162724916343842520561int,
        1127888554030295997nat,
        133493920354486282056452888581552884516039961441255int,
        7255755680834263984430084046330215776922891353553int,
        8889154191748910956378200714447810318148804737464803564188807543686532934203271197172442224669877602int,
    );
    lemma_square_times(
        98964692081032854820995872345106173621276801480131int,
        198400523053184002814403536918162724916343842520561int,
        2255777108060591995nat,
        7255755680834263984430084046330215776922891353553int,
        121727438696525417808393830664341313461914980018807int,
        26260486408761912666802577449777696569692355615253880451090905257183045785091971774415016265091052int,
    );
    lemma_square(
        98964692081032854820995872345106173621276801480131int,
        198400523053184002814403536918162724916343842520561int,
        4511554216121183991nat,
        121727438696525417808393830664341313461914980018807int,
        68526974233254075228815318378583091281188125254792int,
        74685132395766413463576543864335965936038357595737int,
    );
    lemma_square(
        98964692081032854820995872345106173621276801480131int,
        198400523053184002814403536918162724916343842520561int,
        9023108432242367982nat,
        68526974233254075228815318378583091281188125254792int,
        198228513723721124208046202273597937903723769337512int,
        23669021257097465708061453043285482011360376279832int,
    );
    lemma_square_times(
        98964692081032854820995872345106173621276801480131int,
        198400523053184002814403536918162724916343842520561int,
        18046216864484735964nat,
        198228513723721124208046202273597937903723769337512int,
        94687916966127111526760782757287753983295129238780int,
        19600615730498046928267209688646269719824844970030521881851874897640190522722681966587827815422461444int,
    );
    lemma_square_times(
        98964692081032854820995872345106173621276801480131int,
        198400523053184002814403536918162724916343842520561int,
        36092433728969471929nat,
        94687916966127111526760782757287753983295129238780int,
        126738056214461832181090598327942660815662380346449int,
        4472255329105805388472983998700352225362908458910839608981491610765132536468118236794405822487478991int,
    );
    lemma_square(
        98964692081032854820995872345106173621276801480131int,
        198400523053184002814403536918162724916343842520561int,
        72184867457938943859nat,
        126738056214461832181090598327942660815662380346449int,
        102422817305421264005542787199184072105341588765357int,
        80960143883866187789631721983065243835568724542004int,
    );
    lemma_square_times(
        98964692081032854820995872345106173621276801480131int,
        198400523053184002814403536918162724916343842520561int,
        144369734915877887718nat,
        102422817305421264005542787199184072105341588765357int,
        118543889920820310787786723828505562082756029749137int,
        5232761011011923043999011824285711339406327777733165516142924074150893641109283474459326673804077962int,
    );
    lemma_square_times(
        98964692081032854820995872345106173621276801480131int,
        198400523053184002814403536918162724916343842520561int,
        288739469831755775437nat,
        118543889920820310787786723828505562082756029749137int,
        157241850371891598790672800008604308500981004724540int,
        7009641600504380073208196667925220011674727693685933285408762385119569904144993572244894132371331159int,
    );
    lemma_square(
        98964692081032854820995872345106173621276801480131int,
        198400523053184002814403536918162724916343842520561int,
        577478939663511550875nat,
        157241850371891598790672800008604308500981004724540int,
        164896126185269592888644668618563428400425399133987int,
        124621644781392376763646428855640107278411668563133int,
    );
    lemma_square(
        98964692081032854820995872345106173621276801480131int,
        198400523053184002814403536918162724916343842520561int,
        1154957879327023101750nat,
        164896126185269592888644668618563428400425399133987int,
        121958522844050269894877487920527932538371600152953int,
        137049701343879524945647848368485136780867942283856int,
    );
}

proof fn lemma_factor_1_large_6()
    ensures
        powers_to(
            98964692081032854820995872345106173621276801480131int,
            198400523053184002814403536918162724916343842520561int,
            295669217107717914048023nat,
            183376510524677056648247892821104384666633891477464int,
        ),
{
    lemma_factor_1_large_5();
    lemma_square(
        98964692081032854820995872345106173621276801480131int,
        198400523053184002814403536918162724916343842520561int,
        2309915758654046203500nat,
        121958522844050269894877487920527932538371600152953int,
        164127410290953952858776152812829022952082217683841int,
        74968962104578635818509124755457426737609039207088int,
    );
    lemma_square(
        98964692081032854820995872345106173621276801480131int,
        198400523053184002814403536918162724916343842520561int,
        4619831517308092407000nat,
        164127410290953952858776152812829022952082217683841int,
        38642392937501047166295909869070207553083522908737int,
        135774877980508579687360950308314953244823015514304int,
    );
    lemma_square_times(
        98964692081032854820995872345106173621276801480131int,
        198400523053184002814403536918162724916343842520561int,
        9239663034616184814000nat,
        38642392937501047166295909869070207553083522908737int,
        188182863739895694773131856057577138163006941402676int,
        744844284600099074124980362906413133561385606702756924899183519406149088705818668314184397585033983int,
    );
    lemma_square(
        98964692081032854820995872345106173621276801480131int,
        198400523053184002814403536918162724916343842520561int,
        18479326069232369628001nat,
        188182863739895694773131856057577138163006941402676int,
        175839497773734582182743278112632248372997600467016int,
        178491415548613558484044322396720999441310559772360int,
    );
    lemma_square_times(
        98964692081032854820995872345106173621276801480131int,
        198400523053184002814403536918162724916343842520561int,
        36958652138464739256002nat,
        175839497773734582182743278112632248372997600467016int,
        129412511952984864769159397255847018319056641062348int,
        15423052406523689218347834924473370083765104396043527231525576828039858061649229344371044739414278708int,
    );
    lemma_square_times(
        98964692081032854820995872345106173621276801480131int,
        198400523053184002814403536918162724916343842520561int,
        73917304276929478512005nat,
        129412511952984864769159397255847018319056641062348int,
        178758241041973353828054015244402781778564780809046int,
        8353913983694308945907443690859759068744040739121707561828143595604526844178330193896948633115976698int,
    );
    lemma_square_times(
        98964692081032854820995872345106173621276801480131int,
        198400523053184002814403536918162724916343842520561int,
        147834608553858957024011nat,
        178758241041973353828054015244402781778564780809046int,
        183376510524677056648247892821104384666633891477464int,
        15939313412236550673807590506453060650258849034654452563680451339350816815374618390314983308380341012int,
    );
}

/// A prime factor further down.
proof fn lemma_factor_1_prime()
    ensures
        prime(198400523053184002814403536918162724916343842520561int),
{
    lemma_factor_2_prime();
    lemma_113_prime();
    lemma_factor_1_whole_6();
    lemma_factor_1_small_1();
    lemma_factor_1_large_6();
    lemma_prime_by_two(
        198400523053184002814403536918162724916343842520561int,
        98964692081032854820995872345106173621276801480131int,
        295669217107717914048023int,
        113int,
        39353613582323558400163662926641377744268210487109int,
        186781939957430049954169739848408272667876703179484int,
        37049016686669961921565626661697295271312834710111int,
        183376510524677056648247892821104384666633891477464int,
        189872310946160657573982931900524632949151169525985int,
        175494102993014316116307985166954211119270072016214int,
    );
}

proof fn lemma_order_1()
    ensures
        powers_to(
            417565016340793323451181812165302951732930774618410737123336549486393719677503257016200416291554int,
            1067993516717146951041484916571792702745057740581727230159139685185762082554198619328292418486241int,
            17376nat,
            287796810751369008820455525832406540844841905131808590072730051528305150035909030205915437208683int,
        ),
{
    lemma_first_power(
        417565016340793323451181812165302951732930774618410737123336549486393719677503257016200416291554int,
        1067993516717146951041484916571792702745057740581727230159139685185762082554198619328292418486241int,
    );
    lemma_square(
        417565016340793323451181812165302951732930774618410737123336549486393719677503257016200416291554int,
        1067993516717146951041484916571792702745057740581727230159139685185762082554198619328292418486241int,
        1nat,
        417565016340793323451181812165302951732930774618410737123336549486393719677503257016200416291554int,
        129584168106489240021859704165306560109856787916703740575760442647721403485285495055611239752676int,
        163259926340794036087344609138564519188689896074404070145549805115430943726208764611775300468640int,
    );
    lemma_square(
        417565016340793323451181812165302951732930774618410737123336549486393719677503257016200416291554int,
        1067993516717146951041484916571792702745057740581727230159139685185762082554198619328292418486241int,
        2nat,
        129584168106489240021859704165306560109856787916703740575760442647721403485285495055611239752676int,
        816878869710752812227158221404009481626768925687655059556658179640385750108119459349181583695677int,
        15722994906810993495815981286945358942929611995607812319794933575015709833987720188190080485939int,
    );
    lemma_square(
        417565016340793323451181812165302951732930774618410737123336549486393719677503257016200416291554int,
        1067993516717146951041484916571792702745057740581727230159139685185762082554198619328292418486241int,
        4nat,
        816878869710752812227158221404009481626768925687655059556658179640385750108119459349181583695677int,
        127140189567565070444647940191914170143287452495184364023946439842632402004119094158218427454028int,
        624808182198587229472525088459704840528788722268715447471725544795061077711992841397682111069661int,
    );
    lemma_square(
        417565016340793323451181812165302951732930774618410737123336549486393719677503257016200416291554int,
        1067993516717146951041484916571792702745057740581727230159139685185762082554198619328292418486241int,
        8nat,
        127140189567565070444647940191914170143287452495184364023946439842632402004119094158218427454028int,
        546752855802656588306788010125414565292383540780562405761264193839065634015060894305974992219936int,
        15135511171419879936194027270212467436741807256595840976427405088387795450419562344290724726128int,
    );
    lemma_square_times(
        417565016340793323451181812165302951732930774618410737123336549486393719677503257016200416291554int,
        1067993516717146951041484916571792702745057740581727230159139685185762082554198619328292418486241int,
        16nat,
        546752855802656588306788010125414565292383540780562405761264193839065634015060894305974992219936int,
        940007268334355494730084149059522377112491362136484925701564470487209570124783458449684542188430int,
        116879302233715552894209754880124999569570363226508727798885710067486319314829483763539186654439597691398493271296026739361962317692407593083360429291014676180390590726329690889752679475606194int,
    );
    lemma_square_times(
        417565016340793323451181812165302951732930774618410737123336549486393719677503257016200416291554int,
        1067993516717146951041484916571792702745057740581727230159139685185762082554198619328292418486241int,
        33nat,
        940007268334355494730084149059522377112491362136484925701564470487209570124783458449684542188430int,
        1039408054261204367660665800375541908666490151833083751474622720473276892904423071714211955449852int,
        345476024422864274922437611582295757205738377821722705310652588982072829164604390022241209681636986052440495918857812963458337289496239160603258910240979528528625209261944085063221163388390028int,
    );
    lemma_square_times(
        417565016340793323451181812165302951732930774618410737123336549486393719677503257016200416291554int,
        1067993516717146951041484916571792702745057740581727230159139685185762082554198619328292418486241int,
        67nat,
        1039408054261204367660665800375541908666490151833083751474622720473276892904423071714211955449852int,
        365280108601963118293540113582153123087490248319890866482927065103343494474715345435834648553223int,
        422403633726933183063603890827420590338921829587695514091237761660195001118595729224582113106224572973011050739591375365218806515302862022813688496598176206795834618912138777858440201155350073int,
    );
    lemma_square_times(
        417565016340793323451181812165302951732930774618410737123336549486393719677503257016200416291554int,
        1067993516717146951041484916571792702745057740581727230159139685185762082554198619328292418486241int,
        135nat,
        365280108601963118293540113582153123087490248319890866482927065103343494474715345435834648553223int,
        1023552357794771161801788408898652410001990409109452486970634502821333901334683239638158767371186int,
        52168402322720567103159913612381249667516361421689483349379287653779411044107697461793427632223045799461012817527315493807683272917841049606181232179187082332305685488692069239453121308014480int,
    );
    lemma_square_times(
        417565016340793323451181812165302951732930774618410737123336549486393719677503257016200416291554int,
        1067993516717146951041484916571792702745057740581727230159139685185762082554198619328292418486241int,
        271nat,
        1023552357794771161801788408898652410001990409109452486970634502821333901334683239638158767371186int,
        1010310521357612365884121682356998241520796351995766750264974315789006583758008362253243257101281int,
        409614777434376764457096871218722763174093614327697193827086607944926225156950851495125674073066102021338961060267527372571564037302850159944097968846512905705990316159197084558219904594814983int,
    );
    lemma_square(
        417565016340793323451181812165302951732930774618410737123336549486393719677503257016200416291554int,
        1067993516717146951041484916571792702745057740581727230159139685185762082554198619328292418486241int,
        543nat,
        1010310521357612365884121682356998241520796351995766750264974315789006583758008362253243257101281int,
        997094171854127261330049582436977033357588793935760786775886872179514359805258087103785197831764int,
        955743020522684820649906496584676546793004961410061569854128686444572329936053633123931586959117int,
    );
    lemma_square(
        417565016340793323451181812165302951732930774618410737123336549486393719677503257016200416291554int,
        1067993516717146951041484916571792702745057740581727230159139685185762082554198619328292418486241int,
        1086nat,
        997094171854127261330049582436977033357588793935760786775886872179514359805258087103785197831764int,
        924714143530577848438880279344206813121872193580261983384577939299031241102984711708008662140854int,
        930901519516223994020353458687603154635311897928188239247404412534955285118528177313998511367962int,
    );
    lemma_square(
        417565016340793323451181812165302951732930774618410737123336549486393719677503257016200416291554int,
        1067993516717146951041484916571792702745057740581727230159139685185762082554198619328292418486241int,
        2172nat,
        924714143530577848438880279344206813121872193580261983384577939299031241102984711708008662140854int,
        113133739874547307192203882488790560455374847928226335894011390996914549025582393206672389292307int,
        800656777275136156777784989370518892026565824593417421884871065437863105931498751293483118363249int,
    );
    lemma_square(
        417565016340793323451181812165302951732930774618410737123336549486393719677503257016200416291554int,
        1067993516717146951041484916571792702745057740581727230159139685185762082554198619328292418486241int,
        4344nat,
        113133739874547307192203882488790560455374847928226335894011390996914549025582393206672389292307int,
        223371057799556134375143869864611688287562492822524157461604235322170728973220060010648347010349int,
        11984382767926066503171481767888865268847944725815590169063803616807711114367016718329201555900int,
    );
    lemma_square(
        417565016340793323451181812165302951732930774618410737123336549486393719677503257016200416291554int,
        1067993516717146951041484916571792702745057740581727230159139685185762082554198619328292418486241int,
        8688nat,
        223371057799556134375143869864611688287562492822524157461604235322170728973220060010648347010349int,
        287796810751369008820455525832406540844841905131808590072730051528305150035909030205915437208683int,
        46718101450523135346470037075236161357129197920539902341140494620593802723711060210509251681598int,
    );
}

proof fn lemma_order_2()
    ensures
        powers_to(
            417565016340793323451181812165302951732930774618410737123336549486393719677503257016200416291554int,
            1067993516717146951041484916571792702745057740581727230159139685185762082554198619328292418486241int,
            284690788nat,
            131111555338001292107369347044340066014878243970898066504332323758851292036356239716118251137229int,
        ),
{
    lemma_order_1();
    lemma_square(
        417565016340793323451181812165302951732930774618410737123336549486393719677503257016200416291554int,
        1067993516717146951041484916571792702745057740581727230159139685185762082554198619328292418486241int,
        17376nat,
        287796810751369008820455525832406540844841905131808590072730051528305150035909030205915437208683int,
        272628449481848129547005118756052399528720535772465625883306785084584817245776931851691045340794int,
        77553845582562323726932261203590910369479679986323685539717055285632789112939765843984840548895int,
    );
    lemma_square(
        417565016340793323451181812165302951732930774618410737123336549486393719677503257016200416291554int,
        1067993516717146951041484916571792702745057740581727230159139685185762082554198619328292418486241int,
        34752nat,
        272628449481848129547005118756052399528720535772465625883306785084584817245776931851691045340794int,
        92695037964764920392023907926249412806314466003083821341019479110320410469781903232753254136928int,
        69594309612800374630198487857796174950039575536525775054439488012552769382330026223122948472388int,
    );
    lemma_square_times(
        417565016340793323451181812165302951732930774618410737123336549486393719677503257016200416291554int,
        1067993516717146951041484916571792702745057740581727230159139685185762082554198619328292418486241int,
        69504nat,
        92695037964764920392023907926249412806314466003083821341019479110320410469781903232753254136928int,
        681443280053026804470647386447985846772002967948360868043699477003879148698460172142523757807584int,
        3359452178054498052076347092101875071946082602773621723931553898228953591503384410830891924997331323137335117895308541108126770297991649619727697252764246084593387271195550087922332843607072int,
    );
    lemma_square(
        417565016340793323451181812165302951732930774618410737123336549486393719677503257016200416291554int,
        1067993516717146951041484916571792702745057740581727230159139685185762082554198619328292418486241int,
        139009nat,
        681443280053026804470647386447985846772002967948360868043699477003879148698460172142523757807584int,
        289183970273269392482369142363610765638968326451121614614220727704962319187348954389962015160478int,
        434801276094649538748117531352680921807285805170682953502263906205033919010038938806482430410658int,
    );
    lemma_square(
        417565016340793323451181812165302951732930774618410737123336549486393719677503257016200416291554int,
        1067993516717146951041484916571792702745057740581727230159139685185762082554198619328292418486241int,
        278018nat,
        289183970273269392482369142363610765638968326451121614614220727704962319187348954389962015160478int,
        377524231994625096900626884812711445669630653322973534889112851203956205118141029444731718020185int,
        78303254986106315555426454942330392469241327686827958943650808972347285869666057758330544268939int,
    );
    lemma_square_times(
        417565016340793323451181812165302951732930774618410737123336549486393719677503257016200416291554int,
        1067993516717146951041484916571792702745057740581727230159139685185762082554198619328292418486241int,
        556036nat,
        377524231994625096900626884812711445669630653322973534889112851203956205118141029444731718020185int,
        429195460659644271859024157076858493286065760124316087948654231396211624604344929085965734820604int,
        55724368491608233898287165180015400923547522889994180847253936756346376220518273353001673501616554249590552479837657620112602904415967013821215051175588806566768271170433599277706087590633606int,
    );
    lemma_square(
        417565016340793323451181812165302951732930774618410737123336549486393719677503257016200416291554int,
        1067993516717146951041484916571792702745057740581727230159139685185762082554198619328292418486241int,
        1112073nat,
        429195460659644271859024157076858493286065760124316087948654231396211624604344929085965734820604int,
        628476911347052217652581985124820737842177655139458920956921729234012937969462793890090936176558int,
        172481143909070256342634106821363539575947757193499344735068022055007684452012417303636397567138int,
    );
    lemma_square_times(
        417565016340793323451181812165302951732930774618410737123336549486393719677503257016200416291554int,
        1067993516717146951041484916571792702745057740581727230159139685185762082554198619328292418486241int,
        2224146nat,
        628476911347052217652581985124820737842177655139458920956921729234012937969462793890090936176558int,
        979060213845474477001784143261978104787715366616290980235195815026576166511219146516196106173856int,
        154430879506981876642341006066597832854713152146783448291574279002088171971273084408612299552572117258922118422082227926717662177233297993784242821351577537981294767370578885430409754083837800int,
    );
    lemma_square_times(
        417565016340793323451181812165302951732930774618410737123336549486393719677503257016200416291554int,
        1067993516717146951041484916571792702745057740581727230159139685185762082554198619328292418486241int,
        4448293nat,
        979060213845474477001784143261978104787715366616290980235195815026576166511219146516196106173856int,
        1034840852681369770565108704588883610436152608009942344460827859844249631916642682899771315911404int,
        374778177443932358562414952503572317977090937572587783346191772094551194810864409681134703293396062268393331665037799789610815789619322716574490890551620784890035855621151648528990811344846740int,
    );
    lemma_square(
        417565016340793323451181812165302951732930774618410737123336549486393719677503257016200416291554int,
        1067993516717146951041484916571792702745057740581727230159139685185762082554198619328292418486241int,
        8896587nat,
        1034840852681369770565108704588883610436152608009942344460827859844249631916642682899771315911404int,
        578174342568205753410483849498976813753065561339102027116844124276980695434454111270519262308693int,
        1002717313930966588208619642563915880974367549474351269157302521136256772598751317443556464251803int,
    );
    lemma_square(
        417565016340793323451181812165302951732930774618410737123336549486393719677503257016200416291554int,
        1067993516717146951041484916571792702745057740581727230159139685185762082554198619328292418486241int,
        17793174nat,
        578174342568205753410483849498976813753065561339102027116844124276980695434454111270519262308693int,
        1062353290085384333118746320911576662732111759153213521222412147920503753539513198650977992529703int,
        313003370499589743483808041563073515973272235133550777234816206904209220314062834211838077217106int,
    );
    lemma_square_times(
        417565016340793323451181812165302951732930774618410737123336549486393719677503257016200416291554int,
        1067993516717146951041484916571792702745057740581727230159139685185762082554198619328292418486241int,
        35586348nat,
        1062353290085384333118746320911576662732111759153213521222412147920503753539513198650977992529703int,
        79590452848489949515374798293889714533827561462173145555482161645377761008924514635692608398073int,
        441258845552614152847731068159373470409289051594269127755238693797446925742482626150187651279505596039704358293860129816788575183083694845278046541492818179168848592485945303426396232187676393int,
    );
    lemma_square(
        417565016340793323451181812165302951732930774618410737123336549486393719677503257016200416291554int,
        1067993516717146951041484916571792702745057740581727230159139685185762082554198619328292418486241int,
        71172697nat,
        79590452848489949515374798293889714533827561462173145555482161645377761008924514635692608398073int,
        856597239881035350493777042748203246634863147731671788002622522504418633300098872570161242089099int,
        5931347040475903482040135823815654387455013169960909168318139041463822766619389483347989757030int,
    );
    lemma_square(
        417565016340793323451181812165302951732930774618410737123336549486393719677503257016200416291554int,
        1067993516717146951041484916571792702745057740581727230159139685185762082554198619328292418486241int,
        142345394nat,
        856597239881035350493777042748203246634863147731671788002622522504418633300098872570161242089099int,
        131111555338001292107369347044340066014878243970898066504332323758851292036356239716118251137229int,
        687044274975819527480670720225197424974328816846207576775530605068142942977086404477499651304492int,
    );
}

proof fn lemma_order_3()
    ensures
        powers_to(
            417565016340793323451181812165302951732930774618410737123336549486393719677503257016200416291554int,
            1067993516717146951041484916571792702745057740581727230159139685185762082554198619328292418486241int,
            4664373880984nat,
            828753884322500366544699463399284878264141759135123596239566710155426999551729936003768034485270int,
        ),
{
    lemma_order_2();
    lemma_square_times(
        417565016340793323451181812165302951732930774618410737123336549486393719677503257016200416291554int,
        1067993516717146951041484916571792702745057740581727230159139685185762082554198619328292418486241int,
        284690788nat,
        131111555338001292107369347044340066014878243970898066504332323758851292036356239716118251137229int,
        820352449452179194543068578739980760332574946485507529304491988515449784641804511904404653913009int,
        6721054679084315776322836124715779356254545934983931351339257887420425505811129797027061824530721604736039996882353982782144647921834288435756366081391362570355281957102083655881150120339105int,
    );
    lemma_square(
        417565016340793323451181812165302951732930774618410737123336549486393719677503257016200416291554int,
        1067993516717146951041484916571792702745057740581727230159139685185762082554198619328292418486241int,
        569381577nat,
        820352449452179194543068578739980760332574946485507529304491988515449784641804511904404653913009int,
        146250034590086719960434603705060233391452523808694572574966117673000722385230677269104085848583int,
        630133171024132077328936353167339951101320847689477367322629005975430150643462864094288565690778int,
    );
    lemma_square_times(
        417565016340793323451181812165302951732930774618410737123336549486393719677503257016200416291554int,
        1067993516717146951041484916571792702745057740581727230159139685185762082554198619328292418486241int,
        1138763154nat,
        146250034590086719960434603705060233391452523808694572574966117673000722385230677269104085848583int,
        204887031055582483675947833235666051935516617840753631150190233524071344254571050211252051690728int,
        8362717860438689846054425348026755811875368942917261822324132797926963139448557109315097181620316828774603117348397619452478376046899959013011459994231575789964794743158274264428330726824858int,
    );
    lemma_square(
        417565016340793323451181812165302951732930774618410737123336549486393719677503257016200416291554int,
        1067993516717146951041484916571792702745057740581727230159139685185762082554198619328292418486241int,
        2277526309nat,
        204887031055582483675947833235666051935516617840753631150190233524071344254571050211252051690728int,
        940213015807943741852367053814891337610200659321396926746216028882658732286024574991662824125690int,
        39306133265497229373113183407669498848919209432675110228934204435845747271293737963380275568134int,
    );
    lemma_square(
        417565016340793323451181812165302951732930774618410737123336549486393719677503257016200416291554int,
        1067993516717146951041484916571792702745057740581727230159139685185762082554198619328292418486241int,
        4555052618nat,
        940213015807943741852367053814891337610200659321396926746216028882658732286024574991662824125690int,
        893650267481178535970265006588147226035428780182870625536100875354378985668190480367449689232366int,
        827720862774480716562157796544673528178600761244295773344376409232815719915774153896913070345974int,
    );
    lemma_square(
        417565016340793323451181812165302951732930774618410737123336549486393719677503257016200416291554int,
        1067993516717146951041484916571792702745057740581727230159139685185762082554198619328292418486241int,
        9110105236nat,
        893650267481178535970265006588147226035428780182870625536100875354378985668190480367449689232366int,
        937756903880659277713882027046990712594690101530442838452759934674649856170603431193572589178131int,
        747767461195825077121449302080968257248635498205530052969228041788209872985252756383055485791825int,
    );
    lemma_square_times(
        417565016340793323451181812165302951732930774618410737123336549486393719677503257016200416291554int,
        1067993516717146951041484916571792702745057740581727230159139685185762082554198619328292418486241int,
        18220210472nat,
        937756903880659277713882027046990712594690101530442838452759934674649856170603431193572589178131int,
        456949119315856541149000431317155133062139545511673669940223028908284906473462931340271165191886int,
        343823874716238576423219380133606818250587296224736361854530354343024370252739318635833325506645343657752495725918432510509958407254055566589840663139496393707975787695206003544487888373017188int,
    );
    lemma_square(
        417565016340793323451181812165302951732930774618410737123336549486393719677503257016200416291554int,
        1067993516717146951041484916571792702745057740581727230159139685185762082554198619328292418486241int,
        36440420945nat,
        456949119315856541149000431317155133062139545511673669940223028908284906473462931340271165191886int,
        179842859432361557338408580238996294403960975868042954025736744661014935742203521971061960037518int,
        195509143431286629088609354128667398885192909913932474711218344546696917271430931355434479597558int,
    );
    lemma_square(
        417565016340793323451181812165302951732930774618410737123336549486393719677503257016200416291554int,
        1067993516717146951041484916571792702745057740581727230159139685185762082554198619328292418486241int,
        72880841890nat,
        179842859432361557338408580238996294403960975868042954025736744661014935742203521971061960037518int,
        549966059316960619979299378127851333867813708180362195462099517365717415749887997763733732756255int,
        30284316882584756120448534834130909456569872846147222104728946626492316698504812645871474211909int,
    );
    lemma_square_times(
        417565016340793323451181812165302951732930774618410737123336549486393719677503257016200416291554int,
        1067993516717146951041484916571792702745057740581727230159139685185762082554198619328292418486241int,
        145761683780nat,
        549966059316960619979299378127851333867813708180362195462099517365717415749887997763733732756255int,
        45836392306694853221493193195816673964755622895471084223899386054205424376698008437153276350708int,
        118257111359887562072007186341418290409900443211397051185433210559370181035157637885852508775606112171968759598508799894227093032454440184576986489038279894139042536198590195178011914919273262int,
    );
    lemma_square_times(
        417565016340793323451181812165302951732930774618410737123336549486393719677503257016200416291554int,
        1067993516717146951041484916571792702745057740581727230159139685185762082554198619328292418486241int,
        291523367561nat,
        45836392306694853221493193195816673964755622895471084223899386054205424376698008437153276350708int,
        716889931650144690940646841818843276084652145706263745246594121981824759207649210190892670063638int,
        821440943121145145739666460707163040023523891214214319648807221859105067808163992523637006515170551735448712334670875645371484848630988515735503750978093870594669566362742086913774312449098int,
    );
    lemma_square(
        417565016340793323451181812165302951732930774618410737123336549486393719677503257016200416291554int,
        1067993516717146951041484916571792702745057740581727230159139685185762082554198619328292418486241int,
        583046735123nat,
        716889931650144690940646841818843276084652145706263745246594121981824759207649210190892670063638int,
        34058931654626223617149139249628380384826120866069808908369540531315763098426925940899010230210int,
        481211885706101505995048743497555136033625785593749614867425030888353745008656423156758182463074int,
    );
    lemma_square(
        417565016340793323451181812165302951732930774618410737123336549486393719677503257016200416291554int,
        1067993516717146951041484916571792702745057740581727230159139685185762082554198619328292418486241int,
        1166093470246nat,
        34058931654626223617149139249628380384826120866069808908369540531315763098426925940899010230210int,
        953713658815588294897952501851653661700201833383558081731391193917913949998849974784079537761645int,
        1086159051807918034325818766911030422097374204482993294178693456996289811277833429435122651255int,
    );
    lemma_square(
        417565016340793323451181812165302951732930774618410737123336549486393719677503257016200416291554int,
        1067993516717146951041484916571792702745057740581727230159139685185762082554198619328292418486241int,
        2332186940492nat,
        953713658815588294897952501851653661700201833383558081731391193917913949998849974784079537761645int,
        828753884322500366544699463399284878264141759135123596239566710155426999551729936003768034485270int,
        851662232751466801441240591925639475398100664320672461239658490255330357922898000381171850277555int,
    );
}

proof fn lemma_order_4()
    ensures
        powers_to(
            417565016340793323451181812165302951732930774618410737123336549486393719677503257016200416291554int,
            1067993516717146951041484916571792702745057740581727230159139685185762082554198619328292418486241int,
            76421101666043434nat,
            747205067999826306003287285160866345697261877724876436464128907556641380370699532246504760398197int,
        ),
{
    lemma_order_3();
    lemma_square(
        417565016340793323451181812165302951732930774618410737123336549486393719677503257016200416291554int,
        1067993516717146951041484916571792702745057740581727230159139685185762082554198619328292418486241int,
        4664373880984nat,
        828753884322500366544699463399284878264141759135123596239566710155426999551729936003768034485270int,
        559625888467220805095136345964447149165413381079151495003442013539014370600356067360659300012442int,
        643105964623132447096823638803199519646276948123679657578424687546643509750228317729110255571338int,
    );
    lemma_square(
        417565016340793323451181812165302951732930774618410737123336549486393719677503257016200416291554int,
        1067993516717146951041484916571792702745057740581727230159139685185762082554198619328292418486241int,
        9328747761968nat,
        559625888467220805095136345964447149165413381079151495003442013539014370600356067360659300012442int,
        643148693220095582554615288327343644978119873096602255398347584124791033367652536755869159147457int,
        293242543274418404128472843307548338314035903722625220830205146135896614283117948312275430191427int,
    );
    lemma_square(
        417565016340793323451181812165302951732930774618410737123336549486393719677503257016200416291554int,
        1067993516717146951041484916571792702745057740581727230159139685185762082554198619328292418486241int,
        18657495523936nat,
        643148693220095582554615288327343644978119873096602255398347584124791033367652536755869159147457int,
        351689271940582944842447132180799451786600124180628465807146078322315864620763907665789702791642int,
        387305948131768752925332788937712687145784301457450536029784849431318409399014563482993133358727int,
    );
    lemma_square_times(
        417565016340793323451181812165302951732930774618410737123336549486393719677503257016200416291554int,
        1067993516717146951041484916571792702745057740581727230159139685185762082554198619328292418486241int,
        37314991047872nat,
        351689271940582944842447132180799451786600124180628465807146078322315864620763907665789702791642int,
        956723042465299043537548510282406811374792532885165383801193033678692016370915516233012774187768int,
        48358601320386592999413789702273251431566864236372974168060835117224465544632894311715099693069552178218199587919112172991318620532341912633317900460372820253541107691525889603009191801698768int,
    );
    lemma_square_times(
        417565016340793323451181812165302951732930774618410737123336549486393719677503257016200416291554int,
        1067993516717146951041484916571792702745057740581727230159139685185762082554198619328292418486241int,
        74629982095745nat,
        956723042465299043537548510282406811374792532885165383801193033678692016370915516233012774187768int,
        488283057205317160728486746284892096017371483746730998556242424438760791114403211931805974710383int,
        357872195712314294108160123647011210082734151674354340687091621734147742429085519209014897202407326472334008102337180520748160558208762762777664091749819962640989451864999217774095216839775793int,
    );
    lemma_square(
        417565016340793323451181812165302951732930774618410737123336549486393719677503257016200416291554int,
        1067993516717146951041484916571792702745057740581727230159139685185762082554198619328292418486241int,
        149259964191491nat,
        488283057205317160728486746284892096017371483746730998556242424438760791114403211931805974710383int,
        972710825323865336953392076476371778529914549544027087689741684400669396096572629184934357203193int,
        223241377613077341502106670372777926040491079036159698567681111245148227464690308904811680214056int,
    );
    lemma_square(
        417565016340793323451181812165302951732930774618410737123336549486393719677503257016200416291554int,
        1067993516717146951041484916571792702745057740581727230159139685185762082554198619328292418486241int,
        298519928382982nat,
        972710825323865336953392076476371778529914549544027087689741684400669396096572629184934357203193int,
        583038534421793472991928130862872287347992013343350446890347446322229559336857256237643028953105int,
        885928926432633917665042579192266875817469344769365222231053672716725820402602587438081310141984int,
    );
    lemma_square(
        417565016340793323451181812165302951732930774618410737123336549486393719677503257016200416291554int,
        1067993516717146951041484916571792702745057740581727230159139685185762082554198619328292418486241int,
        597039856765964nat,
        583038534421793472991928130862872287347992013343350446890347446322229559336857256237643028953105int,
        112691578076555966549601514033476271829680619558253418366958309441455077147467487603696439898063int,
        318292131272125271014823056708782109797060208890620967243716721982800702915466268497048041403282int,
    );
    lemma_square_times(
        417565016340793323451181812165302951732930774618410737123336549486393719677503257016200416291554int,
        1067993516717146951041484916571792702745057740581727230159139685185762082554198619328292418486241int,
        1194079713531928nat,
        112691578076555966549601514033476271829680619558253418366958309441455077147467487603696439898063int,
        288507707641003145671314394967427545230147595710242829048244007790120048686583644979728988019496int,
        4965219028670944851714216877529698993327544336996921680308302662492484491974969398869196889180624053253945961517353137589125350565765854873734530776660547733621850518102560040352776404979130int,
    );
    lemma_square(
        417565016340793323451181812165302951732930774618410737123336549486393719677503257016200416291554int,
        1067993516717146951041484916571792702745057740581727230159139685185762082554198619328292418486241int,
        2388159427063857nat,
        288507707641003145671314394967427545230147595710242829048244007790120048686583644979728988019496int,
        26456427715790087252620077936251677086043705453944373436526939590688341751385334505879744578557int,
        77937455673067902949561809918472249678730754925937142492633936417237647163303247715789248513699int,
    );
    lemma_square_times(
        417565016340793323451181812165302951732930774618410737123336549486393719677503257016200416291554int,
        1067993516717146951041484916571792702745057740581727230159139685185762082554198619328292418486241int,
        4776318854127714nat,
        26456427715790087252620077936251677086043705453944373436526939590688341751385334505879744578557int,
        863373449366406882359716692992298411762729027956516814562606887946276025257093834868311141627790int,
        273664142200176515534729235590501549411939938197488401304084293887810468212830978272933748283381758351621627445813595683463913984363913766954755406360556177689581212441228586246770179225316int,
    );
    lemma_square(
        417565016340793323451181812165302951732930774618410737123336549486393719677503257016200416291554int,
        1067993516717146951041484916571792702745057740581727230159139685185762082554198619328292418486241int,
        9552637708255429nat,
        863373449366406882359716692992298411762729027956516814562606887946276025257093834868311141627790int,
        836426493806942034747830693225313337578638833755773956403308558743903812948358372937830075425535int,
        697957151801949428017294105792914306579038394311301750094476080485897193154821819439068146596965int,
    );
    lemma_square_times(
        417565016340793323451181812165302951732930774618410737123336549486393719677503257016200416291554int,
        1067993516717146951041484916571792702745057740581727230159139685185762082554198619328292418486241int,
        19105275416510858nat,
        836426493806942034747830693225313337578638833755773956403308558743903812948358372937830075425535int,
        330459797787075559360035575784203506377043489634143900135944862191177742370912422468548642750918int,
        273533832997572955961108582318230598589552776063792708035553143132295167245922797723107026421944947442716615656882858465337098703464653904768407342329174332726614395996250110478000438393860252int,
    );
    lemma_square(
        417565016340793323451181812165302951732930774618410737123336549486393719677503257016200416291554int,
        1067993516717146951041484916571792702745057740581727230159139685185762082554198619328292418486241int,
        38210550833021717nat,
        330459797787075559360035575784203506377043489634143900135944862191177742370912422468548642750918int,
        747205067999826306003287285160866345697261877724876436464128907556641380370699532246504760398197int,
        102251255503077129763070517727226828893220644916337688629865284256284257906961250445936607823247int,
    );
}

proof fn lemma_order_5()
    ensures
        powers_to(
            417565016340793323451181812165302951732930774618410737123336549486393719677503257016200416291554int,
            1067993516717146951041484916571792702745057740581727230159139685185762082554198619328292418486241int,
            1252083329696455627090nat,
            83259507448798267008045604928870247445701739556240165044213035214730931187079326735775631679790int,
        ),
{
    lemma_order_4();
    lemma_square(
        417565016340793323451181812165302951732930774618410737123336549486393719677503257016200416291554int,
        1067993516717146951041484916571792702745057740581727230159139685185762082554198619328292418486241int,
        76421101666043434nat,
        747205067999826306003287285160866345697261877724876436464128907556641380370699532246504760398197int,
        944928289669729147402486978065752705040659654052178347663231200376571719249274105038788630552755int,
        522770414712631874185361272957319246561650915659629603353668917419465865782564583325927117295494int,
    );
    lemma_square_times(
        417565016340793323451181812165302951732930774618410737123336549486393719677503257016200416291554int,
        1067993516717146951041484916571792702745057740581727230159139685185762082554198619328292418486241int,
        152842203332086868nat,
        944928289669729147402486978065752705040659654052178347663231200376571719249274105038788630552755int,
        199680690495985951055267971290636706097414176095924548202009723945336160277319020908107249430104int,
        349102687786323788555844978260512515033627473066760422332595290846912328555584122604040139262955609810568905832549128669720309184866914384248909832365946336599431963117080201379443105370369306int,
    );
    lemma_square(
        417565016340793323451181812165302951732930774618410737123336549486393719677503257016200416291554int,
        1067993516717146951041484916571792702745057740581727230159139685185762082554198619328292418486241int,
        305684406664173737nat,
        199680690495985951055267971290636706097414176095924548202009723945336160277319020908107249430104int,
        685406397929258431947486858590415338981293982940409300267615661457417368429289021486402871704893int,
        37333914048013594391586667455545047956895181072568272869828624083647915884042163349212384079203int,
    );
    lemma_square(
        417565016340793323451181812165302951732930774618410737123336549486393719677503257016200416291554int,
        1067993516717146951041484916571792702745057740581727230159139685185762082554198619328292418486241int,
        611368813328347474nat,
        685406397929258431947486858590415338981293982940409300267615661457417368429289021486402871704893int,
        229165658553763529418361408441259325449564844611081951693792127319479503663897418324774848178388int,
        439873391522451055531418995784954756666407382027252050629429805680997666248790724070839018472021int,
    );
    lemma_square(
        417565016340793323451181812165302951732930774618410737123336549486393719677503257016200416291554int,
        1067993516717146951041484916571792702745057740581727230159139685185762082554198619328292418486241int,
        1222737626656694948nat,
        229165658553763529418361408441259325449564844611081951693792127319479503663897418324774848178388int,
        228484464390702869952288037434023699255929913251731214657226928538169749369890242306969128653225int,
        49173424967793118801908795135857777212457296864118062073864331989025741784000291699727765993159int,
    );
    lemma_square_times(
        417565016340793323451181812165302951732930774618410737123336549486393719677503257016200416291554int,
        1067993516717146951041484916571792702745057740581727230159139685185762082554198619328292418486241int,
        2445475253313389896nat,
        228484464390702869952288037434023699255929913251731214657226928538169749369890242306969128653225int,
        242275031880410469583074472466172172182119865812702299367209145480463572305189061471483250024303int,
        20411214269550917953515741757513628234122728944319535033433255237651215924203892176803930906013175590222723381121292987914177152914587564460445044378462068085708910311748299356362949514586867int,
    );
    lemma_square(
        417565016340793323451181812165302951732930774618410737123336549486393719677503257016200416291554int,
        1067993516717146951041484916571792702745057740581727230159139685185762082554198619328292418486241int,
        4890950506626779793nat,
        242275031880410469583074472466172172182119865812702299367209145480463572305189061471483250024303int,
        169265108899162685906204724035479574224638782634262160778490303821191954758160293506369211328217int,
        54960250370320912524620758114830753934988942305399570857733039591938598530970606708661122544712int,
    );
    lemma_square_times(
        417565016340793323451181812165302951732930774618410737123336549486393719677503257016200416291554int,
        1067993516717146951041484916571792702745057740581727230159139685185762082554198619328292418486241int,
        9781901013253559586nat,
        169265108899162685906204724035479574224638782634262160778490303821191954758160293506369211328217int,
        923560792779770218803378882425570862485955645330207088632903104246508223878766378257358028260996int,
        11201866172656385756273246970323530859110056417485455451619294328149844127470276813286401302229873602659636403515144186275116011076967685203983727516885609040499408302704935849923635358694910int,
    );
    lemma_square(
        417565016340793323451181812165302951732930774618410737123336549486393719677503257016200416291554int,
        1067993516717146951041484916571792702745057740581727230159139685185762082554198619328292418486241int,
        19563802026507119173nat,
        923560792779770218803378882425570862485955645330207088632903104246508223878766378257358028260996int,
        666092166993122139371666007414182044848906487185749323956412889660309208559489966181281965953949int,
        798660782681418939535752581488818649866655997060422872007214013818313677911035806542452800191187int,
    );
    lemma_square_times(
        417565016340793323451181812165302951732930774618410737123336549486393719677503257016200416291554int,
        1067993516717146951041484916571792702745057740581727230159139685185762082554198619328292418486241int,
        39127604053014238346nat,
        666092166993122139371666007414182044848906487185749323956412889660309208559489966181281965953949int,
        331227272711155053125022163990355998933871461703574615725837240280611028100295146093413730756216int,
        173469905953188745583244701795377702055659976504575632864804811988939153290281939669524833275537547983347757574613260865279095317606660982391945406064651371818717153141522092763132650118895418int,
    );
    lemma_square(
        417565016340793323451181812165302951732930774618410737123336549486393719677503257016200416291554int,
        1067993516717146951041484916571792702745057740581727230159139685185762082554198619328292418486241int,
        78255208106028476693nat,
        331227272711155053125022163990355998933871461703574615725837240280611028100295146093413730756216int,
        669232489700919628224563921974783592473820373627834923922709725320781358518495589053905788869173int,
        102726752990885857811863632817282017832037527397201919752403658181687030315465200335505866304363int,
    );
    lemma_square(
        417565016340793323451181812165302951732930774618410737123336549486393719677503257016200416291554int,
        1067993516717146951041484916571792702745057740581727230159139685185762082554198619328292418486241int,
        156510416212056953386nat,
        669232489700919628224563921974783592473820373627834923922709725320781358518495589053905788869173int,
        654433395053226587183766957129809168102078582137332902757770277870788213775116110057705020361487int,
        419358468249867023877912720134457751751301596218825363854137689501699957319408769410570952075562int,
    );
    lemma_square_times(
        417565016340793323451181812165302951732930774618410737123336549486393719677503257016200416291554int,
        1067993516717146951041484916571792702745057740581727230159139685185762082554198619328292418486241int,
        313020832424113906772nat,
        654433395053226587183766957129809168102078582137332902757770277870788213775116110057705020361487int,
        960646901509841767071191108726621584898265722816414413018189044330582475026511694485030231305413int,
        167450479542075795501330643158229642236717141756216625321747647030607722150344842567201370236203842410417264496364830857272471220648447979413696168638708824881100683782360830210187639145088893int,
    );
    lemma_square(
        417565016340793323451181812165302951732930774618410737123336549486393719677503257016200416291554int,
        1067993516717146951041484916571792702745057740581727230159139685185762082554198619328292418486241int,
        626041664848227813545nat,
        960646901509841767071191108726621584898265722816414413018189044330582475026511694485030231305413int,
        83259507448798267008045604928870247445701739556240165044213035214730931187079326735775631679790int,
        864089954606784477858866706374499177539793038845196131366604777821168619125221165408172117174219int,
    );
}

proof fn lemma_order_6()
    ensures
        powers_to(
            417565016340793323451181812165302951732930774618410737123336549486393719677503257016200416291554int,
            1067993516717146951041484916571792702745057740581727230159139685185762082554198619328292418486241int,
            20514133273746728994250213nat,
            732337501983954871839033593720886222291351649001183917580438971410217690273992300754219483837490int,
        ),
{
    lemma_order_5();
    lemma_square(
        417565016340793323451181812165302951732930774618410737123336549486393719677503257016200416291554int,
        1067993516717146951041484916571792702745057740581727230159139685185762082554198619328292418486241int,
        1252083329696455627090nat,
        83259507448798267008045604928870247445701739556240165044213035214730931187079326735775631679790int,
        738871784719542397772531501892040617525545639845050752985663198083358114219223222616430267110752int,
        6490812417967552317219058937006539791479806508549207311125137848767457525654025276867226614628int,
    );
    lemma_square_times(
        417565016340793323451181812165302951732930774618410737123336549486393719677503257016200416291554int,
        1067993516717146951041484916571792702745057740581727230159139685185762082554198619328292418486241int,
        2504166659392911254180nat,
        738871784719542397772531501892040617525545639845050752985663198083358114219223222616430267110752int,
        785105549327703538941504357918036955483795852043465555053545192028345796770194026009999710095312int,
        213448769212957857673149931327511230340613634294188607851230642393035933835248527904214318526061787484818708346214741161276893945042249159837773618284935790203763089460757565180776030398711344int,
    );
    lemma_square_times(
        417565016340793323451181812165302951732930774618410737123336549486393719677503257016200416291554int,
        1067993516717146951041484916571792702745057740581727230159139685185762082554198619328292418486241int,
        5008333318785822508361nat,
        785105549327703538941504357918036955483795852043465555053545192028345796770194026009999710095312int,
        22071899768718176491952817644231312507684880210122595152987499121025824025962473998464412703882int,
        240996970990335564459895365947938992016435597489208446439005870538469747042882477861454832244413342946674034231924462854516348904450454581902897611754539491704410415111461353052441981630356534int,
    );
    lemma_square_times(
        417565016340793323451181812165302951732930774618410737123336549486393719677503257016200416291554int,
        1067993516717146951041484916571792702745057740581727230159139685185762082554198619328292418486241int,
        10016666637571645016723nat,
        22071899768718176491952817644231312507684880210122595152987499121025824025962473998464412703882int,
        341034552812981375425141117765484210916108350506050099947810844738458518936888193666470433374262int,
        190473657185695876442413507956301892207932625604339865373020383976110379665291340325498721966798045544557963064336391447681197436890342604555617148790211868618617825164046727596743622753874int,
    );
    lemma_square(
        417565016340793323451181812165302951732930774618410737123336549486393719677503257016200416291554int,
        1067993516717146951041484916571792702745057740581727230159139685185762082554198619328292418486241int,
        20033333275143290033447nat,
        341034552812981375425141117765484210916108350506050099947810844738458518936888193666470433374262int,
        120042705488357789445279328912378684688705173181687529898849406967276428655936211954875495136148int,
        108900067642594968233640370377027516049462931600811479176745974736230770883269515952718731119056int,
    );
    lemma_square_times(
        417565016340793323451181812165302951732930774618410737123336549486393719677503257016200416291554int,
        1067993516717146951041484916571792702745057740581727230159139685185762082554198619328292418486241int,
        40066666550286580066894nat,
        120042705488357789445279328912378684688705173181687529898849406967276428655936211954875495136148int,
        518207898536903214149028229734081279114006694420997697965618641021654789795755374229076605822119int,
        5634132285416721831306581421809224661942778578720506924087037798547699759176184213995842770608970424829576963010897757399019351820208781864869960143456844090002855927811718725145696898590617int,
    );
    lemma_square_times(
        417565016340793323451181812165302951732930774618410737123336549486393719677503257016200416291554int,
        1067993516717146951041484916571792702745057740581727230159139685185762082554198619328292418486241int,
        80133333100573160133789nat,
        518207898536903214149028229734081279114006694420997697965618641021654789795755374229076605822119int,
        905476909456530212240710492561107846560341312632699954470029468499179831737214726834201669029221int,
        104993773927385082686586863235432357059256536619802723179414000460099114557650901515254670094788454355083274120127829160352043638222033617441558981133199201073751802574329104811083662394112253int,
    );
    lemma_square_times(
        417565016340793323451181812165302951732930774618410737123336549486393719677503257016200416291554int,
        1067993516717146951041484916571792702745057740581727230159139685185762082554198619328292418486241int,
        160266666201146320267579nat,
        905476909456530212240710492561107846560341312632699954470029468499179831737214726834201669029221int,
        271348243606413118616614766453901529999832115289275005459987999042949973763624662753137874111665int,
        320560679253019958023391754841152864334071446367140607458196486352298035499235941772435078860954851745259801283942278567853511619104352921001198188407447584499352613705341751128996610708741889int,
    );
    lemma_square_times(
        417565016340793323451181812165302951732930774618410737123336549486393719677503257016200416291554int,
        1067993516717146951041484916571792702745057740581727230159139685185762082554198619328292418486241int,
        320533332402292640535159nat,
        271348243606413118616614766453901529999832115289275005459987999042949973763624662753137874111665int,
        371799649796282295680046306488615588423308085472276897700256897844550108955056455596383423697584int,
        28787869120583221784017222066011703203094428021356412898982207771955808950518554600219224817461653351954368722676762516736508521989304708484390209869492608647021179887813751896622756310955826int,
    );
    lemma_square(
        417565016340793323451181812165302951732930774618410737123336549486393719677503257016200416291554int,
        1067993516717146951041484916571792702745057740581727230159139685185762082554198619328292418486241int,
        641066664804585281070319nat,
        371799649796282295680046306488615588423308085472276897700256897844550108955056455596383423697584int,
        40529905802103722567048340190553588346934941425503991988189743615684839125508645183433192626040int,
        129434287216978528242012625625303455283952893427362986794932560749761989561612204467320021168776int,
    );
    lemma_square(
        417565016340793323451181812165302951732930774618410737123336549486393719677503257016200416291554int,
        1067993516717146951041484916571792702745057740581727230159139685185762082554198619328292418486241int,
        1282133329609170562140638nat,
        40529905802103722567048340190553588346934941425503991988189743615684839125508645183433192626040int,
        37320508437115595263160029177119829897704456844268886384319570871241385713443907102556635615615int,
        1538092917807903946603729097167508642556240350198092938311071767308611813802985968836606415585int,
    );
    lemma_square_times(
        417565016340793323451181812165302951732930774618410737123336549486393719677503257016200416291554int,
        1067993516717146951041484916571792702745057740581727230159139685185762082554198619328292418486241int,
        2564266659218341124281276nat,
        37320508437115595263160029177119829897704456844268886384319570871241385713443907102556635615615int,
        344450949603846958097467674177981041766945845696964376320218926939698313138783202933397708612141int,
        544566088750502018191776493340246333389092045407109769425598165678194263522317515011355781450173214606479722917017272935873524185761282117158265678664386996177346213025847312248743468305749int,
    );
    lemma_square(
        417565016340793323451181812165302951732930774618410737123336549486393719677503257016200416291554int,
        1067993516717146951041484916571792702745057740581727230159139685185762082554198619328292418486241int,
        5128533318436682248562553nat,
        344450949603846958097467674177981041766945845696964376320218926939698313138783202933397708612141int,
        680250242273175547599153068607565851059629877903106514944875046887425179541933241814902273361591int,
        111092862293484195107472321701288185170383864655876016450585503281212381790764848337074120696690int,
    );
    lemma_square_times(
        417565016340793323451181812165302951732930774618410737123336549486393719677503257016200416291554int,
        1067993516717146951041484916571792702745057740581727230159139685185762082554198619328292418486241int,
        10257066636873364497125106nat,
        680250242273175547599153068607565851059629877903106514944875046887425179541933241814902273361591int,
        732337501983954871839033593720886222291351649001183917580438971410217690273992300754219483837490int,
        180922633302150524025800064120386736310970201652230879702978123464477420204921963745958420245445844640684978283770368463773057463467646881642170811004115541008405146186163214165764591283897424int,
    );
}

proof fn lemma_order_7()
    ensures
        powers_to(
            417565016340793323451181812165302951732930774618410737123336549486393719677503257016200416291554int,
            1067993516717146951041484916571792702745057740581727230159139685185762082554198619328292418486241int,
            336103559557066407841795497478nat,
            492102738616541431550954905782348138144551926940676068246748209741353819717757135783242356472801int,
        ),
{
    lemma_order_6();
    lemma_square(
        417565016340793323451181812165302951732930774618410737123336549486393719677503257016200416291554int,
        1067993516717146951041484916571792702745057740581727230159139685185762082554198619328292418486241int,
        20514133273746728994250213nat,
        732337501983954871839033593720886222291351649001183917580438971410217690273992300754219483837490int,
        221536866145550571679689795572911044371514731341360627856211425035683269399630357575692904798042int,
        502173663432584729496524861895631943609326314535091643486487257456884849371945268747786639488938int,
    );
    lemma_square_times(
        417565016340793323451181812165302951732930774618410737123336549486393719677503257016200416291554int,
        1067993516717146951041484916571792702745057740581727230159139685185762082554198619328292418486241int,
        41028266547493457988500426nat,
        221536866145550571679689795572911044371514731341360627856211425035683269399630357575692904798042int,
        222527757837433276910908173676970081362025958506403675273155879490541077952328873884625355407309int,
        19188786277551984261554097716348023063491993202840169337440895713990575078940622800238539455234895524627809421980926866174960876451315795216062757072599644638673815969181996011673010198411867int,
    );
    lemma_square_times(
        417565016340793323451181812165302951732930774618410737123336549486393719677503257016200416291554int,
        1067993516717146951041484916571792702745057740581727230159139685185762082554198619328292418486241int,
        82056533094986915977000853nat,
        222527757837433276910908173676970081362025958506403675273155879490541077952328873884625355407309int,
        333358943245951870602035269327706926272256947005760035157238199776030461227729375660565298820301int,
        19360825651669113587683056262812953980948639010172078794084624374508085048409907301525118911257345428979852430593425381091166412947246545577403017886060323754037920345955568703419321232424453int,
    );
    lemma_square_times(
        417565016340793323451181812165302951732930774618410737123336549486393719677503257016200416291554int,
        1067993516717146951041484916571792702745057740581727230159139685185762082554198619328292418486241int,
        164113066189973831954001707nat,
        333358943245951870602035269327706926272256947005760035157238199776030461227729375660565298820301int,
        945026256873461153690008081478207373062642955213543472647966706266898938780520598927194670402882int,
        43448992598425326290609204832695448895468127679138181257941621193913656521522052956286158529591508872767525809404382009449520592584667169781436538731322130376997325916030090853549718993290992int,
    );
    lemma_square_times(
        417565016340793323451181812165302951732930774618410737123336549486393719677503257016200416291554int,
        1067993516717146951041484916571792702745057740581727230159139685185762082554198619328292418486241int,
        328226132379947663908003415nat,
        945026256873461153690008081478207373062642955213543472647966706266898938780520598927194670402882int,
        229951229205440447106398802084184934649135888043787947777667634459506411028005686149034785932584int,
        349175079284002313704217292270768612532984347981995760663035570134734570281595962468640908346330463439003076854670427557387782777542972193647947640753842382301238842942820692782348585195969632int,
    );
    lemma_square(
        417565016340793323451181812165302951732930774618410737123336549486393719677503257016200416291554int,
        1067993516717146951041484916571792702745057740581727230159139685185762082554198619328292418486241int,
        656452264759895327816006831nat,
        229951229205440447106398802084184934649135888043787947777667634459506411028005686149034785932584int,
        931312045723236559750860956173756614320465684101105889599671970003310593281415806614616523684692int,
        49511131842476701324479230355927649201895271917457250142599232361048751940998335181202602551404int,
    );
    lemma_square(
        417565016340793323451181812165302951732930774618410737123336549486393719677503257016200416291554int,
        1067993516717146951041484916571792702745057740581727230159139685185762082554198619328292418486241int,
        1312904529519790655632013662nat,
        931312045723236559750860956173756614320465684101105889599671970003310593281415806614616523684692int,
        706849737533672749589280090194519996862052626471482401393589892173854891119343226466233161597275int,
        812123025966749701260461496053287552710848158875928801048145283591435002716534987411741898812629int,
    );
    lemma_square(
        417565016340793323451181812165302951732930774618410737123336549486393719677503257016200416291554int,
        1067993516717146951041484916571792702745057740581727230159139685185762082554198619328292418486241int,
        2625809059039581311264027324nat,
        706849737533672749589280090194519996862052626471482401393589892173854891119343226466233161597275int,
        511866623908053283970652439842794970460942385164197537478495554903589186773164815273307274806535int,
        467827326318637606769894276614267168614983479820501965815381993500420731678050410244213431321490int,
    );
    lemma_square(
        417565016340793323451181812165302951732930774618410737123336549486393719677503257016200416291554int,
        1067993516717146951041484916571792702745057740581727230159139685185762082554198619328292418486241int,
        5251618118079162622528054648nat,
        511866623908053283970652439842794970460942385164197537478495554903589186773164815273307274806535int,
        775846019877633214993423059776605518442078302061771281501639640634608598317124488786765088283241int,
        245326808234192587767458212799972058229451408833091289510732980249854448613516754277675106305224int,
    );
    lemma_square(
        417565016340793323451181812165302951732930774618410737123336549486393719677503257016200416291554int,
        1067993516717146951041484916571792702745057740581727230159139685185762082554198619328292418486241int,
        10503236236158325245056109296nat,
        775846019877633214993423059776605518442078302061771281501639640634608598317124488786765088283241int,
        356842775907432600775598788863269105471549832311352625237023121765889498394159176215616564363654int,
        563614888234742929938109908140760721566053943250612377260812172742061425322315272206847724903147int,
    );
    lemma_square(
        417565016340793323451181812165302951732930774618410737123336549486393719677503257016200416291554int,
        1067993516717146951041484916571792702745057740581727230159139685185762082554198619328292418486241int,
        21006472472316650490112218592nat,
        356842775907432600775598788863269105471549832311352625237023121765889498394159176215616564363654int,
        804749156619606167397725761945145691349611538423685358322235784341184330726905467113228811137270int,
        119229906103490610481212648755713099880626446139690283063440917296564565385576545355839836897006int,
    );
    lemma_square_times(
        417565016340793323451181812165302951732930774618410737123336549486393719677503257016200416291554int,
        1067993516717146951041484916571792702745057740581727230159139685185762082554198619328292418486241int,
        42012944944633300980224437184nat,
        804749156619606167397725761945145691349611538423685358322235784341184330726905467113228811137270int,
        328497332399276333916813920320816488874662687507676173787628504367518399881651868693050799995579int,
        253207491289932024438392150313426257649903598859042080475500425057368066440646132867528169410138341600603053497957604823294538098321437876559305679567902966905345719018322671620177378793505581int,
    );
    lemma_square_times(
        417565016340793323451181812165302951732930774618410737123336549486393719677503257016200416291554int,
        1067993516717146951041484916571792702745057740581727230159139685185762082554198619328292418486241int,
        84025889889266601960448874369nat,
        328497332399276333916813920320816488874662687507676173787628504367518399881651868693050799995579int,
        365021512130767877790471624483451380265939936799537653305665926700890802458620609724463410725468int,
        42190938336350419826648020220945009312466389223053886625380368618330611957824290899312180812404215573527586814168115717954614884063366827992927620579448349257581847780563941912292995935327606int,
    );
    lemma_square(
        417565016340793323451181812165302951732930774618410737123336549486393719677503257016200416291554int,
        1067993516717146951041484916571792702745057740581727230159139685185762082554198619328292418486241int,
        168051779778533203920897748739nat,
        365021512130767877790471624483451380265939936799537653305665926700890802458620609724463410725468int,
        492102738616541431550954905782348138144551926940676068246748209741353819717757135783242356472801int,
        124757971123077981638496751599123063118070219800503779454668968928920512611935511175871593887503int,
    );
}

proof fn lemma_order_8()
    ensures
        powers_to(
            417565016340793323451181812165302951732930774618410737123336549486393719677503257016200416291554int,
            1067993516717146951041484916571792702745057740581727230159139685185762082554198619328292418486241int,
            5506720719782976026079977430687315nat,
            235428897525321601027288599765910418816518217245874454100141903715771274877893194858404141560083int,
        ),
{
    lemma_order_7();
    lemma_square(
        417565016340793323451181812165302951732930774618410737123336549486393719677503257016200416291554int,
        1067993516717146951041484916571792702745057740581727230159139685185762082554198619328292418486241int,
        336103559557066407841795497478nat,
        492102738616541431550954905782348138144551926940676068246748209741353819717757135783242356472801int,
        793809829160270948499048671043715220895890069109611739068504829201321680972516620581856256920126int,
        226747729797348932981448065546791840745196861738121590071356870597336578270255773191670066261475int,
    );
    lemma_square_times(
        417565016340793323451181812165302951732930774618410737123336549486393719677503257016200416291554int,
        1067993516717146951041484916571792702745057740581727230159139685185762082554198619328292418486241int,
        672207119114132815683590994956nat,
        793809829160270948499048671043715220895890069109611739068504829201321680972516620581856256920126int,
        251600835836939626796709516028223219604092607838521128723891917723483075804196731677535989282932int,
        246370346472175622950429517132278653805627170068222273117794543672069498703147073192452049343729859940360399549403697339532385067620196762109527967175834515137011652244618344491609299636966292int,
    );
    lemma_square_times(
        417565016340793323451181812165302951732930774618410737123336549486393719677503257016200416291554int,
        1067993516717146951041484916571792702745057740581727230159139685185762082554198619328292418486241int,
        1344414238228265631367181989913nat,
        251600835836939626796709516028223219604092607838521128723891917723483075804196731677535989282932int,
        130646774238233863396499400620657705243126918658739098779140845456985602814378872093671682217950int,
        24750253360471645072933403963000091325362569944745716197154634073471950728795540973056692949521215016934856369645993662355909148225960317015108060930995296509567515071149348755757735337746306int,
    );
    lemma_square_times(
        417565016340793323451181812165302951732930774618410737123336549486393719677503257016200416291554int,
        1067993516717146951041484916571792702745057740581727230159139685185762082554198619328292418486241int,
        2688828476456531262734363979827nat,
        130646774238233863396499400620657705243126918658739098779140845456985602814378872093671682217950int,
        577472435356531998917771619500895716590499220483875499614093238150435013081462176875820091274973int,
        6673487821695619636464171064894607228812473601064541304150824998305603088251505178777363564609940546406092809377431678694019336543571033551356396679646589734393323275409179996708201990868747int,
    );
    lemma_square_times(
        417565016340793323451181812165302951732930774618410737123336549486393719677503257016200416291554int,
        1067993516717146951041484916571792702745057740581727230159139685185762082554198619328292418486241int,
        5377656952913062525468727959655nat,
        577472435356531998917771619500895716590499220483875499614093238150435013081462176875820091274973int,
        804305835469498398984739522882893623458862456496604380743513582318201214239783956515460904125544int,
        130382110736709097323532295889407159033399237885122434159761502082956148336734802128982238830539553711190960205304577659697124841532678121721106207311407381241268431549568985939238847509767242int,
    );
    lemma_square(
        417565016340793323451181812165302951732930774618410737123336549486393719677503257016200416291554int,
        1067993516717146951041484916571792702745057740581727230159139685185762082554198619328292418486241int,
        10755313905826125050937455919311nat,
        804305835469498398984739522882893623458862456496604380743513582318201214239783956515460904125544int,
        102965484642207287900638626663181694315602026029666489831096475035124972087900004348683176906275int,
        605722662960339234826272695038534416456226505583408156847220593382891043426793399636285330674621int,
    );
    lemma_square(
        417565016340793323451181812165302951732930774618410737123336549486393719677503257016200416291554int,
        1067993516717146951041484916571792702745057740581727230159139685185762082554198619328292418486241int,
        21510627811652250101874911838622nat,
        102965484642207287900638626663181694315602026029666489831096475035124972087900004348683176906275int,
        300207480256774184560932192544166193711981757839859611285417312033181719527127721011576833476181int,
        9926924519348450065116033657043284193562068716954241006965844413447365243135810875283450327284int,
    );
    lemma_square_times(
        417565016340793323451181812165302951732930774618410737123336549486393719677503257016200416291554int,
        1067993516717146951041484916571792702745057740581727230159139685185762082554198619328292418486241int,
        43021255623304500203749823677244nat,
        300207480256774184560932192544166193711981757839859611285417312033181719527127721011576833476181int,
        854400367152315586706860921029741939303126480416047649655878395377620339536817397226647331746351int,
        35236966100504025108657860434648810613322496031466520479157098376463742362676651768695039995422211905297528731156018280302660405275659848199074555789011080300848149429386851378383196735150723int,
    );
    lemma_square(
        417565016340793323451181812165302951732930774618410737123336549486393719677503257016200416291554int,
        1067993516717146951041484916571792702745057740581727230159139685185762082554198619328292418486241int,
        86042511246609000407499647354489nat,
        854400367152315586706860921029741939303126480416047649655878395377620339536817397226647331746351int,
        864927362850041147521378898188482277017080057870409947585533607968510422629403619335544726294818int,
        683524736773611642834070810078803514016009320856589372075953181646968818839861303160588616679263int,
    );
    lemma_square_times(
        417565016340793323451181812165302951732930774618410737123336549486393719677503257016200416291554int,
        1067993516717146951041484916571792702745057740581727230159139685185762082554198619328292418486241int,
        172085022493218000814999294708978nat,
        864927362850041147521378898188482277017080057870409947585533607968510422629403619335544726294818int,
        149851763816194169696477384231216380143602540169800748541764142393737216673297818817451017449856int,
        292492519380970176157470467097188130983007829542898934136650264715644405423256980107519503595052978469876040284202837102537536480391985481978625383841304002448598565405641306595704915137887240int,
    );
    lemma_square(
        417565016340793323451181812165302951732930774618410737123336549486393719677503257016200416291554int,
        1067993516717146951041484916571792702745057740581727230159139685185762082554198619328292418486241int,
        344170044986436001629998589417957nat,
        149851763816194169696477384231216380143602540169800748541764142393737216673297818817451017449856int,
        810309587661734445370235427223712618291263329651236294695725950092891995473551504238389593679511int,
        21025924565393861932350043925298977389085474903116737767641112298517614136961225604581221657225int,
    );
    lemma_square(
        417565016340793323451181812165302951732930774618410737123336549486393719677503257016200416291554int,
        1067993516717146951041484916571792702745057740581727230159139685185762082554198619328292418486241int,
        688340089972872003259997178835914nat,
        810309587661734445370235427223712618291263329651236294695725950092891995473551504238389593679511int,
        1043623411946040340979239258318153483214712544797806328998162464309352052070107144050734581617542int,
        614799263833385185215384664084395439770188873136868719347918097266677614704224490422904992823019int,
    );
    lemma_square_times(
        417565016340793323451181812165302951732930774618410737123336549486393719677503257016200416291554int,
        1067993516717146951041484916571792702745057740581727230159139685185762082554198619328292418486241int,
        1376680179945744006519994357671828nat,
        1043623411946040340979239258318153483214712544797806328998162464309352052070107144050734581617542int,
        566149174108177140567925711720365454616070180599199840011220249056602036451236116801640627155565int,
        425836728179128026508757234840945758471932026880896911331636519078428595099929533795445051306088214742949306985149574271616066223497732064056466269704895759284284029749662592133645132004491451int,
    );
    lemma_square_times(
        417565016340793323451181812165302951732930774618410737123336549486393719677503257016200416291554int,
        1067993516717146951041484916571792702745057740581727230159139685185762082554198619328292418486241int,
        2753360359891488013039988715343657nat,
        566149174108177140567925711720365454616070180599199840011220249056602036451236116801640627155565int,
        235428897525321601027288599765910418816518217245874454100141903715771274877893194858404141560083int,
        125319093914137092314679222520312497003506714931008345159723436135955516482198809461798510046971767978681252932770848802188658544173498138593419542584968797919104288319812881623424635283298687int,
    );
}

proof fn lemma_order_9()
    ensures
        powers_to(
            417565016340793323451181812165302951732930774618410737123336549486393719677503257016200416291554int,
            1067993516717146951041484916571792702745057740581727230159139685185762082554198619328292418486241int,
            90222112272924279211294350224380980269nat,
            570848100716944528727054278520106620176011441089108206293289170964897247749622167808879047953730int,
        ),
{
    lemma_order_8();
    lemma_square_times(
        417565016340793323451181812165302951732930774618410737123336549486393719677503257016200416291554int,
        1067993516717146951041484916571792702745057740581727230159139685185762082554198619328292418486241int,
        5506720719782976026079977430687315nat,
        235428897525321601027288599765910418816518217245874454100141903715771274877893194858404141560083int,
        1042065559061446292921569041090704136256613891641112139047947697851140030481414606772196883820968int,
        21670804176748083267904720000313148448489218127358057965607365043675700986962445033821108937159248192892614824898571868532109686714262228968598862972357503911064480927831331844611044272774218int,
    );
    lemma_square(
        417565016340793323451181812165302951732930774618410737123336549486393719677503257016200416291554int,
        1067993516717146951041484916571792702745057740581727230159139685185762082554198619328292418486241int,
        11013441439565952052159954861374631nat,
        1042065559061446292921569041090704136256613891641112139047947697851140030481414606772196883820968int,
        390247458344895260953597461880858555721406600237755837027785509728698023724579725665403183272303int,
        1016767061208331544123714492161525560329632057240716689487929768629858555983825858298880613911281int,
    );
    lemma_square_times(
        417565016340793323451181812165302951732930774618410737123336549486393719677503257016200416291554int,
        1067993516717146951041484916571792702745057740581727230159139685185762082554198619328292418486241int,
        22026882879131904104319909722749262nat,
        390247458344895260953597461880858555721406600237755837027785509728698023724579725665403183272303int,
        609723902962434554337960593132251330251010158054174532015893130063466672899779462963684970572632int,
        59543677858713004301005166839614897805644315672779117778435508500903841970086004721874656396860895070464666394735377897566741459496064073459813281740966481360933142399374605339895195185993994int,
    );
    lemma_square_times(
        417565016340793323451181812165302951732930774618410737123336549486393719677503257016200416291554int,
        1067993516717146951041484916571792702745057740581727230159139685185762082554198619328292418486241int,
        44053765758263808208639819445498525nat,
        609723902962434554337960593132251330251010158054174532015893130063466672899779462963684970572632int,
        601498376392052838036009875817028088047533582119247700681037651235043667020074506678269841335600int,
        145352307907541980511733551537924110995411596345447315323929606156514751821493685451143342354885636926928539587750329897301926181200295072542284405088277902381026722618415148242805489209579856int,
    );
    lemma_square(
        417565016340793323451181812165302951732930774618410737123336549486393719677503257016200416291554int,
        1067993516717146951041484916571792702745057740581727230159139685185762082554198619328292418486241int,
        88107531516527616417279638890997051nat,
        601498376392052838036009875817028088047533582119247700681037651235043667020074506678269841335600int,
        929335360815567145701663232222522011562915477626643616705829172068067845310135880075037837868077int,
        338766379326342643145932369090178892919340685681669911631142254205117317756102724630734074385203int,
    );
    lemma_square(
        417565016340793323451181812165302951732930774618410737123336549486393719677503257016200416291554int,
        1067993516717146951041484916571792702745057740581727230159139685185762082554198619328292418486241int,
        176215063033055232834559277781994102nat,
        929335360815567145701663232222522011562915477626643616705829172068067845310135880075037837868077int,
        555612912951492799998397417781596604585855654010800230388440561979058250196972114599093520553313int,
        808679265691589184529857194638438753629502691725596273789987911889309508210950743696336857578376int,
    );
    lemma_square(
        417565016340793323451181812165302951732930774618410737123336549486393719677503257016200416291554int,
        1067993516717146951041484916571792702745057740581727230159139685185762082554198619328292418486241int,
        352430126066110465669118555563988204nat,
        555612912951492799998397417781596604585855654010800230388440561979058250196972114599093520553313int,
        860746869803297680494083037277964049880684716807889778769955404721470644625676853212689555876155int,
        289052044049254624436683349707630822197347640435084619472028821356095294535661531772480356150854int,
    );
    lemma_square(
        417565016340793323451181812165302951732930774618410737123336549486393719677503257016200416291554int,
        1067993516717146951041484916571792702745057740581727230159139685185762082554198619328292418486241int,
        704860252132220931338237111127976408nat,
        860746869803297680494083037277964049880684716807889778769955404721470644625676853212689555876155int,
        583058357788121425340717342412078829786115394457525279875866993307417725100749104256251067009673int,
        693716920823214168007664775955174516466517831202691436160962877959495362167936248739643997965072int,
    );
    lemma_square_times(
        417565016340793323451181812165302951732930774618410737123336549486393719677503257016200416291554int,
        1067993516717146951041484916571792702745057740581727230159139685185762082554198619328292418486241int,
        1409720504264441862676474222255952816nat,
        583058357788121425340717342412078829786115394457525279875866993307417725100749104256251067009673int,
        65111599395520808528631294038418546240734084605233805341749136087278613077510435655434186853705int,
        132916696895847790881130523312499411456780236497241796754859566243620240136501338995755069713570549646351922655221740856314421285434668683528148247883927108660173952755634403657756175548696921int,
    );
    lemma_square(
        417565016340793323451181812165302951732930774618410737123336549486393719677503257016200416291554int,
        1067993516717146951041484916571792702745057740581727230159139685185762082554198619328292418486241int,
        2819441008528883725352948444511905633nat,
        65111599395520808528631294038418546240734084605233805341749136087278613077510435655434186853705int,
        417439441158161155618642434662678267269078401174380974183496696126568323439032889290664954001814int,
        3969612464385027448922034546088301093272541176835242103992087680501837202831914515337891158171int,
    );
    lemma_square_times(
        417565016340793323451181812165302951732930774618410737123336549486393719677503257016200416291554int,
        1067993516717146951041484916571792702745057740581727230159139685185762082554198619328292418486241int,
        5638882017057767450705896889023811266nat,
        417439441158161155618642434662678267269078401174380974183496696126568323439032889290664954001814int,
        1062000230834253343386840472253148983609676495565665162681255014324921378536153341585806757877029int,
        68130637185583386998281430389685522745238530834425843485532255294185373200897024329240496988896606931401205724122792392804204487493848785301152033527108590222489591929673856957767145849229955int,
    );
    lemma_square_times(
        417565016340793323451181812165302951732930774618410737123336549486393719677503257016200416291554int,
        1067993516717146951041484916571792702745057740581727230159139685185762082554198619328292418486241int,
        11277764034115534901411793778047622533nat,
        1062000230834253343386840472253148983609676495565665162681255014324921378536153341585806757877029int,
        827999876633594265742477179861877250041799142596603141902894142738644809889899204928338322448315int,
        440965601051850060670665207038163187177077740641773598576950150402773681033030241970653306649415202098892394441487855308843920667296301806662590461690285038658609558409901373771187633091661239int,
    );
    lemma_square(
        417565016340793323451181812165302951732930774618410737123336549486393719677503257016200416291554int,
        1067993516717146951041484916571792702745057740581727230159139685185762082554198619328292418486241int,
        22555528068231069802823587556095245067nat,
        827999876633594265742477179861877250041799142596603141902894142738644809889899204928338322448315int,
        501691019533610955894853746312990400655144774924212200816248900926223968844520467846019811307390int,
        641936289849988818013389135264607815813206563327727838448701896727015195136177838382477138637435int,
    );
    lemma_square_times(
        417565016340793323451181812165302951732930774618410737123336549486393719677503257016200416291554int,
        1067993516717146951041484916571792702745057740581727230159139685185762082554198619328292418486241int,
        45111056136462139605647175112190490134nat,
        501691019533610955894853746312990400655144774924212200816248900926223968844520467846019811307390int,
        570848100716944528727054278520106620176011441089108206293289170964897247749622167808879047953730int,
        98407487579378405160852788670803162104827658924138926041433168358893868287596924023479926608245857709093679509598716108646109952421102015682014740472124616940473433681404261960395181180420870int,
    );
}

proof fn lemma_order_10()
    ensures
        powers_to(
            417565016340793323451181812165302951732930774618410737123336549486393719677503257016200416291554int,
            1067993516717146951041484916571792702745057740581727230159139685185762082554198619328292418486241int,
            1478199087479591390597846634076257980736671nat,
            691954944198520451229961282726327258411614608137942927454952434427579736254406477608666745057875int,
        ),
{
    lemma_order_9();
    lemma_square_times(
        417565016340793323451181812165302951732930774618410737123336549486393719677503257016200416291554int,
        1067993516717146951041484916571792702745057740581727230159139685185762082554198619328292418486241int,
        90222112272924279211294350224380980269nat,
        570848100716944528727054278520106620176011441089108206293289170964897247749622167808879047953730int,
        128281958144498492420498500504159206270768977374749134323526288337699452460264543544722415473784int,
        127407974317748328737808976795635030162785142199199998480725491803304187054995202340925346081275984425391716349677501404990640521417405948380561914577466677296592039036532094937918553897378576int,
    );
    lemma_square(
        417565016340793323451181812165302951732930774618410737123336549486393719677503257016200416291554int,
        1067993516717146951041484916571792702745057740581727230159139685185762082554198619328292418486241int,
        180444224545848558422588700448761960539nat,
        128281958144498492420498500504159206270768977374749134323526288337699452460264543544722415473784int,
        797615506031538646859829200103195709345467060823709856132715096767011604897046457188312739609122int,
        15408577419056773352560307509269252065166970974652687321374880814601089764316047496777391159774int,
    );
    lemma_square(
        417565016340793323451181812165302951732930774618410737123336549486393719677503257016200416291554int,
        1067993516717146951041484916571792702745057740581727230159139685185762082554198619328292418486241int,
        360888449091697116845177400897523921078nat,
        797615506031538646859829200103195709345467060823709856132715096767011604897046457188312739609122int,
        314952891210698951753757803936692275972300907664880984981278443399959364734173709099115494122856int,
        595687600630294385591641827906993593912743014909098656397917463239436517991281795661872183614108int,
    );
    lemma_square_times(
        417565016340793323451181812165302951732930774618410737123336549486393719677503257016200416291554int,
        1067993516717146951041484916571792702745057740581727230159139685185762082554198619328292418486241int,
        721776898183394233690354801795047842156nat,
        314952891210698951753757803936692275972300907664880984981278443399959364734173709099115494122856int,
        757882248637498927760832694577546533460104729926965733734788993410020580921490956529110681701016int,
        38783472283161437938267281426039008063293095849782542565586660462033426399533597715211462208586602943318426497017767548712211307879093754571339866899878937735616227958804441551694267166424808int,
    );
    lemma_square(
        417565016340793323451181812165302951732930774618410737123336549486393719677503257016200416291554int,
        1067993516717146951041484916571792702745057740581727230159139685185762082554198619328292418486241int,
        1443553796366788467380709603590095684313nat,
        757882248637498927760832694577546533460104729926965733734788993410020580921490956529110681701016int,
        160273047414523769928498944753048011752989218118666901327246583303613891338670449806529129086825int,
        537817406013294215921877879733530411603407033593799341666001657593219571913263045478565211697591int,
    );
    lemma_square(
        417565016340793323451181812165302951732930774618410737123336549486393719677503257016200416291554int,
        1067993516717146951041484916571792702745057740581727230159139685185762082554198619328292418486241int,
        2887107592733576934761419207180191368626nat,
        160273047414523769928498944753048011752989218118666901327246583303613891338670449806529129086825int,
        62624863896102318997699407577614221097554456366549434786103024344496632080501382203166582417243int,
        24052065228352303262299188810509344701973321951191444594740337939421870738768590490525636214902int,
    );
    lemma_square_times(
        417565016340793323451181812165302951732930774618410737123336549486393719677503257016200416291554int,
        1067993516717146951041484916571792702745057740581727230159139685185762082554198619328292418486241int,
        5774215185467153869522838414360382737252nat,
        62624863896102318997699407577614221097554456366549434786103024344496632080501382203166582417243int,
        419345139971894863879582601574167630311764805543812077123543252025439323871222686484530698773307int,
        1533377477533925663390960365204951854796922612173407064795209341967893445456210105871913314498777652592367126373418376988679453161265631992325983831613225778976132304267563538785643764301879int,
    );
    lemma_square(
        417565016340793323451181812165302951732930774618410737123336549486393719677503257016200416291554int,
        1067993516717146951041484916571792702745057740581727230159139685185762082554198619328292418486241int,
        11548430370934307739045676828720765474505nat,
        419345139971894863879582601574167630311764805543812077123543252025439323871222686484530698773307int,
        1050185470800517184500958580292228873109824432732619475704688390931563930727840276845896071542178int,
        164654881949645047240376075347079367337110349148659475201664412631859594920245050506870579516631int,
    );
    lemma_square(
        417565016340793323451181812165302951732930774618410737123336549486393719677503257016200416291554int,
        1067993516717146951041484916571792702745057740581727230159139685185762082554198619328292418486241int,
        23096860741868615478091353657441530949010nat,
        1050185470800517184500958580292228873109824432732619475704688390931563930727840276845896071542178int,
        102069855452095470948099912759544924733598823502400453292905350494695438948692770543656096508961int,
        1032674361610941336547647288701822683657140354445138330489764949482238027280016441330527438776003int,
    );
    lemma_square_times(
        417565016340793323451181812165302951732930774618410737123336549486393719677503257016200416291554int,
        1067993516717146951041484916571792702745057740581727230159139685185762082554198619328292418486241int,
        46193721483737230956182707314883061898020nat,
        102069855452095470948099912759544924733598823502400453292905350494695438948692770543656096508961int,
        941973510338145002565148740367842126818115721680305741031019769214000228696936711265913604060400int,
        4073338381659918462703513307369657083406080889413492680215944633129460332697090044119676970625808303172519490359251862680538013071415932262279791221121617363685714598632788722185747449527474int,
    );
    lemma_square_times(
        417565016340793323451181812165302951732930774618410737123336549486393719677503257016200416291554int,
        1067993516717146951041484916571792702745057740581727230159139685185762082554198619328292418486241int,
        92387442967474461912365414629766123796041nat,
        941973510338145002565148740367842126818115721680305741031019769214000228696936711265913604060400int,
        985867571773005799424165681142451469975375689357552736367817423584015130550252122325659888131744int,
        346922821567372305180933148155231447221571481732644143648088834963639795688483496121796213778348698485401793261766942809284171487158658879814459168119956106423069633538567902651020775049752416int,
    );
    lemma_square_times(
        417565016340793323451181812165302951732930774618410737123336549486393719677503257016200416291554int,
        1067993516717146951041484916571792702745057740581727230159139685185762082554198619328292418486241int,
        184774885934948923824730829259532247592083nat,
        985867571773005799424165681142451469975375689357552736367817423584015130550252122325659888131744int,
        799799037610704358467558136588382345210236437243778564747702913448240094370218398285355196827522int,
        380007924331241186813679336245259958444032535831911803959723975789441658958218379441348829922682299562367049870605238197238456850541726410053107915705933462164336972257616881123136106950625342int,
    );
    lemma_square_times(
        417565016340793323451181812165302951732930774618410737123336549486393719677503257016200416291554int,
        1067993516717146951041484916571792702745057740581727230159139685185762082554198619328292418486241int,
        369549771869897847649461658519064495184167nat,
        799799037610704358467558136588382345210236437243778564747702913448240094370218398285355196827522int,
        318088597723162663810498304376877922101903559394682164779917317986549143250071509946985348862789int,
        250102045901453821688354983685414888950393652211073786422470167784437557967410567058426635889071665019803352586607269733924428843440746085354329834784522137061888997794369484264082361693743267int,
    );
    lemma_square_times(
        417565016340793323451181812165302951732930774618410737123336549486393719677503257016200416291554int,
        1067993516717146951041484916571792702745057740581727230159139685185762082554198619328292418486241int,
        739099543739795695298923317038128990368335nat,
        318088597723162663810498304376877922101903559394682164779917317986549143250071509946985348862789int,
        691954944198520451229961282726327258411614608137942927454952434427579736254406477608666745057875int,
        39559581913003477975550829335188670491251615917943979052404524741167575830534015471566570594766917412611548225716135340185875015481690908213164168896391057362483691034965015891578562124259999int,
    );
}

proof fn lemma_order_11()
    ensures
        powers_to(
            417565016340793323451181812165302951732930774618410737123336549486393719677503257016200416291554int,
            1067993516717146951041484916571792702745057740581727230159139685185762082554198619328292418486241int,
            24218813849265625343555119252705410756389629213nat,
            314534675495347968440050383716636273364173246482560186257965706485460021153456318816603693879008int,
        ),
{
    lemma_order_10();
    lemma_square_times(
        417565016340793323451181812165302951732930774618410737123336549486393719677503257016200416291554int,
        1067993516717146951041484916571792702745057740581727230159139685185762082554198619328292418486241int,
        1478199087479591390597846634076257980736671nat,
        691954944198520451229961282726327258411614608137942927454952434427579736254406477608666745057875int,
        979933700860993965384140320628202533421453691527941193703044933158821524344506753243223608638827int,
        187202275581028768844371522343913088396755715170810750557695471812760328199535272989496411665656837904202300967809893772371991343186010548587787981122010008299226437461642454548022104192465703int,
    );
    lemma_square(
        417565016340793323451181812165302951732930774618410737123336549486393719677503257016200416291554int,
        1067993516717146951041484916571792702745057740581727230159139685185762082554198619328292418486241int,
        2956398174959182781195693268152515961473343nat,
        979933700860993965384140320628202533421453691527941193703044933158821524344506753243223608638827int,
        915157976770817513232353214290004556912660823032050023244703451441433101592653535021300101814641int,
        899134726056063694049420462498474260180959563578534398664395774437130015923755676714438573840968int,
    );
    lemma_square_times(
        417565016340793323451181812165302951732930774618410737123336549486393719677503257016200416291554int,
        1067993516717146951041484916571792702745057740581727230159139685185762082554198619328292418486241int,
        5912796349918365562391386536305031922946686nat,
        915157976770817513232353214290004556912660823032050023244703451441433101592653535021300101814641int,
        388256724814816898832047569483084031288033007256367119362586610946757550203738030856608484426875int,
        327451986132191563182329121224100242867297636385937512643813431881778234619433068766939735746225619929272499292181496181288313068919257876134676247996201304580924078462850413073836872032088839int,
    );
    lemma_square_times(
        417565016340793323451181812165302951732930774618410737123336549486393719677503257016200416291554int,
        1067993516717146951041484916571792702745057740581727230159139685185762082554198619328292418486241int,
        11825592699836731124782773072610063845893373nat,
        388256724814816898832047569483084031288033007256367119362586610946757550203738030856608484426875int,
        867003076511043332312809163900093529837521172191057682153334295250005040859566242757289706219591int,
        58937737929507824345173376498069470040680062558259216438261996828883929919431570776250757034891319213703775281517540184499181966643912427589069572893110936003803454534856711451178453658841899int,
    );
    lemma_square(
        417565016340793323451181812165302951732930774618410737123336549486393719677503257016200416291554int,
        1067993516717146951041484916571792702745057740581727230159139685185762082554198619328292418486241int,
        23651185399673462249565546145220127691786747nat,
        867003076511043332312809163900093529837521172191057682153334295250005040859566242757289706219591int,
        365834726878696233587036088814002842254492518038176889274894200555275504001223936115705382584851int,
        703837919344501751211816120470092339620235632708735188509783602823555751459111493023177050107230int,
    );
    lemma_square_times(
        417565016340793323451181812165302951732930774618410737123336549486393719677503257016200416291554int,
        1067993516717146951041484916571792702745057740581727230159139685185762082554198619328292418486241int,
        47302370799346924499131092290440255383573494nat,
        365834726878696233587036088814002842254492518038176889274894200555275504001223936115705382584851int,
        215523336189563170092273297076297682640069468127964426171771326770786786131779210381262777262975int,
        52326941012085139281585386294896035096018475756795570057570968324614009619360327527762888133869138591240088059093606055571952030217936089769835449174115101339256407639716915724132760531836819int,
    );
    lemma_square(
        417565016340793323451181812165302951732930774618410737123336549486393719677503257016200416291554int,
        1067993516717146951041484916571792702745057740581727230159139685185762082554198619328292418486241int,
        94604741598693848998262184580880510767146989nat,
        215523336189563170092273297076297682640069468127964426171771326770786786131779210381262777262975int,
        611931525849868201272726412451900694055587009145199135905070923922042227826473322007393526833060int,
        43493062191108426819482150689564118301017223658788982072852563363357559555322692431977930995965int,
    );
    lemma_square(
        417565016340793323451181812165302951732930774618410737123336549486393719677503257016200416291554int,
        1067993516717146951041484916571792702745057740581727230159139685185762082554198619328292418486241int,
        189209483197387697996524369161761021534293978nat,
        611931525849868201272726412451900694055587009145199135905070923922042227826473322007393526833060int,
        835753562624896133159219567674255754294550094908732734751382074349167812957201110468229169963301int,
        350620286048161406175799801001364045424434569027844795734857260929032049617002385290062471620939int,
    );
    lemma_square(
        417565016340793323451181812165302951732930774618410737123336549486393719677503257016200416291554int,
        1067993516717146951041484916571792702745057740581727230159139685185762082554198619328292418486241int,
        378418966394775395993048738323522043068587956nat,
        835753562624896133159219567674255754294550094908732734751382074349167812957201110468229169963301int,
        993876927193563118457969153842737768002070581713534852878714651735522463593793249752076805102164int,
        654015222477419198106614440974641628533338085530859023096308219284618753401418139363544444430757int,
    );
    lemma_square_times(
        417565016340793323451181812165302951732930774618410737123336549486393719677503257016200416291554int,
        1067993516717146951041484916571792702745057740581727230159139685185762082554198619328292418486241int,
        756837932789550791986097476647044086137175912nat,
        993876927193563118457969153842737768002070581713534852878714651735522463593793249752076805102164int,
        119807251896612682247441741111509956896197415062886789598226204157356938469868844681391977175947int,
        386207503367526022921790821404673052917772931415321049066242369696850533905636382413613981376772749671409591181856277776799309570382132270264595851412234502440250510812520036922510487693000757int,
    );
    lemma_square_times(
        417565016340793323451181812165302951732930774618410737123336549486393719677503257016200416291554int,
        1067993516717146951041484916571792702745057740581727230159139685185762082554198619328292418486241int,
        1513675865579101583972194953294088172274351825nat,
        119807251896612682247441741111509956896197415062886789598226204157356938469868844681391977175947int,
        123866608204983437646435217313656721662283052529221524978136151942112935859654156529149435327250int,
        5612052214933191281976236089648558832185942029152427972588343784803942332304956158129462522042973073529751996423799409945481523922201882478548410929575004918109232161127667604060858991272896int,
    );
    lemma_square_times(
        417565016340793323451181812165302951732930774618410737123336549486393719677503257016200416291554int,
        1067993516717146951041484916571792702745057740581727230159139685185762082554198619328292418486241int,
        3027351731158203167944389906588176344548703651nat,
        123866608204983437646435217313656721662283052529221524978136151942112935859654156529149435327250int,
        986542550068466450330566447879999195101826434450421433421772946525031359930571838208049991070744int,
        5998794452953346443025799129699183937697608869924653957867697444038691054432453428003638297400905105376893176420232095632178953203177433467159146242146186723781378210204505867253148451858416int,
    );
    lemma_square(
        417565016340793323451181812165302951732930774618410737123336549486393719677503257016200416291554int,
        1067993516717146951041484916571792702745057740581727230159139685185762082554198619328292418486241int,
        6054703462316406335888779813176352689097407303nat,
        986542550068466450330566447879999195101826434450421433421772946525031359930571838208049991070744int,
        140242327687799208769663497029915327523077581137605560988767730495798912953634480190396491016763int,
        911303475031635046377352104640761799138217203537003748788758320689407463492219793663304597286053int,
    );
    lemma_square_times(
        417565016340793323451181812165302951732930774618410737123336549486393719677503257016200416291554int,
        1067993516717146951041484916571792702745057740581727230159139685185762082554198619328292418486241int,
        12109406924632812671777559626352705378194814606nat,
        140242327687799208769663497029915327523077581137605560988767730495798912953634480190396491016763int,
        314534675495347968440050383716636273364173246482560186257965706485460021153456318816603693879008int,
        7689776417603163050158831432751004990114926649833304222560338750920005221583775809495924450728900132997592477971286380339649891958983814791707170041142301684458715057677135688475140208874098int,
    );
}

proof fn lemma_order_12()
    ensures
        powers_to(
            417565016340793323451181812165302951732930774618410737123336549486393719677503257016200416291554int,
            1067993516717146951041484916571792702745057740581727230159139685185762082554198619328292418486241int,
            198400523053184002814403536918162724916343842520561nat,
            1int,
        ),
{
    lemma_order_11();
    lemma_square_times(
        417565016340793323451181812165302951732930774618410737123336549486393719677503257016200416291554int,
        1067993516717146951041484916571792702745057740581727230159139685185762082554198619328292418486241int,
        24218813849265625343555119252705410756389629213nat,
        314534675495347968440050383716636273364173246482560186257965706485460021153456318816603693879008int,
        975617617261537758200210159613872689332010432250141629155416333132284806537539534139997122329876int,
        38680542040919035692854980064752596581967452999521555646479602648007857469414949326457148130067844852868065347691271075884529052207791635492776663079409236830718732394869680370399896720054380int,
    );
    lemma_square_times(
        417565016340793323451181812165302951732930774618410737123336549486393719677503257016200416291554int,
        1067993516717146951041484916571792702745057740581727230159139685185762082554198619328292418486241int,
        48437627698531250687110238505410821512779258427nat,
        975617617261537758200210159613872689332010432250141629155416333132284806537539534139997122329876int,
        301892478821275208393724515445973058072555121622646980764002393962411132626671689389225341764857int,
        372147201901576926218680762416133611399064459755029114933206622479342470281519444574018421470599570900946092338177424538117814716563428313069331668172614298824343859675450563207397245671599367int,
    );
    lemma_square_times(
        417565016340793323451181812165302951732930774618410737123336549486393719677503257016200416291554int,
        1067993516717146951041484916571792702745057740581727230159139685185762082554198619328292418486241int,
        96875255397062501374220477010821643025558516855nat,
        301892478821275208393724515445973058072555121622646980764002393962411132626671689389225341764857int,
        912416542847394187707969969748984992800423464637237618069226283653746986782759813976075432551650int,
        35633630863913127990468950018520062891534926670931582900385866743538565721805803917176384543554041269285005935917792420234754096562656206780991681312792379014836029923164319021811752515522656int,
    );
    lemma_square(
        417565016340793323451181812165302951732930774618410737123336549486393719677503257016200416291554int,
        1067993516717146951041484916571792702745057740581727230159139685185762082554198619328292418486241int,
        193750510794125002748440954021643286051117033711nat,
        912416542847394187707969969748984992800423464637237618069226283653746986782759813976075432551650int,
        900896721048722122131892268872816463361268344064637612361766901006093297839772650046082659007699int,
        779502810298496840221500579538146590539162752450483181492939921454717138015064109077381967230161int,
    );
    lemma_square_times(
        417565016340793323451181812165302951732930774618410737123336549486393719677503257016200416291554int,
        1067993516717146951041484916571792702745057740581727230159139685185762082554198619328292418486241int,
        387501021588250005496881908043286572102234067422nat,
        900896721048722122131892268872816463361268344064637612361766901006093297839772650046082659007699int,
        176108229920886047164854015865815682456976540903486948844645904174604779595162293350239195609863int,
        317325886823982732163429107298215089620322838543128351421380258292419523817185815150207850992562975916763304103884125511496481300392451775912695932443694252042522406463690072601454368919459851int,
    );
    lemma_square_times(
        417565016340793323451181812165302951732930774618410737123336549486393719677503257016200416291554int,
        1067993516717146951041484916571792702745057740581727230159139685185762082554198619328292418486241int,
        775002043176500010993763816086573144204468134845nat,
        176108229920886047164854015865815682456976540903486948844645904174604779595162293350239195609863int,
        956712965269584688948932791782724886062448735627115487610952012236383406583727439448384353327706int,
        12125922658514344371785844965485961105732585046489970864399288729012306120146845472152072900661393036849327892009614371303730562316995150099190363646411875879357842317671584282430572482284520int,
    );
    lemma_square_times(
        417565016340793323451181812165302951732930774618410737123336549486393719677503257016200416291554int,
        1067993516717146951041484916571792702745057740581727230159139685185762082554198619328292418486241int,
        1550004086353000021987527632173146288408936269691nat,
        956712965269584688948932791782724886062448735627115487610952012236383406583727439448384353327706int,
        1029449346794778101417993347886814661556918403027206281501166817299036257237408329939047848038411int,
        357864656792472386156555336460695484886737993351650081350634612058790733790773033733466177203802467037291281555548593277812172083199347238806322771945859560212712317335148374952625384188306013int,
    );
    lemma_square_times(
        417565016340793323451181812165302951732930774618410737123336549486393719677503257016200416291554int,
        1067993516717146951041484916571792702745057740581727230159139685185762082554198619328292418486241int,
        3100008172706000043975055264346292576817872539383nat,
        1029449346794778101417993347886814661556918403027206281501166817299036257237408329939047848038411int,
        882512056022423631112125421714399174980704656675784265171818892883226149959539459838321420466811int,
        414348198264037524578902594469200746240611180712571189994626162937424558889434094974859516453274904674623814334777466615160103226806570498103811094947848684561522614883437565716045303006523703int,
    );
    lemma_square_times(
        417565016340793323451181812165302951732930774618410737123336549486393719677503257016200416291554int,
        1067993516717146951041484916571792702745057740581727230159139685185762082554198619328292418486241int,
        6200016345412000087950110528692585153635745078767nat,
        882512056022423631112125421714399174980704656675784265171818892883226149959539459838321420466811int,
        209923378524702326704910258637840037443569015081502952567327759882693532065135236558362121417492int,
        304506651766579300242634786105018702093644742897472893490084258627027122366702705472530747224662099787935591318703606637069691404873981662714488138666438389553315926311866508655166314219152062int,
    );
    lemma_square(
        417565016340793323451181812165302951732930774618410737123336549486393719677503257016200416291554int,
        1067993516717146951041484916571792702745057740581727230159139685185762082554198619328292418486241int,
        12400032690824000175900221057385170307271490157535nat,
        209923378524702326704910258637840037443569015081502952567327759882693532065135236558362121417492int,
        45298497611736950477734264849541448051471353425743685805382062145988608534157829214477790001050int,
        41262258769775481425480877346727166061212397967543189499716223288836775363201926054462231632054int,
    );
    lemma_square(
        417565016340793323451181812165302951732930774618410737123336549486393719677503257016200416291554int,
        1067993516717146951041484916571792702745057740581727230159139685185762082554198619328292418486241int,
        24800065381648000351800442114770340614542980315070nat,
        45298497611736950477734264849541448051471353425743685805382062145988608534157829214477790001050int,
        324953405823029776037839782025852869575990383734997857909343211255673499421731674495989665877990int,
        1921316799925844981609497415856420165408468446111926009573298024915112926626066745766133418110int,
    );
    lemma_square(
        417565016340793323451181812165302951732930774618410737123336549486393719677503257016200416291554int,
        1067993516717146951041484916571792702745057740581727230159139685185762082554198619328292418486241int,
        49600130763296000703600884229540681229085960630140nat,
        324953405823029776037839782025852869575990383734997857909343211255673499421731674495989665877990int,
        154033691158046847160472447640139420497272089293618385390767668843760971918894408208048210516090int,
        98872057089418591256942357831830283928483970809050446008035864031659239199066829582532712437610int,
    );
    lemma_square_times(
        417565016340793323451181812165302951732930774618410737123336549486393719677503257016200416291554int,
        1067993516717146951041484916571792702745057740581727230159139685185762082554198619328292418486241int,
        99200261526592001407201768459081362458171921260280nat,
        154033691158046847160472447640139420497272089293618385390767668843760971918894408208048210516090int,
        1int,
        9276559517558898571508041826206237832601348815852159113538092240840738182670969567877754807799014354586919871262806874153065672775160118004159428738338216801035378539045861797194418779984039int,
    );
}

/// The order of the group is a prime.
pub proof fn lemma_order_prime()
    ensures
        prime(group_order() as int),
{
    lemma_factor_1_prime();
    lemma_order_12();
    lemma_prime_by_order(
        1067993516717146951041484916571792702745057740581727230159139685185762082554198619328292418486241int,
        417565016340793323451181812165302951732930774618410737123336549486393719677503257016200416291554int,
        198400523053184002814403536918162724916343842520561int,
        369408561163069379824554897178806257256332854141897099653688656234370020592662382103130938452952int,
        144431674410003890443732970964172155415510279408882729517533201570217450711313596645026040803255int,
    );
    assert(group_order() as int == 1067993516717146951041484916571792702745057740581727230159139685185762082554198619328292418486241int);
}

} // verus!
