//! The quintic extension is a field, and conjugation is the power `p` in it.
use vstd::arithmetic::div_mod::{
    lemma_mod_twice, lemma_mul_mod_noop, lemma_mul_mod_noop_left, lemma_small_mod,
};
use vstd::arithmetic::mul::lemma_mul_is_commutative;
use vstd::arithmetic::power::{
    lemma_pow1, lemma_pow_adds, lemma_pow_distributes, lemma_pow_multiplies, pow,
};
use vstd::prelude::*;

use crate::arith::{lemma_cong_add, lemma_cong_mul};
use crate::conjugate::{
    cofactor, conjugate, conjugate2, konst, lemma_conjugate_mul, lemma_conjugate_twice,
    lemma_norm_is_base, norm,
};
use crate::primes::{
    goldilocks, lemma_fermat, lemma_pow_cong, lemma_prime_divides_product,
};
use crate::quintic::{
    lemma_mul_assoc, lemma_mul_comm, lemma_of_equal, lemma_of_view, lemma_zero_one,
    QuinticExtension,
};
use crate::quintic_ring::{
    lemma_reduce_mul, lemma_reduce_twice, lemma_z5_expand, lemma_z5_mul_comm, Z5,
};

verus! {

pub(crate) proof fn lemma_power_double(b: int, e: nat, x: int, y: int)
    requires
        pow(b, e) % goldilocks() == x,
        (x * x) % goldilocks() == y,
    ensures
        pow(b, 2 * e) % goldilocks() == y,
{
    lemma_pow_adds(b, e, e);
    lemma_mul_mod_noop(pow(b, e), pow(b, e), goldilocks());
}

pub(crate) proof fn lemma_power_next(b: int, e: nat, x: int, y: int)
    requires
        pow(b, e) % goldilocks() == x,
        (x * b) % goldilocks() == y,
    ensures
        pow(b, e + 1) % goldilocks() == y,
{
    lemma_pow_adds(b, e, 1);
    lemma_pow1(b);
    lemma_mul_mod_noop_left(pow(b, e), b, goldilocks());
}

/// `3^((p-1)/5)` is the fifth root of unity that conjugation is made with.
pub proof fn lemma_root_is_power()
    ensures
        pow(3, 3689348813882916864) % goldilocks() == crate::conjugate::ROOT1,
{
    lemma_pow1(3);
    lemma_power_double(3, 1, 3, 9);
    lemma_power_next(3, 2, 9, 27);
    lemma_power_double(3, 3, 27, 729);
    lemma_power_double(3, 6, 729, 531441);
    lemma_power_double(3, 12, 531441, 282429536481);
    lemma_power_next(3, 24, 282429536481, 847288609443);
    lemma_power_double(3, 25, 847288609443, 6048742445210749892);
    lemma_power_next(3, 50, 6048742445210749892, 18146227335632249676);
    lemma_power_double(3, 51, 18146227335632249676, 10669354104183346223);
    lemma_power_double(3, 102, 10669354104183346223, 15611696015981275084);
    lemma_power_double(3, 204, 15611696015981275084, 688850029147429873);
    lemma_power_next(3, 408, 688850029147429873, 2066550087442289619);
    lemma_power_double(3, 409, 2066550087442289619, 6641018835053636522);
    lemma_power_next(3, 818, 6641018835053636522, 1476312435746325245);
    lemma_power_double(3, 819, 1476312435746325245, 13535948909986390881);
    lemma_power_double(3, 1638, 13535948909986390881, 7935231631159923523);
    lemma_power_double(3, 3276, 7935231631159923523, 16483618680673602688);
    lemma_power_next(3, 6552, 16483618680673602688, 12557367903191639422);
    lemma_power_double(3, 6553, 12557367903191639422, 2572709165936704143);
    lemma_power_next(3, 13106, 2572709165936704143, 7718127497810112429);
    lemma_power_double(3, 13107, 7718127497810112429, 6068713978674856348);
    lemma_power_double(3, 26214, 6068713978674856348, 8169699920958457831);
    lemma_power_double(3, 52428, 8169699920958457831, 1003642479704298780);
    lemma_power_next(3, 104856, 1003642479704298780, 3010927439112896340);
    lemma_power_double(3, 104857, 3010927439112896340, 6011653509259642276);
    lemma_power_next(3, 209714, 6011653509259642276, 18034960527778926828);
    lemma_power_double(3, 209715, 18034960527778926828, 11325333874358273911);
    lemma_power_double(3, 419430, 11325333874358273911, 2997605542811592760);
    lemma_power_double(3, 838860, 2997605542811592760, 10622174223691846024);
    lemma_power_next(3, 1677720, 10622174223691846024, 13419778601660953751);
    lemma_power_double(3, 1677721, 13419778601660953751, 7341259069638661229);
    lemma_power_next(3, 3355442, 7341259069638661229, 3577033139501399366);
    lemma_power_double(3, 3355443, 3577033139501399366, 14981225196852373245);
    lemma_power_double(3, 6710886, 14981225196852373245, 12702452853804122181);
    lemma_power_double(3, 13421772, 12702452853804122181, 16060613978868564369);
    lemma_power_next(3, 26843544, 16060613978868564369, 11288353797776524465);
    lemma_power_double(3, 26843545, 11288353797776524465, 3156524970406270080);
    lemma_power_next(3, 53687090, 3156524970406270080, 9469574911218810240);
    lemma_power_double(3, 53687091, 9469574911218810240, 694256215993555443);
    lemma_power_double(3, 107374182, 694256215993555443, 9200844907964049424);
    lemma_power_double(3, 214748364, 9200844907964049424, 2018761291967249205);
    lemma_power_next(3, 429496728, 2018761291967249205, 6056283875901747615);
    lemma_power_double(3, 429496729, 6056283875901747615, 4687964269529880092);
    lemma_power_next(3, 858993458, 4687964269529880092, 14063892808589640276);
    lemma_power_double(3, 858993459, 14063892808589640276, 12205548321395415902);
    lemma_power_double(3, 1717986918, 12205548321395415902, 7216866819936995065);
    lemma_power_double(3, 3435973836, 7216866819936995065, 17549074363733854841);
    lemma_power_double(3, 6871947672, 17549074363733854841, 15423748610660725286);
    lemma_power_double(3, 13743895344, 15423748610660725286, 13595635941797573383);
    lemma_power_double(3, 27487790688, 13595635941797573383, 9842549597680612604);
    lemma_power_double(3, 54975581376, 9842549597680612604, 1337294358501982630);
    lemma_power_double(3, 109951162752, 1337294358501982630, 5325329911042243272);
    lemma_power_double(3, 219902325504, 5325329911042243272, 5221367999496604473);
    lemma_power_double(3, 439804651008, 5221367999496604473, 15412305368138815102);
    lemma_power_double(3, 879609302016, 15412305368138815102, 16191345338952709240);
    lemma_power_double(3, 1759218604032, 16191345338952709240, 2298967105118016451);
    lemma_power_double(3, 3518437208064, 2298967105118016451, 6447197367109474360);
    lemma_power_double(3, 7036874416128, 6447197367109474360, 8164661628442494246);
    lemma_power_double(3, 14073748832256, 8164661628442494246, 5380222146680643061);
    lemma_power_double(3, 28147497664512, 5380222146680643061, 1609244475207906152);
    lemma_power_double(3, 56294995329024, 1609244475207906152, 18332326853853973321);
    lemma_power_double(3, 112589990658048, 18332326853853973321, 2510387608370256761);
    lemma_power_double(3, 225179981316096, 2510387608370256761, 14373156502773339601);
    lemma_power_double(3, 450359962632192, 14373156502773339601, 6996469297471152138);
    lemma_power_double(3, 900719925264384, 6996469297471152138, 1900197295013585010);
    lemma_power_double(3, 1801439850528768, 1900197295013585010, 362112569578151335);
    lemma_power_double(3, 3602879701057536, 362112569578151335, 3118209301712560507);
    lemma_power_double(3, 7205759402115072, 3118209301712560507, 2921070153775533243);
    lemma_power_double(3, 14411518804230144, 2921070153775533243, 6356985805439647877);
    lemma_power_double(3, 28823037608460288, 6356985805439647877, 5797675593703447897);
    lemma_power_double(3, 57646075216920576, 5797675593703447897, 14236101464779796609);
    lemma_power_double(3, 115292150433841152, 14236101464779796609, 15587202262274831207);
    lemma_power_double(3, 230584300867682304, 15587202262274831207, 10296967901281711793);
    lemma_power_double(3, 461168601735364608, 10296967901281711793, 17073700798457888299);
    lemma_power_double(3, 922337203470729216, 17073700798457888299, 211587555138949697);
    lemma_power_double(3, 1844674406941458432, 211587555138949697, 1041288259238279555);
}

/// Three is no fifth power in the base field.
proof fn lemma_no_fifth_root(s: int)
    ensures
        pow(s, 5) % goldilocks() != 3,
{
    let p = goldilocks();
    if pow(s, 5) % p == 3 {
        let r = s % p;
        lemma_mod_twice(s, p);
        lemma_pow_cong(s, r, 5, p);
        if r == 0 {
            vstd::arithmetic::power::lemma0_pow(5);
        }
        lemma_fermat(r);
        lemma_pow_multiplies(r, 5, 3689348813882916864);
        lemma_pow_cong(pow(r, 5), 3, 3689348813882916864, p);
        lemma_root_is_power();
    }
}

proof fn lemma_pow5(x: int)
    ensures
        pow(x, 5) == (((x * x) * x) * x) * x,
{
    lemma_pow1(x);
    lemma_pow_adds(x, 1, 1);
    lemma_pow_adds(x, 2, 1);
    lemma_pow_adds(x, 3, 1);
    lemma_pow_adds(x, 4, 1);
}

// Elements of the base field within the extension.

pub(crate) proof fn lemma_konst_view(k: int)
    ensures
        konst(k)@ == (Z5 { c0: k % goldilocks(), c1: 0, c2: 0, c3: 0, c4: 0 }),
        konst(k).canonical(),
        konst(k % goldilocks()) == konst(k),
{
    lemma_small_mod(0, goldilocks() as nat);
    lemma_mod_twice(k, goldilocks());
}

/// Multiplying by an element of the base field scales the coefficients.
pub(crate) proof fn lemma_konst_scale(k: int, x: QuinticExtension)
    ensures
        konst(k) * x == QuinticExtension::of(x@.scale(k)),
{
    reveal(QuinticExtension::spec_mul);
    let z = Z5 { c0: k, c1: 0, c2: 0, c3: 0, c4: 0 };
    lemma_of_view(z);
    lemma_reduce_twice(z);
    lemma_reduce_mul(z.reduce(), z, x@);
    lemma_z5_expand(z, x@);
    assert(z * x@ == x@.scale(k));
    lemma_of_equal(konst(k)@ * x@, x@.scale(k));
}

pub(crate) proof fn lemma_konst_mul(j: int, k: int)
    ensures
        konst(j) * konst(k) == konst(j * k),
{
    let p = goldilocks();
    lemma_konst_scale(j, konst(k));
    lemma_konst_view(k);
    lemma_mod_twice(k, p);
    lemma_cong_mul(k % p, k, j, p);
    assert(j * 0 == 0);
    lemma_of_equal(konst(k)@.scale(j), Z5 { c0: j * k, c1: 0, c2: 0, c3: 0, c4: 0 });
}

pub(crate) proof fn lemma_konst_add(j: int, k: int)
    ensures
        konst(j) + konst(k) == konst(j + k),
{
    reveal(QuinticExtension::spec_add);
    let p = goldilocks();
    lemma_konst_view(j);
    lemma_konst_view(k);
    lemma_mod_twice(j, p);
    lemma_mod_twice(k, p);
    lemma_cong_add(j % p, j, k % p, k, p);
    lemma_of_equal(konst(j)@ + konst(k)@, Z5 { c0: j + k, c1: 0, c2: 0, c3: 0, c4: 0 });
}

pub(crate) proof fn lemma_mul_swap_inner(
    a: QuinticExtension,
    b: QuinticExtension,
    c: QuinticExtension,
    d: QuinticExtension,
)
    ensures
        (a * b) * (c * d) == (a * c) * (b * d),
{
    lemma_mul_assoc(a, b, c * d);
    lemma_mul_assoc(b, c, d);
    lemma_mul_comm(b, c);
    lemma_mul_assoc(c, b, d);
    lemma_mul_assoc(a, c, b * d);
}

pub proof fn lemma_cofactor_mul(x: QuinticExtension, y: QuinticExtension)
    ensures
        cofactor(x * y) == cofactor(x) * cofactor(y),
{
    let (x1, y1) = (conjugate(x), conjugate(y));
    let (x2, y2) = (conjugate(x1), conjugate(y1));
    let (ex, ey) = (x1 * x2, y1 * y2);
    lemma_conjugate_mul(x, y);
    lemma_conjugate_mul(x1, y1);
    lemma_mul_swap_inner(x1, y1, x2, y2);
    assert(conjugate(x * y) * conjugate(conjugate(x * y)) == ex * ey);
    lemma_conjugate_twice(ex);
    lemma_conjugate_twice(ey);
    lemma_conjugate_twice(ex * ey);
    lemma_conjugate_mul(ex, ey);
    lemma_conjugate_mul(conjugate(ex), conjugate(ey));
    lemma_mul_swap_inner(ex, ey, conjugate2(ex), conjugate2(ey));
}

/// The norm of a product is the product of the norms.
pub proof fn lemma_norm_mul(x: QuinticExtension, y: QuinticExtension)
    requires
        x.canonical(),
        y.canonical(),
    ensures
        norm(x * y) == (norm(x) * norm(y)) % goldilocks(),
{
    reveal(QuinticExtension::spec_mul);
    lemma_of_view(x@ * y@);
    lemma_cofactor_mul(x, y);
    lemma_mul_swap_inner(x, y, cofactor(x), cofactor(y));
    lemma_norm_is_base(x);
    lemma_norm_is_base(y);
    lemma_norm_is_base(x * y);
    lemma_konst_mul(norm(x), norm(y));
    lemma_konst_view(norm(x) * norm(y));
    lemma_konst_view(norm(x * y));
    lemma_small_mod(norm(x * y) as nat, goldilocks() as nat);
}

proof fn lemma_product_zero(a: int, b: int)
    requires
        0 <= a < goldilocks(),
        0 <= b < goldilocks(),
        (a * b) % goldilocks() == 0,
    ensures
        a == 0 || b == 0,
{
    if a != 0 {
        lemma_prime_divides_product(a, b);
        lemma_small_mod(b as nat, goldilocks() as nat);
    }
}

// The norm of a non-zero element is not zero. The proof goes by the degree: from
// an element of norm zero one of smaller degree and norm zero is made.

/// Whether the coefficients above `z^d` vanish.
pub open spec fn degree_at_most(x: QuinticExtension, d: nat) -> bool {
    &&& d < 1 ==> x.c1@ == 0
    &&& d < 2 ==> x.c2@ == 0
    &&& d < 3 ==> x.c3@ == 0
    &&& d < 4 ==> x.c4@ == 0
}

proof fn lemma_norm_konst(k: int)
    requires
        0 < k < goldilocks(),
    ensures
        norm(konst(k)) != 0,
{
    let x = konst(k);
    let p = goldilocks();
    lemma_small_mod(k as nat, p as nat);
    lemma_konst_view(k);
    // conjugation fixes x
    assert(x.c1@ == 0 && x.c2@ == 0 && x.c3@ == 0 && x.c4@ == 0 && x.c0@ == k);
    assert(conjugate(x) == x);
    lemma_conjugate_twice(x);
    lemma_conjugate_mul(x, x);
    let e = x * x;
    lemma_conjugate_twice(e);
    assert(cofactor(x) == e * e);
    lemma_konst_mul(k, k);
    lemma_konst_mul(k * k, k * k);
    lemma_konst_mul(k, (k * k) * (k * k));
    let n = k * ((k * k) * (k * k));
    lemma_konst_view(n);
    assert(norm(x) == n % p);
    if n % p == 0 {
        lemma_prime_divides_product(k, (k * k) * (k * k));
        assert((k * k) * (k * k) == k * (k * (k * k))) by (nonlinear_arith);
        lemma_prime_divides_product(k, k * (k * k));
        lemma_prime_divides_product(k, k * k);
        lemma_prime_divides_product(k, k);
    }
}

/// An element whose product with `q` is known, as a polynomial with integer
/// coefficients.
pub(crate) proof fn lemma_product_is(x: Z5, q: Z5, r: Z5)
    requires
        (x * q).reduce() == r.reduce(),
    ensures
        QuinticExtension::of(x) * QuinticExtension::of(q) == QuinticExtension::of(r),
{
    reveal(QuinticExtension::spec_mul);
    lemma_of_view(x);
    lemma_of_view(q);
    lemma_reduce_twice(x);
    lemma_reduce_twice(q);
    lemma_reduce_mul(x.reduce(), x, q.reduce());
    lemma_reduce_mul(q.reduce(), q, x);
    lemma_of_equal(QuinticExtension::of(x)@ * QuinticExtension::of(q)@, r);
}

/// A factor of norm zero makes a product of norm zero.
proof fn lemma_norm_zero_product(x: QuinticExtension, q: QuinticExtension)
    requires
        x.canonical(),
        q.canonical(),
        norm(x) == 0,
    ensures
        norm(x * q) == 0,
        (x * q).canonical(),
{
    reveal(QuinticExtension::spec_mul);
    lemma_norm_mul(x, q);
    assert(0 * norm(q) == 0);
    lemma_of_view(x@ * q@);
}

/// An element that a non-zero element annihilates has norm zero.
proof fn lemma_annihilated(x: QuinticExtension, q: QuinticExtension)
    requires
        x.canonical(),
        q.canonical(),
        x != QuinticExtension::nought(),
        x * q == QuinticExtension::nought(),
    ensures
        norm(q) == 0,
{
    let n = norm(q);
    lemma_norm_is_base(q);
    if n != 0 {
        // x * n == (x * q) * cofactor == 0
        lemma_mul_assoc(x, q, cofactor(q));
        lemma_of_view(QuinticExtension::nought()@);
        lemma_mul_comm(QuinticExtension::nought(), cofactor(q));
        lemma_cofactor_canonical(q);
        lemma_zero_one(cofactor(q));
        assert(x * konst(n) == QuinticExtension::nought());
        lemma_mul_comm(x, konst(n));
        lemma_konst_scale(n, x);
        let p = goldilocks();
        lemma_small_mod(0, p as nat);
        assert(QuinticExtension::of(x@.scale(n)).c0@ == 0);
        assert((n * x.c0@) % p == 0);
        assert(QuinticExtension::of(x@.scale(n)).c1@ == 0);
        assert(QuinticExtension::of(x@.scale(n)).c2@ == 0);
        assert(QuinticExtension::of(x@.scale(n)).c3@ == 0);
        assert(QuinticExtension::of(x@.scale(n)).c4@ == 0);
        lemma_product_zero(n, x.c0@);
        lemma_product_zero(n, x.c1@);
        lemma_product_zero(n, x.c2@);
        lemma_product_zero(n, x.c3@);
        lemma_product_zero(n, x.c4@);
        assert(x == QuinticExtension::nought());
    }
}

pub(crate) proof fn lemma_cofactor_canonical(x: QuinticExtension)
    ensures
        cofactor(x).canonical(),
{
    reveal(QuinticExtension::spec_mul);
    let e = conjugate(x) * conjugate(conjugate(x));
    lemma_of_view(e@ * conjugate2(e)@);
}

pub(crate) proof fn lemma_shape(x: QuinticExtension)
    requires
        x.canonical(),
    ensures
        QuinticExtension::of(x@) == x,
        x == QuinticExtension::nought() <==> x.c0@ == 0 && x.c1@ == 0 && x.c2@ == 0 && x.c3@ == 0
            && x.c4@ == 0,
{
    let p = goldilocks();
    lemma_small_mod(x.c0@ as nat, p as nat);
    lemma_small_mod(x.c1@ as nat, p as nat);
    lemma_small_mod(x.c2@ as nat, p as nat);
    lemma_small_mod(x.c3@ as nat, p as nat);
    lemma_small_mod(x.c4@ as nat, p as nat);
    lemma_small_mod(0, p as nat);
}

/// An inverse in the base field.
pub(crate) proof fn lemma_base_inverse(k: int) -> (i: int)
    requires
        0 < k < goldilocks(),
    ensures
        0 < i < goldilocks(),
        (k * i) % goldilocks() == 1,
{
    let p = goldilocks();
    lemma_fermat(k);
    lemma_pow_adds(k, 1, (p - 2) as nat);
    lemma_pow1(k);
    let i = pow(k, (p - 2) as nat) % p;
    vstd::arithmetic::div_mod::lemma_mul_mod_noop_right(k, pow(k, (p - 2) as nat), p);
    if i == 0 {
        assert(k * 0 == 0);
    }
    i
}

/// The monic multiple of an element of degree `d`.
proof fn lemma_monic(x: QuinticExtension, lead: int) -> (y: QuinticExtension)
    requires
        x.canonical(),
        norm(x) == 0,
        0 < lead < goldilocks(),
    ensures
        y.canonical(),
        norm(y) == 0,
        exists|i: int|
            0 < i < goldilocks() && #[trigger] (lead * i) % goldilocks() == 1 && y@ == x@.scale(
                i,
            ).reduce(),
{
    let i = lemma_base_inverse(lead);
    let y = konst(i) * x;
    lemma_konst_scale(i, x);
    lemma_konst_view(i);
    lemma_mul_comm(konst(i), x);
    lemma_norm_zero_product(x, konst(i));
    lemma_of_view(x@.scale(i));
    assert(y@ == x@.scale(i).reduce());
    assert((lead * i) % goldilocks() == 1);
    y
}

/// `z + a` has a norm that is not zero: otherwise `-a` would be a fifth root of
/// three.
proof fn lemma_norm_linear(a: int)
    ensures
        norm(QuinticExtension::of_ints(a, 1, 0, 0, 0)) != 0,
{
    let p = goldilocks();
    let x = Z5 { c0: a, c1: 1, c2: 0, c3: 0, c4: 0 };
    let y = QuinticExtension::of(x);
    if norm(y) == 0 {
        let a2 = a * a;
        let a3 = a2 * a;
        let a4 = a3 * a;
        let a5 = a4 * a;
        let q = Z5 { c0: a4, c1: -a3, c2: a2, c3: -a, c4: 1 };
        let r = Z5 { c0: 3 + a5, c1: 0, c2: 0, c3: 0, c4: 0 };
        assert(x * q == r) by {
            lemma_z5_expand(x, q);
            assert(a * a4 == a5 && a * (-a3) == -a4 && a * a2 == a3 && a * (-a) == -a2)
                by (nonlinear_arith)
                requires
                    a2 == a * a,
                    a3 == a2 * a,
                    a4 == a3 * a,
                    a5 == a4 * a,
            ;
        }
        lemma_product_is(x, q, r);
        lemma_of_view(x);
        lemma_of_view(q);
        lemma_norm_zero_product(y, QuinticExtension::of(q));
        lemma_konst_view(3 + a5);
        if (3 + a5) % p != 0 {
            lemma_norm_konst((3 + a5) % p);
        }
        lemma_pow5(-a);
        assert(((((-a) * (-a)) * (-a)) * (-a)) * (-a) == -a5) by (nonlinear_arith)
            requires
                a2 == a * a,
                a3 == a2 * a,
                a4 == a3 * a,
                a5 == a4 * a,
        ;
        lemma_small_mod(3, p as nat);
        lemma_small_mod(0, p as nat);
        lemma_cong_add(3, 3, 3 + a5, 0, p);
        lemma_no_fifth_root(-a);
    }
}

proof fn lemma_quadratic_product(a: int, b: int)
    ensures
        ({
            let f = a * a - b;
            let g = 2 * (a * b) - (a * a) * a;
            (Z5 { c0: b, c1: a, c2: 1, c3: 0, c4: 0 }) * (Z5 { c0: g, c1: f, c2: -a, c3: 1, c4: 0 })
                == (Z5 { c0: 3 + b * g, c1: a * g + b * f, c2: 0, c3: 0, c4: 0 })
        }),
{
    let f = a * a - b;
    let g = 2 * (a * b) - (a * a) * a;
    let x = Z5 { c0: b, c1: a, c2: 1, c3: 0, c4: 0 };
    let q = Z5 { c0: g, c1: f, c2: -a, c3: 1, c4: 0 };
    lemma_z5_expand(x, q);
    assert(a * (-a) == -(a * a)) by (nonlinear_arith);
    assert(b * (-a) == -(a * b)) by (nonlinear_arith);
    assert(a * f == (a * a) * a - a * b) by (nonlinear_arith)
        requires
            f == a * a - b,
    ;
    let s = q.shift();
    assert(b * q.c3 == b && b * q.c4 == 0 && a * s.c0 == 0 && a * s.c4 == a) by (nonlinear_arith)
        requires
            q.c3 == 1,
            q.c4 == 0,
            s.c0 == 0,
            s.c4 == 1,
    ;
}

/// `z^2 + a z + b` has a norm that is not zero: otherwise three would be the
/// fifth power of `b^3 / 3`.
proof fn lemma_norm_quadratic(a: int, b: int)
    requires
        0 <= a < goldilocks(),
        0 <= b < goldilocks(),
    ensures
        norm(QuinticExtension::of_ints(b, a, 1, 0, 0)) != 0,
{
    let p = goldilocks();
    let x = Z5 { c0: b, c1: a, c2: 1, c3: 0, c4: 0 };
    let y = QuinticExtension::of(x);
    if norm(y) == 0 {
        let f = a * a - b;
        let g = 2 * (a * b) - (a * a) * a;
        let q = Z5 { c0: g, c1: f, c2: -a, c3: 1, c4: 0 };
        let u = 3 + b * g;
        let v = a * g + b * f;
        let r = Z5 { c0: u, c1: v, c2: 0, c3: 0, c4: 0 };
        lemma_quadratic_product(a, b);
        lemma_product_is(x, q, r);
        lemma_of_view(x);
        lemma_of_view(q);
        lemma_norm_zero_product(y, QuinticExtension::of(q));
        let t = QuinticExtension::of(r);
        lemma_of_view(r);
        lemma_small_mod(0, p as nat);
        assert(t.canonical() && norm(t) == 0 && degree_at_most(t, 1));
        lemma_norm_degree_one(t);
        assert(u % p == 0 && v % p == 0) by {
            lemma_shape(t);
            assert(t.c0@ == u % p && t.c1@ == v % p);
        }
        lemma_fifth_power_of_quadratic(a, b, f, g, u, v);
    }
}

/// The two equations that a monic quadratic factor of `z^5 - 3` meets make the
/// fifth power of its constant coefficient nine.
proof fn lemma_fifth_power_of_quadratic(a: int, b: int, f: int, g: int, u: int, v: int)
    requires
        f == a * a - b,
        g == 2 * (a * b) - (a * a) * a,
        u == 3 + b * g,
        v == a * g + b * f,
        u % goldilocks() == 0,
    ensures
        v % goldilocks() != 0,
{
    let p = goldilocks();
    let a2 = a * a;
    let b2 = b * b;
    let b3 = b2 * b;
    if v % p == 0 {
    // v == -a^4 + 3 a^2 b - b^2
    assert(v == 3 * (a2 * b) - a2 * a2 - b2) by (nonlinear_arith)
        requires
            f == a * a - b,
            g == 2 * (a * b) - (a * a) * a,
            v == a * g + b * f,
            a2 == a * a,
            b2 == b * b,
    ;
    let m = b * g;
    // m * m - b^5 == b^3 * (4 a^2 b - 4 b^2 - ..) is a multiple of v
    let w = b2 * (b - a2);
    assert(m == b2 * (2 * a) - b * (a2 * a)) by (nonlinear_arith)
        requires
            m == b * g,
            g == 2 * (a * b) - (a * a) * a,
            a2 == a * a,
            b2 == b * b,
    ;
    let b5 = b3 * b2;
    assert(m * m == b5 + v * w) by {
        lemma_quadratic_identity(a, b, a2, b2, b3, m, v, w);
    }
    // so nine is b^5
    lemma_cong_mul(v, 0, w, p);
    lemma_small_mod(0, p as nat);
    assert(0 * w == 0);
    lemma_cong_add(b5, b5, v * w, 0, p);
    lemma_cong_add(u, 0, 3, 3, p);
    assert(m == u - 3);
    assert(m % p == (-3int) % p);
    lemma_cong_mul(m, -3, m, p);
    lemma_cong_mul(m, -3, -3, p);
    assert(b5 % p == 9int % p);
    // s = b^3 / 3 is a fifth root of three
    let i3: int = 12297829379609722881;
    let s = b3 * i3;
    lemma_pow_distributes(b3, i3, 5);
    lemma_pow_multiplies(b, 3, 5);
    lemma_pow_multiplies(b, 5, 3);
    lemma_pow5(b);
    lemma_pow1(b);
    lemma_pow_adds(b, 1, 1);
    lemma_pow_adds(b, 2, 1);
    assert(pow(b, 3) == b3);
    assert(pow(b, 5) == b5) by (nonlinear_arith)
        requires
            pow(b, 5) == (((b * b) * b) * b) * b,
            b2 == b * b,
            b3 == b2 * b,
            b5 == b3 * b2,
    ;
    lemma_pow_cong(b5, 9, 3, p);
    lemma_pow1(9);
    lemma_pow_adds(9, 1, 1);
    lemma_pow_adds(9, 2, 1);
    assert(pow(9, 3) == 729);
    lemma_pow5(i3);
    lemma_cong_mul(pow(b3, 5), 729, pow(i3, 5), p);
    assert((729 * ((((i3 * i3) * i3) * i3) * i3)) % p == 3);
    lemma_no_fifth_root(s);
    }
}

proof fn lemma_quadratic_identity(a: int, b: int, a2: int, b2: int, b3: int, m: int, v: int, w: int)
    requires
        a2 == a * a,
        b2 == b * b,
        b3 == b2 * b,
        m == b2 * (2 * a) - b * (a2 * a),
        v == 3 * (a2 * b) - a2 * a2 - b2,
        w == b2 * (b - a2),
    ensures
        m * m == b3 * b2 + v * w,
{
    // both sides in the monomials of a2 and b
    let c = b2 * b2;
    assert(m == (b * a) * (2 * b - a2)) by (nonlinear_arith)
        requires
            m == b2 * (2 * a) - b * (a2 * a),
            b2 == b * b,
    ;
    assert(m * m == ((b * a) * (b * a)) * ((2 * b - a2) * (2 * b - a2))) by (nonlinear_arith)
        requires
            m == (b * a) * (2 * b - a2),
    ;
    assert((b * a) * (b * a) == b2 * a2) by (nonlinear_arith)
        requires
            a2 == a * a,
            b2 == b * b,
    ;
    let d = a2 * b;
    let e = a2 * a2;
    assert((2 * b - a2) * (2 * b - a2) == 4 * b2 - 4 * d + e) by (nonlinear_arith)
        requires
            b2 == b * b,
            d == a2 * b,
            e == a2 * a2,
    ;
    // m^2 == b2 * (a2 * (4 b2 - 4 d + e)), v * w == b2 * (v * (b - a2))
    let l = a2 * (4 * b2 - 4 * d + e);
    assert((b2 * a2) * (4 * b2 - 4 * d + e) == b2 * l) by (nonlinear_arith)
        requires
            l == a2 * (4 * b2 - 4 * d + e),
    ;
    let r = v * (b - a2);
    assert(v * w == b2 * r) by (nonlinear_arith)
        requires
            w == b2 * (b - a2),
            r == v * (b - a2),
    ;
    assert(b3 * b2 == b2 * b3) by (nonlinear_arith);
    // l == b3 + r, in the monomials a2^3, a2^2 b, a2 b^2, b^3
    assert(l == 4 * (a2 * b2) - 4 * (a2 * d) + a2 * e) by (nonlinear_arith)
        requires
            l == a2 * (4 * b2 - 4 * d + e),
    ;
    assert(r == 3 * (d * b) - 3 * (d * a2) - e * b + e * a2 - b2 * b + b2 * a2) by (nonlinear_arith)
        requires
            r == v * (b - a2),
            v == 3 * d - e - b2,
    ;
    assert(d * b == a2 * b2 && d * a2 == a2 * d && e * b == a2 * d && e * a2 == a2 * e && b2 * a2
        == a2 * b2) by (nonlinear_arith)
        requires
            d == a2 * b,
            e == a2 * a2,
            b2 == b * b,
    ;
    assert(l == b3 + r);
    lemma_mul_is_distributive(b2, b3, r);
}

proof fn lemma_mul_is_distributive(x: int, y: int, z: int)
    ensures
        x * (y + z) == x * y + x * z,
{
    vstd::arithmetic::mul::lemma_mul_is_distributive_add(x, y, z);
}

proof fn lemma_norm_degree_zero(x: QuinticExtension)
    requires
        x.canonical(),
        norm(x) == 0,
        degree_at_most(x, 0),
    ensures
        x == QuinticExtension::nought(),
{
    lemma_shape(x);
    if x.c0@ != 0 {
        lemma_small_mod(x.c0@ as nat, goldilocks() as nat);
        lemma_small_mod(0, goldilocks() as nat);
        assert(x == konst(x.c0@));
        lemma_norm_konst(x.c0@);
    }
}

proof fn lemma_norm_degree_one(x: QuinticExtension)
    requires
        x.canonical(),
        norm(x) == 0,
        degree_at_most(x, 1),
    ensures
        x == QuinticExtension::nought(),
{
    if x.c1@ == 0 {
        lemma_norm_degree_zero(x);
    } else {
        let lead = x.c1@;
        let y = lemma_monic(x, lead);
        let i = choose|i: int|
            0 < i < goldilocks() && #[trigger] (lead * i) % goldilocks() == 1 && y@ == x@.scale(
                i,
            ).reduce();
        lemma_monic_shape(x, y, i);
        lemma_mul_is_commutative(i, lead);
        assert(y == QuinticExtension::of_ints(y.c0@, 1, 0, 0, 0));
        lemma_norm_linear(y.c0@);
    }
}

/// The coefficients of a scaled element.
proof fn lemma_monic_shape(x: QuinticExtension, y: QuinticExtension, i: int)
    requires
        y.canonical(),
        y@ == x@.scale(i).reduce(),
    ensures
        y.c0@ == (i * x.c0@) % goldilocks(),
        y.c1@ == (i * x.c1@) % goldilocks(),
        y.c2@ == (i * x.c2@) % goldilocks(),
        y.c3@ == (i * x.c3@) % goldilocks(),
        y.c4@ == (i * x.c4@) % goldilocks(),
        y == QuinticExtension::of_ints(y.c0@, y.c1@, y.c2@, y.c3@, y.c4@),
        x.c1@ == 0 ==> y.c1@ == 0,
        x.c2@ == 0 ==> y.c2@ == 0,
        x.c3@ == 0 ==> y.c3@ == 0,
        x.c4@ == 0 ==> y.c4@ == 0,
{
    assert(y@.c0 == y.c0@ && y@.c1 == y.c1@ && y@.c2 == y.c2@ && y@.c3 == y.c3@ && y@.c4 == y.c4@);
    lemma_shape(y);
    lemma_small_mod(0, goldilocks() as nat);
    assert(i * 0 == 0);
}

proof fn lemma_norm_degree_two(x: QuinticExtension)
    requires
        x.canonical(),
        norm(x) == 0,
        degree_at_most(x, 2),
    ensures
        x == QuinticExtension::nought(),
{
    if x.c2@ == 0 {
        lemma_norm_degree_one(x);
    } else {
        let lead = x.c2@;
        let y = lemma_monic(x, lead);
        let i = choose|i: int|
            0 < i < goldilocks() && #[trigger] (lead * i) % goldilocks() == 1 && y@ == x@.scale(
                i,
            ).reduce();
        lemma_monic_shape(x, y, i);
        lemma_mul_is_commutative(i, lead);
        lemma_norm_quadratic(y.c1@, y.c0@);
    }
}

proof fn lemma_cubic_product(a: int, b: int, c: int)
    ensures
        ({
            let e = a * a - b;
            (Z5 { c0: c, c1: b, c2: a, c3: 1, c4: 0 }) * (Z5 { c0: e, c1: -a, c2: 1, c3: 0, c4: 0 })
                == (Z5 {
                c0: 3 + c * e,
                c1: b * e - a * c,
                c2: a * e - a * b + c,
                c3: 0,
                c4: 0,
            })
        }),
{
    let e = a * a - b;
    let xs = Z5 { c0: c, c1: b, c2: a, c3: 1, c4: 0 };
    let q = Z5 { c0: e, c1: -a, c2: 1, c3: 0, c4: 0 };
    lemma_z5_mul_comm(xs, q);
    lemma_z5_expand(q, xs);
    assert((-a) * c == -(a * c) && (-a) * b == -(a * b) && (-a) * a == -(a * a)) by (nonlinear_arith);
    lemma_mul_is_commutative(c, e);
    lemma_mul_is_commutative(b, e);
    lemma_mul_is_commutative(a, e);
    let one = xs.shift();
    assert(e * xs.c3 == e && e * xs.c4 == 0 && (-a) * one.c0 == 0 && (-a) * one.c4 == -a)
        by (nonlinear_arith)
        requires
            xs.c3 == 1,
            xs.c4 == 0,
            one.c0 == 0,
            one.c4 == 1,
    ;
}

proof fn lemma_quartic_product(a: int, b: int, c: int, d: int)
    ensures
        (Z5 { c0: d, c1: c, c2: b, c3: a, c4: 1 }) * (Z5 { c0: -a, c1: 1, c2: 0, c3: 0, c4: 0 })
            == (Z5 { c0: 3 - a * d, c1: d - a * c, c2: c - a * b, c3: b - a * a, c4: 0 }),
{
    let xs = Z5 { c0: d, c1: c, c2: b, c3: a, c4: 1 };
    let q = Z5 { c0: -a, c1: 1, c2: 0, c3: 0, c4: 0 };
    lemma_z5_mul_comm(xs, q);
    lemma_z5_expand(q, xs);
    assert((-a) * d == -(a * d) && (-a) * c == -(a * c) && (-a) * b == -(a * b) && (-a) * a == -(a
        * a)) by (nonlinear_arith);
}

proof fn lemma_norm_degree_three(x: QuinticExtension)
    requires
        x.canonical(),
        norm(x) == 0,
        degree_at_most(x, 3),
    ensures
        x == QuinticExtension::nought(),
{
    let p = goldilocks();
    if x.c3@ == 0 {
        lemma_norm_degree_two(x);
    } else {
        let lead = x.c3@;
        let y = lemma_monic(x, lead);
        let i = choose|i: int|
            0 < i < p && #[trigger] (lead * i) % p == 1 && y@ == x@.scale(i).reduce();
        lemma_monic_shape(x, y, i);
        lemma_mul_is_commutative(i, lead);
        let (c, b, a) = (y.c0@, y.c1@, y.c2@);
        let e = a * a - b;
        let xs = Z5 { c0: c, c1: b, c2: a, c3: 1, c4: 0 };
        let q = Z5 { c0: e, c1: -a, c2: 1, c3: 0, c4: 0 };
        let r = Z5 { c0: 3 + c * e, c1: b * e - a * c, c2: a * e - a * b + c, c3: 0, c4: 0 };
        lemma_cubic_product(a, b, c);
        lemma_product_is(xs, q, r);
        let qe = QuinticExtension::of(q);
        lemma_of_view(q);
        lemma_of_view(r);
        lemma_norm_zero_product(y, qe);
        lemma_small_mod(0, p as nat);
        lemma_small_mod(1, p as nat);
        lemma_norm_degree_two(QuinticExtension::of(r));
        // the cofactor is a monic quadratic of norm zero
        lemma_shape(y);
        lemma_annihilated(y, qe);
        lemma_norm_degree_two(qe);
        lemma_shape(qe);
        assert(qe@.c2 == 1);
    }
}

/// An element of norm zero is zero.
pub proof fn lemma_norm_zero(x: QuinticExtension)
    requires
        x.canonical(),
        norm(x) == 0,
    ensures
        x == QuinticExtension::nought(),
{
    let p = goldilocks();
    if x.c4@ == 0 {
        lemma_norm_degree_three(x);
    } else {
        let lead = x.c4@;
        let y = lemma_monic(x, lead);
        let i = choose|i: int|
            0 < i < p && #[trigger] (lead * i) % p == 1 && y@ == x@.scale(i).reduce();
        lemma_monic_shape(x, y, i);
        lemma_mul_is_commutative(i, lead);
        let (d, c, b, a) = (y.c0@, y.c1@, y.c2@, y.c3@);
        let xs = Z5 { c0: d, c1: c, c2: b, c3: a, c4: 1 };
        let q = Z5 { c0: -a, c1: 1, c2: 0, c3: 0, c4: 0 };
        let r = Z5 { c0: 3 - a * d, c1: d - a * c, c2: c - a * b, c3: b - a * a, c4: 0 };
        lemma_quartic_product(a, b, c, d);
        lemma_product_is(xs, q, r);
        let qe = QuinticExtension::of(q);
        lemma_of_view(q);
        lemma_of_view(r);
        lemma_norm_zero_product(y, qe);
        lemma_small_mod(0, p as nat);
        lemma_small_mod(1, p as nat);
        lemma_norm_degree_three(QuinticExtension::of(r));
        // the cofactor is linear of norm zero
        lemma_shape(y);
        lemma_annihilated(y, qe);
        lemma_norm_linear(-a);
    }
}

} // verus!
