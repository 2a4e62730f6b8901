//! Compressed points: decoding, encoding, and that they undo each other.

use core::ops::Neg;
use vstd::arithmetic::div_mod::{lemma_mod_twice, lemma_mul_mod_noop, lemma_small_mod};
use vstd::arithmetic::power::{lemma_pow1, lemma_pow_distributes, pow};
use vstd::prelude::*;

use crate::algebra::{
    lemma_class_add, lemma_class_equal, lemma_class_scale, lemma_class_self, lemma_class_sub,
    lemma_difference_of_squares, lemma_mul_sub, lemma_product_of_sums, lemma_sub_add,
};
use crate::conjugate::{conjugate, conjugate2, konst, lemma_norm_is_base, norm};
use crate::curve_laws::{cubic, lemma_has_inverse, lemma_minus_zero};
use crate::ecgfp5::{
    can_encode, coeff_a, coeff_a_third, coeff_b, coeff_cap_a, coeff_cap_b, compressed, divide,
    infinity, lemma_difference_zero, lemma_quotient, on_curve, CompressedPoint, PointEw,
};
use crate::field::GoldilocksField;
use crate::primes::{goldilocks, lemma_pow_cong};
use crate::quintic::{
    lemma_add_comm, lemma_distribute, lemma_mul_assoc, lemma_mul_comm, lemma_of_view,
    lemma_zero_one, QuinticExtension,
};
use crate::quintic_field::{
    lemma_konst_mul, lemma_konst_scale, lemma_konst_view, lemma_mul_swap_inner, lemma_norm_mul,
    lemma_norm_zero, lemma_power_double, lemma_power_next, lemma_product_is, lemma_shape,
};
use crate::quintic_power::{
    lemma_cancel, lemma_mul_canonical, lemma_one_times, lemma_square_iff_norm,
    lemma_units_canonical, qsquares_to,
};
use crate::quintic_ring::{lemma_z5_expand, Z5};
use crate::residue::{
    half_order, lemma_euler_criterion, squares_to, square_mod, Legendre, LegendreSymbol, Sqrt,
};

verus! {

/// `w^2 - a`, the sum of the two candidates for the first coordinate.
pub open spec fn root_sum(w: QuinticExtension) -> QuinticExtension {
    w * w - coeff_a()
}

/// The discriminant of the equation for the first coordinate.
pub open spec fn discriminant(w: QuinticExtension) -> QuinticExtension {
    root_sum(w) * root_sum(w) - QuinticExtension::of_ints(0, 1052, 0, 0, 0)
}

/// Whether `x` solves `x (e - x) == b` with `e = w^2 - a`, and is a square other
/// than zero.
pub open spec fn is_abscissa(w: QuinticExtension, x: QuinticExtension) -> bool {
    &&& x.canonical()
    &&& x * (root_sum(w) - x) == coeff_b()
    &&& x.character() == LegendreSymbol::ONE
}

/// Whether `p` is the point that a compressed point other than zero stands for.
pub open spec fn decodes_to(w: QuinticExtension, p: PointEw) -> bool {
    exists|x: QuinticExtension| #[trigger]
        is_abscissa(w, x) && p == (PointEw {
            x: x + coeff_a_third(),
            y: w.spec_neg() * x,
            at_inf: false,
        })
}

proof fn lemma_coefficients()
    ensures
        coeff_a().canonical(),
        coeff_b().canonical(),
        coeff_a_third().canonical(),
        coeff_cap_a().canonical(),
        coeff_cap_b().canonical(),
        coeff_b() != QuinticExtension::nought(),
{
    lemma_of_view(Z5 { c0: 2, c1: 0, c2: 0, c3: 0, c4: 0 });
    lemma_of_view(Z5 { c0: 0, c1: 263, c2: 0, c3: 0, c4: 0 });
    lemma_of_view(Z5 { c0: 6148914689804861441, c1: 0, c2: 0, c3: 0, c4: 0 });
    lemma_of_view(Z5 { c0: 6148914689804861439, c1: 263, c2: 0, c3: 0, c4: 0 });
    lemma_of_view(Z5 { c0: 15713893096167979237, c1: 6148914689804861265, c2: 0, c3: 0, c4: 0 });
    lemma_shape(coeff_b());
    assert(coeff_b().c1@ == 263);
}

/// A product of two monomials.
proof fn lemma_monomials(a: Z5, b: Z5, r: Z5)
    requires
        (a * b).reduce() == r.reduce(),
    ensures
        QuinticExtension::of(a) * QuinticExtension::of(b) == QuinticExtension::of(r),
{
    lemma_product_is(a, b, r);
}

/// The norm of the coefficient `b`.
proof fn lemma_norm_of_b()
    ensures
        norm(coeff_b()) == 3774852592629,
{
    let b = Z5 { c0: 0, c1: 263, c2: 0, c3: 0, c4: 0 };
    let c1 = Z5 { c0: 0, c1: 15604395207863342471, c2: 0, c3: 0, c4: 0 };
    let c2 = Z5 { c0: 0, c1: 10359555194931856873, c2: 0, c3: 0, c4: 0 };
    let e = Z5 { c0: 0, c1: 0, c2: 7031554360246225240, c3: 0, c4: 0 };
    let e2 = Z5 { c0: 0, c1: 0, c2: 12891638063134462412, c3: 0, c4: 0 };
    let f = Z5 { c0: 0, c1: 0, c2: 0, c3: 0, c4: 4784350561 };
    let n = Z5 { c0: 3774852592629, c1: 0, c2: 0, c3: 0, c4: 0 };
    lemma_of_view(b);
    lemma_of_view(c1);
    lemma_of_view(c2);
    lemma_of_view(e);
    assert(conjugate(coeff_b()) == QuinticExtension::of(c1));
    assert(conjugate(QuinticExtension::of(c1)) == QuinticExtension::of(c2));
    lemma_z5_expand(c1, c2);
    lemma_monomials(c1, c2, e);
    assert(conjugate2(QuinticExtension::of(e)) == QuinticExtension::of(e2));
    lemma_z5_expand(e, e2);
    lemma_monomials(e, e2, f);
    lemma_z5_expand(b, f);
    lemma_monomials(b, f, n);
    lemma_of_view(n);
}

/// The norm of `b` has half power minus one.
proof fn lemma_norm_of_b_power()
    ensures
        pow(3774852592629, half_order()) % goldilocks() == goldilocks() - 1,
{
    lemma_pow1(3774852592629);
    lemma_power_double(3774852592629, 1, 3774852592629, 11045009407318441734);
    lemma_power_next(3774852592629, 2, 11045009407318441734, 15782631949573759326);
    lemma_power_double(3774852592629, 3, 15782631949573759326, 6006886667035737368);
    lemma_power_next(3774852592629, 6, 6006886667035737368, 14289592586152981471);
    lemma_power_double(3774852592629, 7, 14289592586152981471, 15482713525865947720);
    lemma_power_next(3774852592629, 14, 15482713525865947720, 9896959196992389571);
    lemma_power_double(3774852592629, 15, 9896959196992389571, 647111693916790378);
    lemma_power_next(3774852592629, 30, 647111693916790378, 12882933239372742269);
    lemma_power_double(3774852592629, 31, 12882933239372742269, 12108126925917584880);
    lemma_power_next(3774852592629, 62, 12108126925917584880, 8182465693611627651);
    lemma_power_double(3774852592629, 63, 8182465693611627651, 12924340299332855251);
    lemma_power_next(3774852592629, 126, 12924340299332855251, 5047290382324715211);
    lemma_power_double(3774852592629, 127, 5047290382324715211, 3557876535029618748);
    lemma_power_next(3774852592629, 254, 3557876535029618748, 2437990703101556066);
    lemma_power_double(3774852592629, 255, 2437990703101556066, 17085877531813350687);
    lemma_power_next(3774852592629, 510, 17085877531813350687, 4262702674872907746);
    lemma_power_double(3774852592629, 511, 4262702674872907746, 17359133954880737694);
    lemma_power_next(3774852592629, 1022, 17359133954880737694, 14136278636758828478);
    lemma_power_double(3774852592629, 1023, 14136278636758828478, 12375621646431868244);
    lemma_power_next(3774852592629, 2046, 12375621646431868244, 9604826060374764232);
    lemma_power_double(3774852592629, 2047, 9604826060374764232, 2482119528046296364);
    lemma_power_next(3774852592629, 4094, 2482119528046296364, 5011923223357676642);
    lemma_power_double(3774852592629, 4095, 5011923223357676642, 1877207757681487499);
    lemma_power_next(3774852592629, 8190, 1877207757681487499, 1919425373507183797);
    lemma_power_double(3774852592629, 8191, 1919425373507183797, 13647925973993891306);
    lemma_power_next(3774852592629, 16382, 13647925973993891306, 17962851209947735449);
    lemma_power_double(3774852592629, 16383, 17962851209947735449, 10391462082638789366);
    lemma_power_next(3774852592629, 32766, 10391462082638789366, 9417307051317506537);
    lemma_power_double(3774852592629, 32767, 9417307051317506537, 2362861808288271741);
    lemma_power_next(3774852592629, 65534, 2362861808288271741, 17908514641745201709);
    lemma_power_double(3774852592629, 65535, 17908514641745201709, 11188502237122940136);
    lemma_power_next(3774852592629, 131070, 11188502237122940136, 9489893526835871647);
    lemma_power_double(3774852592629, 131071, 9489893526835871647, 7014934256882051672);
    lemma_power_next(3774852592629, 262142, 7014934256882051672, 14612700302224467563);
    lemma_power_double(3774852592629, 262143, 14612700302224467563, 6416849935252892041);
    lemma_power_next(3774852592629, 524286, 6416849935252892041, 7425189979255006137);
    lemma_power_double(3774852592629, 524287, 7425189979255006137, 9771317898857603772);
    lemma_power_next(3774852592629, 1048574, 9771317898857603772, 10202707275461233367);
    lemma_power_double(3774852592629, 1048575, 10202707275461233367, 15726072525502610408);
    lemma_power_next(3774852592629, 2097150, 15726072525502610408, 11695918040017705952);
    lemma_power_double(3774852592629, 2097151, 11695918040017705952, 3286676538840445892);
    lemma_power_next(3774852592629, 4194302, 3286676538840445892, 11684024233624963532);
    lemma_power_double(3774852592629, 4194303, 11684024233624963532, 5286404650761776805);
    lemma_power_next(3774852592629, 8388606, 5286404650761776805, 921968865464085162);
    lemma_power_double(3774852592629, 8388607, 921968865464085162, 4756945473528866318);
    lemma_power_next(3774852592629, 16777214, 4756945473528866318, 1463510050726175682);
    lemma_power_double(3774852592629, 16777215, 1463510050726175682, 7107855600458276984);
    lemma_power_next(3774852592629, 33554430, 7107855600458276984, 13571222279128307072);
    lemma_power_double(3774852592629, 33554431, 13571222279128307072, 6551164175280467662);
    lemma_power_next(3774852592629, 67108862, 6551164175280467662, 11858619801831374521);
    lemma_power_double(3774852592629, 67108863, 11858619801831374521, 14467542860789633197);
    lemma_power_next(3774852592629, 134217726, 14467542860789633197, 1268789134804030712);
    lemma_power_double(3774852592629, 134217727, 1268789134804030712, 9120521593206870432);
    lemma_power_next(3774852592629, 268435454, 9120521593206870432, 8921248896728495866);
    lemma_power_double(3774852592629, 268435455, 8921248896728495866, 10072943272183100293);
    lemma_power_next(3774852592629, 536870910, 10072943272183100293, 6091040264469822270);
    lemma_power_double(3774852592629, 536870911, 6091040264469822270, 7000645694704981230);
    lemma_power_next(3774852592629, 1073741822, 7000645694704981230, 18369387713404378043);
    lemma_power_double(3774852592629, 1073741823, 18369387713404378043, 12109071768689173474);
    lemma_power_next(3774852592629, 2147483646, 12109071768689173474, 15002624601304734017);
    lemma_power_double(3774852592629, 2147483647, 15002624601304734017, 10952079324874872982);
    lemma_power_next(3774852592629, 4294967294, 10952079324874872982, 5813793230349389616);
    lemma_power_double(3774852592629, 4294967295, 5813793230349389616, 16999567258319953680);
    lemma_power_double(3774852592629, 8589934590, 16999567258319953680, 17022978690823507972);
    lemma_power_double(3774852592629, 17179869180, 17022978690823507972, 12598895039426116929);
    lemma_power_double(3774852592629, 34359738360, 12598895039426116929, 14496553009435979936);
    lemma_power_double(3774852592629, 68719476720, 14496553009435979936, 9284608718332281837);
    lemma_power_double(3774852592629, 137438953440, 9284608718332281837, 15846030030954512346);
    lemma_power_double(3774852592629, 274877906880, 15846030030954512346, 7068394330744324909);
    lemma_power_double(3774852592629, 549755813760, 7068394330744324909, 17240460245298908759);
    lemma_power_double(3774852592629, 1099511627520, 17240460245298908759, 3642997123259819041);
    lemma_power_double(3774852592629, 2199023255040, 3642997123259819041, 17996912495222494116);
    lemma_power_double(3774852592629, 4398046510080, 17996912495222494116, 12982612486134003212);
    lemma_power_double(3774852592629, 8796093020160, 12982612486134003212, 9729650180117041713);
    lemma_power_double(3774852592629, 17592186040320, 9729650180117041713, 5953452985911334936);
    lemma_power_double(3774852592629, 35184372080640, 5953452985911334936, 3868391532371361246);
    lemma_power_double(3774852592629, 70368744161280, 3868391532371361246, 12080536047206493278);
    lemma_power_double(3774852592629, 140737488322560, 12080536047206493278, 16314067597667521228);
    lemma_power_double(3774852592629, 281474976645120, 16314067597667521228, 11809855681683760991);
    lemma_power_double(3774852592629, 562949953290240, 11809855681683760991, 6174303580884593376);
    lemma_power_double(3774852592629, 1125899906580480, 6174303580884593376, 16038533207000780727);
    lemma_power_double(3774852592629, 2251799813160960, 16038533207000780727, 13339764746656321348);
    lemma_power_double(3774852592629, 4503599626321920, 13339764746656321348, 16418549981370881868);
    lemma_power_double(3774852592629, 9007199252643840, 16418549981370881868, 14568119870644612728);
    lemma_power_double(3774852592629, 18014398505287680, 14568119870644612728, 8187602034452531322);
    lemma_power_double(3774852592629, 36028797010575360, 8187602034452531322, 2341058142559915780);
    lemma_power_double(3774852592629, 72057594021150720, 2341058142559915780, 17592454475776);
    lemma_power_double(3774852592629, 144115188042301440, 17592454475776, 18446744069414583809);
    lemma_power_double(3774852592629, 288230376084602880, 18446744069414583809, 262144);
    lemma_power_double(3774852592629, 576460752169205760, 262144, 68719476736);
    lemma_power_double(3774852592629, 1152921504338411520, 68719476736, 1099511627520);
    lemma_power_double(3774852592629, 2305843008676823040, 1099511627520, 18446462594437873665);
    lemma_power_double(3774852592629, 4611686017353646080, 18446462594437873665, 18446744069414584320);
}

/// The coefficient `b` is no square.
pub proof fn lemma_b_is_no_square(s: QuinticExtension)
    ensures
        !qsquares_to(s, coeff_b()),
{
    if qsquares_to(s, coeff_b()) {
        lemma_coefficients();
        lemma_square_iff_norm(coeff_b());
        lemma_norm_of_b();
        lemma_norm_of_b_power();
        let n: int = 3774852592629;
        lemma_euler_criterion(n);
        lemma_base_square(n);
    }
}

/// A square among the elements is a square among the integers.
pub proof fn lemma_base_square(n: int)
    requires
        0 <= n < goldilocks(),
    ensures
        (exists|m: GoldilocksField| #[trigger] squares_to(m, GoldilocksField::of(n)))
            <==> square_mod(n),
{
    let p = goldilocks();
    lemma_small_mod(n as nat, p as nat);
    if exists|m: GoldilocksField| #[trigger] squares_to(m, GoldilocksField::of(n)) {
        let m = choose|m: GoldilocksField| #[trigger] squares_to(m, GoldilocksField::of(n));
        assert(m.spec_mul(m)@ == n);
        assert((m@ * m@) % p == n % p);
    }
    if square_mod(n) {
        let s = choose|s: int| #[trigger] (s * s) % p == n % p;
        lemma_mul_mod_noop(s, s, p);
        assert(squares_to(GoldilocksField::of(s), GoldilocksField::of(n)));
    }
}

/// The product of two elements that are no squares is a square.
pub proof fn lemma_product_of_non_squares(x: QuinticExtension, y: QuinticExtension)
    requires
        x.canonical(),
        y.canonical(),
        x.character() == LegendreSymbol::NEGONE,
        y.character() == LegendreSymbol::NEGONE,
        x * y != QuinticExtension::nought(),
    ensures
        exists|s: QuinticExtension| #[trigger] qsquares_to(s, x * y),
{
    let p = goldilocks();
    let (m, n) = (norm(x), norm(y));
    lemma_norm_is_base(x);
    lemma_norm_is_base(y);
    lemma_mul_canonical(x, y);
    lemma_norm_is_base(x * y);
    lemma_square_iff_norm(x);
    lemma_square_iff_norm(y);
    lemma_square_iff_norm(x * y);
    lemma_base_square(m);
    lemma_base_square(n);
    lemma_base_square(norm(x * y));
    lemma_norm_mul(x, y);
    if m == 0 {
        lemma_norm_zero(x);
    }
    if n == 0 {
        lemma_norm_zero(y);
    }
    if norm(x * y) == 0 {
        lemma_norm_zero(x * y);
    }
    lemma_euler_criterion(m);
    lemma_euler_criterion(n);
    lemma_euler_criterion(norm(x * y));
    let h = half_order();
    lemma_pow_distributes(m, n, h);
    lemma_mod_twice(m * n, p);
    lemma_pow_cong(norm(x * y), m * n, h, p);
    lemma_mul_mod_noop(pow(m, h), pow(n, h), p);
    assert(((p - 1) * (p - 1)) % p == 1);
}

/// The product of two squares is a square.
proof fn lemma_product_of_squares(s: QuinticExtension, t: QuinticExtension, x: QuinticExtension, y: QuinticExtension)
    requires
        qsquares_to(s, x),
        qsquares_to(t, y),
    ensures
        qsquares_to(s * t, x * y),
{
    lemma_mul_swap_inner(s, t, s, t);
}

/// Of the two solutions exactly one is a square, so a compressed point stands
/// for one point at most.
pub proof fn lemma_abscissa_unique(w: QuinticExtension, x: QuinticExtension, y: QuinticExtension)
    requires
        is_abscissa(w, x),
        is_abscissa(w, y),
    ensures
        x == y,
{
    let e = root_sum(w);
    lemma_coefficients();
    lemma_mul_canonical(w * w, coeff_a());
    if x != y {
        // (x - y) (e - (x + y)) == 0
        lemma_mul_sub(e, x, x);
        lemma_mul_sub(e, y, y);
        let d = x - y;
        let f = e - (x + y);
        lemma_mul_canonical(x, y);
        lemma_mul_sub(e, x + y, d);
        lemma_mul_sub(x, y, e);
        lemma_difference_of_squares(x, y);
        lemma_mul_comm(x, e);
        lemma_mul_comm(y, e);
        let (ex, ey, xx, yy) = (e * x, e * y, x * x, y * y);
        lemma_mul_canonical(e, x);
        lemma_mul_canonical(e, y);
        lemma_mul_canonical(x, x);
        lemma_mul_canonical(y, y);
        assert(ex - xx == ey - yy);
        assert(d * f == (ex - ey) - (xx - yy)) by {
            lemma_mul_comm(d, e);
        }
        lemma_rearrange(ex, xx, ey, yy);
        // so f is zero and y is the other solution
        lemma_difference_zero(x, y);
        let i = lemma_has_inverse(d);
        lemma_mul_canonical(e, x + y);
        lemma_units_canonical();
        lemma_mul_comm(d, f);
        lemma_one_times(d);
        lemma_cancel(d, i, f, QuinticExtension::nought());
        lemma_difference_zero(e, x + y);
        lemma_sub_add(x, y);
        assert(e - x == y);
        // then b is a product of squares
        let s = choose|s: QuinticExtension| #[trigger] qsquares_to(s, x);
        let t = choose|t: QuinticExtension| #[trigger] qsquares_to(t, y);
        lemma_product_of_squares(s, t, x, y);
        lemma_b_is_no_square(s * t);
    }
}

/// `(a - c) - (b - d)` vanishes where `a - b == c - d`.
proof fn lemma_rearrange(a: QuinticExtension, b: QuinticExtension, c: QuinticExtension, d: QuinticExtension)
    requires
        a.canonical(),
        b.canonical(),
        c.canonical(),
        d.canonical(),
        a - b == c - d,
    ensures
        (a - c) - (b - d) == QuinticExtension::nought(),
{
    lemma_class_self(a);
    lemma_class_self(b);
    lemma_class_self(c);
    lemma_class_self(d);
    lemma_class_sub(a, a@, b, b@);
    lemma_class_sub(c, c@, d, d@);
    lemma_class_sub(a, a@, c, c@);
    lemma_class_sub(b, b@, d, d@);
    lemma_class_sub(a - c, a@ - c@, b - d, b@ - d@);
    lemma_class_sub(a - b, a@ - b@, c - d, c@ - d@);
    lemma_class_equal((a - c) - (b - d), a@ - c@ - (b@ - d@), (a - b) - (c - d), a@ - b@ - (c@ - d@));
    lemma_mul_canonical(a, b);
    lemma_zero_one(a - b);
}

/// The two candidates that the square root `r` of the discriminant gives: their
/// sum is `e` and their product is `b`.
proof fn lemma_candidates(w: QuinticExtension, r: QuinticExtension)
    requires
        w.canonical(),
        r.canonical(),
        qsquares_to(r, discriminant(w)),
    ensures
        ({
            let e = root_sum(w);
            let x1 = konst(9223372034707292161) * (e + r);
            let x2 = konst(9223372034707292161) * (e - r);
            &&& e - x1 == x2
            &&& e - x2 == x1
            &&& x1 * x2 == coeff_b()
        }),
{
    let e = root_sum(w);
    let h = konst(9223372034707292161);
    let x1 = h * (e + r);
    let x2 = h * (e - r);
    let b4 = QuinticExtension::of_ints(0, 1052, 0, 0, 0);
    lemma_coefficients();
    lemma_of_view(Z5 { c0: 0, c1: 1052, c2: 0, c3: 0, c4: 0 });
    lemma_mul_canonical(w * w, coeff_a());
    lemma_mul_canonical(e, r);
    lemma_mul_canonical(h, e + r);
    lemma_mul_canonical(h, e - r);
    // the sum
    lemma_distribute(e + r, e - r, h);
    lemma_class_self(e);
    lemma_class_self(r);
    lemma_class_add(e, e@, r, r@);
    lemma_class_sub(e, e@, r, r@);
    lemma_class_add(e + r, e@ + r@, e - r, e@ - r@);
    lemma_class_scale(2, e, e@);
    lemma_class_equal((e + r) + (e - r), e@ + r@ + (e@ - r@), konst(2) * e, e@.scale(2));
    lemma_mul_assoc(h, konst(2), e);
    lemma_konst_mul(9223372034707292161, 2);
    lemma_konst_view(9223372034707292161int * 2);
    lemma_units_canonical();
    lemma_one_times(e);
    assert(x1 + x2 == e);
    lemma_sub_add(x1, x2);
    lemma_add_comm(x1, x2);
    // the product
    lemma_mul_swap_inner(h, e + r, h, e - r);
    lemma_difference_of_squares(e, r);
    lemma_mul_canonical(e, e);
    lemma_sub_add(e * e, b4);
    lemma_konst_mul(9223372034707292161, 9223372034707292161);
    lemma_class_self(b4);
    lemma_quarter();
}

/// A solution of `x (e - x) == b` makes the discriminant the square of
/// `x - (e - x)`.
pub proof fn lemma_abscissa_discriminant(w: QuinticExtension, x: QuinticExtension)
    requires
        x.canonical(),
        x * (root_sum(w) - x) == coeff_b(),
    ensures
        qsquares_to(x - (root_sum(w) - x), discriminant(w)),
{
    let e = root_sum(w);
    let y = e - x;
    lemma_mul_canonical(w * w, coeff_a());
    lemma_mul_canonical(e, x);
    lemma_sub_add(e, x);
    // e == x + y, and the squares of the sum and of the difference
    lemma_product_of_sums(x, y, x, y);
    lemma_mul_comm(y, x);
    lemma_mul_sub(x, y, x - y);
    lemma_mul_sub(x, y, x);
    lemma_mul_sub(x, y, y);
    let (xx, b, yy) = (x * x, x * y, y * y);
    lemma_mul_canonical(x, x);
    lemma_mul_canonical(x, y);
    lemma_mul_canonical(y, y);
    lemma_class_self(xx);
    lemma_class_self(b);
    lemma_class_self(yy);
    lemma_class_add(xx, xx@, b, b@);
    lemma_class_add(b, b@, yy, yy@);
    lemma_class_add(xx + b, xx@ + b@, b + yy, b@ + yy@);
    lemma_class_sub(xx, xx@, b, b@);
    lemma_class_sub(b, b@, yy, yy@);
    lemma_class_sub(xx - b, xx@ - b@, b - yy, b@ - yy@);
    let z4 = Z5 { c0: 0, c1: 1052, c2: 0, c3: 0, c4: 0 };
    let b4 = QuinticExtension::of(z4);
    assert(b@ == (Z5 { c0: 0, c1: 263, c2: 0, c3: 0, c4: 0 })) by {
        lemma_of_view(Z5 { c0: 0, c1: 263, c2: 0, c3: 0, c4: 0 });
        lemma_small_mod(0, goldilocks() as nat);
        lemma_small_mod(263, goldilocks() as nat);
    }
    assert(crate::algebra::is_class(b4, z4)) by {
        reveal(crate::algebra::is_class);
    }
    assert(z4 == b@ + b@ + b@ + b@);
    lemma_class_sub((xx + b) + (b + yy), xx@ + b@ + (b@ + yy@), b4, z4);
    lemma_class_equal(
        ((xx + b) + (b + yy)) - b4,
        xx@ + b@ + (b@ + yy@) - z4,
        (xx - b) - (b - yy),
        xx@ - b@ - (b@ - yy@),
    );
    assert(e * e == (xx + b) + (b + yy));
}

/// A quarter of `4 b` is `b`.
proof fn lemma_quarter()
    ensures
        konst(9223372034707292161int * 9223372034707292161int) * QuinticExtension::of_ints(0, 1052, 0, 0, 0) == coeff_b(),
{
    let k: int = 9223372034707292161int * 9223372034707292161int;
    let z = Z5 { c0: 0, c1: 1052, c2: 0, c3: 0, c4: 0 };
    lemma_of_view(z);
    lemma_konst_scale(k, QuinticExtension::of(z));
    assert(k * 0 == 0);
    assert((k * 1052) % goldilocks() == 263);
}

/// The point that a compressed point stands for is on the curve.
pub proof fn lemma_decoded_on_curve(w: QuinticExtension, p: PointEw)
    requires
        w.canonical(),
        decodes_to(w, p),
    ensures
        on_curve(p),
        p.canonical(),
        !p.at_inf,
{
    let x = choose|x: QuinticExtension| #[trigger]
        is_abscissa(w, x) && p == (PointEw {
            x: x + coeff_a_third(),
            y: w.spec_neg() * x,
            at_inf: false,
        });
    let e = root_sum(w);
    let (a, b, t) = (coeff_a(), coeff_b(), coeff_a_third());
    lemma_coefficients();
    lemma_mul_canonical(w, w);
    lemma_mul_canonical(w * w, a);
    lemma_mul_canonical(x, t);
    lemma_mul_canonical(w.spec_neg(), x);
    // y^2 == w^2 x^2
    let y = w.spec_neg() * x;
    lemma_neg_square(w);
    lemma_mul_swap_inner(w.spec_neg(), x, w.spec_neg(), x);
    let xx = x * x;
    lemma_mul_canonical(x, x);
    assert(y * y == (w * w) * xx);
    // w^2 == e + a, and e x == b + x^2
    lemma_sub_add(w * w, a);
    lemma_distribute(e, a, xx);
    lemma_mul_sub(e, x, x);
    lemma_mul_canonical(x, e);
    lemma_sub_add(x * e, xx);
    assert(x * e == b + xx);
    lemma_mul_assoc(e, x, x);
    lemma_mul_comm(e, x);
    lemma_distribute(b, xx, x);
    assert(e * xx == b * x + xx * x);
    assert(y * y == (b * x + xx * x) + a * xx);
    lemma_shift(x);
}

/// `(-w)^2 == w^2`.
proof fn lemma_neg_square(w: QuinticExtension)
    requires
        w.canonical(),
    ensures
        w.spec_neg() * w.spec_neg() == w * w,
        w.spec_neg().canonical(),
{
    let o = QuinticExtension::nought();
    lemma_units_canonical();
    lemma_neg_is_minus(w);
    crate::algebra::lemma_square_of_difference(w, o);
    lemma_minus_zero(w);
    lemma_mul_canonical(o, w);
}

proof fn lemma_neg_is_minus(w: QuinticExtension)
    ensures
        w.spec_neg() == QuinticExtension::nought() - w,
{
    reveal(QuinticExtension::spec_neg);
    reveal(QuinticExtension::spec_sub);
    lemma_small_mod(0, goldilocks() as nat);
}

/// The two forms of the curve: `x^3 + a x^2 + b x` is the cubic at `x + a/3`.
proof fn lemma_shift(x: QuinticExtension)
    requires
        x.canonical(),
    ensures
        (coeff_b() * x + (x * x) * x) + coeff_a() * (x * x) == cubic(x + coeff_a_third()),
{
    let t = coeff_a_third();
    let b = coeff_b();
    let tt = t * t;
    let xx = x * x;
    let u = x + t;
    lemma_coefficients();
    lemma_mul_canonical(x, x);
    lemma_mul_canonical(t, t);
    lemma_mul_canonical(x, t);
    // the monomials
    let (m1, m2, m3, m4, m5, m6) = (xx * x, xx * t, x * tt, tt * t, b * x, b * t);
    lemma_mul_canonical(xx, x);
    lemma_mul_canonical(xx, t);
    lemma_mul_canonical(x, tt);
    lemma_mul_canonical(tt, t);
    lemma_mul_canonical(b, x);
    lemma_mul_canonical(b, t);
    lemma_cube(x, t);
    lemma_coefficient_forms();
    // A u == (b - 3 t^2) (x + t)
    let k3 = konst(3);
    let k2 = konst(2);
    lemma_mul_canonical(k3, tt);
    lemma_mul_sub(b, k3 * tt, u);
    lemma_distribute(x, t, b);
    lemma_mul_assoc(k3, tt, u);
    lemma_distribute(x, t, tt);
    lemma_mul_comm(tt, x);
    assert(coeff_cap_a() * u == (m5 + m6) - k3 * (m3 + m4));
    // a x^2 == 3 (t x^2)
    lemma_mul_assoc(k3, t, xx);
    lemma_mul_comm(t, xx);
    assert(coeff_a() * xx == k3 * m2);
    lemma_shift_sum(m1, m2, m3, m4, m5, m6);
}

/// `(x + t)^3` in monomials.
proof fn lemma_cube(x: QuinticExtension, t: QuinticExtension)
    ensures
        ((x + t) * (x + t)) * (x + t) == (((x * x) * x + (x * x) * t) + ((x * x) * t + (x * x) * t))
            + ((x * (t * t) + x * (t * t)) + (x * (t * t) + (t * t) * t)),
{
    let (xx, xt, tt) = (x * x, x * t, t * t);
    lemma_product_of_sums(x, t, x, t);
    lemma_mul_comm(t, x);
    let s = (xx + xt) + (xt + tt);
    lemma_distribute(x, t, s);
    // s * x and s * t
    lemma_mul_comm(s, x + t);
    lemma_mul_comm(s, x);
    lemma_mul_comm(s, t);
    lemma_distribute(xx + xt, xt + tt, x);
    lemma_distribute(xx, xt, x);
    lemma_distribute(xt, tt, x);
    lemma_distribute(xx + xt, xt + tt, t);
    lemma_distribute(xx, xt, t);
    lemma_distribute(xt, tt, t);
    let (m1, m2, m3, m4) = (xx * x, xx * t, x * tt, tt * t);
    lemma_mul_comm(x, xt);
    lemma_mul_assoc(x, x, t);
    lemma_mul_comm(tt, x);
    lemma_mul_assoc(x, t, t);
    assert(xt * x == m2);
    assert(xt * t == m3);
    assert(s * x == (m1 + m2) + (m2 + m3));
    assert(s * t == (m2 + m3) + (m3 + m4));
    // ((m1 + m2) + (m2 + m3)) + ((m2 + m3) + (m3 + m4))
    lemma_mul_canonical(xx, x);
    lemma_mul_canonical(xx, t);
    lemma_mul_canonical(x, tt);
    lemma_mul_canonical(tt, t);
    lemma_class_self(m1);
    lemma_class_self(m2);
    lemma_class_self(m3);
    lemma_class_self(m4);
    lemma_class_add(m1, m1@, m2, m2@);
    lemma_class_add(m2, m2@, m3, m3@);
    lemma_class_add(m3, m3@, m4, m4@);
    lemma_class_add(m1 + m2, m1@ + m2@, m2 + m3, m2@ + m3@);
    lemma_class_add(m2 + m3, m2@ + m3@, m3 + m4, m3@ + m4@);
    lemma_class_add(
        (m1 + m2) + (m2 + m3),
        m1@ + m2@ + (m2@ + m3@),
        (m2 + m3) + (m3 + m4),
        m2@ + m3@ + (m3@ + m4@),
    );
    lemma_class_add(m2, m2@, m2, m2@);
    lemma_class_add(m3, m3@, m3, m3@);
    lemma_class_add(m1 + m2, m1@ + m2@, m2 + m2, m2@ + m2@);
    lemma_class_add(m3 + m3, m3@ + m3@, m3 + m4, m3@ + m4@);
    lemma_class_add(
        (m1 + m2) + (m2 + m2),
        m1@ + m2@ + (m2@ + m2@),
        (m3 + m3) + (m3 + m4),
        m3@ + m3@ + (m3@ + m4@),
    );
    lemma_class_equal(
        ((m1 + m2) + (m2 + m3)) + ((m2 + m3) + (m3 + m4)),
        m1@ + m2@ + (m2@ + m3@) + (m2@ + m3@ + (m3@ + m4@)),
        ((m1 + m2) + (m2 + m2)) + ((m3 + m3) + (m3 + m4)),
        m1@ + m2@ + (m2@ + m2@) + (m3@ + m3@ + (m3@ + m4@)),
    );
}

/// The coefficients in terms of `t = a/3` and `b`: `a == 3 t`,
/// `A == b - 3 t^2` and `B == 2 t^3 - b t`.
proof fn lemma_coefficient_forms()
    ensures
        coeff_a() == konst(3) * coeff_a_third(),
        coeff_cap_a() == coeff_b() - konst(3) * (coeff_a_third() * coeff_a_third()),
        coeff_cap_b() == konst(2) * ((coeff_a_third() * coeff_a_third()) * coeff_a_third())
            - coeff_b() * coeff_a_third(),
{
    let k: int = 6148914689804861441;
    lemma_konst_mul(3, k);
    lemma_konst_view(3 * k);
    lemma_konst_mul(k, k);
    lemma_konst_mul(k * k, k);
    lemma_konst_mul(3, k * k);
    lemma_konst_mul(2, (k * k) * k);
    lemma_mul_comm(coeff_b(), konst(k));
    lemma_konst_scale(k, coeff_b());
    lemma_of_view(Z5 { c0: 0, c1: 263, c2: 0, c3: 0, c4: 0 });
    lemma_konst_view(3 * (k * k));
    lemma_konst_view(2 * ((k * k) * k));
    reveal(QuinticExtension::spec_sub);
    assert(k * 0 == 0);
}

/// The sum of the monomials of the shifted cubic.
proof fn lemma_shift_sum(
    m1: QuinticExtension,
    m2: QuinticExtension,
    m3: QuinticExtension,
    m4: QuinticExtension,
    m5: QuinticExtension,
    m6: QuinticExtension,
)
    requires
        m1.canonical(),
        m2.canonical(),
        m3.canonical(),
        m4.canonical(),
        m5.canonical(),
        m6.canonical(),
    ensures
        (m5 + m1) + konst(3) * m2 == ((((m1 + m2) + (m2 + m2)) + ((m3 + m3) + (m3 + m4))) + ((m5
            + m6) - konst(3) * (m3 + m4))) + (konst(2) * m4 - m6),
{
    lemma_class_self(m1);
    lemma_class_self(m2);
    lemma_class_self(m3);
    lemma_class_self(m4);
    lemma_class_self(m5);
    lemma_class_self(m6);
    lemma_class_add(m5, m5@, m1, m1@);
    lemma_class_scale(3, m2, m2@);
    lemma_class_add(m5 + m1, m5@ + m1@, konst(3) * m2, m2@.scale(3));
    lemma_class_add(m1, m1@, m2, m2@);
    lemma_class_add(m2, m2@, m2, m2@);
    lemma_class_add(m3, m3@, m3, m3@);
    lemma_class_add(m3, m3@, m4, m4@);
    lemma_class_add(m1 + m2, m1@ + m2@, m2 + m2, m2@ + m2@);
    lemma_class_add(m3 + m3, m3@ + m3@, m3 + m4, m3@ + m4@);
    let c = ((m1 + m2) + (m2 + m2)) + ((m3 + m3) + (m3 + m4));
    let zc = m1@ + m2@ + (m2@ + m2@) + (m3@ + m3@ + (m3@ + m4@));
    lemma_class_add(
        (m1 + m2) + (m2 + m2),
        m1@ + m2@ + (m2@ + m2@),
        (m3 + m3) + (m3 + m4),
        m3@ + m3@ + (m3@ + m4@),
    );
    lemma_class_add(m5, m5@, m6, m6@);
    lemma_class_scale(3, m3 + m4, m3@ + m4@);
    let d = (m5 + m6) - konst(3) * (m3 + m4);
    let zd = m5@ + m6@ - (m3@ + m4@).scale(3);
    lemma_class_sub(m5 + m6, m5@ + m6@, konst(3) * (m3 + m4), (m3@ + m4@).scale(3));
    lemma_class_scale(2, m4, m4@);
    lemma_class_sub(konst(2) * m4, m4@.scale(2), m6, m6@);
    lemma_class_add(c, zc, d, zd);
    lemma_class_add(c + d, zc + zd, konst(2) * m4 - m6, m4@.scale(2) - m6@);
    lemma_class_equal(
        (m5 + m1) + konst(3) * m2,
        m5@ + m1@ + m2@.scale(3),
        (c + d) + (konst(2) * m4 - m6),
        zc + zd + (m4@.scale(2) - m6@),
    );
}

/// Encoding the decoded point gives the compressed point back.
pub proof fn lemma_decode_encode(w: QuinticExtension, p: PointEw)
    requires
        w.canonical(),
        decodes_to(w, p),
    ensures
        can_encode(p),
        compressed(p) == w,
{
    let x = choose|x: QuinticExtension| #[trigger]
        is_abscissa(w, x) && p == (PointEw {
            x: x + coeff_a_third(),
            y: w.spec_neg() * x,
            at_inf: false,
        });
    let t = coeff_a_third();
    let o = QuinticExtension::nought();
    lemma_coefficients();
    lemma_units_canonical();
    // t - (x + t) == -x, which is not zero
    let d = t - (x + t);
    lemma_class_self(x);
    lemma_class_self(t);
    lemma_class_self(o);
    lemma_class_add(x, x@, t, t@);
    lemma_class_sub(t, t@, x + t, x@ + t@);
    lemma_class_sub(o, o@, x, x@);
    assert(o@ == (Z5 { c0: 0, c1: 0, c2: 0, c3: 0, c4: 0 })) by {
        lemma_konst_view(0);
    }
    lemma_class_equal(d, t@ - (x@ + t@), o - x, o@ - x@);
    lemma_difference_zero(o, x);
    lemma_mul_canonical(o, x);
    lemma_mul_canonical(x, t);
    lemma_difference_zero(t, x + t);
    // w * (-x) == (-w) * x
    lemma_mul_sub(o, x, w);
    lemma_mul_sub(o, w, x);
    lemma_neg_is_minus(w);
    lemma_one_times(w);
    lemma_one_times(x);
    assert(w * d == w.spec_neg() * x);
    let i = lemma_has_inverse(d);
    lemma_quotient(p.y, d, w, i);
}

impl PointEw {
    /// The compressed form of the point.
    pub fn encode(&self) -> (r: CompressedPoint)
        requires
            can_encode(*self),
        ensures
            r.w == compressed(*self),
    {
        if self.at_inf {
            return CompressedPoint { w: QuinticExtension::zero() };
        }
        let t = Self::adiv3();
        let d = t - self.x;
        t.show_canonical();
        self.x.show_canonical();
        proof {
            lemma_difference_zero(t, self.x);
        }
        CompressedPoint { w: divide(&self.y, &d) }
    }

    /// The point that a compressed point stands for: the point at infinity for
    /// zero, `None` where the discriminant is no square.
    pub fn decode(c: CompressedPoint) -> (r: Option<Self>)
        ensures
            c.w == QuinticExtension::nought() ==> r == Some(infinity()),
            c.w != QuinticExtension::nought() ==> {
                &&& r is Some <==> exists|s: QuinticExtension| #[trigger]
                    qsquares_to(s, discriminant(c.w))
                &&& r matches Some(p) ==> decodes_to(c.w, p)
            },
    {
        let w = c.w;
        w.show_canonical();
        if w.is_zero() {
            return Some(Self::neutral());
        }
        let e = w.square() - Self::a();
        let delta = e.square() - Self::b4mul();
        match delta.sqrt() {
            None => {
                proof {
                    assert forall|s: QuinticExtension| !#[trigger] qsquares_to(s, discriminant(w)) by {
                        assert(!s.root_of(delta));
                    }
                }
                None
            },
            Some(r) => {
                let half = GoldilocksField::from_canonical_u64(9223372034707292161);
                let x1 = (e + r).scalar_mul(half);
                let x2 = (e - r).scalar_mul(half);
                r.show_canonical();
                x1.show_canonical();
                x2.show_canonical();
                proof {
                    lemma_konst_scale(9223372034707292161, e + r);
                    lemma_konst_scale(9223372034707292161, e - r);
                    lemma_candidates(w, r);
                    lemma_mul_comm(x1, x2);
                    lemma_coefficients();
                    lemma_one_times(x1);
                    lemma_one_times(x2);
                    if x1.character() != LegendreSymbol::ONE && x2.character()
                        != LegendreSymbol::ONE {
                        lemma_product_of_non_squares(x1, x2);
                        let s = choose|s: QuinticExtension| #[trigger] qsquares_to(s, x1 * x2);
                        lemma_b_is_no_square(s);
                    }
                    assert(qsquares_to(r, discriminant(w)));
                }
                let x = match x1.legendre() {
                    LegendreSymbol::ONE => x1,
                    _ => x2,
                };
                assert(is_abscissa(w, x));
                Some(PointEw { x: x + Self::adiv3(), y: w.neg() * x, at_inf: false })
            },
        }
    }
}

} // verus!
