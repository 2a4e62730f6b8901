//! The points of the group: the point at infinity, and the points of the curve
//! whose first coordinate, shifted, is a square.
//!
//! On them every tangent is defined, and sums stay among them.
use vstd::arithmetic::power::{lemma_pow1, pow};
use vstd::prelude::*;

use crate::chords::{
    joins, lemma_curve_canonical, lemma_joins_third, lemma_line_meets, line_at, meets,
};
use crate::compression::{
    decodes_to, is_abscissa, lemma_b_is_no_square, lemma_base_square, lemma_decoded_on_curve,
};
use crate::conjugate::{conjugate, conjugate2, konst, norm};
use crate::curve_laws::{cubic, cubic_slope, lemma_has_inverse, lemma_quotient_times};
use crate::ecgfp5::{
    can_double, can_encode, coeff_a, coeff_a_third, coeff_b, coeff_cap_a, coeff_cap_b, compressed, infinity,
    lemma_difference_zero, line_sum, on_curve, PointEw,
};
use crate::identity::{lemma_identity, lit, v, Expr};
use crate::primes::goldilocks;
use crate::quintic::{lemma_mul_assoc, lemma_mul_comm, lemma_of_view, lemma_zero_one, QuinticExtension};
use crate::quintic_field::{
    lemma_konst_view, lemma_mul_swap_inner, lemma_power_double, lemma_power_next, lemma_product_is,
};
use crate::quintic_power::{
    lemma_cancel, lemma_mul_canonical, lemma_one_times, lemma_square_iff_norm,
    lemma_units_canonical, qsquares_to,
};
use crate::quintic_ring::{lemma_z5_expand, Z5};
use crate::residue::{half_order, lemma_euler_criterion};

verus! {

/// `a^2 - 4 b`: the discriminant of `x^2 + a x + b`.
pub open spec fn factor_discriminant() -> QuinticExtension {
    QuinticExtension::of_ints(4, 18446744069414583269, 0, 0, 0)
}

/// The norm of the discriminant.
proof fn lemma_discriminant_norm()
    ensures
        norm(factor_discriminant()) == 18442878620359733249,
{
    let d = Z5 { c0: 4, c1: 18446744069414583269, c2: 0, c3: 0, c4: 0 };
    let c1 = Z5 { c0: 4, c1: 11369395446204967400, c2: 0, c3: 0, c4: 0 };
    let c2 = Z5 { c0: 4, c1: 13902011428516325471, c2: 0, c3: 0, c4: 0 };
    let e = Z5 { c0: 16, c1: 8851907151812249879, c2: 1824405347452097914, c3: 0, c4: 0 };
    let e2 = Z5 { c0: 16, c1: 9594836917602338650, c2: 3352024246590971061, c3: 0, c4: 0 };
    let f = Z5 { c0: 256, c1: 67328, c2: 17707264, c3: 4657010432, c4: 1224793743616 };
    let n = Z5 { c0: 18442878620359733249, c1: 0, c2: 0, c3: 0, c4: 0 };
    lemma_of_view(d);
    lemma_of_view(c1);
    lemma_of_view(c2);
    lemma_of_view(e);
    assert(conjugate(factor_discriminant()) == QuinticExtension::of(c1));
    assert(conjugate(QuinticExtension::of(c1)) == QuinticExtension::of(c2));
    lemma_z5_expand(c1, c2);
    lemma_product_is(c1, c2, e);
    assert(conjugate2(QuinticExtension::of(e)) == QuinticExtension::of(e2));
    lemma_z5_expand(e, e2);
    lemma_product_is(e, e2, f);
    lemma_z5_expand(d, f);
    lemma_product_is(d, f, n);
    lemma_of_view(n);
}

/// The norm of the discriminant has half power minus one.
proof fn lemma_discriminant_power()
    ensures
        pow(18442878620359733249, half_order()) % goldilocks() == goldilocks() - 1,
{
    lemma_pow1(18442878620359733249);
    lemma_power_double(18442878620359733249, 1, 18442878620359733249, 12305027772476451717);
    lemma_power_next(18442878620359733249, 2, 12305027772476451717, 5867015487426919541);
    lemma_power_double(18442878620359733249, 3, 5867015487426919541, 15763775155383480811);
    lemma_power_next(18442878620359733249, 6, 15763775155383480811, 7310964248841148697);
    lemma_power_double(18442878620359733249, 7, 7310964248841148697, 14586182550896223349);
    lemma_power_next(18442878620359733249, 14, 14586182550896223349, 13877606422213180752);
    lemma_power_double(18442878620359733249, 15, 13877606422213180752, 18352338271322002302);
    lemma_power_next(18442878620359733249, 30, 18352338271322002302, 246190980680777763);
    lemma_power_double(18442878620359733249, 31, 246190980680777763, 18097572732235854070);
    lemma_power_next(18442878620359733249, 62, 18097572732235854070, 7625908324713336283);
    lemma_power_double(18442878620359733249, 63, 7625908324713336283, 1185473160267212204);
    lemma_power_next(18442878620359733249, 126, 1185473160267212204, 17108344997509594986);
    lemma_power_double(18442878620359733249, 127, 17108344997509594986, 15539472962560192116);
    lemma_power_next(18442878620359733249, 254, 15539472962560192116, 14290035542727381618);
    lemma_power_double(18442878620359733249, 255, 14290035542727381618, 14624050405564347935);
    lemma_power_next(18442878620359733249, 510, 14624050405564347935, 10998833035135750252);
    lemma_power_double(18442878620359733249, 511, 10998833035135750252, 13332095288914045351);
    lemma_power_next(18442878620359733249, 1022, 13332095288914045351, 1750640943406303244);
    lemma_power_double(18442878620359733249, 1023, 1750640943406303244, 11794899911390398992);
    lemma_power_next(18442878620359733249, 2046, 11794899911390398992, 2357126638718932459);
    lemma_power_double(18442878620359733249, 2047, 2357126638718932459, 12789852882335109501);
    lemma_power_next(18442878620359733249, 4094, 12789852882335109501, 15585105854388997898);
    lemma_power_double(18442878620359733249, 4095, 15585105854388997898, 7966208908556806380);
    lemma_power_next(18442878620359733249, 8190, 7966208908556806380, 14325315714589249913);
    lemma_power_double(18442878620359733249, 8191, 14325315714589249913, 430062446278492180);
    lemma_power_next(18442878620359733249, 16382, 430062446278492180, 12246329961504678559);
    lemma_power_double(18442878620359733249, 16383, 12246329961504678559, 12996257349696720587);
    lemma_power_next(18442878620359733249, 32766, 12996257349696720587, 10412857631716061642);
    lemma_power_double(18442878620359733249, 32767, 10412857631716061642, 8058562791152057817);
    lemma_power_next(18442878620359733249, 65534, 8058562791152057817, 5485067770342065651);
    lemma_power_double(18442878620359733249, 65535, 5485067770342065651, 15039238019017375386);
    lemma_power_next(18442878620359733249, 131070, 15039238019017375386, 14660347761735423664);
    lemma_power_double(18442878620359733249, 131071, 14660347761735423664, 11083501091518860998);
    lemma_power_next(18442878620359733249, 262142, 11083501091518860998, 1759791122948385676);
    lemma_power_double(18442878620359733249, 262143, 1759791122948385676, 10097526036674331836);
    lemma_power_next(18442878620359733249, 524286, 10097526036674331836, 16655252504810443003);
    lemma_power_double(18442878620359733249, 524287, 16655252504810443003, 676839011133911399);
    lemma_power_next(18442878620359733249, 1048574, 676839011133911399, 14107387646005481788);
    lemma_power_double(18442878620359733249, 1048575, 14107387646005481788, 1882352187362961037);
    lemma_power_next(18442878620359733249, 2097150, 1882352187362961037, 14880127848540360676);
    lemma_power_double(18442878620359733249, 2097151, 14880127848540360676, 5009600234450557942);
    lemma_power_next(18442878620359733249, 4194302, 5009600234450557942, 4423031359599265488);
    lemma_power_double(18442878620359733249, 4194303, 4423031359599265488, 443622356836491976);
    lemma_power_next(18442878620359733249, 8388606, 443622356836491976, 2825513086623800465);
    lemma_power_double(18442878620359733249, 8388607, 2825513086623800465, 4561346700447269225);
    lemma_power_next(18442878620359733249, 16777214, 4561346700447269225, 12558335311066795768);
    lemma_power_double(18442878620359733249, 16777215, 12558335311066795768, 5221322702254695095);
    lemma_power_next(18442878620359733249, 33554430, 5221322702254695095, 4100950247362623903);
    lemma_power_double(18442878620359733249, 33554431, 4100950247362623903, 840853159067513741);
    lemma_power_next(18442878620359733249, 67108862, 840853159067513741, 565457987749350578);
    lemma_power_double(18442878620359733249, 67108863, 565457987749350578, 17022283110869536120);
    lemma_power_next(18442878620359733249, 134217726, 17022283110869536120, 2455930796655831499);
    lemma_power_double(18442878620359733249, 134217727, 2455930796655831499, 2537613678591083155);
    lemma_power_next(18442878620359733249, 268435454, 2537613678591083155, 18289789915525546858);
    lemma_power_double(18442878620359733249, 268435455, 18289789915525546858, 14581984214946669217);
    lemma_power_next(18442878620359733249, 536870910, 14581984214946669217, 12732182242431086804);
    lemma_power_double(18442878620359733249, 536870911, 12732182242431086804, 2246452762898445008);
    lemma_power_next(18442878620359733249, 1073741822, 2246452762898445008, 6342818552955601607);
    lemma_power_double(18442878620359733249, 1073741823, 6342818552955601607, 3719330727848185871);
    lemma_power_next(18442878620359733249, 2147483646, 3719330727848185871, 6575690020947858292);
    lemma_power_double(18442878620359733249, 2147483647, 6575690020947858292, 104443132546460430);
    lemma_power_next(18442878620359733249, 4294967294, 104443132546460430, 9951399747893548643);
    lemma_power_double(18442878620359733249, 4294967295, 9951399747893548643, 3196403551597018142);
    lemma_power_double(18442878620359733249, 8589934590, 3196403551597018142, 11083511971228784209);
    lemma_power_double(18442878620359733249, 17179869180, 11083511971228784209, 12704921366449749852);
    lemma_power_double(18442878620359733249, 34359738360, 12704921366449749852, 6276691339865380553);
    lemma_power_double(18442878620359733249, 68719476720, 6276691339865380553, 4201606037910773287);
    lemma_power_double(18442878620359733249, 137438953440, 4201606037910773287, 3191998504291396108);
    lemma_power_double(18442878620359733249, 274877906880, 3191998504291396108, 4503440476509449457);
    lemma_power_double(18442878620359733249, 549755813760, 4503440476509449457, 2611609085789038069);
    lemma_power_double(18442878620359733249, 1099511627520, 2611609085789038069, 1910056904723687450);
    lemma_power_double(18442878620359733249, 2199023255040, 1910056904723687450, 17964966966475596069);
    lemma_power_double(18442878620359733249, 4398046510080, 17964966966475596069, 6001259847657770658);
    lemma_power_double(18442878620359733249, 8796093020160, 6001259847657770658, 1326762506909785872);
    lemma_power_double(18442878620359733249, 17592186040320, 1326762506909785872, 1879964257184535164);
    lemma_power_double(18442878620359733249, 35184372080640, 1879964257184535164, 6076035202530110159);
    lemma_power_double(18442878620359733249, 70368744161280, 6076035202530110159, 12029003853572935790);
    lemma_power_double(18442878620359733249, 140737488322560, 12029003853572935790, 3451016967331867589);
    lemma_power_double(18442878620359733249, 281474976645120, 3451016967331867589, 694550387500759903);
    lemma_power_double(18442878620359733249, 562949953290240, 694550387500759903, 15439408663400480506);
    lemma_power_double(18442878620359733249, 1125899906580480, 15439408663400480506, 11953142671923158007);
    lemma_power_double(18442878620359733249, 2251799813160960, 11953142671923158007, 4545828205931868498);
    lemma_power_double(18442878620359733249, 4503599626321920, 4545828205931868498, 16866238170898958338);
    lemma_power_double(18442878620359733249, 9007199252643840, 16866238170898958338, 18168576350837626231);
    lemma_power_double(18442878620359733249, 18014398505287680, 18168576350837626231, 16549024694582589649);
    lemma_power_double(18442878620359733249, 36028797010575360, 16549024694582589649, 10561990880479197442);
    lemma_power_double(18442878620359733249, 72057594021150720, 10561990880479197442, 72056494509522944);
    lemma_power_double(18442878620359733249, 144115188042301440, 72056494509522944, 8589934592);
    lemma_power_double(18442878620359733249, 288230376084602880, 8589934592, 17179869180);
    lemma_power_double(18442878620359733249, 576460752169205760, 17179869180, 18446744000695107585);
    lemma_power_double(18442878620359733249, 1152921504338411520, 18446744000695107585, 1099511627520);
    lemma_power_double(18442878620359733249, 2305843008676823040, 1099511627520, 18446462594437873665);
    lemma_power_double(18442878620359733249, 4611686017353646080, 18446462594437873665, 18446744069414584320);
}

/// The discriminant is no square, so `x^2 + a x + b` has no zero.
pub proof fn lemma_discriminant_is_no_square(s: QuinticExtension)
    ensures
        !qsquares_to(s, factor_discriminant()),
{
    if qsquares_to(s, factor_discriminant()) {
        lemma_of_view(Z5 { c0: 4, c1: 18446744069414583269, c2: 0, c3: 0, c4: 0 });
        lemma_square_iff_norm(factor_discriminant());
        lemma_discriminant_norm();
        lemma_discriminant_power();
        let n: int = 18442878620359733249;
        lemma_euler_criterion(n);
        lemma_base_square(n);
    }
}

/// How the coefficients of the two forms of the curve hang together: the shift is a
/// third of `a` and a zero of the cubic, and the slope of the cubic there is `b`.
pub(crate) proof fn lemma_shift()
    ensures
        coeff_a().canonical(),
        coeff_b().canonical(),
        coeff_a_third().canonical(),
        (coeff_a_third() + coeff_a_third()) + coeff_a_third() == coeff_a(),
        cubic_slope(coeff_a_third(), coeff_a_third()) == coeff_b(),
        cubic(coeff_a_third()) == QuinticExtension::nought(),
        coeff_a() * coeff_a() - konst(4) * coeff_b() == factor_discriminant(),
{
    reveal(QuinticExtension::spec_add);
    reveal(QuinticExtension::spec_sub);
    let t = Z5 { c0: 6148914689804861441, c1: 0, c2: 0, c3: 0, c4: 0 };
    let s = Z5 { c0: 16397105839479630508, c1: 0, c2: 0, c3: 0, c4: 0 };
    let c = Z5 { c0: 17080318582791281779, c1: 0, c2: 0, c3: 0, c4: 0 };
    let a = Z5 { c0: 6148914689804861439, c1: 263, c2: 0, c3: 0, c4: 0 };
    let b = Z5 { c0: 15713893096167979237, c1: 6148914689804861265, c2: 0, c3: 0, c4: 0 };
    let d = Z5 { c0: 4099276459869907626, c1: 12297829379609723056, c2: 0, c3: 0, c4: 0 };
    lemma_of_view(t);
    lemma_of_view(s);
    lemma_of_view(c);
    lemma_of_view(a);
    lemma_of_view(b);
    lemma_of_view(d);
    lemma_z5_expand(t, t);
    lemma_product_is(t, t, s);
    lemma_z5_expand(s, t);
    lemma_product_is(s, t, c);
    lemma_z5_expand(a, t);
    lemma_product_is(a, t, d);
    let (x, y, z) = (
        Z5 { c0: 2, c1: 0, c2: 0, c3: 0, c4: 0 },
        Z5 { c0: 0, c1: 263, c2: 0, c3: 0, c4: 0 },
        Z5 { c0: 4, c1: 0, c2: 0, c3: 0, c4: 0 },
    );
    let w = Z5 { c0: 0, c1: 1052, c2: 0, c3: 0, c4: 0 };
    lemma_of_view(x);
    lemma_of_view(y);
    lemma_of_view(z);
    lemma_of_view(w);
    lemma_z5_expand(x, x);
    lemma_product_is(x, x, z);
    lemma_z5_expand(z, y);
    lemma_product_is(z, y, w);
}

/// The first coordinate, shifted by a third of `a`.
pub open spec fn shifted(p: PointEw) -> QuinticExtension {
    p.x - coeff_a_third()
}

/// Whether `u` is a square root of the shifted first coordinate, and not zero.
pub open spec fn roots(u: QuinticExtension, p: PointEw) -> bool {
    &&& u.canonical()
    &&& u != QuinticExtension::nought()
    &&& u * u == shifted(p)
}

/// Whether a point belongs to the group.
pub open spec fn proper(p: PointEw) -> bool {
    if p.at_inf {
        p == infinity()
    } else {
        &&& p.canonical()
        &&& on_curve(p)
        &&& exists|u: QuinticExtension| #[trigger] roots(u, p)
    }
}

/// A product is zero only where a factor is.
pub proof fn lemma_no_zero_divisors(a: QuinticExtension, b: QuinticExtension)
    requires
        a.canonical(),
        b.canonical(),
        a * b == QuinticExtension::nought(),
    ensures
        a == QuinticExtension::nought() || b == QuinticExtension::nought(),
{
    if b != QuinticExtension::nought() {
        let i = lemma_has_inverse(b);
        lemma_units_canonical();
        lemma_one_times(b);
        lemma_cancel(b, i, a, QuinticExtension::nought());
    }
}

/// The equation of the curve in the shifted coordinate:
/// `y^2 = x (x^2 + a x + b)`.
proof fn lemma_shifted_equation(p: PointEw)
    requires
        p.canonical(),
        on_curve(p),
    ensures
        p.y * p.y == shifted(p) * ((shifted(p) * shifted(p) + coeff_a() * shifted(p)) + coeff_b()),
        shifted(p).canonical(),
{
    let t = coeff_a_third();
    lemma_shift();
    lemma_curve_canonical();
    lemma_mul_canonical(p.x, t);
    let env = seq![p.x, t, coeff_cap_a(), coeff_cap_b()];
    let (x, e, ea, eb) = (v(0), v(1), v(2), v(3));
    reveal_with_fuel(Expr::within, 8);
    reveal_with_fuel(Expr::int_value, 8);
    reveal_with_fuel(Expr::value, 8);
    let d = x - e;
    let left = ((x * x) * x + ea * x) + eb;
    let right = d * ((d * d + ((e + e) + e) * d) + (((e * e + e * e) + e * e) + ea)) + (((e * e) * e
        + ea * e) + eb);
    assert forall|n: Seq<int>| n.len() == env.len() implies #[trigger] left.int_value(n)
        == right.int_value(n) by {
        let (x, t, a, b) = (n[0], n[1], n[2], n[3]);
        let d = x - t;
        let q = t * t;
        assert((x * x) * x == d * (d * d + ((t + t) + t) * d + ((q + q) + q)) + q * t)
            by (nonlinear_arith)
            requires
                d == x - t,
                q == t * t,
        ;
        assert(a * x == d * a + a * t) by (nonlinear_arith)
            requires
                d == x - t,
        ;
        let w = d * d + ((t + t) + t) * d;
        assert(d * ((w + ((q + q) + q)) + a) == d * (w + ((q + q) + q)) + d * a)
            by (nonlinear_arith);
        assert((w + ((q + q) + q)) + a == w + (((q + q) + q) + a));
    }
    lemma_identity(left, right, env);
    let s = shifted(p);
    let w = s * ((s * s + coeff_a() * s) + coeff_b());
    lemma_mul_canonical(s, (s * s + coeff_a() * s) + coeff_b());
    lemma_zero_one(w);
}

/// The one point of the curve whose tangent is vertical is the one at the shift.
pub proof fn lemma_vertical_tangent(p: PointEw)
    requires
        p.canonical(),
        on_curve(p),
        !can_double(p),
    ensures
        p.x == coeff_a_third(),
{
    let o = QuinticExtension::nought();
    let s = shifted(p);
    lemma_shifted_equation(p);
    lemma_units_canonical();
    lemma_shift();
    lemma_difference_zero(p.x, coeff_a_third());
    if s != o {
        lemma_one_times(o);
        let (a, b) = (coeff_a(), coeff_b());
        let f = (s * s + a * s) + b;
        lemma_mul_canonical(s * s + a * s, b);
        lemma_no_zero_divisors(s, f);
        let env = seq![s, a, b];
        let (x, ea, eb) = (v(0), v(1), v(2));
        reveal_with_fuel(Expr::within, 8);
        reveal_with_fuel(Expr::int_value, 8);
        reveal_with_fuel(Expr::value, 8);
        let left = ((x + x) + ea) * ((x + x) + ea);
        let right = lit(4) * ((x * x + ea * x) + eb) + (ea * ea - lit(4) * eb);
        assert forall|n: Seq<int>| n.len() == env.len() implies #[trigger] left.int_value(n)
            == right.int_value(n) by {
            let (x, a, b) = (n[0], n[1], n[2]);
            assert(((x + x) + a) * ((x + x) + a) == 4 * ((x * x + a * x) + b) + (a * a - 4 * b))
                by (nonlinear_arith);
        }
        lemma_identity(left, right, env);
        lemma_konst_view(4);
        lemma_zero_one(konst(4));
        lemma_of_view(Z5 { c0: 4, c1: 18446744069414583269, c2: 0, c3: 0, c4: 0 });
        lemma_one_times(factor_discriminant());
        lemma_discriminant_is_no_square((s + s) + a);
    }
}

/// A point of the group other than the point at infinity has a tangent, is no zero
/// of the shifted coordinate, and so can be doubled and encoded.
pub proof fn lemma_proper_regular(p: PointEw)
    requires
        proper(p),
        !p.at_inf,
    ensures
        can_double(p),
        can_encode(p),
        shifted(p) != QuinticExtension::nought(),
{
    let o = QuinticExtension::nought();
    let u = choose|u: QuinticExtension| #[trigger] roots(u, p);
    let s = shifted(p);
    lemma_shifted_equation(p);
    lemma_units_canonical();
    if s == o {
        lemma_no_zero_divisors(u, u);
    }
    lemma_shift();
    lemma_difference_zero(p.x, coeff_a_third());
    if p.y == o {
        lemma_vertical_tangent(p);
    }
}

/// The product of the shifted coordinates of the three points of a line is the
/// square of the line at the shift.
proof fn lemma_line_product(p: PointEw, x2: QuinticExtension, l: QuinticExtension)
    requires
        meets(p, x2, l),
    ensures
        line_at(p, l, coeff_a_third()) * line_at(p, l, coeff_a_third()) == ((p.x - coeff_a_third())
            * (x2 - coeff_a_third())) * (line_sum(p, x2, l).x - coeff_a_third()),
{
    let t = coeff_a_third();
    lemma_shift();
    lemma_curve_canonical();
    lemma_units_canonical();
    lemma_line_meets(p, x2, l, t);
    let c = line_at(p, l, t);
    let w = c * c;
    lemma_mul_canonical(l * (t - p.x), p.y);
    lemma_mul_canonical(c, c);
    let x3 = line_sum(p, x2, l).x;
    lemma_mul_canonical(l * l - p.x, x2);
    let env = seq![t, p.x, x2, x3, w];
    let (e, e1, e2, e3, f) = (v(0), v(1), v(2), v(3), v(4));
    reveal_with_fuel(Expr::within, 6);
    reveal_with_fuel(Expr::int_value, 6);
    reveal_with_fuel(Expr::value, 6);
    let left = lit(0) - ((e - e1) * (e - e2)) * (e - e3);
    let right = ((e1 - e) * (e2 - e)) * (e3 - e);
    assert forall|n: Seq<int>| n.len() == env.len() implies #[trigger] left.int_value(n)
        == right.int_value(n) by {
        let (t, x, y, z) = (n[0], n[1], n[2], n[3]);
        assert((t - x) * (t - y) == (x - t) * (y - t)) by (nonlinear_arith);
        let k = (x - t) * (y - t);
        assert(0 - k * (t - z) == k * (z - t)) by (nonlinear_arith);
    }
    lemma_identity(left, right, env);
    let (a, b) = (lit(0) - (lit(0) - f), f);
    lemma_identity(a, b, env);
}

/// A line through two points of the group does not pass through the zero of the
/// shifted coordinate: else `b` would be a square.
proof fn lemma_third_not_at_shift(
    p: PointEw,
    q: PointEw,
    l: QuinticExtension,
    u1: QuinticExtension,
    u2: QuinticExtension,
)
    requires
        joins(p, q, l),
        roots(u1, p),
        roots(u2, q),
    ensures
        line_sum(p, q.x, l).x != coeff_a_third(),
{
    let t = coeff_a_third();
    let o = QuinticExtension::nought();
    lemma_shift();
    lemma_curve_canonical();
    lemma_units_canonical();
    let x3 = line_sum(p, q.x, l).x;
    if x3 == t {
        let (x1, y1, x2) = (p.x, p.y, q.x);
        let c = line_at(p, l, t);
        lemma_mul_canonical(l * (t - x1), y1);
        lemma_line_product(p, x2, l);
        lemma_mul_canonical(x1, t);
        lemma_mul_canonical(x2, t);
        lemma_mul_canonical(x1 - t, x2 - t);
        lemma_difference_zero(x3, t);
        lemma_one_times((x1 - t) * (x2 - t));
        lemma_no_zero_divisors(c, c);
        let env = seq![x1, x2, t, l, y1, coeff_cap_a()];
        let (e1, e2, e, el, f1, ea) = (v(0), v(1), v(2), v(3), v(4), v(5));
        reveal_with_fuel(Expr::within, 8);
        reveal_with_fuel(Expr::int_value, 8);
        reveal_with_fuel(Expr::value, 8);
        let h1 = (((e2 * e2 + e1 * e2) + e1 * e1) + ea) - (el * (f1 + f1) + (el * el) * (e2 - e1));
        let h2 = el * (e - e1) + f1;
        let h3 = ((el * el - e1) - e2) - e;
        let left = ((e * e + e * e) + e * e) + ea;
        let main = (e1 - e) * (e2 - e);
        let right = (main + (((el + el) * h2) + ((e1 - e) + (e2 - e)) * h3)) + h1;
        assert forall|n: Seq<int>| n.len() == env.len() implies #[trigger] left.int_value(n)
            == right.int_value(n) by {
            lemma_shift_ints(n[0], n[1], n[2], n[3], n[4], n[5]);
        }
        lemma_identity(left, right, env);
        // all three are zero
        let k = cubic_slope(x1, x2);
        let m = l * (y1 + y1) + (l * l) * (x2 - x1);
        lemma_mul_canonical((x2 * x2 + x1 * x2) + x1 * x1, coeff_cap_a());
        lemma_mul_canonical(l * (y1 + y1), (l * l) * (x2 - x1));
        lemma_difference_zero(k, m);
        assert(h1.value(env) == o);
        assert(h2.value(env) == o);
        assert(h3.value(env) == o);
        lemma_mul_canonical(l, l);
        lemma_zero_one(l + l);
        lemma_mul_canonical(x1 - t, x2 - t);
        lemma_zero_one((x1 - t) + (x2 - t));
        lemma_zero_one(o);
        lemma_zero_one((x1 - t) * (x2 - t));
        assert(coeff_b() == (x1 - t) * (x2 - t));
        lemma_mul_swap_inner(u1, u2, u1, u2);
        lemma_b_is_no_square(u1 * u2);
    }
}

proof fn lemma_shift_ints(x1: int, x2: int, t: int, l: int, y1: int, a: int)
    ensures
        ((t * t + t * t) + t * t) + a == ((x1 - t) * (x2 - t) + (((l + l) * (l * (t - x1) + y1)) + ((
        x1 - t) + (x2 - t)) * (((l * l - x1) - x2) - t))) + ((((x2 * x2 + x1 * x2) + x1 * x1) + a)
            - (l * (y1 + y1) + (l * l) * (x2 - x1))),
{
    let s = l * l;
    let (p, q) = (x1 - t, x2 - t);
    assert((l + l) * (l * (t - x1) + y1) == 2 * (s * (t - x1)) + l * (y1 + y1)) by (nonlinear_arith)
        requires
            s == l * l,
    ;
    let d = ((s - x1) - x2) - t;
    assert((p + q) * d == s * p + s * q - (p + q) * (p + q + 3 * t)) by (nonlinear_arith)
        requires
            p == x1 - t,
            q == x2 - t,
            d == ((s - x1) - x2) - t,
    ;
    assert(s * (x2 - x1) == s * q - s * p) by (nonlinear_arith)
        requires
            p == x1 - t,
            q == x2 - t,
    ;
    assert(s * (t - x1) == -(s * p)) by (nonlinear_arith)
        requires
            p == x1 - t,
    ;
    assert((x2 * x2 + x1 * x2) + x1 * x1 == p * p + p * q + q * q + 3 * (t * (p + q)) + 3 * (t * t))
        by (nonlinear_arith)
        requires
            p == x1 - t,
            q == x2 - t,
    ;
    assert((p + q) * (p + q + 3 * t) == p * p + 2 * (p * q) + q * q + 3 * (t * (p + q)))
        by (nonlinear_arith);
}

/// The sum of two points of the group on a line belongs to the group.
pub proof fn lemma_line_sum_proper(p: PointEw, q: PointEw, l: QuinticExtension)
    requires
        proper(p),
        proper(q),
        joins(p, q, l),
    ensures
        proper(line_sum(p, q.x, l)),
        !line_sum(p, q.x, l).at_inf,
{
    let t = coeff_a_third();
    let u1 = choose|u: QuinticExtension| #[trigger] roots(u, p);
    let u2 = choose|u: QuinticExtension| #[trigger] roots(u, q);
    let r = line_sum(p, q.x, l);
    lemma_shift();
    lemma_curve_canonical();
    lemma_units_canonical();
    lemma_joins_third(p, q, l);
    lemma_third_not_at_shift(p, q, l, u1, u2);
    lemma_line_product(p, q.x, l);
    let c = line_at(p, l, t);
    let (x1, x2, x3) = (p.x - t, q.x - t, r.x - t);
    let u = u1 * u2;
    lemma_mul_canonical(u1, u2);
    if u == QuinticExtension::nought() {
        lemma_no_zero_divisors(u1, u2);
    }
    lemma_mul_swap_inner(u1, u2, u1, u2);
    assert(u * u == x1 * x2);
    let i = lemma_has_inverse(u);
    let w = c * i;
    // w^2 == x3
    lemma_mul_swap_inner(c, i, c, i);
    lemma_mul_swap_inner(u, i, u, i);
    lemma_mul_comm(u * u, x3);
    lemma_mul_assoc(x3, u * u, i * i);
    lemma_one_times(QuinticExtension::unit());
    lemma_mul_canonical(r.x, t);
    lemma_one_times(x3);
    assert(w * w == x3);
    lemma_mul_canonical(c, i);
    lemma_difference_zero(r.x, t);
    if w == QuinticExtension::nought() {
        lemma_one_times(QuinticExtension::nought());
    }
    assert(roots(w, r));
}

/// A square root can be taken to be an element.
proof fn lemma_canonical_root(s: QuinticExtension, x: QuinticExtension) -> (u: QuinticExtension)
    requires
        qsquares_to(s, x),
    ensures
        u.canonical(),
        u * u == x,
{
    reveal(QuinticExtension::spec_mul);
    let u = QuinticExtension::of(s@);
    lemma_of_view(s@);
    lemma_product_is(s@, s@, s@ * s@);
    u
}

/// Decoding gives a point of the group.
pub proof fn lemma_decoded_proper(w: QuinticExtension, p: PointEw)
    requires
        w.canonical(),
        decodes_to(w, p),
    ensures
        proper(p),
        !p.at_inf,
{
    let t = coeff_a_third();
    let x = choose|x: QuinticExtension| #[trigger]
        is_abscissa(w, x) && p == (PointEw { x: x + t, y: w.spec_neg() * x, at_inf: false });
    lemma_shift();
    lemma_decoded_on_curve(w, p);
    lemma_mul_canonical(x, t);
    lemma_mul_canonical(w.spec_neg(), x);
    crate::algebra::lemma_sub_add(x, t);
    let s = choose|s: QuinticExtension| #[trigger] qsquares_to(s, x);
    let u = lemma_canonical_root(s, x);
    lemma_units_canonical();
    if u == QuinticExtension::nought() {
        lemma_one_times(u);
    }
    assert(roots(u, p));
}

/// A point of the group is what its compressed form stands for.
pub proof fn lemma_encode_decode(p: PointEw)
    requires
        proper(p),
        !p.at_inf,
    ensures
        compressed(p) != QuinticExtension::nought(),
        decodes_to(compressed(p), p),
{
    let t = coeff_a_third();
    let o = QuinticExtension::nought();
    let x = shifted(p);
    let (a, b) = (coeff_a(), coeff_b());
    lemma_shift();
    lemma_curve_canonical();
    lemma_units_canonical();
    lemma_proper_regular(p);
    lemma_shifted_equation(p);
    lemma_difference_zero(p.x, t);
    lemma_difference_zero(t, p.x);
    lemma_mul_canonical(t, p.x);
    lemma_quotient_times(p.y, t - p.x);
    let w = compressed(p);
    lemma_one_times(t - p.x);
    // y == -w x
    crate::quintic::lemma_sub_is_add_neg(o, w);
    lemma_neg_canonical(w);
    lemma_one_times(w.spec_neg());
    let env = seq![w, p.x, t];
    let (ew, ex, et) = (v(0), v(1), v(2));
    reveal_with_fuel(Expr::within, 9);
    reveal_with_fuel(Expr::int_value, 9);
    reveal_with_fuel(Expr::value, 9);
    let (c, d) = (ew * (et - ex), (lit(0) - ew) * (ex - et));
    assert forall|n: Seq<int>| n.len() == env.len() implies #[trigger] c.int_value(n)
        == d.int_value(n) by {
        let (w, x, t) = (n[0], n[1], n[2]);
        assert(w * (t - x) == (0 - w) * (x - t)) by (nonlinear_arith);
    }
    lemma_identity(c, d, env);
    assert(p.y == w.spec_neg() * x);
    crate::algebra::lemma_sub_add(p.x, t);
    // x (w^2 - a - x) == b
    let env2 = seq![w, x, a, b];
    let (f, g, ea, eb) = (v(0), v(1), v(2), v(3));
    let left = (g * ((f * f - ea) - g)) * g;
    let right = (((lit(0) - f) * g) * ((lit(0) - f) * g) - g * ((g * g + ea * g) + eb)) + eb * g;
    assert forall|n: Seq<int>| n.len() == env2.len() implies #[trigger] left.int_value(n)
        == right.int_value(n) by {
        let (w, x, a, b) = (n[0], n[1], n[2], n[3]);
        let s = x * x;
        assert(((0 - w) * x) * ((0 - w) * x) == (w * w) * s) by (nonlinear_arith)
            requires
                s == x * x,
        ;
        let q = w * w;
        assert((x * ((q - a) - x)) * x == q * s - a * s - s * x) by (nonlinear_arith)
            requires
                s == x * x,
        ;
        assert(x * ((s + a * x) + b) == s * x + a * s + b * x) by (nonlinear_arith)
            requires
                s == x * x,
        ;
    }
    lemma_identity(left, right, env2);
    let k = x * ((w * w - a) - x);
    lemma_mul_canonical(p.y, p.y);
    lemma_zero_one(p.y * p.y);
    lemma_mul_canonical(b, x);
    lemma_one_times(b * x);
    assert(k * x == b * x);
    let i = lemma_has_inverse(x);
    lemma_mul_canonical(x, (w * w - a) - x);
    lemma_cancel(x, i, k, b);
    let u = choose|u: QuinticExtension| #[trigger] roots(u, p);
    assert(qsquares_to(u, x));
    assert(is_abscissa(w, x));
}

proof fn lemma_neg_canonical(w: QuinticExtension)
    ensures
        w.spec_neg().canonical(),
{
    reveal(QuinticExtension::spec_neg);
    lemma_of_view(Z5 { c0: 0, c1: 0, c2: 0, c3: 0, c4: 0 } - w@);
}

} // verus!
