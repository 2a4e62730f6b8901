//! The curve EcGFp5 in short Weierstrass form over the quintic extension.
use core::ops::Neg;

use vstd::arithmetic::div_mod::{
    lemma_basic_div, lemma_div_basics, lemma_div_denominator, lemma_fundamental_div_mod, lemma_hoist_over_denominator,
    lemma_mod_bound, lemma_small_mod,
};
use vstd::arithmetic::mul::{lemma_mul_is_associative, lemma_mul_is_commutative};
use vstd::arithmetic::power2::{lemma2_to64, lemma_pow2_adds, lemma_pow2_pos, pow2};
use vstd::prelude::*;

use crate::arith::lemma_cong_multiple;
use crate::field::GOLDILOCKS_ORDER;
use crate::primes::{goldilocks, lemma_prime_divides_product};
use crate::quintic::{lemma_mul_assoc, lemma_mul_comm, lemma_zero_one, QuinticExtension};
use crate::quintic_field::{lemma_konst_scale, lemma_shape};
use crate::quintic_power::{lemma_mul_canonical, lemma_one_times};
use crate::scalar::Scalar;

verus! {

/// The coordinates of the generator.
pub const GENERATOR_X: [u64; 5] = [
    11712523173042564207,
    14090224426659529053,
    13197813503519687414,
    16280770174934269299,
    15998333998318935536,
];

pub const GENERATOR_Y: [u64; 5] = [
    14639054205878357578,
    17426078571020221072,
    2548978194165003307,
    8663895577921260088,
    9793640284382595140,
];

/// The coefficient `a` of the curve `y^2 = x (x^2 + a x + b)`.
pub open spec fn coeff_a() -> QuinticExtension {
    QuinticExtension::of_ints(2, 0, 0, 0, 0)
}

/// The coefficient `b = 263 z` of the curve `y^2 = x (x^2 + a x + b)`.
pub open spec fn coeff_b() -> QuinticExtension {
    QuinticExtension::of_ints(0, 263, 0, 0, 0)
}

/// `a / 3`, by which the two forms of the curve are shifted.
pub open spec fn coeff_a_third() -> QuinticExtension {
    QuinticExtension::of_ints(6148914689804861441, 0, 0, 0, 0)
}

/// The coefficient `A` of `y^2 = x^3 + A x + B`: `b - a^2/3`.
pub open spec fn coeff_cap_a() -> QuinticExtension {
    QuinticExtension::of_ints(6148914689804861439, 263, 0, 0, 0)
}

/// The coefficient `B` of `y^2 = x^3 + A x + B`: `a (2 a^2 - 9 b) / 27`.
pub open spec fn coeff_cap_b() -> QuinticExtension {
    QuinticExtension::of_ints(15713893096167979237, 6148914689804861265, 0, 0, 0)
}

/// A small integer as an element of the extension.
pub open spec fn small(c: int) -> QuinticExtension {
    QuinticExtension::of_ints(c, 0, 0, 0, 0)
}

/// The quotient: the element that times `d` gives `a`.
pub open spec fn quotient(a: QuinticExtension, d: QuinticExtension) -> QuinticExtension {
    choose|q: QuinticExtension| q.canonical() && #[trigger] (q * d) == a
}

/// There is one quotient by a non-zero element.
pub(crate) proof fn lemma_quotient(
    a: QuinticExtension,
    d: QuinticExtension,
    q: QuinticExtension,
    i: QuinticExtension,
)
    requires
        q.canonical(),
        q * d == a,
        d * i == QuinticExtension::unit(),
    ensures
        q == quotient(a, d),
{
    let c = quotient(a, d);
    assert(c.canonical() && c * d == a);
    crate::quintic_power::lemma_cancel(d, i, q, c);
}

/// The quotient, computed.
pub(crate) fn divide(a: &QuinticExtension, d: &QuinticExtension) -> (q: QuinticExtension)
    requires
        *d != QuinticExtension::nought(),
    ensures
        q == quotient(*a, *d),
        q.canonical(),
        q * *d == *a,
{
    let i = d.inverse();
    let q = *a * i;
    a.show_canonical();
    q.show_canonical();
    proof {
        lemma_mul_assoc(*a, i, *d);
        lemma_one_times(*a);
        lemma_quotient(*a, *d, q, i);
    }
    q
}

/// A point in compressed form.
#[derive(Clone, Copy, Debug, PartialEq, Eq, Structural, Hash)]
pub struct CompressedPoint {
    pub w: QuinticExtension,
}

impl CompressedPoint {
    /// The compressed point with the given canonical coefficients.
    pub fn from_canonical_u64s(v: [u64; 5]) -> (r: Self)
        requires
            forall|i: int| 0 <= i < 5 ==> v[i] < GOLDILOCKS_ORDER,
        ensures
            r.w == QuinticExtension::of_ints(
                v[0] as int,
                v[1] as int,
                v[2] as int,
                v[3] as int,
                v[4] as int,
            ),
    {
        CompressedPoint { w: QuinticExtension::from_canonical_u64s(v) }
    }
}

/// A point in affine coordinates, or the point at infinity.
#[derive(Clone, Copy, Debug, PartialEq, Eq, Structural)]
pub struct PointEw {
    pub x: QuinticExtension,
    pub y: QuinticExtension,
    pub at_inf: bool,
}

/// The point at infinity as the operations make it.
pub open spec fn infinity() -> PointEw {
    PointEw { x: QuinticExtension::nought(), y: QuinticExtension::nought(), at_inf: true }
}

/// The generator of the group.
pub open spec fn generator_point() -> PointEw {
    PointEw {
        x: QuinticExtension::of_ints(
            11712523173042564207,
            14090224426659529053,
            13197813503519687414,
            16280770174934269299,
            15998333998318935536,
        ),
        y: QuinticExtension::of_ints(
            14639054205878357578,
            17426078571020221072,
            2548978194165003307,
            8663895577921260088,
            9793640284382595140,
        ),
        at_inf: false,
    }
}

/// The third point of the line of slope `l` through `p` and a point with first
/// coordinate `x2`, mirrored.
pub open spec fn line_sum(p: PointEw, x2: QuinticExtension, l: QuinticExtension) -> PointEw {
    let x3 = l * l - p.x - x2;
    PointEw { x: x3, y: l * (p.x - x3) - p.y, at_inf: false }
}

/// The slope of the line through two points.
pub open spec fn chord_slope(p: PointEw, q: PointEw) -> QuinticExtension {
    quotient(q.y - p.y, q.x - p.x)
}

/// The slope of the tangent: `(3 x^2 + A) / (2 y)`.
pub open spec fn tangent_slope(p: PointEw) -> QuinticExtension {
    quotient((p.x * p.x) * small(3) + coeff_cap_a(), p.y * small(2))
}

/// The sum of two points with different first coordinates.
pub open spec fn chord_sum(p: PointEw, q: PointEw) -> PointEw {
    line_sum(p, q.x, chord_slope(p, q))
}

/// Twice a point whose second coordinate is not zero.
pub open spec fn point_double(p: PointEw) -> PointEw {
    line_sum(p, p.x, tangent_slope(p))
}

/// The sum of two points.
pub open spec fn point_add(p: PointEw, q: PointEw) -> PointEw {
    if p.at_inf {
        q
    } else if q.at_inf {
        p
    } else if p.x == q.x {
        if p.y == q.y {
            point_double(p)
        } else {
            infinity()
        }
    } else {
        chord_sum(p, q)
    }
}

/// Whether a point can be doubled by the tangent.
pub open spec fn can_double(p: PointEw) -> bool {
    p.y != QuinticExtension::nought()
}

/// Whether the sum of two points needs no vertical tangent.
pub open spec fn can_add(p: PointEw, q: PointEw) -> bool {
    !p.at_inf && !q.at_inf && p.x == q.x && p.y == q.y ==> can_double(p)
}

/// `k` times a point, by doubling and adding from the top bit of `k` down.
pub open spec fn multiple(p: PointEw, k: nat) -> PointEw
    decreases k,
{
    if k == 0 || p.at_inf {
        infinity()
    } else if k == 1 {
        p
    } else if k % 2 == 0 {
        point_double(multiple(p, k / 2))
    } else {
        point_add(point_double(multiple(p, k / 2)), p)
    }
}

/// Whether no step of that computation meets a vertical tangent.
pub open spec fn can_multiply(p: PointEw, k: nat) -> bool
    decreases k,
{
    if k <= 1 || p.at_inf {
        true
    } else {
        &&& can_multiply(p, k / 2)
        &&& can_double(multiple(p, k / 2))
        &&& k % 2 == 1 ==> can_add(point_double(multiple(p, k / 2)), p)
    }
}

/// The equation of the curve.
pub open spec fn on_curve(p: PointEw) -> bool {
    p.y * p.y == ((p.x * p.x) * p.x + coeff_cap_a() * p.x) + coeff_cap_b()
}

/// Whether the compressed form is defined.
pub open spec fn can_encode(p: PointEw) -> bool {
    p.at_inf || p.x != coeff_a_third()
}

/// The compressed form: zero for the point at infinity, else `y / (a/3 - x)`.
pub open spec fn compressed(p: PointEw) -> QuinticExtension {
    if p.at_inf {
        QuinticExtension::nought()
    } else {
        quotient(p.y, coeff_a_third() - p.x)
    }
}

impl PointEw {
    /// Whether the coordinates are canonical; every value that a program can make
    /// has canonical coordinates.
    pub open spec fn canonical(self) -> bool {
        self.x.canonical() && self.y.canonical()
    }

    pub(crate) fn show_canonical(&self)
        ensures
            self.canonical(),
    {
        self.x.show_canonical();
        self.y.show_canonical();
    }

    /// The point at infinity.
    pub fn neutral() -> (r: Self)
        ensures
            r == infinity(),
    {
        PointEw { x: QuinticExtension::zero(), y: QuinticExtension::zero(), at_inf: true }
    }

    /// The coefficient `a`.
    pub fn a() -> (r: QuinticExtension)
        ensures
            r == coeff_a(),
    {
        QuinticExtension::from_canonical_u64s([2, 0, 0, 0, 0])
    }

    /// A third of the coefficient `a`.
    pub fn adiv3() -> (r: QuinticExtension)
        ensures
            r == coeff_a_third(),
    {
        QuinticExtension::from_canonical_u64s([6148914689804861441, 0, 0, 0, 0])
    }

    /// The coefficient `b`.
    pub fn b() -> (r: QuinticExtension)
        ensures
            r == coeff_b(),
    {
        QuinticExtension::from_canonical_u64s([0, 263, 0, 0, 0])
    }

    /// Four times the coefficient `b`.
    pub fn b4mul() -> (r: QuinticExtension)
        ensures
            r == QuinticExtension::of_ints(0, 1052, 0, 0, 0),
    {
        QuinticExtension::from_canonical_u64s([0, 1052, 0, 0, 0])
    }

    /// The coefficient `A`.
    pub fn cap_a() -> (r: QuinticExtension)
        ensures
            r == coeff_cap_a(),
    {
        QuinticExtension::from_canonical_u64s([6148914689804861439, 263, 0, 0, 0])
    }

    /// The coefficient `B`.
    pub fn cap_b() -> (r: QuinticExtension)
        ensures
            r == coeff_cap_b(),
    {
        QuinticExtension::from_canonical_u64s([15713893096167979237, 6148914689804861265, 0, 0, 0])
    }

    /// The generator of the group.
    pub fn generator() -> (r: Self)
        ensures
            r == generator_point(),
    {
        PointEw {
            x: QuinticExtension::from_canonical_u64s(GENERATOR_X),
            y: QuinticExtension::from_canonical_u64s(GENERATOR_Y),
            at_inf: false,
        }
    }

    /// A small integer as an element of the extension.
    pub fn scalar(c: u64) -> (r: QuinticExtension)
        requires
            c < GOLDILOCKS_ORDER,
        ensures
            r == small(c as int),
    {
        QuinticExtension::from_canonical_u64s([c, 0, 0, 0, 0])
    }

    /// The sum of two points with different first coordinates.
    pub fn add_incomplete(&self, rhs: &PointEw) -> (r: Self)
        requires
            self.x != rhs.x,
        ensures
            r == chord_sum(*self, *rhs),
    {
        let lambda = self.tangent(rhs);
        let x3 = lambda * lambda - self.x - rhs.x;
        let y3 = lambda * (self.x - x3) - self.y;
        PointEw { x: x3, y: y3, at_inf: false }
    }

    /// The sum of two points.
    pub fn add(&self, rhs: &PointEw) -> (r: Self)
        requires
            can_add(*self, *rhs),
        ensures
            r == point_add(*self, *rhs),
    {
        if self.at_inf {
            return *rhs;
        }
        if rhs.at_inf {
            return *self;
        }
        if self.x == rhs.x {
            if self.y == rhs.y {
                return self.double();
            }
            return Self::neutral();
        }
        self.add_incomplete(rhs)
    }

    /// The slope of the line through two points with different first
    /// coordinates.
    pub fn tangent(&self, rhs: &PointEw) -> (r: QuinticExtension)
        requires
            self.x != rhs.x,
        ensures
            r == chord_slope(*self, *rhs),
            r.canonical(),
            r * (rhs.x - self.x) == rhs.y - self.y,
    {
        let dx = rhs.x - self.x;
        self.x.show_canonical();
        rhs.x.show_canonical();
        proof {
            lemma_difference_zero(rhs.x, self.x);
        }
        divide(&(rhs.y - self.y), &dx)
    }

    /// Twice a point whose second coordinate is not zero.
    pub fn double(&self) -> (r: Self)
        requires
            can_double(*self),
        ensures
            r == point_double(*self),
    {
        let x_sq = self.x * self.x;
        let num = x_sq * Self::scalar(3) + Self::cap_a();
        let den = self.y * Self::scalar(2);
        self.y.show_canonical();
        proof {
            lemma_twice_nonzero(self.y);
        }
        let lambda = divide(&num, &den);
        let x3 = lambda * lambda - self.x - self.x;
        let y3 = lambda * (self.x - x3) - self.y;
        PointEw { x: x3, y: y3, at_inf: false }
    }

    /// Whether the coordinates meet the equation of the curve.
    pub fn is_on_curve(&self) -> (r: bool)
        ensures
            r == on_curve(*self),
    {
        self.y.square() == (self.x.square() * self.x) + Self::cap_a() * self.x + Self::cap_b()
    }

    /// The multiple of the point by the low 319 bits of the scalar.
    pub fn scalar_mul(&self, s: &Scalar) -> (r: Self)
        requires
            can_multiply(*self, s.value() % pow2(319)),
        ensures
            r == multiple(*self, s.value() % pow2(319)),
    {
        let ghost v = s.value();
        proof {
            lemma2_to64();
            lemma_pow2_pos(319);
            lemma_mod_bound(v as int, pow2(319) as int);
            lemma_div_basics((v % pow2(319)) as int);
            assert((v % pow2(319)) / pow2(0) == v % pow2(319));
        }
        if self.at_inf {
            assert(multiple(*self, v % pow2(319)) == infinity());
            return Self::neutral();
        }
        let bits = s.to_bit_arr();
        let top: usize = bit_length(&bits, Ghost(v));
        if top == 0 {
            return Self::neutral();
        }
        let mut acc = *self;
        let mut i: usize = top - 1;
        while i > 0
            invariant
                i <= 318,
                self.multiplied(v, acc, i as nat),
                bits_of(bits@, v),
            decreases i,
        {
            i -= 1;
            acc = self.ladder_step(acc, bits[i], Ghost(v), Ghost(i as nat));
        }
        acc
    }

    /// The multiple of the point by the low 319 bits of the scalar, or `None` where
    /// a step of the computation meets a vertical tangent.
    pub fn try_scalar_mul(&self, s: &Scalar) -> (r: Option<Self>)
        ensures
            r is Some <==> can_multiply(*self, s.value() % pow2(319)),
            r matches Some(p) ==> p == multiple(*self, s.value() % pow2(319)),
    {
        let ghost v = s.value();
        let ghost k = v % pow2(319);
        proof {
            lemma2_to64();
            lemma_pow2_pos(319);
            lemma_mod_bound(v as int, pow2(319) as int);
            lemma_div_basics(k as int);
            assert(k / pow2(0) == k);
        }
        if self.at_inf {
            return Some(Self::neutral());
        }
        let bits = s.to_bit_arr();
        let top: usize = bit_length(&bits, Ghost(v));
        if top == 0 {
            return Some(Self::neutral());
        }
        let mut acc = *self;
        let mut i: usize = top - 1;
        while i > 0
            invariant
                i <= 318,
                v == s.value(),
                k == v % pow2(319),
                !self.at_inf,
                k / pow2(i as nat) >= 1,
                acc == multiple(*self, k / pow2(i as nat)),
                can_multiply(*self, k / pow2(i as nat)),
                bits_of(bits@, v),
            decreases i,
        {
            i -= 1;
            proof {
                lemma_next_bit(v, i as nat);
                if can_multiply(*self, k) {
                    lemma_can_multiply_prefix(*self, k, i as nat);
                }
            }
            let d = match acc.try_double() {
                Some(d) => d,
                None => {
                    return None;
                },
            };
            if bits[i] {
                match d.try_add(self) {
                    Some(a) => {
                        acc = a;
                    },
                    None => {
                        return None;
                    },
                }
            } else {
                acc = d;
            }
        }
        Some(acc)
    }

    /// Twice the point, or `None` where its second coordinate is zero.
    pub fn try_double(&self) -> (r: Option<Self>)
        ensures
            r is Some <==> can_double(*self),
            r matches Some(p) ==> p == point_double(*self),
    {
        if self.y.is_zero() {
            None
        } else {
            Some(self.double())
        }
    }

    /// The sum of two points, or `None` where it needs a vertical tangent.
    pub fn try_add(&self, rhs: &PointEw) -> (r: Option<Self>)
        ensures
            r is Some <==> can_add(*self, *rhs),
            r matches Some(p) ==> p == point_add(*self, *rhs),
    {
        if !self.at_inf && !rhs.at_inf && self.x == rhs.x && self.y == rhs.y && self.y.is_zero() {
            None
        } else {
            Some(self.add(rhs))
        }
    }

    /// Whether the compressed form of the point is defined.
    pub fn has_encoding(&self) -> (r: bool)
        ensures
            r == can_encode(*self),
    {
        self.at_inf || self.x != Self::adiv3()
    }

    /// The state of the multiplication after the bits from the top down to `i`.
    spec fn multiplied(self, v: nat, acc: PointEw, i: nat) -> bool {
        let k = v % pow2(319);
        &&& !self.at_inf
        &&& k / pow2(i) >= 1
        &&& acc == multiple(self, k / pow2(i))
        &&& can_multiply(self, k)
    }

    /// Doubles, and adds the point where the bit is set.
    fn ladder_step(&self, acc: PointEw, bit: bool, Ghost(v): Ghost<nat>, Ghost(i): Ghost<nat>) -> (r:
        PointEw)
        requires
            i < 319,
            self.multiplied(v, acc, i + 1),
            bit == ((v / pow2(i)) % 2 == 1),
        ensures
            self.multiplied(v, r, i),
    {
        proof {
            lemma_next_bit(v, i);
            lemma_multiply_step(*self, v % pow2(319), i);
        }
        let d = acc.double();
        if bit {
            d.add(self)
        } else {
            d
        }
    }
}

/// The opposite point: the second coordinate negated. The result is never marked
/// as the point at infinity.
impl core::ops::Neg for PointEw {
    type Output = PointEw;

    fn neg(self) -> (r: PointEw) {
        PointEw { x: self.x, y: self.y.neg(), at_inf: false }
    }
}

impl vstd::std_specs::ops::NegSpecImpl for PointEw {
    open spec fn obeys_neg_spec() -> bool {
        true
    }

    open spec fn neg_req(self) -> bool {
        true
    }

    open spec fn neg_spec(self) -> PointEw {
        PointEw { x: self.x, y: self.y.spec_neg(), at_inf: false }
    }
}

/// The bits of the low part of an integer.
spec fn bits_of(bits: Seq<bool>, v: nat) -> bool {
    bits.len() == 319 && forall|i: int|
        0 <= i < 319 ==> #[trigger] bits[i] == ((v / pow2(i as nat)) % 2 == 1)
}

/// The number of bits up to the highest one that is set.
fn bit_length(bits: &[bool; 319], Ghost(v): Ghost<nat>) -> (top: usize)
    requires
        bits_of(bits@, v),
    ensures
        top <= 319,
        (v % pow2(319)) / pow2(top as nat) == 0,
        top > 0 ==> (v % pow2(319)) / pow2((top - 1) as nat) == 1,
{
    let mut top: usize = 319;
    proof {
        lemma_low_bits(v, 319);
    }
    while top > 0 && !bits[top - 1]
        invariant
            top <= 319,
            (v % pow2(319)) / pow2(top as nat) == 0,
            bits_of(bits@, v),
        decreases top,
    {
        proof {
            lemma_next_bit(v, (top - 1) as nat);
        }
        top -= 1;
    }
    proof {
        if top > 0 {
            lemma_next_bit(v, (top - 1) as nat);
        }
    }
    top
}

pub(crate) proof fn lemma_difference_zero(a: QuinticExtension, b: QuinticExtension)
    requires
        a.canonical(),
        b.canonical(),
    ensures
        a - b == QuinticExtension::nought() <==> a == b,
{
    reveal(QuinticExtension::spec_sub);
    lemma_shape(a - b);
    lemma_mul_canonical(a, b);
    lemma_zero_one(a);
    let p = goldilocks();
    if a - b == QuinticExtension::nought() {
        lemma_small_difference(a.c0@, b.c0@);
        lemma_small_difference(a.c1@, b.c1@);
        lemma_small_difference(a.c2@, b.c2@);
        lemma_small_difference(a.c3@, b.c3@);
        lemma_small_difference(a.c4@, b.c4@);
        lemma_small_mod(0, p as nat);
        assert((a - b).c0@ == 0 && (a - b).c1@ == 0 && (a - b).c2@ == 0 && (a - b).c3@ == 0 && (a
            - b).c4@ == 0);
    }
}

proof fn lemma_small_difference(x: int, y: int)
    requires
        0 <= x < goldilocks(),
        0 <= y < goldilocks(),
    ensures
        (x - y) % goldilocks() == 0 ==> x == y,
{
    if x >= y {
        lemma_small_mod((x - y) as nat, goldilocks() as nat);
    } else {
        lemma_cong_multiple(x - y, 1, goldilocks());
        lemma_small_mod((x - y + goldilocks()) as nat, goldilocks() as nat);
    }
}

pub(crate) proof fn lemma_twice_nonzero(y: QuinticExtension)
    requires
        y.canonical(),
        y != QuinticExtension::nought(),
    ensures
        y * small(2) != QuinticExtension::nought(),
{
    let p = goldilocks();
    lemma_mul_comm(y, small(2));
    lemma_konst_scale(2, y);
    lemma_small_mod(0, p as nat);
    lemma_shape(y);
    let t = QuinticExtension::of(y@.scale(2));
    if t == QuinticExtension::nought() {
        assert(t.c0@ == 0 && t.c1@ == 0 && t.c2@ == 0 && t.c3@ == 0 && t.c4@ == 0);
        lemma_prime_divides_product(2, y.c0@);
        lemma_prime_divides_product(2, y.c1@);
        lemma_prime_divides_product(2, y.c2@);
        lemma_prime_divides_product(2, y.c3@);
        lemma_prime_divides_product(2, y.c4@);
        lemma_small_mod(y.c0@ as nat, p as nat);
        lemma_small_mod(y.c1@ as nat, p as nat);
        lemma_small_mod(y.c2@ as nat, p as nat);
        lemma_small_mod(y.c3@ as nat, p as nat);
        lemma_small_mod(y.c4@ as nat, p as nat);
    }
}

/// The bits above the ones that are kept.
proof fn lemma_low_bits(v: nat, n: nat)
    ensures
        (v % pow2(n)) / pow2(n) == 0,
{
    lemma_pow2_pos(n);
    lemma_mod_bound(v as int, pow2(n) as int);
    lemma_basic_div((v % pow2(n)) as int, pow2(n) as int);
}

/// One bit further down.
proof fn lemma_next_bit(v: nat, i: nat)
    requires
        i < 319,
    ensures
        ({
            let k = v % pow2(319);
            &&& k / pow2(i) == 2 * (k / pow2(i + 1)) + (v / pow2(i)) % 2
            &&& k / pow2(i + 1) == (k / pow2(i)) / 2
        }),
{
    let m = pow2(319);
    let k = v % m;
    let w = pow2(i);
    lemma_pow2_pos(i);
    lemma_pow2_pos(319);
    lemma_pow2_adds(i, 1);
    lemma2_to64();
    lemma_div_denominator(k as int, w as int, 2);
    // v is k plus a multiple of 2^319, which leaves the bit unchanged
    let q = (v / m) as int;
    lemma_fundamental_div_mod(v as int, m as int);
    let e = (318 - i) as nat;
    lemma_pow2_adds(i, 1 + e);
    lemma_pow2_adds(1, e);
    let j = (2 * pow2(e)) * q;
    assert(m * q == w * j) by (nonlinear_arith)
        requires
            m == w * (2 * pow2(e)),
            j == (2 * pow2(e)) * q,
    ;
    lemma_hoist_over_denominator(k as int, j, w);
    lemma_mul_is_commutative(j, w as int);
    lemma_mul_is_associative(2, pow2(e) as int, q);
    assert(j % 2 == 0);
}

/// What one step of the computation does.
proof fn lemma_multiply_step(p: PointEw, k: nat, i: nat)
    requires
        can_multiply(p, k),
        !p.at_inf,
        k / pow2(i + 1) >= 1,
        k / pow2(i + 1) == (k / pow2(i)) / 2,
    ensures
        ({
            let m = k / pow2(i);
            let h = multiple(p, k / pow2(i + 1));
            &&& can_double(h)
            &&& m % 2 == 0 ==> multiple(p, m) == point_double(h)
            &&& m % 2 == 1 ==> can_add(point_double(h), p) && multiple(p, m) == point_add(
                point_double(h),
                p,
            )
        }),
{
    lemma_can_multiply_prefix(p, k, i);
}

/// Every step of the computation is one of the steps of the whole.
proof fn lemma_can_multiply_prefix(p: PointEw, k: nat, i: nat)
    requires
        can_multiply(p, k),
        !p.at_inf,
    ensures
        can_multiply(p, k / pow2(i)),
    decreases i,
{
    if i == 0 {
        lemma2_to64();
        lemma_div_basics(k as int);
        assert(k / pow2(i) == k);
    } else {
        let j = (i - 1) as nat;
        lemma_can_multiply_prefix(p, k, j);
        lemma_pow2_pos(j);
        lemma_pow2_adds(j, 1);
        lemma2_to64();
        lemma_div_denominator(k as int, pow2(j) as int, 2);
        let m = k / pow2(j);
        assert(k / pow2(i) == m / 2);
        assert(can_multiply(p, m / 2)) by {
            if m <= 1 {
                assert(m / 2 == 0);
            }
        }
    }
}

} // verus!
