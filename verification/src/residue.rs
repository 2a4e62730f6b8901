//! Quadratic residues and square roots in the Goldilocks field.
use vstd::arithmetic::div_mod::{
    lemma_mod_twice, lemma_mul_mod_noop, lemma_mul_mod_noop_left, lemma_mul_mod_noop_right,
    lemma_small_mod,
};
use vstd::arithmetic::mul::lemma_mul_is_associative;
use vstd::arithmetic::power::{
    lemma_pow1, lemma_pow_adds, lemma_pow_distributes, lemma_pow_multiplies, pow,
};
use vstd::arithmetic::power2::{lemma2_to64, lemma_pow2_adds, pow2};
use vstd::prelude::*;

use crate::arith::{lemma_cong_add, lemma_cong_mul, lemma_mul_swap};
use crate::field::GoldilocksField;
use crate::primes::{
    goldilocks, lemma_fermat, lemma_pow_cong, lemma_power_of_two_generator,
    lemma_prime_divides_product,
};

verus! {

/// A square root, where there is one.
pub trait Sqrt: Sized {
    /// Whether the square of this element is `x`.
    spec fn root_of(self, x: Self) -> bool;

    /// A square root of the element, or `None` if it is no square.
    fn sqrt(&self) -> (r: Option<Self>)
        ensures
            r matches Some(s) ==> s.root_of(*self),
            r is None ==> forall|s: Self| !#[trigger] s.root_of(*self),
    ;
}

/// The quadratic character of a field element.
#[derive(Clone, Copy, Debug, PartialEq, Eq, Structural)]
#[allow(clippy::upper_case_acronyms)]
pub enum LegendreSymbol {
    ZERO,
    ONE,
    /// Minus one.
    NEGONE,
}

impl From<u64> for LegendreSymbol {
    fn from(value: u64) -> (r: Self) {
        if value == 0 {
            LegendreSymbol::ZERO
        } else if value == 1 {
            LegendreSymbol::ONE
        } else {
            LegendreSymbol::NEGONE
        }
    }
}

impl vstd::std_specs::convert::FromSpecImpl<u64> for LegendreSymbol {
    open spec fn obeys_from_spec() -> bool {
        true
    }

    open spec fn from_spec(value: u64) -> Self {
        if value == 0 {
            LegendreSymbol::ZERO
        } else if value == 1 {
            LegendreSymbol::ONE
        } else {
            LegendreSymbol::NEGONE
        }
    }
}

/// The quadratic character.
pub trait Legendre: Sized {
    /// Zero for zero, one for the other squares, minus one for the rest.
    spec fn character(self) -> LegendreSymbol;

    /// The quadratic character of the element.
    fn legendre(&self) -> (r: LegendreSymbol)
        ensures
            r == self.character(),
    ;
}

/// Half of the order of the multiplicative group.
pub open spec fn half_order() -> nat {
    0x7fff_ffff_8000_0000
}

/// Whether an integer is a square modulo the Goldilocks prime.
pub open spec fn square_mod(a: int) -> bool {
    exists|s: int| #[trigger] (s * s) % goldilocks() == a % goldilocks()
}

/// Euler's criterion, the part that follows from Fermat's theorem.
proof fn lemma_half_power(a: int)
    requires
        0 < a < goldilocks(),
    ensures
        pow(a, half_order()) % goldilocks() == 1 || pow(a, half_order()) % goldilocks()
            == goldilocks() - 1,
{
    let p = goldilocks();
    let h = half_order();
    lemma_fermat(a);
    lemma_pow_adds(a, h, h);
    lemma_square_one(pow(a, h));
}

/// The square roots of one are one and minus one.
proof fn lemma_square_one(x: int)
    requires
        (x * x) % goldilocks() == 1,
    ensures
        x % goldilocks() == 1 || x % goldilocks() == goldilocks() - 1,
{
    let p = goldilocks();
    let r = x % p;
    lemma_mul_mod_noop(x, x, p);
    // (r - 1) * (r + 1) is divisible by p
    lemma_cong_add(r * r, 1, 1, 1, p);
    assert((r - 1) * (r + 1) == r * r - 1) by (nonlinear_arith);
    if r > 1 {
        lemma_prime_divides_product(r - 1, r + 1);
        if r + 1 < p {
            lemma_small_mod((r + 1) as nat, p as nat);
        }
    }
}

/// A non-zero square has half power one.
proof fn lemma_square_half_power(a: int, s: int)
    requires
        0 < a < goldilocks(),
        (s * s) % goldilocks() == a,
    ensures
        pow(a, half_order()) % goldilocks() == 1,
{
    let p = goldilocks();
    let h = half_order();
    let r = s % p;
    lemma_mul_mod_noop(s, s, p);
    assert(r != 0);
    lemma_fermat(r);
    lemma_pow_multiplies(r, 2, h);
    lemma_pow_adds(r, 1, 1);
    lemma_pow1(r);
    lemma_small_mod(a as nat, p as nat);
    lemma_pow_cong(a, r * r, h, p);
}

/// The state of the search for a square root of `a`: `x * x == a * b`, where `b`
/// and the helper `z` are roots of unity of known order.
spec fn search_state(a: int, x: int, b: int, z: int, v: nat) -> bool {
    &&& v >= 1
    &&& (x * x) % goldilocks() == (a * b) % goldilocks()
    &&& pow(b, pow2((v - 1) as nat)) % goldilocks() == 1
    &&& pow(z, pow2((v - 1) as nat)) % goldilocks() == goldilocks() - 1
}

/// One step of the search.
proof fn lemma_search_step(a: int, x: int, b: int, z: int, v: nat)
    requires
        v >= 2,
        search_state(a, x, b, z, v),
    ensures
        pow(b, pow2((v - 2) as nat)) % goldilocks() == 1 ==> search_state(
            a,
            x,
            b,
            (z * z) % goldilocks(),
            (v - 1) as nat,
        ),
        pow(b, pow2((v - 2) as nat)) % goldilocks() != 1 ==> search_state(
            a,
            (x * z) % goldilocks(),
            (b * ((z * z) % goldilocks())) % goldilocks(),
            (z * z) % goldilocks(),
            (v - 1) as nat,
        ),
{
    let p = goldilocks();
    let e = pow2((v - 2) as nat);
    lemma_pow2_adds((v - 2) as nat, 1);
    lemma2_to64();
    let z2 = (z * z) % p;
    // z2^e == z^(2e) == -1
    lemma_mod_twice(z * z, p);
    lemma_pow_cong(z2, z * z, e, p);
    lemma_pow_multiplies(z, 2, e);
    lemma_pow_adds(z, 1, 1);
    lemma_pow1(z);
    // b^e is one or minus one
    lemma_pow_adds(b, e, e);
    lemma_square_one(pow(b, e));
    if pow(b, e) % p != 1 {
        let b2 = (b * z2) % p;
        lemma_mod_twice(b * z2, p);
        lemma_pow_cong(b2, b * z2, e, p);
        lemma_pow_distributes(b, z2, e);
        lemma_mul_mod_noop(pow(b, e), pow(z2, e), p);
        assert(((p - 1) * (p - 1)) % p == 1);
        let x2 = (x * z) % p;
        lemma_mul_mod_noop(x * z, x * z, p);
        assert((x * z) * (x * z) == (x * x) * (z * z)) by (nonlinear_arith);
        lemma_cong_mul(x * x, a * b, z * z, p);
        lemma_mul_is_associative(a, b, z * z);
        lemma_mul_mod_noop_right(b, z * z, p);
        lemma_cong_mul(b * (z * z), b2, a, p);
    }
}

/// From any state of the search there is a square root.
proof fn lemma_search_ends(a: int, x: int, b: int, z: int, v: nat)
    requires
        search_state(a, x, b, z, v),
    ensures
        square_mod(a),
    decreases v,
{
    let p = goldilocks();
    if v == 1 {
        lemma2_to64();
        lemma_pow1(b);
        lemma_cong_mul(b, 1, a, p);
        assert((x * x) % p == a % p);
    } else {
        lemma_search_step(a, x, b, z, v);
        let z2 = (z * z) % p;
        if pow(b, pow2((v - 2) as nat)) % p == 1 {
            lemma_search_ends(a, x, b, z2, (v - 1) as nat);
        } else {
            lemma_search_ends(a, (x * z) % p, (b * z2) % p, z2, (v - 1) as nat);
        }
    }
}

/// The state that the search starts from.
proof fn lemma_search_start(a: int, w: int, z: int)
    requires
        0 < a < goldilocks(),
        pow(a, half_order()) % goldilocks() == 1,
        w == pow(a, 0x7fff_ffff) % goldilocks(),
        z == 1753635133440165772,
    ensures
        search_state(a, (w * a) % goldilocks(), (((w * a) % goldilocks()) * w) % goldilocks(), z, 32),
{
    let p = goldilocks();
    let x = (w * a) % p;
    let b = (x * w) % p;
    let m: nat = 0x7fff_ffff;
    // b is a^(2m + 1)
    let t: nat = 0xffff_ffff;
    lemma_pow_adds(a, m, m);
    lemma_pow_adds(a, m + m, 1);
    lemma_pow1(a);
    lemma_mul_mod_noop_left(w * a, w, p);
    lemma_mul_swap(w, a, w);
    lemma_mul_mod_noop(pow(a, m), pow(a, m), p);
    lemma_cong_mul(w * w, pow(a, m + m), a, p);
    assert(b == pow(a, t) % p);
    lemma_mod_twice(pow(a, t), p);
    // its power 2^31 is the half power of a
    lemma2_to64();
    lemma_pow_cong(b, pow(a, t), pow2(31), p);
    lemma_pow_multiplies(a, t, pow2(31));
    assert(t * pow2(31) == half_order());
    // x * x == a * b
    lemma_mul_mod_noop(w * a, w * a, p);
    lemma_mul_mod_noop_right(a, x * w, p);
    lemma_mul_mod_noop_left(w * a, w * a, p);
    assert(a * (x * w) == x * (w * a)) by (nonlinear_arith);
    lemma_power_of_two_generator();
}

/// Euler's criterion: the non-zero squares are the elements of half power one.
pub proof fn lemma_euler_criterion(a: int)
    requires
        0 < a < goldilocks(),
    ensures
        pow(a, half_order()) % goldilocks() == 1 <==> square_mod(a),
        pow(a, half_order()) % goldilocks() == 1 || pow(a, half_order()) % goldilocks()
            == goldilocks() - 1,
{
    let p = goldilocks();
    lemma_half_power(a);
    lemma_small_mod(a as nat, p as nat);
    if pow(a, half_order()) % p == 1 {
        let w = pow(a, 0x7fff_ffff) % p;
        let z: int = 1753635133440165772;
        lemma_search_start(a, w, z);
        lemma_search_ends(a, (w * a) % p, (((w * a) % p) * w) % p, z, 32);
    }
    if square_mod(a) {
        let s = choose|s: int| #[trigger] (s * s) % p == a % p;
        lemma_square_half_power(a, s);
    }
}

/// Whether the square of `s` is `x`.
pub open spec fn squares_to(s: GoldilocksField, x: GoldilocksField) -> bool {
    s.spec_mul(s) == x
}

proof fn lemma_root_of(x: GoldilocksField)
    requires
        x.canonical(),
    ensures
        square_mod(x@) <==> exists|s: GoldilocksField| #[trigger] squares_to(s, x),
{
    let p = goldilocks();
    lemma_small_mod(x@ as nat, p as nat);
    if square_mod(x@) {
        let s = choose|s: int| #[trigger] (s * s) % p == x@ % p;
        lemma_mul_mod_noop(s, s, p);
        let e = GoldilocksField::of(s);
        assert(squares_to(e, x));
    }
    if exists|s: GoldilocksField| #[trigger] squares_to(s, x) {
        let s = choose|s: GoldilocksField| #[trigger] squares_to(s, x);
        assert((s@ * s@) % p == x@ % p);
    }
}

impl Legendre for GoldilocksField {
    open spec fn character(self) -> LegendreSymbol {
        if self@ == 0 {
            LegendreSymbol::ZERO
        } else if exists|s: GoldilocksField| #[trigger] squares_to(s, self) {
            LegendreSymbol::ONE
        } else {
            LegendreSymbol::NEGONE
        }
    }

    fn legendre(&self) -> (r: LegendreSymbol) {
        let symbol = self.exp_u64(0x7fff_ffff_8000_0000);
        proof {
            use_type_invariant(self);
            if self@ == 0 {
                vstd::arithmetic::power::lemma0_pow(half_order());
            } else {
                lemma_euler_criterion(self@);
            }
            lemma_root_of(*self);
        }
        LegendreSymbol::from(symbol.to_canonical_u64())
    }
}

impl Sqrt for GoldilocksField {
    open spec fn root_of(self, x: GoldilocksField) -> bool {
        squares_to(self, x)
    }

    fn sqrt(&self) -> (r: Option<GoldilocksField>) {
        let a = *self;
        proof {
            use_type_invariant(self);
            lemma_root_of(a);
        }
        match a.legendre() {
            LegendreSymbol::ZERO => {
                proof {
                    assert(0int * 0int == 0);
                }
                Some(a)
            },
            LegendreSymbol::NEGONE => None,
            LegendreSymbol::ONE => {
                let w = a.exp_u64(0x7fff_ffff);
                let mut z = GoldilocksField::from_canonical_u64(1753635133440165772);
                let mut x = w * a;
                let mut b = x * w;
                let mut v: usize = 32;
                proof {
                    lemma_euler_criterion(a@);
                    lemma_search_start(a@, w@, z@);
                }
                while v > 1
                    invariant
                        1 <= v <= 32,
                        search_state(a@, x@, b@, z@, v as nat),
                    decreases v,
                {
                    let t = b.exp_power_of_2(v - 2);
                    proof {
                        lemma_search_step(a@, x@, b@, z@, v as nat);
                    }
                    let z2 = z * z;
                    if !t.is_one() {
                        x = x * z;
                        b = b * z2;
                    }
                    z = z2;
                    v -= 1;
                }
                proof {
                    let p = goldilocks();
                    lemma2_to64();
                    lemma_pow1(b@);
                    lemma_cong_mul(b@, 1, a@, p);
                    lemma_small_mod(a@ as nat, p as nat);
                    assert((x@ * x@) % p == a@);
                }
                Some(x)
            },
        }
    }
}

} // verus!
