//! The Goldilocks field: integers modulo `2^64 - 2^32 + 1`.
use vstd::arithmetic::div_mod::{
    lemma_mod_twice, lemma_mul_mod_noop, lemma_mul_mod_noop_left, lemma_mul_mod_noop_right,
    lemma_small_mod,
};
use vstd::arithmetic::mul::lemma_mul_is_associative;
use vstd::arithmetic::power::{lemma_pow0, lemma_pow1, lemma_pow_adds, lemma_pow_multiplies, pow};
use vstd::arithmetic::power2::{lemma2_to64, lemma_pow2_adds, pow2};
use vstd::prelude::*;

use crate::arith::lemma_cong_mul;
use crate::primes::{goldilocks, lemma_fermat, lemma_pow_cong};

verus! {

/// The order of the field.
pub const GOLDILOCKS_ORDER: u64 = 0xffff_ffff_0000_0001;

/// An element of the Goldilocks field, held as its canonical representative.
#[derive(Clone, Copy, Debug, PartialEq, Eq, Structural, Hash)]
pub struct GoldilocksField {
    pub(crate) v: u64,
}

/// The field that every value of the protocol is made of.
pub type F = GoldilocksField;

impl GoldilocksField {
    #[verifier::type_invariant]
    pub open(crate) spec fn canonical(self) -> bool {
        self.v < GOLDILOCKS_ORDER
    }

    /// The canonical representative.
    pub open(crate) spec fn view(self) -> int {
        self.v as int
    }

    /// The class of an integer.
    pub open(crate) spec fn of(x: int) -> Self {
        GoldilocksField { v: (x % goldilocks()) as u64 }
    }

    pub open spec fn spec_add(self, rhs: Self) -> Self {
        Self::of(self@ + rhs@)
    }

    pub open spec fn spec_sub(self, rhs: Self) -> Self {
        Self::of(self@ - rhs@)
    }

    pub open spec fn spec_mul(self, rhs: Self) -> Self {
        Self::of(self@ * rhs@)
    }

    pub open spec fn spec_neg(self) -> Self {
        Self::of(-self@)
    }

    /// The zero of the field.
    pub fn zero() -> (r: Self)
        ensures
            r == Self::of(0),
            r@ == 0,
    {
        GoldilocksField { v: 0 }
    }

    /// The one of the field.
    pub fn one() -> (r: Self)
        ensures
            r == Self::of(1),
            r@ == 1,
    {
        GoldilocksField { v: 1 }
    }

    /// The class of an integer below the order.
    pub fn from_canonical_u64(n: u64) -> (r: Self)
        requires
            n < GOLDILOCKS_ORDER,
        ensures
            r@ == n,
            r == Self::of(n as int),
    {
        GoldilocksField { v: n }
    }

    /// The class of any 64-bit integer.
    pub fn from_noncanonical_u64(n: u64) -> (r: Self)
        ensures
            r == Self::of(n as int),
            r@ == n as int % goldilocks(),
    {
        GoldilocksField { v: n % GOLDILOCKS_ORDER }
    }

    /// One for `true`, zero for `false`.
    pub fn from_bool(b: bool) -> (r: Self)
        ensures
            r == Self::of(if b { 1 } else { 0 }),
            r@ == (if b { 1int } else { 0 }),
    {
        GoldilocksField { v: if b { 1 } else { 0 } }
    }

    /// The canonical representative.
    pub fn to_canonical_u64(&self) -> (r: u64)
        ensures
            r == self@,
            r < GOLDILOCKS_ORDER,
    {
        proof {
            use_type_invariant(self);
        }
        self.v
    }

    /// Whether this is the zero of the field.
    pub fn is_zero(&self) -> (r: bool)
        ensures
            r == (self@ == 0),
    {
        self.v == 0
    }

    /// Whether this is the one of the field.
    pub fn is_one(&self) -> (r: bool)
        ensures
            r == (self@ == 1),
    {
        self.v == 1
    }

    /// Twice the element.
    pub fn double(self) -> (r: Self)
        ensures
            r == self.spec_add(self),
    {
        self + self
    }

    /// The square of the element.
    pub fn square(self) -> (r: Self)
        ensures
            r == self.spec_mul(self),
    {
        self * self
    }

    /// The element times itself `e` times.
    pub open spec fn power(self, e: nat) -> Self {
        Self::of(pow(self@, e))
    }

    /// The power `2^n` of the element, by repeated squaring.
    pub fn exp_power_of_2(self, n: usize) -> (r: Self)
        ensures
            r == self.power(pow2(n as nat)),
    {
        let mut x = self;
        proof {
            use_type_invariant(&x);
            lemma2_to64();
            lemma_pow1(self@);
            lemma_small_mod(self@ as nat, goldilocks() as nat);
        }
        for i in 0..n
            invariant
                x == self.power(pow2(i as nat)),
        {
            proof {
                let e = pow2(i as nat);
                lemma_pow2_adds(i as nat, 1);
                lemma2_to64();
                lemma_pow_adds(self@, e, e);
                lemma_mul_mod_noop(pow(self@, e), pow(self@, e), goldilocks());
            }
            x = x * x;
        }
        x
    }

    /// The power `e` of the element.
    pub fn exp_u64(self, e: u64) -> (r: Self)
        ensures
            r == self.power(e as nat),
    {
        let mut current = self;
        let mut product = Self::one();
        let mut rest = e;
        proof {
            use_type_invariant(&self);
            lemma_pow0(self@);
            lemma_small_mod(1, goldilocks() as nat);
        }
        while rest > 0
            invariant
                (product@ * pow(current@, rest as nat)) % goldilocks() == pow(self@, e as nat)
                    % goldilocks(),
                0 <= product@ < goldilocks(),
            decreases rest,
        {
            proof {
                use_type_invariant(&current);
                let c = current@;
                let h = (rest / 2) as nat;
                let p = goldilocks();
                lemma_pow_multiplies(c, 2, h);
                lemma_pow_adds(c, 1, 1);
                lemma_pow1(c);
                // the power of the reduced square is congruent to that of the square
                lemma_mod_twice(c * c, p);
                lemma_pow_cong((c * c) % p, c * c, h, p);
                let pw = pow((c * c) % p, h);
                if rest % 2 == 1 {
                    lemma_pow_adds(c, 1, 2 * h);
                    lemma_mul_is_associative(product@, c, pow(c, 2 * h));
                    lemma_cong_mul(pw, pow(c, 2 * h), product@ * c, p);
                    lemma_mul_mod_noop_left(product@ * c, pw, p);
                } else {
                    lemma_cong_mul(pw, pow(c, 2 * h), product@, p);
                }
            }
            if rest % 2 == 1 {
                product = product * current;
                proof {
                    use_type_invariant(&product);
                }
            }
            current = current * current;
            rest = rest / 2;
        }
        proof {
            lemma_pow0(current@);
            lemma_small_mod(product@ as nat, goldilocks() as nat);
        }
        product
    }

    /// The multiplicative inverse; zero has none.
    pub fn try_inverse(&self) -> (r: Option<Self>)
        ensures
            r is None <==> self@ == 0,
            r matches Some(i) ==> self.spec_mul(i) == Self::of(1),
    {
        if self.is_zero() {
            None
        } else {
            Some(self.inverse())
        }
    }

    /// The multiplicative inverse of a non-zero element.
    pub fn inverse(&self) -> (r: Self)
        requires
            self@ != 0,
        ensures
            self.spec_mul(r) == Self::of(1),
            r@ != 0,
    {
        let r = self.exp_u64(GOLDILOCKS_ORDER - 2);
        proof {
            use_type_invariant(self);
            let p = goldilocks();
            lemma_fermat(self@);
            lemma_pow_adds(self@, 1, (p - 2) as nat);
            lemma_pow1(self@);
            lemma_mul_mod_noop_right(self@, pow(self@, (p - 2) as nat), p);
            lemma_small_mod(1, p as nat);
            if r@ == 0 {
                assert(self@ * 0 == 0);
            }
        }
        r
    }
}

impl core::ops::Add for GoldilocksField {
    type Output = GoldilocksField;

    fn add(self, rhs: GoldilocksField) -> (r: GoldilocksField) {
        GoldilocksField { v: ((self.v as u128 + rhs.v as u128) % (GOLDILOCKS_ORDER as u128)) as u64 }
    }
}

impl vstd::std_specs::ops::AddSpecImpl for GoldilocksField {
    open spec fn obeys_add_spec() -> bool {
        true
    }

    open spec fn add_req(self, rhs: GoldilocksField) -> bool {
        true
    }

    open spec fn add_spec(self, rhs: GoldilocksField) -> GoldilocksField {
        self.spec_add(rhs)
    }
}

impl core::ops::Sub for GoldilocksField {
    type Output = GoldilocksField;

    fn sub(self, rhs: GoldilocksField) -> (r: GoldilocksField) {
        proof {
            use_type_invariant(&self);
            use_type_invariant(&rhs);
            crate::arith::lemma_cong_multiple(self@ - rhs@, 1, goldilocks());
        }
        GoldilocksField {
            v: ((self.v as u128 + GOLDILOCKS_ORDER as u128 - rhs.v as u128) % (
            GOLDILOCKS_ORDER as u128)) as u64,
        }
    }
}

impl vstd::std_specs::ops::SubSpecImpl for GoldilocksField {
    open spec fn obeys_sub_spec() -> bool {
        true
    }

    open spec fn sub_req(self, rhs: GoldilocksField) -> bool {
        true
    }

    open spec fn sub_spec(self, rhs: GoldilocksField) -> GoldilocksField {
        self.spec_sub(rhs)
    }
}

impl core::ops::Mul for GoldilocksField {
    type Output = GoldilocksField;

    fn mul(self, rhs: GoldilocksField) -> (r: GoldilocksField) {
        assert(self.v * rhs.v <= 0xffff_ffff_ffff_ffff * 0xffff_ffff_ffff_ffff) by (nonlinear_arith)
            requires
                0 <= self.v <= 0xffff_ffff_ffff_ffff,
                0 <= rhs.v <= 0xffff_ffff_ffff_ffff,
        ;
        GoldilocksField { v: ((self.v as u128 * rhs.v as u128) % (GOLDILOCKS_ORDER as u128)) as u64 }
    }
}

impl vstd::std_specs::ops::MulSpecImpl for GoldilocksField {
    open spec fn obeys_mul_spec() -> bool {
        true
    }

    open spec fn mul_req(self, rhs: GoldilocksField) -> bool {
        true
    }

    open spec fn mul_spec(self, rhs: GoldilocksField) -> GoldilocksField {
        self.spec_mul(rhs)
    }
}

impl core::ops::Neg for GoldilocksField {
    type Output = GoldilocksField;

    fn neg(self) -> (r: GoldilocksField) {
        GoldilocksField { v: 0 } - self
    }
}

impl vstd::std_specs::ops::NegSpecImpl for GoldilocksField {
    open spec fn obeys_neg_spec() -> bool {
        true
    }

    open spec fn neg_req(self) -> bool {
        true
    }

    open spec fn neg_spec(self) -> GoldilocksField {
        self.spec_neg()
    }
}

} // verus!
