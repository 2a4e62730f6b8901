//! The quintic extension of the Goldilocks field: polynomials modulo `z^5 - 3`.
use core::ops::Neg;

use vstd::arithmetic::div_mod::{lemma_mod_twice, lemma_small_mod};
use vstd::prelude::*;

use crate::arith::lemma_cong_add;
use crate::field::GoldilocksField;
use crate::primes::goldilocks;
use crate::quintic_ring::{
    dot, lemma_reduce_add, lemma_reduce_mul, lemma_reduce_twice, lemma_z5_mul_add,
    lemma_z5_mul_assoc, lemma_z5_mul_comm, Z5,
};

verus! {

/// An element `c0 + c1 z + c2 z^2 + c3 z^3 + c4 z^4`, with `z^5 == 3`.
#[derive(Clone, Copy, Debug, PartialEq, Eq, Structural, Hash)]
pub struct QuinticExtension {
    pub c0: GoldilocksField,
    pub c1: GoldilocksField,
    pub c2: GoldilocksField,
    pub c3: GoldilocksField,
    pub c4: GoldilocksField,
}

impl QuinticExtension {
    /// The coefficients as integers.
    pub open spec fn view(self) -> Z5 {
        Z5 { c0: self.c0@, c1: self.c1@, c2: self.c2@, c3: self.c3@, c4: self.c4@ }
    }

    /// The class of a polynomial with integer coefficients.
    pub open spec fn of(z: Z5) -> Self {
        QuinticExtension {
            c0: GoldilocksField::of(z.c0),
            c1: GoldilocksField::of(z.c1),
            c2: GoldilocksField::of(z.c2),
            c3: GoldilocksField::of(z.c3),
            c4: GoldilocksField::of(z.c4),
        }
    }

    /// The class of a polynomial given by five integers.
    pub open spec fn of_ints(c0: int, c1: int, c2: int, c3: int, c4: int) -> Self {
        Self::of(Z5 { c0, c1, c2, c3, c4 })
    }

    /// Whether all coefficients are canonical; every value that a program can
    /// make is.
    pub open spec fn canonical(self) -> bool {
        self.c0.canonical() && self.c1.canonical() && self.c2.canonical() && self.c3.canonical()
            && self.c4.canonical()
    }

    #[verifier::opaque]
    pub open spec fn spec_add(self, rhs: Self) -> Self {
        Self::of(self@ + rhs@)
    }

    #[verifier::opaque]
    pub open spec fn spec_sub(self, rhs: Self) -> Self {
        Self::of(self@ - rhs@)
    }

    #[verifier::opaque]
    pub open spec fn spec_mul(self, rhs: Self) -> Self {
        Self::of(self@ * rhs@)
    }

    #[verifier::opaque]
    pub open spec fn spec_neg(self) -> Self {
        Self::of(Z5 { c0: 0, c1: 0, c2: 0, c3: 0, c4: 0 } - self@)
    }

    /// The zero of the field, in contracts.
    pub open spec fn nought() -> Self {
        Self::of_ints(0, 0, 0, 0, 0)
    }

    /// The one of the field, in contracts.
    pub open spec fn unit() -> Self {
        Self::of_ints(1, 0, 0, 0, 0)
    }

    /// States that the coefficients are canonical.
    pub(crate) fn show_canonical(&self)
        ensures
            self.canonical(),
    {
        proof {
            use_type_invariant(&self.c0);
            use_type_invariant(&self.c1);
            use_type_invariant(&self.c2);
            use_type_invariant(&self.c3);
            use_type_invariant(&self.c4);
        }
    }

    /// The zero of the field.
    pub fn zero() -> (r: Self)
        ensures
            r == Self::nought(),
    {
        let o = GoldilocksField::zero();
        QuinticExtension { c0: o, c1: o, c2: o, c3: o, c4: o }
    }

    /// The one of the field.
    pub fn one() -> (r: Self)
        ensures
            r == Self::unit(),
    {
        let o = GoldilocksField::zero();
        QuinticExtension { c0: GoldilocksField::one(), c1: o, c2: o, c3: o, c4: o }
    }

    /// The element with the given coefficients.
    pub fn from_basefield_array(a: [GoldilocksField; 5]) -> (r: Self)
        ensures
            r.c0 == a[0] && r.c1 == a[1] && r.c2 == a[2] && r.c3 == a[3] && r.c4 == a[4],
    {
        QuinticExtension { c0: a[0], c1: a[1], c2: a[2], c3: a[3], c4: a[4] }
    }

    /// The coefficients.
    pub fn to_basefield_array(&self) -> (a: [GoldilocksField; 5])
        ensures
            a@ == seq![self.c0, self.c1, self.c2, self.c3, self.c4],
    {
        [self.c0, self.c1, self.c2, self.c3, self.c4]
    }

    /// The element whose coefficients are the given canonical integers.
    pub fn from_canonical_u64s(v: [u64; 5]) -> (r: Self)
        requires
            forall|i: int| 0 <= i < 5 ==> v[i] < crate::field::GOLDILOCKS_ORDER,
        ensures
            r == Self::of_ints(v[0] as int, v[1] as int, v[2] as int, v[3] as int, v[4] as int),
            r@ == (Z5 {
                c0: v[0] as int,
                c1: v[1] as int,
                c2: v[2] as int,
                c3: v[3] as int,
                c4: v[4] as int,
            }),
    {
        QuinticExtension {
            c0: GoldilocksField::from_canonical_u64(v[0]),
            c1: GoldilocksField::from_canonical_u64(v[1]),
            c2: GoldilocksField::from_canonical_u64(v[2]),
            c3: GoldilocksField::from_canonical_u64(v[3]),
            c4: GoldilocksField::from_canonical_u64(v[4]),
        }
    }

    /// Whether this is the zero of the field.
    pub fn is_zero(&self) -> (r: bool)
        ensures
            r == (*self == Self::nought()),
    {
        self.c0.is_zero() && self.c1.is_zero() && self.c2.is_zero() && self.c3.is_zero()
            && self.c4.is_zero()
    }

    /// Every coefficient times an element of the base field.
    pub fn scalar_mul(&self, k: GoldilocksField) -> (r: Self)
        ensures
            r == Self::of(self@.scale(k@)),
    {
        QuinticExtension {
            c0: k * self.c0,
            c1: k * self.c1,
            c2: k * self.c2,
            c3: k * self.c3,
            c4: k * self.c4,
        }
    }

    /// The square of the element.
    pub fn square(&self) -> (r: Self)
        ensures
            r == self.spec_mul(*self),
    {
        *self * *self
    }

    /// Twice the element.
    pub fn double(&self) -> (r: Self)
        ensures
            r == self.spec_add(*self),
    {
        *self + *self
    }
}

pub(crate) proof fn lemma_of_view(z: Z5)
    ensures
        QuinticExtension::of(z)@ == z.reduce(),
        QuinticExtension::of(z).canonical(),
        QuinticExtension::of(z.reduce()) == QuinticExtension::of(z),
{
    lemma_reduce_twice(z);
    assert(z.reduce().reduce().c0 == z.reduce().c0);
}

pub(crate) proof fn lemma_of_equal(a: Z5, b: Z5)
    requires
        a.reduce() == b.reduce(),
    ensures
        QuinticExtension::of(a) == QuinticExtension::of(b),
{
    lemma_of_view(a);
    lemma_of_view(b);
}

/// One row of the product: five products summed in the base field.
fn dot_product(a: QuinticExtension, r0: GoldilocksField, r1: GoldilocksField, r2: GoldilocksField, r3: GoldilocksField, r4: GoldilocksField) -> (s: GoldilocksField)
    ensures
        s == GoldilocksField::of(dot(a@, Z5 { c0: r0@, c1: r1@, c2: r2@, c3: r3@, c4: r4@ })),
{
    proof {
        let p = goldilocks();
        let (x0, x1, x2, x3, x4) = (
            a.c0@ * r0@,
            a.c1@ * r1@,
            a.c2@ * r2@,
            a.c3@ * r3@,
            a.c4@ * r4@,
        );
        lemma_mod_twice(x0, p);
        lemma_mod_twice(x1, p);
        lemma_mod_twice(x2, p);
        lemma_mod_twice(x3, p);
        lemma_mod_twice(x4, p);
        lemma_cong_add(x0 % p, x0, x1 % p, x1, p);
        lemma_mod_twice(x0 % p + x1 % p, p);
        lemma_cong_add((x0 % p + x1 % p) % p, x0 + x1, x2 % p, x2, p);
        lemma_mod_twice((x0 % p + x1 % p) % p + x2 % p, p);
        lemma_cong_add(((x0 % p + x1 % p) % p + x2 % p) % p, x0 + x1 + x2, x3 % p, x3, p);
        lemma_mod_twice(((x0 % p + x1 % p) % p + x2 % p) % p + x3 % p, p);
        lemma_cong_add((((x0 % p + x1 % p) % p + x2 % p) % p + x3 % p) % p, x0 + x1 + x2 + x3, x4 % p, x4, p);
    }
    a.c0 * r0 + a.c1 * r1 + a.c2 * r2 + a.c3 * r3 + a.c4 * r4
}

impl core::ops::Add for QuinticExtension {
    type Output = QuinticExtension;

    fn add(self, rhs: QuinticExtension) -> (r: QuinticExtension) {
        proof {
            reveal(QuinticExtension::spec_add);
        }
        QuinticExtension {
            c0: self.c0 + rhs.c0,
            c1: self.c1 + rhs.c1,
            c2: self.c2 + rhs.c2,
            c3: self.c3 + rhs.c3,
            c4: self.c4 + rhs.c4,
        }
    }
}

impl vstd::std_specs::ops::AddSpecImpl for QuinticExtension {
    open spec fn obeys_add_spec() -> bool {
        true
    }

    open spec fn add_req(self, rhs: QuinticExtension) -> bool {
        true
    }

    open spec fn add_spec(self, rhs: QuinticExtension) -> QuinticExtension {
        self.spec_add(rhs)
    }
}

impl core::ops::Sub for QuinticExtension {
    type Output = QuinticExtension;

    fn sub(self, rhs: QuinticExtension) -> (r: QuinticExtension) {
        proof {
            reveal(QuinticExtension::spec_sub);
        }
        QuinticExtension {
            c0: self.c0 - rhs.c0,
            c1: self.c1 - rhs.c1,
            c2: self.c2 - rhs.c2,
            c3: self.c3 - rhs.c3,
            c4: self.c4 - rhs.c4,
        }
    }
}

impl vstd::std_specs::ops::SubSpecImpl for QuinticExtension {
    open spec fn obeys_sub_spec() -> bool {
        true
    }

    open spec fn sub_req(self, rhs: QuinticExtension) -> bool {
        true
    }

    open spec fn sub_spec(self, rhs: QuinticExtension) -> QuinticExtension {
        self.spec_sub(rhs)
    }
}

impl core::ops::Neg for QuinticExtension {
    type Output = QuinticExtension;

    fn neg(self) -> (r: QuinticExtension) {
        proof {
            reveal(QuinticExtension::spec_neg);
        }
        QuinticExtension {
            c0: self.c0.neg(),
            c1: self.c1.neg(),
            c2: self.c2.neg(),
            c3: self.c3.neg(),
            c4: self.c4.neg(),
        }
    }
}

impl vstd::std_specs::ops::NegSpecImpl for QuinticExtension {
    open spec fn obeys_neg_spec() -> bool {
        true
    }

    open spec fn neg_req(self) -> bool {
        true
    }

    open spec fn neg_spec(self) -> QuinticExtension {
        self.spec_neg()
    }
}

impl core::ops::Mul for QuinticExtension {
    type Output = QuinticExtension;

    fn mul(self, rhs: QuinticExtension) -> (r: QuinticExtension) {
        let three = GoldilocksField::from_canonical_u64(3);
        let w1 = three * rhs.c1;
        let w2 = three * rhs.c2;
        let w3 = three * rhs.c3;
        let w4 = three * rhs.c4;
        let r = QuinticExtension {
            c0: dot_product(self, rhs.c0, w4, w3, w2, w1),
            c1: dot_product(self, rhs.c1, rhs.c0, w4, w3, w2),
            c2: dot_product(self, rhs.c2, rhs.c1, rhs.c0, w4, w3),
            c3: dot_product(self, rhs.c3, rhs.c2, rhs.c1, rhs.c0, w4),
            c4: dot_product(self, rhs.c4, rhs.c3, rhs.c2, rhs.c1, rhs.c0),
        };
        proof {
            reveal(QuinticExtension::spec_mul);
            lemma_reduced_row(self@, rhs@, Z5 { c0: rhs.c0@, c1: w4@, c2: w3@, c3: w2@, c4: w1@ }, 0);
            lemma_reduced_row(self@, rhs@, Z5 { c0: rhs.c1@, c1: rhs.c0@, c2: w4@, c3: w3@, c4: w2@ }, 1);
            lemma_reduced_row(self@, rhs@, Z5 { c0: rhs.c2@, c1: rhs.c1@, c2: rhs.c0@, c3: w4@, c4: w3@ }, 2);
            lemma_reduced_row(self@, rhs@, Z5 { c0: rhs.c3@, c1: rhs.c2@, c2: rhs.c1@, c3: rhs.c0@, c4: w4@ }, 3);
        }
        r
    }
}

impl vstd::std_specs::ops::MulSpecImpl for QuinticExtension {
    open spec fn obeys_mul_spec() -> bool {
        true
    }

    open spec fn mul_req(self, rhs: QuinticExtension) -> bool {
        true
    }

    open spec fn mul_spec(self, rhs: QuinticExtension) -> QuinticExtension {
        self.spec_mul(rhs)
    }
}

/// A row of the product whose multiples of three are already reduced.
proof fn lemma_reduced_row(a: Z5, b: Z5, r: Z5, i: int)
    requires
        0 <= i < 5,
        r.c0 == b.row(i).c0,
        r.c1 == b.row(i).c1 || r.c1 == b.row(i).c1 % goldilocks(),
        r.c2 == b.row(i).c2 || r.c2 == b.row(i).c2 % goldilocks(),
        r.c3 == b.row(i).c3 || r.c3 == b.row(i).c3 % goldilocks(),
        r.c4 == b.row(i).c4 || r.c4 == b.row(i).c4 % goldilocks(),
    ensures
        dot(a, r) % goldilocks() == dot(a, b.row(i)) % goldilocks(),
{
    let p = goldilocks();
    let q = b.row(i);
    lemma_mod_twice(q.c1, p);
    lemma_mod_twice(q.c2, p);
    lemma_mod_twice(q.c3, p);
    lemma_mod_twice(q.c4, p);
    assert(r.reduce() == q.reduce());
    crate::quintic_ring::lemma_dot_reduce(r, q, a);
    crate::quintic_ring::lemma_dot_comm(r, a);
    crate::quintic_ring::lemma_dot_comm(q, a);
}

// The axioms of a commutative ring.

pub proof fn lemma_add_comm(a: QuinticExtension, b: QuinticExtension)
    ensures
        a + b == b + a,
{
    reveal(QuinticExtension::spec_add);
}

pub proof fn lemma_mul_comm(a: QuinticExtension, b: QuinticExtension)
    ensures
        a * b == b * a,
{
    reveal(QuinticExtension::spec_mul);
    lemma_z5_mul_comm(a@, b@);
}

proof fn lemma_residue_add_assoc(x: int, y: int, z: int)
    ensures
        ((x + y) % goldilocks() + z) % goldilocks() == (x + (y + z) % goldilocks())
            % goldilocks(),
{
    let p = goldilocks();
    vstd::arithmetic::div_mod::lemma_add_mod_noop_right(z, x + y, p);
    vstd::arithmetic::div_mod::lemma_add_mod_noop_right(x, y + z, p);
    assert(z + (x + y) == x + (y + z));
}

pub proof fn lemma_add_assoc(a: QuinticExtension, b: QuinticExtension, c: QuinticExtension)
    ensures
        (a + b) + c == a + (b + c),
{
    reveal(QuinticExtension::spec_add);
    lemma_of_view(a@ + b@);
    lemma_of_view(b@ + c@);
    lemma_residue_add_assoc(a@.c0, b@.c0, c@.c0);
    lemma_residue_add_assoc(a@.c1, b@.c1, c@.c1);
    lemma_residue_add_assoc(a@.c2, b@.c2, c@.c2);
    lemma_residue_add_assoc(a@.c3, b@.c3, c@.c3);
    lemma_residue_add_assoc(a@.c4, b@.c4, c@.c4);
    lemma_of_equal((a + b)@ + c@, a@ + (b + c)@);
}

pub proof fn lemma_mul_assoc(a: QuinticExtension, b: QuinticExtension, c: QuinticExtension)
    ensures
        (a * b) * c == a * (b * c),
{
    reveal(QuinticExtension::spec_mul);
    lemma_of_view(a@ * b@);
    lemma_of_view(b@ * c@);
    lemma_reduce_twice(a@ * b@);
    lemma_reduce_twice(b@ * c@);
    lemma_reduce_mul((a@ * b@).reduce(), a@ * b@, c@);
    lemma_reduce_mul((b@ * c@).reduce(), b@ * c@, a@);
    lemma_z5_mul_assoc(a@, b@, c@);
    lemma_of_equal((a * b)@ * c@, (a@ * b@) * c@);
    lemma_of_equal(a@ * (b * c)@, a@ * (b@ * c@));
}

pub proof fn lemma_distribute(a: QuinticExtension, b: QuinticExtension, c: QuinticExtension)
    ensures
        (a + b) * c == a * c + b * c,
        c * (a + b) == c * a + c * b,
{
    reveal(QuinticExtension::spec_add);
    reveal(QuinticExtension::spec_mul);
    lemma_of_view(a@ + b@);
    lemma_of_view(a@ * c@);
    lemma_of_view(b@ * c@);
    lemma_reduce_twice(a@ + b@);
    lemma_reduce_twice(a@ * c@);
    lemma_reduce_twice(b@ * c@);
    lemma_reduce_mul((a@ + b@).reduce(), a@ + b@, c@);
    lemma_z5_mul_add(a@, b@, c@);
    lemma_reduce_add((a@ * c@).reduce(), a@ * c@, (b@ * c@).reduce());
    lemma_reduce_add((b@ * c@).reduce(), b@ * c@, a@ * c@);
    lemma_of_equal((a + b)@ * c@, (a@ + b@) * c@);
    lemma_of_equal((a * c)@ + (b * c)@, a@ * c@ + b@ * c@);
    lemma_mul_comm(a + b, c);
    lemma_mul_comm(a, c);
    lemma_mul_comm(b, c);
}

/// Subtraction is the addition of the opposite.
pub proof fn lemma_sub_is_add_neg(a: QuinticExtension, b: QuinticExtension)
    ensures
        a - b == a + b.spec_neg(),
{
    reveal(QuinticExtension::spec_add);
    reveal(QuinticExtension::spec_sub);
    reveal(QuinticExtension::spec_neg);
    let o = Z5 { c0: 0, c1: 0, c2: 0, c3: 0, c4: 0 };
    lemma_of_view(o - b@);
    lemma_reduce_twice(o - b@);
    lemma_reduce_add((o - b@).reduce(), o - b@, a@);
    assert(a@ + (o - b@) == a@ - b@);
    lemma_of_equal(a@ + b.spec_neg()@, a@ - b@);
}

pub proof fn lemma_zero_one(a: QuinticExtension)
    requires
        a.canonical(),
    ensures
        a + QuinticExtension::nought() == a,
        a * QuinticExtension::unit() == a,
        a * QuinticExtension::nought() == QuinticExtension::nought(),
        a - a == QuinticExtension::nought(),
        a + a.spec_neg() == QuinticExtension::nought(),
{
    reveal(QuinticExtension::spec_add);
    reveal(QuinticExtension::spec_sub);
    reveal(QuinticExtension::spec_neg);
    reveal(QuinticExtension::spec_mul);
    let p = goldilocks();
    let o = Z5 { c0: 0, c1: 0, c2: 0, c3: 0, c4: 0 };
    let u = Z5 { c0: 1, c1: 0, c2: 0, c3: 0, c4: 0 };
    lemma_small_mod(0, p as nat);
    lemma_small_mod(1, p as nat);
    lemma_small_mod(a.c0@ as nat, p as nat);
    lemma_small_mod(a.c1@ as nat, p as nat);
    lemma_small_mod(a.c2@ as nat, p as nat);
    lemma_small_mod(a.c3@ as nat, p as nat);
    lemma_small_mod(a.c4@ as nat, p as nat);
    assert(QuinticExtension::nought()@ == o);
    assert(QuinticExtension::unit()@ == u);
    crate::quintic_ring::lemma_z5_units(a@);
    lemma_sub_is_add_neg(a, a);
}

} // verus!
