//! Unsigned 256-bit amounts, and their limbs in the field.
use vstd::arithmetic::div_mod::lemma_small_mod;
use vstd::prelude::*;

use crate::field::F;
use crate::primes::goldilocks;

verus! {

/// The integer held by four little-endian 64-bit words.
pub open spec fn words_value(w: Seq<u64>) -> nat {
    (w[0] + w[1] * 0x1_0000_0000_0000_0000 + w[2] * 0x1_0000_0000_0000_0000_0000_0000_0000_0000int
        + w[3] * 0x1_0000_0000_0000_0000_0000_0000_0000_0000_0000_0000_0000_0000int) as nat
}

/// `2^256`.
pub open spec fn u256_bound() -> nat {
    0x1_0000_0000_0000_0000_0000_0000_0000_0000_0000_0000_0000_0000_0000_0000_0000_0000nat
}

/// An unsigned 256-bit integer: four 64-bit words, least significant first.
#[derive(Clone, Copy, Debug, PartialEq, Eq, Structural, Hash)]
pub struct U256(pub u64, pub u64, pub u64, pub u64);

/// `primitive_types::U256::checked_add`: the sum, or `None` if it does not fit.
#[verifier::external_body]
fn primitive_checked_add(a: [u64; 4], b: [u64; 4]) -> (r: Option<[u64; 4]>)
    ensures
        r is Some <==> words_value(a@) + words_value(b@) < u256_bound(),
        r matches Some(c) ==> words_value(c@) == words_value(a@) + words_value(b@),
{
    match primitive_types::U256(a).checked_add(primitive_types::U256(b)) {
        Some(c) => Some(c.0),
        None => None,
    }
}

/// `primitive_types::U256::checked_sub`: the difference, or `None` if the second
/// number is the larger one.
#[verifier::external_body]
fn primitive_checked_sub(a: [u64; 4], b: [u64; 4]) -> (r: Option<[u64; 4]>)
    ensures
        r is Some <==> words_value(a@) >= words_value(b@),
        r matches Some(c) ==> words_value(c@) == words_value(a@) - words_value(b@),
{
    match primitive_types::U256(a).checked_sub(primitive_types::U256(b)) {
        Some(c) => Some(c.0),
        None => None,
    }
}

impl U256 {
    /// The words, least significant first.
    pub open spec fn words(self) -> Seq<u64> {
        seq![self.0, self.1, self.2, self.3]
    }

    /// The integer.
    pub open spec fn value(self) -> nat {
        words_value(self.words())
    }

    /// The number zero.
    pub fn zero() -> (r: Self)
        ensures
            r.value() == 0,
            r == U256(0, 0, 0, 0),
    {
        U256(0, 0, 0, 0)
    }

    /// A 64-bit integer.
    pub fn from_u64(x: u64) -> (r: Self)
        ensures
            r.value() == x,
    {
        U256(x, 0, 0, 0)
    }

    /// The integer with the given words, least significant first.
    pub fn from_words(w: [u64; 4]) -> (r: Self)
        ensures
            r.words() == w@,
            r.value() == words_value(w@),
    {
        let r = U256(w[0], w[1], w[2], w[3]);
        assert(r.words() =~= w@);
        r
    }

    /// The words, least significant first.
    pub fn to_words(&self) -> (w: [u64; 4])
        ensures
            w@ == self.words(),
    {
        let w = [self.0, self.1, self.2, self.3];
        assert(w@ =~= self.words());
        w
    }

    /// Whether the number is zero.
    pub fn is_zero(&self) -> (r: bool)
        ensures
            r == (self.value() == 0),
    {
        self.0 == 0 && self.1 == 0 && self.2 == 0 && self.3 == 0
    }

    /// The sum, or `None` if it does not fit in 256 bits.
    pub fn checked_add(self, rhs: Self) -> (r: Option<Self>)
        ensures
            r is Some <==> self.value() + rhs.value() < u256_bound(),
            r matches Some(s) ==> s.value() == self.value() + rhs.value(),
    {
        match primitive_checked_add(self.to_words(), rhs.to_words()) {
            Some(w) => Some(Self::from_words(w)),
            None => None,
        }
    }

    /// The difference, or `None` if `rhs` is the larger one.
    pub fn checked_sub(self, rhs: Self) -> (r: Option<Self>)
        ensures
            r is Some <==> self.value() >= rhs.value(),
            r matches Some(d) ==> d.value() == self.value() - rhs.value(),
    {
        match primitive_checked_sub(self.to_words(), rhs.to_words()) {
            Some(w) => Some(Self::from_words(w)),
            None => None,
        }
    }

    /// Whether this number is less than the other.
    pub fn less_than(&self, rhs: &Self) -> (r: bool)
        ensures
            r == (self.value() < rhs.value()),
    {
        if self.3 != rhs.3 {
            self.3 < rhs.3
        } else if self.2 != rhs.2 {
            self.2 < rhs.2
        } else if self.1 != rhs.1 {
            self.1 < rhs.1
        } else {
            self.0 < rhs.0
        }
    }

    /// The eight 32-bit limbs as field elements, least significant first.
    pub open spec fn limbs(self) -> Seq<F> {
        seq![
            F::of(self.0 as int % 0x1_0000_0000),
            F::of(self.0 as int / 0x1_0000_0000),
            F::of(self.1 as int % 0x1_0000_0000),
            F::of(self.1 as int / 0x1_0000_0000),
            F::of(self.2 as int % 0x1_0000_0000),
            F::of(self.2 as int / 0x1_0000_0000),
            F::of(self.3 as int % 0x1_0000_0000),
            F::of(self.3 as int / 0x1_0000_0000),
        ]
    }

    /// Appends the eight 32-bit limbs to a list.
    pub fn append_limbs(&self, v: &mut Vec<F>)
        ensures
            final(v)@ == old(v)@ + self.limbs(),
    {
        push_word(v, self.0);
        push_word(v, self.1);
        push_word(v, self.2);
        push_word(v, self.3);
        assert(v@ =~= old(v)@ + self.limbs());
    }
}

impl From<u64> for U256 {
    fn from(x: u64) -> (r: Self) {
        U256(x, 0, 0, 0)
    }
}

impl vstd::std_specs::convert::FromSpecImpl<u64> for U256 {
    open spec fn obeys_from_spec() -> bool {
        true
    }

    open spec fn from_spec(x: u64) -> Self {
        U256(x, 0, 0, 0)
    }
}

fn push_word(v: &mut Vec<F>, w: u64)
    ensures
        final(v)@ == old(v)@.push(F::of(w as int % 0x1_0000_0000)).push(
            F::of(w as int / 0x1_0000_0000),
        ),
{
    let lo: u64 = w % 0x1_0000_0000;
    let hi: u64 = w / 0x1_0000_0000;
    v.push(F::from_canonical_u64(lo));
    v.push(F::from_canonical_u64(hi));
}

/// The integer that eight 32-bit limbs spell, least significant first.
pub open spec fn limbs_sum(l: Seq<F>) -> int {
    l[0]@ + l[1]@ * 0x1_0000_0000 + l[2]@ * 0x1_0000_0000_0000_0000 + l[3]@
        * 0x1_0000_0000_0000_0000_0000_0000 + l[4]@
        * 0x1_0000_0000_0000_0000_0000_0000_0000_0000int + l[5]@
        * 0x1_0000_0000_0000_0000_0000_0000_0000_0000_0000_0000int + l[6]@
        * 0x1_0000_0000_0000_0000_0000_0000_0000_0000_0000_0000_0000_0000int + l[7]@
        * 0x1_0000_0000_0000_0000_0000_0000_0000_0000_0000_0000_0000_0000_0000_0000int
}

/// The limbs of a number spell the number.
pub proof fn lemma_limbs_spell_value(x: U256)
    ensures
        limbs_sum(x.limbs()) == x.value(),
        forall|i: int| 0 <= i < 8 ==> 0 <= (#[trigger] x.limbs()[i])@ < 0x1_0000_0000,
{
    lemma_limb_class(x.0);
    lemma_limb_class(x.1);
    lemma_limb_class(x.2);
    lemma_limb_class(x.3);
}

pub(crate) proof fn lemma_limb_class(w: u64)
    ensures
        F::of(w as int % 0x1_0000_0000)@ == w as int % 0x1_0000_0000,
        F::of(w as int / 0x1_0000_0000)@ == w as int / 0x1_0000_0000,
        0 <= w as int % 0x1_0000_0000 < 0x1_0000_0000,
        0 <= w as int / 0x1_0000_0000 < 0x1_0000_0000,
{
    lemma_small_mod((w as int % 0x1_0000_0000) as nat, goldilocks() as nat);
    lemma_small_mod((w as int / 0x1_0000_0000) as nat, goldilocks() as nat);
}

/// Numbers with the same limbs are the same.
pub proof fn lemma_limbs_injective(x: U256, y: U256)
    requires
        x.limbs() == y.limbs(),
    ensures
        x == y,
{
    lemma_limb_class(x.0);
    lemma_limb_class(x.1);
    lemma_limb_class(x.2);
    lemma_limb_class(x.3);
    lemma_limb_class(y.0);
    lemma_limb_class(y.1);
    lemma_limb_class(y.2);
    lemma_limb_class(y.3);
    let (a, b) = (x.limbs(), y.limbs());
    assert(a[0] == b[0] && a[1] == b[1] && a[2] == b[2] && a[3] == b[3]);
    assert(a[4] == b[4] && a[5] == b[5] && a[6] == b[6] && a[7] == b[7]);
}

/// The addition of limbs with carries: a column sum is a 32-bit limb and a carry.
pub struct LimbSum {
    pub limb: u64,
    pub carry: u64,
}

/// Splits a column sum into its limb and its carry.
pub fn split_limb_sum(sum: u64) -> (r: LimbSum)
    ensures
        sum == r.limb + r.carry * 0x1_0000_0000,
        r.limb < 0x1_0000_0000,
        r.carry < 0x1_0000_0000,
{
    assert(sum & 0xffff_ffff == sum % 0x1_0000_0000) by (bit_vector);
    assert(sum >> 32 == sum / 0x1_0000_0000) by (bit_vector);
    LimbSum { limb: sum & 0xffff_ffff, carry: sum >> 32 }
}

} // verus!
