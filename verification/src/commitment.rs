//! Commitments as byte strings.
use vstd::arithmetic::div_mod::lemma_small_mod;
use vstd::prelude::*;

use crate::bytes::{lemma_u64_le_roundtrip, read_u64_le, u64_le, u64_of_le, write_u64_le};
use crate::field::F;
use crate::hash::HashOutput;
use crate::primes::goldilocks;

verus! {

/// A commitment: four 64-bit integers, least significant byte first.
#[derive(Debug, Clone, Copy, PartialEq, Eq)]
pub struct Commitment(pub [u8; 32]);

/// The bytes of four elements.
pub open spec fn digest_bytes(d: HashOutput) -> Seq<u8> {
    u64_le(d.0@ as u64) + u64_le(d.1@ as u64) + u64_le(d.2@ as u64) + u64_le(d.3@ as u64)
}

/// The 64-bit integer of eight bytes, most significant first.
pub open spec fn u64_of_be(b: Seq<u8>) -> u64 {
    u64_of_le(b.reverse())
}

/// The element of eight bytes, most significant first, without the top bit.
pub open spec fn masked_element(b: Seq<u8>) -> F {
    F::of((u64_of_be(b) & 0x7FFF_FFFF_FFFF_FFFF) as int)
}

fn read_masked(b: &[u8; 32], at: usize) -> (r: F)
    requires
        at + 8 <= 32,
    ensures
        r == masked_element(b@.subrange(at as int, at + 8)),
{
    let turned: [u8; 8] = [
        b[at + 7],
        b[at + 6],
        b[at + 5],
        b[at + 4],
        b[at + 3],
        b[at + 2],
        b[at + 1],
        b[at],
    ];
    let x: u64 = read_u64_le(&turned, 0);
    proof {
        assert(turned@.subrange(0, 8) =~= b@.subrange(at as int, at + 8).reverse());
        assert(x & 0x7FFF_FFFF_FFFF_FFFF <= 0x7FFF_FFFF_FFFF_FFFF) by (bit_vector);
    }
    F::from_canonical_u64(x & 0x7FFF_FFFF_FFFF_FFFF)
}

impl Commitment {
    /// The bytes of four elements, each as a little-endian 64-bit integer.
    pub fn new_from_field_elements(elems: [F; 4]) -> (r: Self)
        ensures
            r.0@ == digest_bytes(HashOutput(elems[0], elems[1], elems[2], elems[3])),
    {
        let mut out = [0u8; 32];
        write_u64_le(&mut out, 0, elems[0].to_canonical_u64());
        write_u64_le(&mut out, 8, elems[1].to_canonical_u64());
        write_u64_le(&mut out, 16, elems[2].to_canonical_u64());
        write_u64_le(&mut out, 24, elems[3].to_canonical_u64());
        assert(out@ =~= digest_bytes(HashOutput(elems[0], elems[1], elems[2], elems[3])));
        Commitment(out)
    }

    /// The commitment of any 32 bytes: each group of eight, taken as a big-endian
    /// integer without its top bit, is an element.
    pub fn new_from_bytes(bytes: [u8; 32]) -> (r: Self)
        ensures
            r.0@ == digest_bytes(
                HashOutput(
                    masked_element(bytes@.subrange(0, 8)),
                    masked_element(bytes@.subrange(8, 16)),
                    masked_element(bytes@.subrange(16, 24)),
                    masked_element(bytes@.subrange(24, 32)),
                ),
            ),
    {
        Self::new_from_field_elements(
            [
                read_masked(&bytes, 0),
                read_masked(&bytes, 8),
                read_masked(&bytes, 16),
                read_masked(&bytes, 24),
            ],
        )
    }

    /// The element that the `i`-th group of eight bytes holds.
    pub open spec fn element(self, i: int) -> F {
        F::of(u64_of_le(self.0@.subrange(8 * i, 8 * i + 8)) as int)
    }

    /// The four elements.
    pub fn as_field_elems(&self) -> (r: [F; 4])
        ensures
            forall|i: int| 0 <= i < 4 ==> #[trigger] r[i] == self.element(i),
    {
        [
            F::from_noncanonical_u64(read_u64_le(&self.0, 0)),
            F::from_noncanonical_u64(read_u64_le(&self.0, 8)),
            F::from_noncanonical_u64(read_u64_le(&self.0, 16)),
            F::from_noncanonical_u64(read_u64_le(&self.0, 24)),
        ]
    }

    /// The four elements, as a digest.
    pub fn as_field_hash(&self) -> (r: HashOutput)
        ensures
            r == HashOutput(self.element(0), self.element(1), self.element(2), self.element(3)),
    {
        let e = self.as_field_elems();
        HashOutput(e[0], e[1], e[2], e[3])
    }

    /// The elements of a commitment are those that it was made from.
    pub proof fn lemma_elements_roundtrip(self, d: HashOutput)
        requires
            0 <= d.0@ < goldilocks(),
            0 <= d.1@ < goldilocks(),
            0 <= d.2@ < goldilocks(),
            0 <= d.3@ < goldilocks(),
            self.0@ == digest_bytes(d),
        ensures
            HashOutput(self.element(0), self.element(1), self.element(2), self.element(3)) == d,
    {
        lemma_u64_le_roundtrip(d.0@ as u64);
        lemma_u64_le_roundtrip(d.1@ as u64);
        lemma_u64_le_roundtrip(d.2@ as u64);
        lemma_u64_le_roundtrip(d.3@ as u64);
        assert(self.0@.subrange(0, 8) =~= u64_le(d.0@ as u64));
        assert(self.0@.subrange(8, 16) =~= u64_le(d.1@ as u64));
        assert(self.0@.subrange(16, 24) =~= u64_le(d.2@ as u64));
        assert(self.0@.subrange(24, 32) =~= u64_le(d.3@ as u64));
        lemma_small_mod(d.0@ as nat, goldilocks() as nat);
        lemma_small_mod(d.1@ as nat, goldilocks() as nat);
        lemma_small_mod(d.2@ as nat, goldilocks() as nat);
        lemma_small_mod(d.3@ as nat, goldilocks() as nat);
    }
}

} // verus!
