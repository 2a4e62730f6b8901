//! What the byte and text forms of addresses, keys, signatures and commitments spell.
use vstd::arithmetic::power::{lemma_pow0, lemma_pow1};
use vstd::prelude::*;

use crate::account::{lemma_hex_is_ascii, AccountAddress, AddressError};
use crate::bytes::{
    bytes_value, lemma_bytes_value_split, lemma_u64_le_roundtrip, u64_le, u64_of_le,
};
use crate::commitment::{digest_bytes, u64_of_be, Commitment};
use crate::ecgfp5::compressed;
use crate::field::F;
use crate::hash::HashOutput;
use crate::schnorr::{extension_bytes, CompressedPublicKey, PrivateKey, Signature};

verus! {

/// The integer of eight bytes, the least significant one first.
pub open spec fn weighed(b: Seq<u8>) -> int {
    b[0] + b[1] * 0x100 + b[2] * 0x1_0000 + b[3] * 0x100_0000 + b[4] * 0x1_0000_0000 + b[5]
        * 0x100_0000_0000 + b[6] * 0x1_0000_0000_0000 + b[7] * 0x100_0000_0000_0000
}

/// Eight bytes are read with the least significant one first.
pub proof fn lemma_word_weight(b: Seq<u8>)
    requires
        b.len() == 8,
    ensures
        u64_of_le(b) == weighed(b),
{
    let (b0, b1, b2, b3) = (b[0], b[1], b[2], b[3]);
    let (b4, b5, b6, b7) = (b[4], b[5], b[6], b[7]);
    assert(((b0 as u64) | ((b1 as u64) << 8) | ((b2 as u64) << 16) | ((b3 as u64) << 24) | ((
    b4 as u64) << 32) | ((b5 as u64) << 40) | ((b6 as u64) << 48) | ((b7 as u64) << 56)) == b0 + b1
        * 0x100 + b2 * 0x1_0000 + b3 * 0x100_0000 + b4 * 0x1_0000_0000 + b5 * 0x100_0000_0000 + b6
        * 0x1_0000_0000_0000 + b7 * 0x100_0000_0000_0000) by (bit_vector);
}

/// A 64-bit integer is written with the least significant byte first.
pub proof fn lemma_word_bytes(x: u64)
    ensures
        u64_le(x).len() == 8,
        weighed(u64_le(x)) == x,
{
    lemma_u64_le_roundtrip(x);
    lemma_word_weight(u64_le(x));
}

/// A byte in front of a byte string raises the bytes behind it by one place.
pub proof fn lemma_bytes_weight(x: u8, b: Seq<u8>)
    ensures
        bytes_value(Seq::empty()) == 0,
        bytes_value(seq![x] + b) == x + 256 * bytes_value(b),
{
    let s = seq![x] + b;
    lemma_bytes_value_split(s, 1);
    assert(s.skip(1) =~= b);
    assert(s.take(1) =~= seq![x]);
    assert(seq![x].drop_last() =~= Seq::<u8>::empty());
    lemma_pow0(256);
    lemma_pow1(256);
}

/// A secret that is read from bytes is their integer, modulo the group order.
pub proof fn lemma_secret_of_bytes(b: &[u8], r: PrivateKey)
    requires
        call_ensures(PrivateKey::decode_reduce, (b,), r),
    ensures
        r.0.value() == bytes_value(b@)
            % 0x7ffffffd800000077ffffff1000000167fffffe6cfb80639e8885c39d724a09ce80fd996948bffe1nat,
{
}

/// An address is written as five words: the subpool and the four elements of the
/// public identifier.
pub proof fn lemma_address_layout(a: &AccountAddress, out: [u8; 40])
    requires
        a.canonical(),
        call_ensures(AccountAddress::to_bytes, (a,), out),
    ensures
        weighed(out@.subrange(0, 8)) == a.subpool_id.0@,
        weighed(out@.subrange(8, 16)) == a.public_id.0.0@,
        weighed(out@.subrange(16, 24)) == a.public_id.0.1@,
        weighed(out@.subrange(24, 32)) == a.public_id.0.2@,
        weighed(out@.subrange(32, 40)) == a.public_id.0.3@,
{
    lemma_word_bytes(a.subpool_id.0@ as u64);
    lemma_word_bytes(a.public_id.0.0@ as u64);
    lemma_word_bytes(a.public_id.0.1@ as u64);
    lemma_word_bytes(a.public_id.0.2@ as u64);
    lemma_word_bytes(a.public_id.0.3@ as u64);
    assert(out@.subrange(0, 8) =~= u64_le(a.subpool_id.0@ as u64));
    assert(out@.subrange(8, 16) =~= u64_le(a.public_id.0.0@ as u64));
    assert(out@.subrange(16, 24) =~= u64_le(a.public_id.0.1@ as u64));
    assert(out@.subrange(24, 32) =~= u64_le(a.public_id.0.2@ as u64));
    assert(out@.subrange(32, 40) =~= u64_le(a.public_id.0.3@ as u64));
}

/// Forty bytes, and no other number of bytes, are read as an address: five words,
/// each taken modulo the field's order.
pub proof fn lemma_address_read(b: &[u8], r: Result<AccountAddress, AddressError>)
    requires
        call_ensures(AccountAddress::from_bytes, (b,), r),
    ensures
        r is Ok <==> b@.len() == 40,
        r matches Ok(a) ==> {
            &&& a.subpool_id.0@ == weighed(b@.subrange(0, 8)) % 0xffff_ffff_0000_0001
            &&& a.public_id.0.0@ == weighed(b@.subrange(8, 16)) % 0xffff_ffff_0000_0001
            &&& a.public_id.0.1@ == weighed(b@.subrange(16, 24)) % 0xffff_ffff_0000_0001
            &&& a.public_id.0.2@ == weighed(b@.subrange(24, 32)) % 0xffff_ffff_0000_0001
            &&& a.public_id.0.3@ == weighed(b@.subrange(32, 40)) % 0xffff_ffff_0000_0001
        },
{
    if b@.len() == 40 {
        lemma_word_weight(b@.subrange(0, 8));
        lemma_word_weight(b@.subrange(8, 16));
        lemma_word_weight(b@.subrange(16, 24));
        lemma_word_weight(b@.subrange(24, 32));
        lemma_word_weight(b@.subrange(32, 40));
    }
}

/// The value of a hexadecimal digit, upper or lower case.
pub open spec fn nibble(c: char) -> int {
    if '0' <= c <= '9' {
        c as int - '0' as int
    } else if 'a' <= c <= 'f' {
        c as int - 'a' as int + 10
    } else {
        c as int - 'A' as int + 10
    }
}

/// Eighty hexadecimal digits, and no other text, are read as an address: that of the
/// forty bytes that the digits spell two by two.
pub proof fn lemma_address_text(
    s: &str,
    r: Result<AccountAddress, AddressError>,
    b: &[u8],
    q: Result<AccountAddress, AddressError>,
)
    requires
        call_ensures(AccountAddress::from_hex, (s,), r),
        call_ensures(AccountAddress::from_bytes, (b,), q),
        b@.len() == 40,
        s@.len() == 80 ==> forall|i: int|
            0 <= i < 40 ==> #[trigger] b@[i] == 16 * nibble(s@[2 * i]) + nibble(s@[2 * i + 1]),
    ensures
        r is Ok <==> s@.len() == 80 && forall|i: int|
            0 <= i < 80 ==> {
                ||| '0' <= #[trigger] s@[i] <= '9'
                ||| 'a' <= s@[i] <= 'f'
                ||| 'A' <= s@[i] <= 'F'
            },
        r is Ok ==> r == q,
{
    lemma_hex_is_ascii(s);
    if r is Ok {
        assert(crate::account::hex_bytes(s@) =~= b@);
    }
    if s@.len() == 80 && forall|i: int|
        0 <= i < 80 ==> {
            ||| '0' <= #[trigger] s@[i] <= '9'
            ||| 'a' <= s@[i] <= 'f'
            ||| 'A' <= s@[i] <= 'F'
        } {
        assert(crate::account::all_hex(s@));
    }
}

/// A compressed key is written as the words of its five coefficients.
pub proof fn lemma_key_layout(k: &CompressedPublicKey, out: [u8; 40])
    requires
        k.0.w.canonical(),
        call_ensures(CompressedPublicKey::encode, (k,), out),
    ensures
        weighed(out@.subrange(0, 8)) == k.0.w.c0@,
        weighed(out@.subrange(8, 16)) == k.0.w.c1@,
        weighed(out@.subrange(16, 24)) == k.0.w.c2@,
        weighed(out@.subrange(24, 32)) == k.0.w.c3@,
        weighed(out@.subrange(32, 40)) == k.0.w.c4@,
{
    let w = k.0.w;
    lemma_word_bytes(w.c0@ as u64);
    lemma_word_bytes(w.c1@ as u64);
    lemma_word_bytes(w.c2@ as u64);
    lemma_word_bytes(w.c3@ as u64);
    lemma_word_bytes(w.c4@ as u64);
    assert(out@.subrange(0, 8) =~= u64_le(w.c0@ as u64));
    assert(out@.subrange(8, 16) =~= u64_le(w.c1@ as u64));
    assert(out@.subrange(16, 24) =~= u64_le(w.c2@ as u64));
    assert(out@.subrange(24, 32) =~= u64_le(w.c3@ as u64));
    assert(out@.subrange(32, 40) =~= u64_le(w.c4@ as u64));
}

/// A compressed key is read from five words, each taken modulo the field's order.
pub proof fn lemma_key_read(b: &[u8; 40], k: CompressedPublicKey)
    requires
        call_ensures(CompressedPublicKey::decode, (b,), k),
    ensures
        k.0.w.c0@ == weighed(b@.subrange(0, 8)) % 0xffff_ffff_0000_0001,
        k.0.w.c1@ == weighed(b@.subrange(8, 16)) % 0xffff_ffff_0000_0001,
        k.0.w.c2@ == weighed(b@.subrange(16, 24)) % 0xffff_ffff_0000_0001,
        k.0.w.c3@ == weighed(b@.subrange(24, 32)) % 0xffff_ffff_0000_0001,
        k.0.w.c4@ == weighed(b@.subrange(32, 40)) % 0xffff_ffff_0000_0001,
{
    lemma_word_weight(b@.subrange(0, 8));
    lemma_word_weight(b@.subrange(8, 16));
    lemma_word_weight(b@.subrange(16, 24));
    lemma_word_weight(b@.subrange(24, 32));
    lemma_word_weight(b@.subrange(32, 40));
}

/// A signature is written as its compressed point, in the form of a key, and then the
/// five limbs of its scalar.
pub proof fn lemma_signature_layout(
    s: &Signature,
    out: [u8; 80],
    k: &CompressedPublicKey,
    point: [u8; 40],
)
    requires
        call_ensures(Signature::encode, (s,), out),
        k.0.w == compressed(s.r),
        call_ensures(CompressedPublicKey::encode, (k,), point),
    ensures
        out@.subrange(0, 40) == point@,
        weighed(out@.subrange(40, 48)) == s.s.0[0],
        weighed(out@.subrange(48, 56)) == s.s.0[1],
        weighed(out@.subrange(56, 64)) == s.s.0[2],
        weighed(out@.subrange(64, 72)) == s.s.0[3],
        weighed(out@.subrange(72, 80)) == s.s.0[4],
{
    let l = s.s.0;
    lemma_word_bytes(l[0]);
    lemma_word_bytes(l[1]);
    lemma_word_bytes(l[2]);
    lemma_word_bytes(l[3]);
    lemma_word_bytes(l[4]);
    assert(extension_bytes(compressed(s.r)).len() == 40);
    assert(out@.subrange(0, 40) =~= point@);
    assert(out@.subrange(40, 48) =~= u64_le(l[0]));
    assert(out@.subrange(48, 56) =~= u64_le(l[1]));
    assert(out@.subrange(56, 64) =~= u64_le(l[2]));
    assert(out@.subrange(64, 72) =~= u64_le(l[3]));
    assert(out@.subrange(72, 80) =~= u64_le(l[4]));
}

/// A commitment that is made of four elements holds them as four words, and gives
/// each word back modulo the field's order.
pub proof fn lemma_commitment_words(e: [F; 4], c: Commitment, d: &Commitment, r: [F; 4])
    requires
        forall|i: int| 0 <= i < 4 ==> (#[trigger] e@[i]).canonical(),
        call_ensures(Commitment::new_from_field_elements, (e,), c),
        call_ensures(Commitment::as_field_elems, (d,), r),
    ensures
        weighed(c.0@.subrange(0, 8)) == e@[0]@,
        weighed(c.0@.subrange(8, 16)) == e@[1]@,
        weighed(c.0@.subrange(16, 24)) == e@[2]@,
        weighed(c.0@.subrange(24, 32)) == e@[3]@,
        forall|i: int|
            0 <= i < 4 ==> (#[trigger] r@[i])@ == weighed(d.0@.subrange(8 * i, 8 * i + 8))
                % 0xffff_ffff_0000_0001,
{
    lemma_digest_words(c, HashOutput(e[0], e[1], e[2], e[3]));
    assert forall|i: int| 0 <= i < 4 implies (#[trigger] r@[i])@ == weighed(
        d.0@.subrange(8 * i, 8 * i + 8),
    ) % 0xffff_ffff_0000_0001 by {
        lemma_word_weight(d.0@.subrange(8 * i, 8 * i + 8));
        assert(r[i] == d.element(i));
    }
}

proof fn lemma_digest_words(c: Commitment, d: HashOutput)
    requires
        d.0.canonical(),
        d.1.canonical(),
        d.2.canonical(),
        d.3.canonical(),
        c.0@ == digest_bytes(d),
    ensures
        weighed(c.0@.subrange(0, 8)) == d.0@,
        weighed(c.0@.subrange(8, 16)) == d.1@,
        weighed(c.0@.subrange(16, 24)) == d.2@,
        weighed(c.0@.subrange(24, 32)) == d.3@,
{
    lemma_word_bytes(d.0@ as u64);
    lemma_word_bytes(d.1@ as u64);
    lemma_word_bytes(d.2@ as u64);
    lemma_word_bytes(d.3@ as u64);
    assert(c.0@.subrange(0, 8) =~= u64_le(d.0@ as u64));
    assert(c.0@.subrange(8, 16) =~= u64_le(d.1@ as u64));
    assert(c.0@.subrange(16, 24) =~= u64_le(d.2@ as u64));
    assert(c.0@.subrange(24, 32) =~= u64_le(d.3@ as u64));
}

/// A commitment that is made of bytes holds, word by word, the integer of eight bytes
/// with the most significant one first, without its top bit.
pub proof fn lemma_commitment_of_bytes(b: [u8; 32], c: Commitment)
    requires
        call_ensures(Commitment::new_from_bytes, (b,), c),
    ensures
        weighed(c.0@.subrange(0, 8)) == weighed(b@.subrange(0, 8).reverse())
            % 0x8000_0000_0000_0000,
        weighed(c.0@.subrange(8, 16)) == weighed(b@.subrange(8, 16).reverse())
            % 0x8000_0000_0000_0000,
        weighed(c.0@.subrange(16, 24)) == weighed(b@.subrange(16, 24).reverse())
            % 0x8000_0000_0000_0000,
        weighed(c.0@.subrange(24, 32)) == weighed(b@.subrange(24, 32).reverse())
            % 0x8000_0000_0000_0000,
{
    let d = HashOutput(
        crate::commitment::masked_element(b@.subrange(0, 8)),
        crate::commitment::masked_element(b@.subrange(8, 16)),
        crate::commitment::masked_element(b@.subrange(16, 24)),
        crate::commitment::masked_element(b@.subrange(24, 32)),
    );
    lemma_masked(b@.subrange(0, 8));
    lemma_masked(b@.subrange(8, 16));
    lemma_masked(b@.subrange(16, 24));
    lemma_masked(b@.subrange(24, 32));
    lemma_digest_words(c, d);
}

proof fn lemma_masked(b: Seq<u8>)
    requires
        b.len() == 8,
    ensures
        crate::commitment::masked_element(b).canonical(),
        crate::commitment::masked_element(b)@ == weighed(b.reverse()) % 0x8000_0000_0000_0000,
{
    lemma_word_weight(b.reverse());
    let x = u64_of_be(b);
    assert(x & 0x7FFF_FFFF_FFFF_FFFF == x % 0x8000_0000_0000_0000) by (bit_vector);
    assert(0 <= x % 0x8000_0000_0000_0000 < 0xffff_ffff_0000_0001);
}

} // verus!
