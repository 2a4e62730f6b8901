//! Schnorr signatures over EcGFp5.

use core::ops::Neg;
use vstd::arithmetic::div_mod::{lemma_mod_twice, lemma_small_mod};
use vstd::arithmetic::power2::pow2;
use vstd::prelude::*;

use crate::arith::{lemma_cong_add, lemma_cong_mul};
use crate::bytes::{
    bytes_value, lemma_u64_le_roundtrip, read_u64_le, u64_le, u64_of_le, write_u64_le,
};
use crate::ecgfp5::{
    can_add, can_encode, can_multiply, compressed, generator_point, infinity, multiple, point_add,
    CompressedPoint, PointEw,
};
use crate::generator_multiples::lemma_generator_multiple;
use crate::field::{F, GOLDILOCKS_ORDER};
use crate::primes::goldilocks;
use crate::hash::{hash_n_to_m, is_sponge, squeeze};
use crate::quintic::QuinticExtension;
use crate::scalar::{group_order, Scalar};

verus! {

/// The integer that a hash of five elements stands for: the canonical
/// representatives as 64-bit limbs, without the top two bits.
pub open spec fn hash_value(e: Seq<F>) -> nat {
    (e[0]@ + e[1]@ * 0x1_0000_0000_0000_0000 + e[2]@
        * 0x1_0000_0000_0000_0000_0000_0000_0000_0000int + e[3]@
        * 0x1_0000_0000_0000_0000_0000_0000_0000_0000_0000_0000_0000_0000int + (e[4]@
        % 0x4000_0000_0000_0000)
        * 0x1_0000_0000_0000_0000_0000_0000_0000_0000_0000_0000_0000_0000_0000_0000_0000_0000int) as nat
}

impl Scalar {
    /// Reduce 5 Goldilocks field elements (320 bits) to a scalar below the group
    /// order: the top two bits of the last element are dropped.
    pub fn from_hash(elements: [F; 5]) -> (r: Self)
        ensures
            r.value() == hash_value(elements@),
            r.reduced(),
    {
        let h0 = elements[0].to_canonical_u64();
        let h1 = elements[1].to_canonical_u64();
        let h2 = elements[2].to_canonical_u64();
        let h3 = elements[3].to_canonical_u64();
        let h4 = elements[4].to_canonical_u64();
        let top: u64 = (h4 << 2) >> 2;
        assert((h4 << 2) >> 2 == h4 % 0x4000_0000_0000_0000) by (bit_vector);
        Scalar([h0, h1, h2, h3, top])
    }
}

/// A private key for Schnorr signatures.
///
/// This is a scalar value that must be kept secret.
#[derive(Clone, Copy, Debug, PartialEq, Eq)]
pub struct PrivateKey(pub Scalar);

impl PrivateKey {
    /// Create a new private key from a scalar.
    pub fn new(scalar: Scalar) -> (r: Self)
        ensures
            r.0 == scalar,
    {
        PrivateKey(scalar)
    }

    /// Get the underlying scalar value.
    pub fn as_scalar(&self) -> (r: Scalar)
        ensures
            r == self.0,
    {
        self.0
    }

    /// Decode a byte slice into a private key, reducing modulo the group order.
    pub fn decode_reduce(buf: &[u8]) -> (r: Self)
        ensures
            r.0.reduced(),
            r.0.value() == bytes_value(buf@) % group_order(),
    {
        PrivateKey(Scalar::decode_reduce(buf))
    }

    /// The point of the public key, in contracts.
    pub open spec fn public_point(self) -> PointEw {
        multiple(generator_point(), self.0.value() % pow2(319))
    }

    /// Derive the corresponding public key.
    pub fn public_key(&self) -> (r: PublicKey)
        ensures
            r.0 == self.public_point(),
            can_encode(r.0),
    {
        proof {
            lemma_generator_multiple(self.0.value());
        }
        PublicKey(PointEw::generator().scalar_mul(&self.0))
    }
}

/// A public key in compressed form.
#[derive(Clone, Copy, Debug, PartialEq, Eq, Structural, Hash)]
pub struct CompressedPublicKey(pub CompressedPoint);

/// The compressed public key of the protocol.
pub type CompPubKey = CompressedPublicKey;

impl CompressedPublicKey {
    /// The five coefficients.
    pub open spec fn elements(self) -> Seq<F> {
        coefficients(self.0.w)
    }

    /// The compressed form of a public key.
    pub fn from_public_key(key: PublicKey) -> (r: Self)
        requires
            can_encode(key.0),
        ensures
            r.0.w == compressed(key.0),
    {
        CompressedPublicKey(key.0.encode())
    }

    /// The key with the given canonical coefficients.
    pub fn from_canonical_u64s(v: [u64; 5]) -> (r: Self)
        requires
            forall|i: int| 0 <= i < 5 ==> v[i] < GOLDILOCKS_ORDER,
        ensures
            r.0.w == QuinticExtension::of_ints(
                v[0] as int,
                v[1] as int,
                v[2] as int,
                v[3] as int,
                v[4] as int,
            ),
    {
        CompressedPublicKey(CompressedPoint::from_canonical_u64s(v))
    }

    /// Appends the coefficients to a list.
    pub fn append_to(&self, v: &mut Vec<F>)
        ensures
            final(v)@ == old(v)@ + self.elements(),
    {
        append_coefficients(&self.0.w, v);
    }

    /// Serialize to 40 bytes: the five coefficients as little-endian 64-bit
    /// integers.
    pub fn encode(&self) -> (out: [u8; 40])
        ensures
            out@ == extension_bytes(self.0.w),
    {
        let mut out = [0u8; 40];
        write_extension(&mut out, 0, &self.0.w);
        assert(out@ =~= extension_bytes(self.0.w));
        out
    }

    /// Deserialize from 40 bytes. An integer that is no canonical representative
    /// stands for its class.
    pub fn decode(bytes: &[u8; 40]) -> (r: Self)
        ensures
            r == decoded_key(bytes@),
    {
        let b: &[u8] = bytes.as_slice();
        CompressedPublicKey(
            CompressedPoint {
                w: QuinticExtension {
                    c0: F::from_noncanonical_u64(read_u64_le(b, 0)),
                    c1: F::from_noncanonical_u64(read_u64_le(b, 8)),
                    c2: F::from_noncanonical_u64(read_u64_le(b, 16)),
                    c3: F::from_noncanonical_u64(read_u64_le(b, 24)),
                    c4: F::from_noncanonical_u64(read_u64_le(b, 32)),
                },
            },
        )
    }
}

/// The key that 40 bytes stand for.
pub open spec fn decoded_key(b: Seq<u8>) -> CompressedPublicKey {
    CompressedPublicKey(
        CompressedPoint {
            w: QuinticExtension {
                c0: F::of(u64_of_le(b.subrange(0, 8)) as int),
                c1: F::of(u64_of_le(b.subrange(8, 16)) as int),
                c2: F::of(u64_of_le(b.subrange(16, 24)) as int),
                c3: F::of(u64_of_le(b.subrange(24, 32)) as int),
                c4: F::of(u64_of_le(b.subrange(32, 40)) as int),
            },
        },
    )
}

/// The 40 bytes of an element of the extension.
pub open spec fn extension_bytes(x: QuinticExtension) -> Seq<u8> {
    u64_le(x.c0@ as u64) + u64_le(x.c1@ as u64) + u64_le(x.c2@ as u64) + u64_le(x.c3@ as u64)
        + u64_le(x.c4@ as u64)
}

/// Decoding the encoding of a key gives the key back.
pub proof fn lemma_key_roundtrip(k: CompressedPublicKey)
    requires
        k.0.w.canonical(),
    ensures
        decoded_key(extension_bytes(k.0.w)) == k,
{
    let x = k.0.w;
    let b = extension_bytes(x);
    lemma_u64_le_roundtrip(x.c0@ as u64);
    lemma_u64_le_roundtrip(x.c1@ as u64);
    lemma_u64_le_roundtrip(x.c2@ as u64);
    lemma_u64_le_roundtrip(x.c3@ as u64);
    lemma_u64_le_roundtrip(x.c4@ as u64);
    assert(b.subrange(0, 8) =~= u64_le(x.c0@ as u64));
    assert(b.subrange(8, 16) =~= u64_le(x.c1@ as u64));
    assert(b.subrange(16, 24) =~= u64_le(x.c2@ as u64));
    assert(b.subrange(24, 32) =~= u64_le(x.c3@ as u64));
    assert(b.subrange(32, 40) =~= u64_le(x.c4@ as u64));
    lemma_small_mod(x.c0@ as nat, goldilocks() as nat);
    lemma_small_mod(x.c1@ as nat, goldilocks() as nat);
    lemma_small_mod(x.c2@ as nat, goldilocks() as nat);
    lemma_small_mod(x.c3@ as nat, goldilocks() as nat);
    lemma_small_mod(x.c4@ as nat, goldilocks() as nat);
}

/// Writes the coefficients of an element of the extension into a buffer.
fn write_extension<const N: usize>(out: &mut [u8; N], at: usize, x: &QuinticExtension)
    requires
        at + 40 <= N,
    ensures
        final(out)@ == old(out)@.take(at as int) + extension_bytes(*x) + old(out)@.skip(at + 40),
{
    write_u64_le(out, at, x.c0.to_canonical_u64());
    write_u64_le(out, at + 8, x.c1.to_canonical_u64());
    write_u64_le(out, at + 16, x.c2.to_canonical_u64());
    write_u64_le(out, at + 24, x.c3.to_canonical_u64());
    write_u64_le(out, at + 32, x.c4.to_canonical_u64());
    assert(out@ =~= old(out)@.take(at as int) + extension_bytes(*x) + old(out)@.skip(at + 40));
}

/// The coefficients of an element of the extension.
pub open spec fn coefficients(x: QuinticExtension) -> Seq<F> {
    seq![x.c0, x.c1, x.c2, x.c3, x.c4]
}

/// Appends the coefficients of an element to a list.
pub fn append_coefficients(x: &QuinticExtension, v: &mut Vec<F>)
    ensures
        final(v)@ == old(v)@ + coefficients(*x),
{
    v.push(x.c0);
    v.push(x.c1);
    v.push(x.c2);
    v.push(x.c3);
    v.push(x.c4);
    assert(v@ =~= old(v)@ + coefficients(*x));
}

/// A public key for Schnorr signatures.
///
/// This is a point on the curve that corresponds to a private key.
#[derive(Clone, Copy, Debug)]
pub struct PublicKey(pub PointEw);

impl PublicKey {
    /// Create a new public key from a curve point.
    pub fn new(point: PointEw) -> (r: Self)
        ensures
            r.0 == point,
    {
        PublicKey(point)
    }

    /// Get the underlying curve point.
    pub fn as_point(&self) -> (r: PointEw)
        ensures
            r == self.0,
    {
        self.0
    }
}

/// A Schnorr signature: a point and a scalar.
#[derive(Clone, Copy, Debug)]
pub struct Signature {
    pub r: PointEw,
    pub s: Scalar,
}

impl Signature {
    /// The point at infinity and the scalar zero.
    pub fn zero() -> (r: Self)
        ensures
            r.r == infinity(),
            r.s.value() == 0,
    {
        Signature { r: PointEw::neutral(), s: Scalar::zero() }
    }

    /// Serialize to 80 bytes: the compressed point and the scalar, each as five
    /// little-endian 64-bit integers.
    pub fn encode(&self) -> (out: [u8; 80])
        requires
            can_encode(self.r),
        ensures
            out@ == extension_bytes(compressed(self.r)) + scalar_bytes(self.s),
    {
        let mut out = [0u8; 80];
        write_extension(&mut out, 0, &self.r.encode().w);
        write_u64_le(&mut out, 40, self.s.0[0]);
        write_u64_le(&mut out, 48, self.s.0[1]);
        write_u64_le(&mut out, 56, self.s.0[2]);
        write_u64_le(&mut out, 64, self.s.0[3]);
        write_u64_le(&mut out, 72, self.s.0[4]);
        assert(out@ =~= extension_bytes(compressed(self.r)) + scalar_bytes(self.s));
        out
    }
}

/// The 40 bytes of a scalar.
pub open spec fn scalar_bytes(s: Scalar) -> Seq<u8> {
    u64_le(s.0[0]) + u64_le(s.0[1]) + u64_le(s.0[2]) + u64_le(s.0[3]) + u64_le(s.0[4])
}

/// What the challenge is the hash of: the two compressed points and the message.
pub open spec fn challenge_input(r: QuinticExtension, q: QuinticExtension, m: Seq<F>) -> Seq<F> {
    coefficients(r) + coefficients(q) + m
}

/// The challenge as an integer.
pub open spec fn challenge_value<H: Fn(Vec<F>, usize) -> Vec<F>>(
    h: H,
    r: QuinticExtension,
    q: QuinticExtension,
    m: Seq<F>,
) -> nat {
    hash_value(squeeze(h, challenge_input(r, q, m), 5))
}

/// The scalar that the hash of a list of elements stands for.
pub fn hash_to_scalar<H: Fn(Vec<F>, usize) -> Vec<F>>(h: &H, input: Vec<F>) -> (r: Scalar)
    requires
        is_sponge(*h),
    ensures
        r.value() == hash_value(squeeze(*h, input@, 5)),
        r.reduced(),
{
    let out = hash_n_to_m(h, input, 5);
    let e = [out[0], out[1], out[2], out[3], out[4]];
    assert(e@ =~= out@);
    Scalar::from_hash(e)
}

/// The challenge: the hash of the two compressed points and the message.
pub fn schnorr_challenge<H: Fn(Vec<F>, usize) -> Vec<F>>(
    h: &H,
    cr: &CompressedPoint,
    cq: &CompressedPoint,
    m: &[F],
) -> (r: Scalar)
    requires
        is_sponge(*h),
    ensures
        r.value() == challenge_value(*h, cr.w, cq.w, m@),
        r.reduced(),
{
    let mut v: Vec<F> = Vec::new();
    append_coefficients(&cr.w, &mut v);
    append_coefficients(&cq.w, &mut v);
    let mut i: usize = 0;
    while i < m.len()
        invariant
            i <= m@.len(),
            v@ == coefficients(cr.w) + coefficients(cq.w) + m@.take(i as int),
        decreases m@.len() - i,
    {
        v.push(m[i]);
        i += 1;
        assert(m@.take(i as int) =~= m@.take(i - 1).push(m@[i - 1]));
        assert(v@ =~= coefficients(cr.w) + coefficients(cq.w) + m@.take(i as int));
    }
    assert(m@.take(i as int) =~= m@);
    hash_to_scalar(h, v)
}

/// Whether a signature can be made with this key and nonce: both are reduced modulo
/// the group order.
pub open spec fn can_sign(key: PrivateKey, k: Scalar) -> bool {
    key.0.reduced() && k.reduced()
}

/// Whether a signature can be made with this key and nonce.
pub fn signing_possible(privkey: &PrivateKey, k: &Scalar) -> (r: bool)
    ensures
        r == can_sign(*privkey, *k),
{
    privkey.0.is_reduced() && k.is_reduced()
}

/// The compressed public key of a private key.
pub fn compressed_public_key(privkey: &PrivateKey) -> (r: CompPubKey)
    ensures
        r.0.w == compressed(privkey.public_point()),
{
    CompressedPublicKey::from_public_key(privkey.public_key())
}

/// Whether a signature is the one that a key makes of a message with a nonce:
/// `R = k*G`, `e = H(R || Q || m)`, `s = k - d e`.
pub open spec fn is_signature<H: Fn(Vec<F>, usize) -> Vec<F>>(
    h: H,
    key: PrivateKey,
    m: Seq<F>,
    k: Scalar,
    sig: Signature,
) -> bool {
    &&& sig.r == multiple(generator_point(), k.value() % pow2(319))
    &&& sig.s.reduced()
    &&& sig.s.value() == signature_scalar(
        k.value() as int,
        key.0.value() as int,
        challenge_value(h, compressed(sig.r), compressed(key.public_point()), m) as int,
    )
    &&& challenge_value(h, compressed(sig.r), compressed(key.public_point()), m) < group_order()
}

/// Sign: `R = k*G`, `e = H(R || Q || m)`, `s = k + d*-e`.
pub fn schnorr_sign<H: Fn(Vec<F>, usize) -> Vec<F>>(
    h: &H,
    privkey: &PrivateKey,
    message: &[F],
    k: Scalar,
) -> (sig: Signature)
    requires
        is_sponge(*h),
        can_sign(*privkey, k),
    ensures
        is_signature(*h, *privkey, message@, k, sig),
{
    proof {
        lemma_generator_multiple(k.value());
    }
    let g = PointEw::generator();
    let r = g.scalar_mul(&k);
    let r_encoded = r.encode();
    let q_encoded = privkey.public_key().as_point().encode();
    let e = schnorr_challenge(h, &r_encoded, &q_encoded, message);
    let s = k + privkey.0 * e.neg();
    proof {
        lemma_signature_scalar(k.value() as int, privkey.0.value() as int, e.value() as int);
    }
    Signature { r, s }
}

/// The scalar of a signature: `k - d e` modulo the group order.
pub open spec fn signature_scalar(k: int, d: int, e: int) -> int {
    (k - d * e) % (group_order() as int)
}

proof fn lemma_signature_scalar(k: int, d: int, e: int)
    ensures
        (k + (d * ((-e) % (group_order() as int))) % (group_order() as int)) % (group_order() as int)
            == signature_scalar(k, d, e),
{
    let n = group_order() as int;
    lemma_mod_twice(-e, n);
    lemma_cong_mul((-e) % n, -e, d, n);
    lemma_mod_twice(d * ((-e) % n), n);
    assert(d * (-e) == -(d * e)) by (nonlinear_arith);
    lemma_cong_add(k, k, (d * ((-e) % n)) % n, -(d * e), n);
}

/// The equation that the scalars of a signature meet: `s + e d == k` modulo the
/// group order.
pub proof fn lemma_signature_equation(k: nat, d: nat, e: nat)
    requires
        k < group_order(),
    ensures
        (signature_scalar(k as int, d as int, e as int) + d * e) % (group_order() as int) == k,
{
    let n = group_order() as int;
    let de: int = (d * e) as int;
    lemma_mod_twice(k - de, n);
    lemma_cong_add((k - de) % n, k - de, de, de, n);
    lemma_small_mod(k, n as nat);
}

/// Whether a signature can be verified without meeting a vertical tangent.
pub open spec fn can_verify<H: Fn(Vec<F>, usize) -> Vec<F>>(
    h: H,
    q: PointEw,
    m: Seq<F>,
    sig: Signature,
) -> bool {
    let e = challenge_value(h, compressed(sig.r), compressed(q), m);
    let sg = multiple(generator_point(), sig.s.value() % pow2(319));
    let eq = multiple(q, e % pow2(319));
    &&& can_encode(sig.r)
    &&& can_encode(q)
    &&& can_multiply(generator_point(), sig.s.value() % pow2(319))
    &&& can_multiply(q, e % pow2(319))
    &&& can_add(sg, eq)
    &&& can_encode(point_add(sg, eq))
}

/// The equation of verification: `s*G + e*Q` has the compressed form of `R`.
pub open spec fn signature_holds<H: Fn(Vec<F>, usize) -> Vec<F>>(
    h: H,
    q: PointEw,
    m: Seq<F>,
    sig: Signature,
) -> bool {
    let e = challenge_value(h, compressed(sig.r), compressed(q), m);
    let sg = multiple(generator_point(), sig.s.value() % pow2(319));
    let eq = multiple(q, e % pow2(319));
    compressed(point_add(sg, eq)) == compressed(sig.r)
}

/// Whether a signature can be verified without meeting a vertical tangent.
pub fn verification_possible<H: Fn(Vec<F>, usize) -> Vec<F>>(
    h: &H,
    pubkey: &PublicKey,
    message: &[F],
    sig: &Signature,
) -> (r: bool)
    requires
        is_sponge(*h),
    ensures
        r == can_verify(*h, pubkey.0, message@, *sig),
{
    if !sig.r.has_encoding() || !pubkey.0.has_encoding() {
        return false;
    }
    let e = schnorr_challenge(h, &sig.r.encode(), &pubkey.0.encode(), message);
    match PointEw::generator().try_scalar_mul(&sig.s) {
        None => false,
        Some(sg) => match pubkey.0.try_scalar_mul(&e) {
            None => false,
            Some(eq) => match sg.try_add(&eq) {
                None => false,
                Some(sum) => sum.has_encoding(),
            },
        },
    }
}

/// Verify: `s*G + e*Q == R`.
pub fn schnorr_verify<H: Fn(Vec<F>, usize) -> Vec<F>>(
    h: &H,
    pubkey: &PublicKey,
    message: &[F],
    sig: &Signature,
) -> (r: bool)
    requires
        is_sponge(*h),
        can_verify(*h, pubkey.0, message@, *sig),
    ensures
        r == signature_holds(*h, pubkey.0, message@, *sig),
{
    let r_encoded = sig.r.encode();
    let q_encoded = pubkey.0.encode();
    let e = schnorr_challenge(h, &r_encoded, &q_encoded, message);
    let g = PointEw::generator();
    let sg = g.scalar_mul(&sig.s);
    let eq = pubkey.0.scalar_mul(&e);
    let result = sg.add(&eq);
    result.encode() == r_encoded
}

} // verus!
