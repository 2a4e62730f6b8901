//! The wires of real and of fake signatures.
use vstd::arithmetic::power2::pow2;
use vstd::prelude::*;

use crate::compression::{decodes_to, is_abscissa, lemma_abscissa_unique};
use crate::ecgfp5::{
    can_add, can_encode, can_multiply, coeff_a_third, compressed, generator_point, infinity,
    multiple, point_add, PointEw,
};
use crate::field::F;
use crate::hash::{is_sponge, HashOutput};
use crate::quintic::QuinticExtension;
use crate::scalar::Scalar;
use crate::schnorr::{challenge_value, schnorr_challenge, CompPubKey, Signature};
use crate::schnorr_gadget::{
    can_set_schnorr, schnorr_wires, set_schnorr_witness, SchnorrTargets,
};

verus! {

/// Whether a point is the one that a compressed point stands for.
pub open spec fn decodes_as(w: QuinticExtension, q: PointEw) -> bool {
    if w == QuinticExtension::nought() {
        q == infinity()
    } else {
        decodes_to(w, q)
    }
}

/// A compressed point stands for one point.
pub proof fn lemma_decodes_unique(w: QuinticExtension, p: PointEw, q: PointEw)
    requires
        w.canonical(),
        decodes_as(w, p),
        decodes_as(w, q),
    ensures
        p == q,
{
    if w != QuinticExtension::nought() {
        let x = choose|x: QuinticExtension| #[trigger]
            is_abscissa(w, x) && p == (PointEw {
                x: x + coeff_a_third(),
                y: w.spec_neg() * x,
                at_inf: false,
            });
        let y = choose|y: QuinticExtension| #[trigger]
            is_abscissa(w, y) && q == (PointEw {
                x: y + coeff_a_third(),
                y: w.spec_neg() * y,
                at_inf: false,
            });
        lemma_abscissa_unique(w, x, y);
    }
}

/// The point of a compressed key, if there is one.
pub fn decode_key(key: &CompPubKey) -> (r: Option<PointEw>)
    ensures
        r matches Some(q) ==> decodes_as(key.0.w, q) && forall|p: PointEw| #[trigger]
            decodes_as(key.0.w, p) ==> p == q,
        r is None ==> forall|p: PointEw| !#[trigger] decodes_as(key.0.w, p),
{
    key.0.w.show_canonical();
    let r = PointEw::decode(key.0);
    proof {
        let w = key.0.w;
        assert forall|p: PointEw| #[trigger] decodes_as(w, p) implies r == Some(p) by {
            if w != QuinticExtension::nought() {
                let x = choose|x: QuinticExtension| #[trigger]
                    is_abscissa(w, x) && p == (PointEw {
                        x: x + coeff_a_third(),
                        y: w.spec_neg() * x,
                        at_inf: false,
                    });
                crate::compression::lemma_abscissa_discriminant(w, x);
                assert(r is Some);
                lemma_decodes_unique(w, p, r->0);
            }
        }
    }
    r
}

/// The challenge of a signature on a transaction hash.
pub open spec fn tx_challenge<H: Fn(Vec<F>, usize) -> Vec<F>>(
    h: H,
    key: CompPubKey,
    tx_hash: HashOutput,
    sig: Signature,
) -> nat {
    challenge_value(h, compressed(sig.r), key.0.w, tx_hash.elements())
}

/// Whether the wires of a signature can be computed for the point of the key.
pub open spec fn can_wire<H: Fn(Vec<F>, usize) -> Vec<F>>(
    h: H,
    key: CompPubKey,
    tx_hash: HashOutput,
    sig: Signature,
    q: PointEw,
) -> bool {
    &&& decodes_as(key.0.w, q)
    &&& can_encode(sig.r)
    &&& can_set_schnorr(q, compressed(sig.r), tx_challenge(h, key, tx_hash, sig), sig.s.value())
}

/// Whether these are the wires of a signature for the point of the key.
pub open spec fn real_wires<H: Fn(Vec<F>, usize) -> Vec<F>>(
    h: H,
    key: CompPubKey,
    tx_hash: HashOutput,
    sig: Signature,
    t: SchnorrTargets,
) -> bool {
    exists|q: PointEw| #[trigger]
        decodes_as(key.0.w, q) && schnorr_wires(
            t,
            q,
            compressed(sig.r),
            tx_challenge(h, key, tx_hash, sig),
            sig.s.value(),
        )
}

/// The wires of a signature on a transaction hash; `None` where the key stands
/// for no point, or the chain of gates does not lead to the point of the
/// signature.
pub fn set_real_schnorr_signature<H: Fn(Vec<F>, usize) -> Vec<F>>(
    h: &H,
    public_key: &CompPubKey,
    tx_hash: &HashOutput,
    signature: &Signature,
) -> (r: Option<SchnorrTargets>)
    requires
        is_sponge(*h),
    ensures
        r is Some <==> exists|q: PointEw| #[trigger]
            can_wire(*h, *public_key, *tx_hash, *signature, q),
        r matches Some(t) ==> real_wires(*h, *public_key, *tx_hash, *signature, t),
{
    if !signature.r.has_encoding() {
        return None;
    }
    let q = match decode_key(public_key) {
        None => {
            return None;
        },
        Some(q) => q,
    };
    let cr = signature.r.encode();
    let m = tx_hash.to_elements();
    let e = schnorr_challenge(h, &cr, &public_key.0, m.as_slice());
    let r = set_schnorr_witness(&q, &cr, &e, &signature.s);
    proof {
        assert(m@ == tx_hash.elements());
        assert(e.value() == tx_challenge(*h, *public_key, *tx_hash, *signature));
        assert(r is Some <==> can_wire(*h, *public_key, *tx_hash, *signature, q));
        assert forall|p: PointEw| #[trigger]
            can_wire(*h, *public_key, *tx_hash, *signature, p) implies r is Some by {
            assert(decodes_as(public_key.0.w, p));
            assert(p == q);
        }
    }
    r
}

/// The point that a fake signature ends at: `s*G + e*Q`.
pub open spec fn fake_end(q: PointEw, e: nat, s: nat) -> PointEw {
    point_add(multiple(generator_point(), s % pow2(319)), multiple(q, e % pow2(319)))
}

/// Whether the wires of a fake signature can be computed for the point of the key.
pub open spec fn can_fake(key: CompPubKey, e: nat, s: nat, q: PointEw) -> bool {
    &&& decodes_as(key.0.w, q)
    &&& can_multiply(generator_point(), s % pow2(319))
    &&& can_multiply(q, e % pow2(319))
    &&& can_add(multiple(generator_point(), s % pow2(319)), multiple(q, e % pow2(319)))
    &&& can_encode(fake_end(q, e, s))
    &&& can_set_schnorr(q, compressed(fake_end(q, e, s)), e, s)
}

/// Whether these are the wires of a fake signature.
pub open spec fn fake_wires(key: CompPubKey, e: nat, s: nat, t: SchnorrTargets) -> bool {
    exists|q: PointEw| #[trigger]
        decodes_as(key.0.w, q) && schnorr_wires(t, q, compressed(fake_end(q, e, s)), e, s)
}

/// The wires of a fake signature: the scalars are given, and `R` is what they lead
/// to. The check of the challenge must not apply to it. `None` where the key
/// stands for no point or the scalars lead nowhere.
pub fn set_fake_schnorr_signature(public_key: &CompPubKey, e: [u64; 5], s: [u64; 5]) -> (r: Option<
    SchnorrTargets,
>)
    ensures
        r is Some <==> exists|q: PointEw| #[trigger]
            can_fake(*public_key, Scalar(e).value(), Scalar(s).value(), q),
        r matches Some(t) ==> fake_wires(*public_key, Scalar(e).value(), Scalar(s).value(), t),
{
    let e = Scalar(e);
    let s = Scalar(s);
    let ghost (ev, sv) = (e.value(), s.value());
    let q = match decode_key(public_key) {
        None => {
            assert forall|p: PointEw| !#[trigger] can_fake(*public_key, ev, sv, p) by {
                assert(!decodes_as(public_key.0.w, p));
            }
            return None;
        },
        Some(q) => q,
    };
    let r = fake_rows(&q, &e, &s);
    proof {
        assert(r is Some <==> can_fake(*public_key, ev, sv, q));
        assert forall|p: PointEw| #[trigger] can_fake(*public_key, ev, sv, p) implies r is Some by {
            assert(decodes_as(public_key.0.w, p));
            assert(p == q);
        }
    }
    r
}

fn fake_rows(q: &PointEw, e: &Scalar, s: &Scalar) -> (r: Option<SchnorrTargets>)
    ensures
        r is Some <==> {
            let (ev, sv) = (e.value(), s.value());
            &&& can_multiply(generator_point(), sv % pow2(319))
            &&& can_multiply(*q, ev % pow2(319))
            &&& can_add(
                multiple(generator_point(), sv % pow2(319)),
                multiple(*q, ev % pow2(319)),
            )
            &&& can_encode(fake_end(*q, ev, sv))
            &&& can_set_schnorr(*q, compressed(fake_end(*q, ev, sv)), ev, sv)
        },
        r matches Some(t) ==> schnorr_wires(
            t,
            *q,
            compressed(fake_end(*q, e.value(), s.value())),
            e.value(),
            s.value(),
        ),
{
    match PointEw::generator().try_scalar_mul(s) {
        None => None,
        Some(sg) => match q.try_scalar_mul(e) {
            None => None,
            Some(eq) => match sg.try_add(&eq) {
                None => None,
                Some(end) => {
                    if end.has_encoding() {
                        set_schnorr_witness(q, &end.encode(), e, s)
                    } else {
                        None
                    }
                },
            },
        },
    }
}

} // verus!
