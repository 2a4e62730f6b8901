use rand_chacha::rand_core::{Rng, SeedableRng};
use rand_chacha::ChaCha8Rng;
use tessera_client::ecgfp5::{CompressedPoint, PointEw};
use tessera_client::field::F;
use tessera_client::gates::{offset, offset_neg_319, Bits, CompressionGate, DoubleAdd4x};
use tessera_client::hash::HashOutput;
use tessera_client::scalar::Scalar;
use tessera_client::schnorr::{
    compressed_public_key, schnorr_challenge, schnorr_sign, schnorr_verify, signing_possible,
    verification_possible, CompressedPublicKey, PrivateKey, PublicKey,
};
use tessera_client::schnorr_gadget::{
    compute_gate_witness, conditional_schnorr_verify_gadget, set_dbladd4x_gate_witness,
    set_schnorr_witness,
};
use tessera_client::signature_wires::{
    decode_key, set_fake_schnorr_signature, set_real_schnorr_signature,
};

const P: u128 = 0xffff_ffff_0000_0001;

/// A small deterministic sponge: good enough to tell inputs apart.
fn sponge(x: Vec<F>, n: usize) -> Vec<F> {
    let mut s: u128 = 7 + x.len() as u128;
    for e in &x {
        s = (s + e.to_canonical_u64() as u128 + 1) % P;
        s = s * s % P * s % P * 11 % P + 3;
    }
    let mut out = Vec::new();
    for i in 0..n {
        s = (s + i as u128 + 5) % P;
        s = s * s % P * s % P * 13 % P + 1;
        out.push(F::from_canonical_u64((s % P) as u64));
    }
    out
}

fn sample(rng: &mut ChaCha8Rng) -> Scalar {
    let mut b = [0u8; 40];
    rng.fill_bytes(&mut b);
    Scalar::decode_reduce(&b)
}

fn f(n: u64) -> F {
    F::from_canonical_u64(n)
}

fn fixed_key() -> PrivateKey {
    PrivateKey::new(Scalar([
        5400142491657709732,
        15846706413025839610,
        1661266468596303141,
        17577886881415715269,
        7270009582106593884,
    ]))
}

fn fixed_nonce() -> Scalar {
    Scalar([
        12539254003028696409,
        15524144070600887654,
        15092036948424041984,
        11398871370327264211,
        958391180505708567,
    ])
}

#[test]
fn test_schnorr_sign_verify() {
    // Private key d (a random scalar < N)
    let mut rng = ChaCha8Rng::seed_from_u64(42);
    let d = sample(&mut rng);

    // Public key Q = d*G
    let privkey = PrivateKey::new(d);
    let pubkey = privkey.public_key();
    assert!(!pubkey.0.at_inf);

    // Message
    let message: Vec<F> = (1..=10).map(f).collect();

    // Nonce k
    let k = sample(&mut rng);

    // Sign
    assert!(signing_possible(&privkey, &k));
    let sig = schnorr_sign(&sponge, &privkey, &message, k);
    assert!(!sig.r.at_inf, "R should not be at infinity");

    // Verify: correct message should pass
    assert!(verification_possible(&sponge, &pubkey, &message, &sig));
    assert!(
        schnorr_verify(&sponge, &pubkey, &message, &sig),
        "valid signature should verify"
    );

    // Verify: wrong message should fail
    let wrong_message: Vec<F> = (11..=20).map(f).collect();
    assert!(
        !schnorr_verify(&sponge, &pubkey, &wrong_message, &sig),
        "wrong message should not verify"
    );

    // Verify: wrong public key should fail
    let wrong_pubkey = PublicKey(pubkey.0.double());
    assert!(
        !schnorr_verify(&sponge, &wrong_pubkey, &message, &sig),
        "wrong pubkey should not verify"
    );
}

#[test]
fn many_signatures_verify() {
    let mut rng = ChaCha8Rng::seed_from_u64(9);
    for i in 0..5u64 {
        let key = PrivateKey::new(sample(&mut rng));
        let k = sample(&mut rng);
        let m: Vec<F> = (0..i).map(f).collect();
        let sig = schnorr_sign(&sponge, &key, &m, k);
        assert!(schnorr_verify(&sponge, &key.public_key(), &m, &sig));
    }
}

#[test]
fn the_generator_has_the_order_of_the_group() {
    let g = PointEw::generator();
    let last = Scalar([
        0xe80fd996948bffe0,
        0xe8885c39d724a09c,
        0x7fffffe6cfb80639,
        0x7ffffff100000016,
        0x7ffffffd80000007,
    ]);
    let p = g.scalar_mul(&last);
    assert_eq!(p.x, g.x);
    assert!(p.add(&g).at_inf);
}

#[test]
fn addition_of_points_is_associative() {
    let g = PointEw::generator();
    let (a, b, c) = (
        g.scalar_mul(&Scalar([5, 0, 0, 0, 0])),
        g.scalar_mul(&Scalar([1234567, 0, 0, 0, 0])),
        g.scalar_mul(&Scalar([99, 7, 0, 0, 0])),
    );
    assert_eq!(a.add(&b).add(&c), a.add(&b.add(&c)));
    assert_eq!(a.add(&a).add(&b), a.add(&a.add(&b)));
    assert_eq!(a.add(&b), b.add(&a));
    assert_eq!(a.add(&b).add(&-b), a);
}

#[test]
fn multiples_of_the_generator_decode_to_themselves() {
    let g = PointEw::generator();
    for i in 1..6u64 {
        let p = g.scalar_mul(&Scalar([i * 1000003, i, 0, 0, 0]));
        assert_eq!(PointEw::decode(p.encode()), Some(p));
    }
}

#[test]
fn keys_keep_their_bytes() {
    let k = CompressedPublicKey::from_public_key(fixed_key().public_key());
    assert_eq!(CompressedPublicKey::decode(&k.encode()), k);
    assert_eq!(compressed_public_key(&fixed_key()), k);
    assert_eq!(decode_key(&k), Some(fixed_key().public_key().0));
}

#[test]
fn test_compression_gate() {
    let p = PointEw::generator().scalar_mul(&fixed_nonce());
    assert!(p.is_on_curve());

    let gate = CompressionGate::new_from_config(80);
    let mut wires = vec![F::zero(); 200];
    let put = |wires: &mut Vec<F>, at: usize, v: [F; 5]| {
        for i in 0..5 {
            wires[at + i] = v[i];
        }
    };
    put(&mut wires, CompressionGate::wire_ith_w_offset(0), p.encode().w.to_basefield_array());
    put(&mut wires, CompressionGate::wire_ith_x_offset(0), p.x.to_basefield_array());
    put(&mut wires, CompressionGate::wire_ith_y_offset(0), p.y.to_basefield_array());
    wires[CompressionGate::wire_ith_isactive_offset(0)] = F::one();
    assert!(gate.eval_unfiltered(&wires).iter().all(|c| c.is_zero()));

    // another point does not have this compressed form
    let q = p.double();
    put(&mut wires, CompressionGate::wire_ith_x_offset(0), q.x.to_basefield_array());
    assert!(!gate.eval_unfiltered(&wires).iter().all(|c| c.is_zero()));
}

#[test]
fn the_compression_gate_has_sixteen_wires_for_each_operation() {
    let gate = CompressionGate::new_from_config(80);
    assert_eq!((gate.num_wires(), gate.num_constraints()), (80, 50));
    assert_eq!(CompressionGate::wire_ith_isactive_offset(4) + 1, gate.num_wires());
    let wires = vec![F::zero(); gate.num_wires()];
    assert_eq!(gate.eval_unfiltered(&wires).len(), 50);
}

#[test]
fn every_reduced_key_and_nonce_signs() {
    let zero = Scalar::zero();
    let one = Scalar::one();
    let m: Vec<F> = (1..=3).map(f).collect();
    for (d, k) in [(zero, zero), (zero, one), (one, zero), (one, one), (fixed_nonce(), one)] {
        let key = PrivateKey::new(d);
        assert!(signing_possible(&key, &k));
        let sig = schnorr_sign(&sponge, &key, &m, k);
        assert!(verification_possible(&sponge, &key.public_key(), &m, &sig));
        assert!(schnorr_verify(&sponge, &key.public_key(), &m, &sig));
    }
}

#[test]
fn multiples_of_points_add_and_compose_as_scalars() {
    let mut rng = ChaCha8Rng::seed_from_u64(77);
    let p = PointEw::generator().scalar_mul(&sample(&mut rng));
    let (a, b) = (sample(&mut rng), sample(&mut rng));
    let (pa, pb) = (p.scalar_mul(&a), p.scalar_mul(&b));
    assert_eq!(pa.add(&pb).encode(), p.scalar_mul(&a.add_mod(b)).encode());
    assert_eq!(pa.scalar_mul(&b).encode(), p.scalar_mul(&a.mul_mod(b)).encode());
}

fn bits(v: [u64; 4]) -> Bits {
    Bits(f(v[0]), f(v[1]), f(v[2]), f(v[3]))
}

/// Computes the wires of one gate and evaluates its constraints.
fn prove_single_gate(sp: [u64; 4], sg: [u64; 4], accin: PointEw) {
    let p1 = PointEw::decode(CompressedPoint::from_canonical_u64s([
        12539254003028696409,
        15524144070600887654,
        15092036948424041984,
        11398871370327264211,
        10958391180505708567,
    ]))
    .unwrap();
    let w = compute_gate_witness(bits(sp), bits(sg), &p1, &accin, false).unwrap();
    let row = set_dbladd4x_gate_witness(&p1, &accin, bits(sp), bits(sg), false, &w);
    let gate = DoubleAdd4x::new();
    let wires = row.to_row();
    assert_eq!(wires.len(), gate.num_wires());
    let c = gate.eval_unfiltered(&wires);
    assert_eq!(c.len(), gate.num_constraints());
    assert!(c.iter().all(|c| c.is_zero()));
    // sixteen times the accumulator, and P and G as often as the selectors spell
    let weigh = |b: [u64; 4]| Scalar([8 * b[0] + 4 * b[1] + 2 * b[2] + b[3], 0, 0, 0, 0]);
    let end = accin
        .scalar_mul(&Scalar([16, 0, 0, 0, 0]))
        .add(&p1.scalar_mul(&weigh(sp)))
        .add(&PointEw::generator().scalar_mul(&weigh(sg)));
    assert_eq!((row.acco4.x, row.acco4.y), (end.x, end.y));
    // the same wires do not belong to another accumulator
    let other = set_dbladd4x_gate_witness(&p1, &accin.double(), bits(sp), bits(sg), false, &w);
    assert!(!gate.eval_unfiltered(&other.to_row()).iter().all(|c| c.is_zero()));
}

fn other_point() -> PointEw {
    PointEw::decode(CompressedPoint::from_canonical_u64s([
        11001943240060308920,
        17075173755187928434,
        3940989555384655766,
        15017795574860011099,
        5548543797011402287,
    ]))
    .unwrap()
}

#[test]
fn doubleadd4x_prove_multi_random() {
    let mut rng = ChaCha8Rng::seed_from_u64(10);
    for _ in 0..10 {
        let sp: [u64; 4] = core::array::from_fn(|_| rng.next_u64() & 1);
        let sg: [u64; 4] = core::array::from_fn(|_| rng.next_u64() & 1);
        prove_single_gate(sp, sg, other_point());
    }
}

#[test]
fn doubleadd4x_prove_case0() {
    prove_single_gate([0; 4], [0; 4], other_point());
}

#[test]
fn doubleadd4x_prove_case1() {
    prove_single_gate([1, 0, 0, 0], [0; 4], other_point());
}

#[test]
fn doubleadd4x_from_the_offset() {
    let o = offset();
    let accin = PointEw { x: o.x, y: o.y, at_inf: false };
    prove_single_gate([1; 4], [0; 4], accin);
}

#[test]
fn a_row_adds_points_off_the_group() {
    // the point with the vertical tangent is twice nothing
    let n = PointEw { x: PointEw::adiv3(), y: PointEw::scalar(0), at_inf: false };
    assert!(n.is_on_curve());
    assert!(n.try_double().is_none());
    let q = other_point().double();
    let accin = other_point().add(&n);
    assert!(accin.is_on_curve());
    // eleven times each
    let (sp, sg) = ([1, 0, 1, 1], [0, 1, 0, 1]);
    let eleven = Scalar([11, 0, 0, 0, 0]);
    let rest = other_point()
        .scalar_mul(&Scalar([16, 0, 0, 0, 0]))
        .add(&PointEw::generator().scalar_mul(&Scalar([5, 0, 0, 0, 0])));
    let gate = DoubleAdd4x::new();
    for (p, end) in [(n, rest.add(&n)), (q.add(&n), rest.add(&q.scalar_mul(&eleven)).add(&n))] {
        let w = compute_gate_witness(bits(sp), bits(sg), &p, &accin, false).unwrap();
        let row = set_dbladd4x_gate_witness(&p, &accin, bits(sp), bits(sg), false, &w);
        assert!(gate.eval_unfiltered(&row.to_row()).iter().all(|c| c.is_zero()));
        assert_eq!((row.acco4.x, row.acco4.y), (end.x, end.y));
    }
}

#[test]
fn the_end_point_is_the_offset_doubled_out() {
    let o = offset();
    let mut p = PointEw { x: o.x, y: o.y, at_inf: false };
    for _ in 0..319 {
        p = p.double();
    }
    let n = offset_neg_319();
    assert_eq!(-p, PointEw { x: n.x, y: n.y, at_inf: false });
}

#[test]
fn test_schnorr_verify_gadget() {
    let privkey = fixed_key();
    let q = privkey.public_key().as_point();
    let message = HashOutput(f(1), f(2), f(3), f(4));
    let m = message.to_elements();
    let sig = schnorr_sign(&sponge, &privkey, &m, fixed_nonce());
    let (r, s) = (sig.r, sig.s);

    let cr = r.encode();
    let cq = q.encode();
    let e = schnorr_challenge(&sponge, &cr, &cq, &m);

    // Verify natively: sG + eQ = R
    let g = PointEw::generator();
    let result = g.scalar_mul(&s).add(&q.scalar_mul(&e));
    assert_eq!(result.encode(), r.encode(), "native verification failed");

    // The wires meet the conditions
    let t = set_schnorr_witness(&q, &cr, &e, &s).expect("wires");
    let key = CompressedPublicKey(cq);
    assert!(conditional_schnorr_verify_gadget(&sponge, &message, &key, true, &t));
    // and the chain of rows ends at R
    let end = t.da4x[79].acco4;
    assert_eq!((end.x, end.y), (result.x, result.y));
    let via_key = set_real_schnorr_signature(&sponge, &key, &message, &sig).expect("wires");
    assert!(conditional_schnorr_verify_gadget(&sponge, &message, &key, true, &via_key));

    // but not for another message or another key
    let other = HashOutput(f(1), f(2), f(3), f(5));
    assert!(!conditional_schnorr_verify_gadget(&sponge, &other, &key, true, &t));
    assert!(conditional_schnorr_verify_gadget(&sponge, &other, &key, false, &t));
    let stranger = CompressedPublicKey(q.double().encode());
    assert!(!conditional_schnorr_verify_gadget(&sponge, &message, &stranger, false, &t));
}

/// A check that does not apply accepts an arbitrary (fake) signature.
#[test]
fn test_conditional_schnorr_verify_apply_check_false() {
    let q = fixed_key().public_key().as_point();
    let cq = q.encode();

    // Arbitrary scalars, not derived from hashing any message.
    let e = Scalar([42, 0, 0, 0, 0]);
    let s = Scalar([7, 0, 0, 0, 0]);

    let g = PointEw::generator();
    let r = g.scalar_mul(&s).add(&q.scalar_mul(&e));
    let cr = r.encode();

    let key = CompressedPublicKey(cq);
    let message = HashOutput(f(2), f(2), f(2), f(2));
    let t = set_schnorr_witness(&q, &cr, &e, &s).expect("wires");
    assert!(conditional_schnorr_verify_gadget(&sponge, &message, &key, false, &t));
    assert!(!conditional_schnorr_verify_gadget(&sponge, &message, &key, true, &t));

    let fake = set_fake_schnorr_signature(&key, [42, 0, 0, 0, 0], [7, 0, 0, 0, 0]).unwrap();
    assert_eq!(fake.cr, t.cr);
    assert!(conditional_schnorr_verify_gadget(&sponge, &message, &key, false, &fake));
    // R must be what the scalars lead to
    assert!(set_schnorr_witness(&q, &cq, &e, &s).is_none());
}

#[test]
fn hashes_become_scalars_without_their_top_bits() {
    let e = Scalar::from_hash([f(1), f(2), f(3), f(4), F::from_canonical_u64(0xc000_0000_0000_0005)]);
    assert_eq!(e.0, [1, 2, 3, 4, 5]);
}
