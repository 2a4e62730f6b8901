use rand_chacha::rand_core::{Rng, SeedableRng};
use rand_chacha::ChaCha8Rng;
use tessera_client::ecgfp5::{CompressedPoint, PointEw};
use tessera_client::scalar::Scalar;

fn cp(v: [u64; 5]) -> CompressedPoint {
    CompressedPoint::from_canonical_u64s(v)
}

#[test]
fn test_decode_encode_roundtrip() {
    // Test vectors from Pornin's reference (same as ecgfp5-p2 tests).
    let w0 = cp([0, 0, 0, 0, 0]);
    let w1 = cp([
        12539254003028696409,
        15524144070600887654,
        15092036948424041984,
        11398871370327264211,
        10958391180505708567,
    ]);
    let w2 = cp([
        11001943240060308920,
        17075173755187928434,
        3940989555384655766,
        15017795574860011099,
        5548543797011402287,
    ]);
    let w3 = cp([
        246872606398642312,
        4900963247917836450,
        7327006728177203977,
        13945036888436667069,
        3062018119121328861,
    ]);
    let w4 = cp([
        8058035104653144162,
        16041715455419993830,
        7448530016070824199,
        11253639182222911208,
        6228757819849640866,
    ]);
    let w5 = cp([
        10523134687509281194,
        11148711503117769087,
        9056499921957594891,
        13016664454465495026,
        16494247923890248266,
    ]);
    let w6 = cp([
        12173306542237620,
        6587231965341539782,
        17027985748515888117,
        17194831817613584995,
        10056734072351459010,
    ]);
    let w7 = cp([
        9420857400785992333,
        4695934009314206363,
        14471922162341187302,
        13395190104221781928,
        16359223219913018041,
    ]);

    // w0 decodes to point-at-infinity
    let p0 = PointEw::decode(w0).expect("w0 should decode");
    assert!(p0.at_inf, "P0 should be at infinity");
    assert_eq!(p0.encode(), w0, "encode(P0) != w0");

    // w1..w7 should all decode and round-trip
    for (i, w) in [w1, w2, w3, w4, w5, w6, w7].iter().enumerate() {
        let p =
            PointEw::decode(*w).unwrap_or_else(|| panic!("w{} should decode", i + 1));
        assert!(!p.at_inf, "P{} should not be at infinity", i + 1);
        assert_eq!(
            p.encode(),
            *w,
            "encode/decode roundtrip failed for w{}",
            i + 1
        );
    }
}

#[test]
fn test_decode_invalid() {
    // These values should NOT decode successfully.
    let bww: [CompressedPoint; 6] = [
        cp([
            13557832913345268708,
            15669280705791538619,
            8534654657267986396,
            12533218303838131749,
            5058070698878426028,
        ]),
        cp([
            135036726621282077,
            17283229938160287622,
            13113167081889323961,
            1653240450380825271,
            520025869628727862,
        ]),
        cp([
            6727960962624180771,
            17240764188796091916,
            3954717247028503753,
            1002781561619501488,
            4295357288570643789,
        ]),
        cp([
            4578929270179684956,
            3866930513245945042,
            7662265318638150701,
            9503686272550423634,
            12241691520798116285,
        ]),
        cp([
            16890297404904119082,
            6169724643582733633,
            9725973298012340311,
            5977049210035183790,
            11379332130141664883,
        ]),
        cp([
            13777379982711219130,
            14715168412651470168,
            17942199593791635585,
            6188824164976547520,
            15461469634034461986,
        ]),
    ];

    for (i, bw) in bww.into_iter().enumerate() {
        assert!(
            PointEw::decode(bw).is_none(),
            "invalid value {} was decoded",
            i
        );
    }
}

#[test]
fn test_point_addition_and_doubling() {
    let w1 = cp([
        12539254003028696409,
        15524144070600887654,
        15092036948424041984,
        11398871370327264211,
        10958391180505708567,
    ]);
    let w2 = cp([
        11001943240060308920,
        17075173755187928434,
        3940989555384655766,
        15017795574860011099,
        5548543797011402287,
    ]);
    let w3 = cp([
        246872606398642312,
        4900963247917836450,
        7327006728177203977,
        13945036888436667069,
        3062018119121328861,
    ]);
    let w4 = cp([
        8058035104653144162,
        16041715455419993830,
        7448530016070824199,
        11253639182222911208,
        6228757819849640866,
    ]);
    let w5 = cp([
        10523134687509281194,
        11148711503117769087,
        9056499921957594891,
        13016664454465495026,
        16494247923890248266,
    ]);
    let w6 = cp([
        12173306542237620,
        6587231965341539782,
        17027985748515888117,
        17194831817613584995,
        10056734072351459010,
    ]);
    let w7 = cp([
        9420857400785992333,
        4695934009314206363,
        14471922162341187302,
        13395190104221781928,
        16359223219913018041,
    ]);

    let p1 = PointEw::decode(w1).unwrap();
    let p2 = PointEw::decode(w2).unwrap();
    let p4 = PointEw::decode(w4).unwrap();
    let p5 = PointEw::decode(w5).unwrap();

    // P3 = P1 + P2
    assert_eq!(p1.add(&p2).encode(), w3, "P1 + P2 != P3");

    // P4 = 2*P1 (doubling)
    assert_eq!(p1.double().encode(), w4, "2*P1 != P4");

    // P4 = P1 + P1 (addition of same point)
    assert_eq!(p1.add(&p1).encode(), w4, "P1 + P1 != P4");

    // P5 = 2*P2
    assert_eq!(p2.double().encode(), w5, "2*P2 != P5");

    // P5 = P2 + P2
    assert_eq!(p2.add(&p2).encode(), w5, "P2 + P2 != P5");

    // P6 = 2*P1 + P2 = P4 + P2
    assert_eq!(p4.add(&p2).encode(), w6, "P4 + P2 != P6");

    // P7 = P1 + 2*P2 = P5 + P1
    assert_eq!(p5.add(&p1).encode(), w7, "P5 + P1 != P7");
}

#[test]
fn test_neutral_element() {
    let w0 = cp([0, 0, 0, 0, 0]);
    let w1 = cp([
        12539254003028696409,
        15524144070600887654,
        15092036948424041984,
        11398871370327264211,
        10958391180505708567,
    ]);

    let p0 = PointEw::neutral();
    let p1 = PointEw::decode(w1).unwrap();

    // P1 + O = P1
    assert_eq!(p1.add(&p0).encode(), w1, "P1 + O != P1");

    // O + P1 = P1
    assert_eq!(p0.add(&p1).encode(), w1, "O + P1 != P1");

    // O + O = O
    assert_eq!(p0.add(&p0).encode(), w0, "O + O != O");
}

#[test]
fn test_scalar_mul() {
    // From Pornin's reference: P2 = e * P1
    let w1 = cp([
        12539254003028696409,
        15524144070600887654,
        15092036948424041984,
        11398871370327264211,
        10958391180505708567,
    ]);
    let w2 = cp([
        11001943240060308920,
        17075173755187928434,
        3940989555384655766,
        15017795574860011099,
        5548543797011402287,
    ]);

    let p1 = PointEw::decode(w1).unwrap();

    // e = 841809598287430541331763924924406256080383779033370172527955679319982746101779529382447999363236
    let e = Scalar([
        5400142491657709732,
        15846706413025839610,
        1661266468596303141,
        17577886881415715269,
        7270009582106593884,
    ]);

    assert_eq!(p1.scalar_mul(&e).encode(), w2, "e * P1 != P2");
}

#[test]
fn test_scalar_mul_zero() {
    let w1 = cp([
        12539254003028696409,
        15524144070600887654,
        15092036948424041984,
        11398871370327264211,
        10958391180505708567,
    ]);
    let p1 = PointEw::decode(w1).unwrap();

    // 0 * P1 = O
    let result = p1.scalar_mul(&Scalar::zero());
    assert!(result.at_inf, "0 * P1 should be point at infinity");
}

#[test]
fn test_scalar_mul_one() {
    let w1 = cp([
        12539254003028696409,
        15524144070600887654,
        15092036948424041984,
        11398871370327264211,
        10958391180505708567,
    ]);
    let p1 = PointEw::decode(w1).unwrap();

    // 1 * P1 = P1
    assert_eq!(p1.scalar_mul(&Scalar::one()).encode(), w1, "1 * P1 != P1");
}

#[test]
fn test_scalar_mul_small() {
    let w1 = cp([
        12539254003028696409,
        15524144070600887654,
        15092036948424041984,
        11398871370327264211,
        10958391180505708567,
    ]);
    let w4 = cp([
        8058035104653144162,
        16041715455419993830,
        7448530016070824199,
        11253639182222911208,
        6228757819849640866,
    ]);

    let p1 = PointEw::decode(w1).unwrap();

    // 2 * P1 = P4 (doubling)
    assert_eq!(
        p1.scalar_mul(&Scalar([2, 0, 0, 0, 0])).encode(),
        w4,
        "2 * P1 != P4"
    );
}

#[test]
fn test_scalar_mul_neutral() {
    // e * O = O for any scalar
    let neutral = PointEw::neutral();
    let e = Scalar([
        5400142491657709732,
        15846706413025839610,
        1661266468596303141,
        17577886881415715269,
        7270009582106593884,
    ]);
    let result = neutral.scalar_mul(&e);
    assert!(result.at_inf, "e * O should be point at infinity");
}

#[test]
fn test_is_on_curve() {
    let mut rng = ChaCha8Rng::seed_from_u64(1);
    let g = PointEw::generator();

    // Random valid points: k*G is always on the curve.
    for _ in 0..20 {
        let limbs: [u64; 5] = core::array::from_fn(|_| rng.next_u64());
        let scalar = Scalar(limbs);
        let p = g.scalar_mul(&scalar);
        if !p.at_inf {
            assert!(p.is_on_curve(), "k*G must be on the curve");
        }
    }

    // The generator itself must be on the curve.
    assert!(g.is_on_curve(), "generator must be on the curve");

    // A point with a corrupted y-coordinate must NOT be on the curve.
    let bad = PointEw {
        x: g.x,
        y: g.y + PointEw::scalar(1),
        at_inf: false,
    };
    assert!(
        !bad.is_on_curve(),
        "corrupted point must not be on the curve"
    );
}
