use tessera_client::field::F;
use tessera_client::quintic::QuinticExtension;
use tessera_client::residue::{Legendre, LegendreSymbol, Sqrt};
use tessera_client::scalar::Scalar;

fn q(v: [u64; 5]) -> QuinticExtension {
    QuinticExtension::from_canonical_u64s(v)
}

#[test]
fn the_base_field_is_modulo_the_goldilocks_prime() {
    let m = F::from_canonical_u64(0xffff_ffff_0000_0000);
    assert_eq!((m + F::one()).to_canonical_u64(), 0);
    assert_eq!((m * m).to_canonical_u64(), 1);
    assert_eq!((F::zero() - F::one()), m);
    assert_eq!(F::from_noncanonical_u64(0xffff_ffff_0000_0003).to_canonical_u64(), 2);
    let x = F::from_canonical_u64(123456789);
    assert_eq!((x * x.inverse()).to_canonical_u64(), 1);
    assert_eq!(F::zero().try_inverse(), None);
    assert_eq!(F::from_canonical_u64(3).exp_u64(5).to_canonical_u64(), 243);
}

#[test]
fn roots_and_characters_in_the_base_field() {
    let x = F::from_canonical_u64(49);
    assert_eq!(x.legendre(), LegendreSymbol::ONE);
    let r = x.sqrt().unwrap();
    assert_eq!((r * r).to_canonical_u64(), 49);
    let n = F::from_canonical_u64(7);
    assert_eq!(n.legendre(), LegendreSymbol::NEGONE);
    assert!(n.sqrt().is_none());
    assert_eq!(F::zero().legendre(), LegendreSymbol::ZERO);
}

#[test]
fn the_extension_is_modulo_z_to_the_fifth_minus_three() {
    let z = q([0, 1, 0, 0, 0]);
    let z2 = z.square();
    assert_eq!(z2.square() * z, q([3, 0, 0, 0, 0]));
    let x = q([1, 2, 3, 4, 5]);
    assert_eq!(x * x.inverse(), q([1, 0, 0, 0, 0]));
    assert_eq!(q([0; 5]).try_inverse(), None);
    assert_eq!(x.double(), q([2, 4, 6, 8, 10]));
    let s = x.square();
    let r = s.sqrt().unwrap();
    assert!(r == x || r == q([0; 5]) - x);
    assert_eq!(s.legendre(), LegendreSymbol::ONE);
    // 263 z, the coefficient b of the curve, is no square
    assert_eq!(q([0, 263, 0, 0, 0]).legendre(), LegendreSymbol::NEGONE);
    assert!(q([0, 263, 0, 0, 0]).sqrt().is_none());
}

#[test]
fn frobenius_is_the_power_of_the_prime() {
    let x = q([1, 2, 3, 4, 5]);
    assert_eq!(x.frobenius(), x.exp_u64(0xffff_ffff_0000_0001));
    assert_eq!(x.repeated_frobenius(5), x);
}

#[test]
fn scalars_are_modulo_the_group_order() {
    let n = [
        0xe80fd996948bffe1,
        0xe8885c39d724a09c,
        0x7fffffe6cfb80639,
        0x7ffffff100000016,
        0x7ffffffd80000007u64,
    ];
    let minus_one = Scalar([n[0] - 1, n[1], n[2], n[3], n[4]]);
    assert!(minus_one.is_reduced());
    assert!(!Scalar(n).is_reduced());
    assert_eq!(minus_one.add_mod(Scalar::one()), Scalar::zero());
    assert_eq!(minus_one.mul_mod(minus_one), Scalar::one());
    assert_eq!(Scalar::one().neg_mod(), minus_one);
    assert_eq!(Scalar::zero().sub_mod(Scalar::one()), minus_one);
    let a = Scalar([3, 5, 7, 11, 13]);
    let b = Scalar([2, 0, 0, 0, 0]);
    assert_eq!(a.mul_mod(b), a.add_mod(a));
}

#[test]
fn scalars_decode_from_little_endian_bytes() {
    let mut b = [0u8; 40];
    b[0] = 7;
    b[8] = 1;
    assert_eq!(Scalar::decode(&b), Some(Scalar([7, 1, 0, 0, 0])));
    assert_eq!(Scalar::decode_reduce(&b), Scalar([7, 1, 0, 0, 0]));
    assert_eq!(Scalar::decode(&[0xff; 40]), None);
    assert!(Scalar::decode_reduce(&[0xff; 40]).is_reduced());
    assert_eq!(Scalar::decode_reduce(&[]), Scalar::zero());
    // the group order itself reduces to zero
    let n = [
        0xe80fd996948bffe1,
        0xe8885c39d724a09c,
        0x7fffffe6cfb80639,
        0x7ffffff100000016,
        0x7ffffffd80000007u64,
    ];
    let mut order = Vec::new();
    for w in n {
        order.extend_from_slice(&w.to_le_bytes());
    }
    assert_eq!(Scalar::decode_reduce(&order), Scalar::zero());
    assert_eq!(Scalar::decode(&order), None);
}

#[test]
fn bits_of_a_scalar_come_lowest_first() {
    let bits = Scalar([5, 0, 0, 0, 1]).to_bit_arr();
    assert!(bits[0] && !bits[1] && bits[2]);
    assert!(bits[256]);
    assert_eq!(bits.iter().filter(|b| **b).count(), 3);
}

#[test]
fn division_undoes_multiplication() {
    let a = q([1, 2, 3, 4, 5]);
    let b = q([5, 0, 7, 0, 9]);
    assert_eq!((a * b).div_by(&b), a);
    assert_eq!(QuinticExtension::from_basefield_array(a.to_basefield_array()), a);
}
