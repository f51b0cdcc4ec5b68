use ark_ec::AffineRepr;
use ark_ed_on_bls12_381_bandersnatch::{EdwardsAffine, Fq, Fr};
use ark_ff::{BigInt, PrimeField};
use ark_serialize::CanonicalSerialize;
use bandersnatch_vrfs::uint::{limbs_equal, limbs_less};
use bandersnatch_vrfs::{Point, Scalar};

const ORDER: [u64; 4] =
    [0x74fd06b52876e7e1, 0xff8f870074190471, 0x0cce760202687600, 0x1cfb69d4ca675f52];
const BASE_MODULUS: [u64; 4] =
    [0xffffffff00000001, 0x53bda402fffe5bfe, 0x3339d80809a1d805, 0x73eda753299d7d48];

fn decimal(limbs: [u64; 4]) -> String {
    format!("{}", Fq::from(BigInt::new(limbs)))
}

#[test]
fn generator_has_the_documented_coordinates() {
    let (x, y) = Point::generator().coordinates();
    assert_eq!(
        decimal(x),
        "18886178867200960497001835917649091219057080094937609519140440539760939937304"
    );
    assert_eq!(
        decimal(y),
        "19188667384257783945677642223292697773471335439753913231509108946878080696678"
    );
    assert_eq!(
        x,
        [0xe1e71866a252ae18, 0x2b79c022ad998465, 0x743711777bbe42f3, 0x29c132cc2c0b34c5]
    );
}

#[test]
fn moduli_are_the_fields_moduli() {
    assert_eq!(ORDER, Fr::MODULUS.0);
    assert_eq!(BASE_MODULUS, Fq::MODULUS.0);
}

#[test]
fn limbs_compare_as_numbers() {
    assert!(limbs_less(&[5, 0, 0, 0], &[6, 0, 0, 0]));
    assert!(!limbs_less(&[6, 0, 0, 0], &[6, 0, 0, 0]));
    assert!(limbs_less(&[u64::MAX, 0, 0, 0], &[0, 1, 0, 0]));
    assert!(!limbs_less(&[0, 1, 0, 0], &[u64::MAX, 0, 0, 0]));
    assert!(limbs_less(&[9, 9, 9, 1], &[0, 0, 0, 2]));
    assert!(!limbs_less(&[0, 0, 0, 2], &[9, 9, 9, 1]));
    assert!(limbs_less(&[9, 9, 1, 7], &[0, 0, 2, 7]));
    assert!(limbs_equal(&[1, 2, 3, 4], &[1, 2, 3, 4]));
    assert!(!limbs_equal(&[1, 2, 3, 4], &[1, 2, 3, 5]));
    assert!(!limbs_equal(&[0, 2, 3, 4], &[1, 2, 3, 4]));
}

#[test]
fn scalars_add_and_multiply_modulo_the_group_order() {
    let three = Scalar::from_u64(3);
    let four = Scalar::from_u64(4);
    assert_eq!(three.add(&four), Scalar::from_u64(7));
    assert_eq!(three.mul(&four), Scalar::from_u64(12));
    assert_eq!(three.to_limbs(), [3, 0, 0, 0]);
    assert!(three.add(&four).equals(&Scalar::from_u64(7)));
    assert!(!three.equals(&four));

    let mut limbs = ORDER;
    limbs[0] -= 1;
    let minus_one = Scalar::from_limbs(limbs).unwrap();
    assert_eq!(minus_one.add(&Scalar::from_u64(2)), Scalar::from_u64(1));
    assert_eq!(minus_one.mul(&minus_one), Scalar::from_u64(1));
    assert_eq!(minus_one.mul(&three).add(&three), Scalar::from_u64(0));

    let big = Scalar::from_u64(u64::MAX);
    assert_eq!(big.add(&Scalar::from_u64(1)).to_limbs(), [0, 1, 0, 0]);
    assert_eq!(big.mul(&big).to_limbs(), [1, u64::MAX - 1, 0, 0]);
}

#[test]
fn scalar_from_limbs_accepts_exactly_the_reduced_values() {
    assert!(Scalar::from_limbs(ORDER).is_none());
    let mut limbs = ORDER;
    limbs[0] -= 1;
    assert_eq!(Scalar::from_limbs(limbs).unwrap().to_limbs(), limbs);
    limbs[0] += 2;
    assert!(Scalar::from_limbs(limbs).is_none());
    assert!(Scalar::from_limbs([u64::MAX; 4]).is_none());
    assert_eq!(Scalar::from_limbs([0; 4]), Some(Scalar::from_u64(0)));
    let mut high = ORDER;
    high[3] -= 1;
    high[0] = u64::MAX;
    assert!(Scalar::from_limbs(high).is_some());
}

#[test]
fn scalar_from_bytes_reduces_modulo_the_group_order() {
    assert_eq!(Scalar::from_le_bytes_mod_order(&[]), Scalar::from_u64(0));
    assert_eq!(Scalar::from_le_bytes_mod_order(&[7]), Scalar::from_u64(7));
    assert_eq!(Scalar::from_le_bytes_mod_order(&[1, 1]), Scalar::from_u64(257));
    let mut order = Vec::new();
    for limb in ORDER {
        order.extend_from_slice(&limb.to_le_bytes());
    }
    assert_eq!(Scalar::from_le_bytes_mod_order(&order), Scalar::from_u64(0));
    order[0] += 5;
    assert_eq!(Scalar::from_le_bytes_mod_order(&order), Scalar::from_u64(5));
    // 2^256 as 33 bytes, against the same number built by multiplication
    let mut wide = [0u8; 33];
    wide[32] = 1;
    let two_64 = Scalar::from_limbs([0, 1, 0, 0]).unwrap();
    let two_256 = two_64.mul(&two_64).mul(&two_64).mul(&two_64);
    assert_eq!(Scalar::from_le_bytes_mod_order(&wide), two_256);
    // 64 bytes: low half plus 2^256 times high half
    let mut bytes = [0u8; 64];
    bytes[0] = 9;
    bytes[32] = 2;
    let expected = Scalar::from_u64(9).add(&two_256.mul(&Scalar::from_u64(2)));
    assert_eq!(Scalar::from_le_bytes_mod_order(&bytes), expected);
}

#[test]
fn points_form_a_group() {
    let g = Point::generator();
    let two_g = g.add(&g);
    assert_ne!(two_g, g);
    assert_eq!(g.mul(&Scalar::from_u64(2)), two_g);
    assert_eq!(g.mul(&Scalar::from_u64(1)), g);
    assert!(g.mul(&Scalar::from_u64(0)).is_identity());
    assert_eq!(g.mul(&Scalar::from_u64(3)), two_g.add(&g));
    assert_eq!(two_g.sub(&g), g);
    assert!(g.sub(&g).is_identity());
    assert!(g.add(&g.neg()).is_identity());
    assert!(!g.is_identity());
    assert_ne!(g.neg(), g);
    assert_eq!(g.neg().neg(), g);
    assert_eq!(g.neg().coordinates().1, g.coordinates().1);
    assert!(g.equals(&g));
    assert!(!g.equals(&two_g));
    let identity = g.sub(&g);
    assert_eq!(identity.coordinates(), ([0, 0, 0, 0], [1, 0, 0, 0]));
    assert_eq!(identity.add(&g), g);
}

#[test]
fn negation_negates_the_first_coordinate_in_the_base_field() {
    let g = Point::generator();
    let (x, y) = g.coordinates();
    let (nx, ny) = g.neg().coordinates();
    assert_eq!(ny, y);
    assert_eq!(Fq::from(BigInt::new(nx)), -Fq::from(BigInt::new(x)));
}

#[test]
fn generator_has_the_order_of_the_scalar_field() {
    let g = Point::generator();
    let mut limbs = ORDER;
    limbs[0] -= 1;
    let minus_one = Scalar::from_limbs(limbs).unwrap();
    assert_eq!(g.mul(&minus_one), g.neg());
    assert!(g.mul(&minus_one).add(&g).is_identity());
}

#[test]
fn cofactor_is_four() {
    let g = Point::generator();
    assert_eq!(g.mul_by_cofactor(), g.mul(&Scalar::from_u64(4)));
    assert_eq!(g.mul_by_cofactor(), g.add(&g).add(&g).add(&g));
}

#[test]
fn equality_up_to_the_cofactor() {
    let g = Point::generator();
    let two_g = g.add(&g);
    assert!(g.eq_mod_small_cofactor(&g));
    assert!(two_g.eq_mod_small_cofactor(&g.mul(&Scalar::from_u64(2))));
    assert!(!g.eq_mod_small_cofactor(&two_g));
    assert!(!g.eq_mod_small_cofactor(&g.neg()));
}

#[test]
fn encoding_is_the_canonical_compressed_one() {
    let g = Point::generator();
    let mut expected = Vec::new();
    EdwardsAffine::generator().serialize_compressed(&mut expected).unwrap();
    assert_eq!(g.to_bytes(), expected);
    assert_eq!(g.to_bytes().len(), 32);
    assert_ne!(g.to_bytes(), g.neg().to_bytes());
    assert_ne!(g.to_bytes(), g.add(&g).to_bytes());
}

#[test]
fn decoding_inverts_encoding() {
    let g = Point::generator();
    for k in 0..20u64 {
        let p = g.mul(&Scalar::from_u64(k));
        assert_eq!(Point::from_bytes(&p.to_bytes()), Some(p));
        assert_eq!(Point::from_bytes(&p.neg().to_bytes()), Some(p.neg()));
    }
}

#[test]
fn decoding_refuses_what_is_no_point_of_the_subgroup() {
    assert_eq!(Point::from_bytes(&[]), None);
    assert_eq!(Point::from_bytes(&[1u8; 31]), None);
    assert_eq!(Point::from_bytes(&[0xffu8; 32]), None);
    // (0, -1) is on the curve and has order two
    let minus_one = -Fq::from(1u64);
    let mut bytes = Vec::new();
    let order_two = EdwardsAffine::new_unchecked(Fq::from(0u64), minus_one);
    order_two.serialize_compressed(&mut bytes).unwrap();
    assert_eq!(Point::from_bytes(&bytes), None);
    let mut refused = 0;
    for byte in 0..=255u8 {
        if Point::from_bytes(&[byte; 32]).is_none() {
            refused += 1;
        }
    }
    assert!(refused > 64);
}

#[test]
fn coordinates_are_checked() {
    let g = Point::generator();
    let (x, y) = g.coordinates();
    assert_eq!(Point::from_coordinates(x, y), Some(g));
    assert_eq!(Point::from_coordinates(y, x), None);
    assert_eq!(Point::from_coordinates([1, 0, 0, 0], [1, 0, 0, 0]), None);
    assert_eq!(Point::from_coordinates(BASE_MODULUS, [1, 0, 0, 0]), None);
    assert_eq!(Point::from_coordinates([0, 0, 0, 0], BASE_MODULUS), None);
    assert_eq!(Point::from_coordinates([u64::MAX; 4], y), None);
    let identity = Point::from_coordinates([0, 0, 0, 0], [1, 0, 0, 0]).unwrap();
    assert!(identity.is_identity());
    // (0, -1) is on the curve, outside the prime-order subgroup
    let minus_one = (-Fq::from(1u64)).into_bigint().0;
    assert_eq!(Point::from_coordinates([0, 0, 0, 0], minus_one), None);
}

#[test]
fn seeded_points_depend_on_the_seed_alone() {
    let a = Point::from_seed(&[1u8; 32]);
    let b = Point::from_seed(&[1u8; 32]);
    let c = Point::from_seed(&[2u8; 32]);
    assert_eq!(a, b);
    assert_ne!(a, c);
    assert!(!a.is_identity());
    let (x, y) = a.coordinates();
    assert_eq!(Point::from_coordinates(x, y), Some(a));
}
