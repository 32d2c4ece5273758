use vortex::circuit::below_power_of_two;
use vortex::field::{limbs_below, limbs_mul_add, Fr};

const MODULUS_LIMBS: [u64; 4] =
    [0x43e1f593f0000001, 0x2833e84879b97091, 0xb85045b68181585d, 0x30644e72e131a029];

#[test]
fn limbs_below_the_modulus_are_elements() {
    assert_eq!(Fr::from_limbs(0, 0, 0, 0), Some(Fr::zero()));
    assert_eq!(Fr::from_limbs(1, 0, 0, 0), Some(Fr::one()));
    assert_eq!(Fr::from_limbs(5, 0, 0, 0), Some(Fr::from_u64(5)));
    let [l0, l1, l2, l3] = MODULUS_LIMBS;
    assert_eq!(Fr::from_limbs(l0, l1, l2, l3), None);
    assert_eq!(Fr::from_limbs(l0 - 1, l1, l2, l3).unwrap().limbs(), [l0 - 1, l1, l2, l3]);
    assert_eq!(Fr::from_limbs(0, 0, 0, l3 + 1), None);
    assert_eq!(Fr::from_limbs(u64::MAX, u64::MAX, u64::MAX, u64::MAX), None);
    assert!(Fr::from_limbs(u64::MAX, u64::MAX, u64::MAX, l3 - 1).is_some());
}

#[test]
fn arithmetic_is_modulo_the_modulus() {
    let [l0, l1, l2, l3] = MODULUS_LIMBS;
    let top = Fr::from_limbs(l0 - 1, l1, l2, l3).unwrap();
    assert_eq!(top.add(&Fr::one()), Fr::zero());
    assert_eq!(top.add(&Fr::from_u64(3)), Fr::from_u64(2));
    assert_eq!(top.mul(&top), Fr::one());
    assert_eq!(top.mul(&Fr::from_u64(2)), Fr::from_limbs(l0 - 2, l1, l2, l3).unwrap());
    assert_eq!(Fr::from_u64(6).mul(&Fr::from_u64(7)), Fr::from_u64(42));
    assert_eq!(Fr::from_u64(9).square(), Fr::from_u64(81));
    assert_eq!(top.square(), Fr::one());
    assert_eq!(
        Fr::from_u64(u64::MAX).mul(&Fr::from_u64(u64::MAX)).limbs(),
        [1, u64::MAX - 1, 0, 0]
    );
    assert_eq!(Fr::from_u64(u64::MAX).add(&Fr::one()).limbs(), [0, 1, 0, 0]);
    assert!(Fr::zero().is_zero());
    assert!(!Fr::one().is_zero());
}

#[test]
fn elements_are_ordered_by_their_representatives() {
    let small = Fr::from_u64(u64::MAX);
    let large = Fr::from_limbs(0, 1, 0, 0).unwrap();
    assert!(small.lt(&large));
    assert!(!large.lt(&small));
    assert!(!small.lt(&small));
    assert!(limbs_below(9, 9, 9, 1, 0, 0, 0, 2));
    assert!(!limbs_below(0, 0, 1, 0, 9, 9, 0, 0));
    assert!(limbs_below(1, 2, 3, 4, 2, 2, 3, 4));
}

#[test]
fn limbs_are_multiplied_with_carry() {
    assert_eq!(limbs_mul_add(3, 0, 0, 0, 10, 7), (37, 0, 0, 0, 0));
    assert_eq!(limbs_mul_add(u64::MAX, 0, 0, 0, 2, 1), (u64::MAX, 1, 0, 0, 0));
    assert_eq!(
        limbs_mul_add(u64::MAX, u64::MAX, u64::MAX, u64::MAX, 16, 15),
        (u64::MAX, u64::MAX, u64::MAX, u64::MAX, 15)
    );
    assert_eq!(limbs_mul_add(0, 0, 0, 1 << 63, 2, 0), (0, 0, 0, 0, 1));
}

#[test]
fn bits_are_listed_from_the_least_significant() {
    let bits = Fr::from_u64(0b1011).to_bits_le();
    assert_eq!(bits.len(), 254);
    assert_eq!(&bits[..5], &[true, true, false, true, false]);
    assert!(bits[5..].iter().all(|b| !b));
    let high = Fr::from_limbs(0, 0, 0, 1 << 61).unwrap().to_bits_le();
    assert!(high[253]);
    assert_eq!(high.iter().filter(|b| **b).count(), 1);
    let limb = Fr::from_limbs(0, 1, 0, 0).unwrap().to_bits_le();
    assert!(limb[64]);
    assert_eq!(limb.iter().filter(|b| **b).count(), 1);
}

#[test]
fn elements_are_encoded_in_32_bytes() {
    let mut out = vec![9u8];
    assert!(Fr::from_u64(0x0102).serialize_compressed(&mut out));
    let mut expected = vec![0u8; 33];
    expected[0] = 9;
    expected[1] = 2;
    expected[2] = 1;
    assert_eq!(out, expected);
    let mut out = Vec::new();
    assert!(Fr::from_limbs(0, 0, 0, 0x0100000000000000).unwrap().serialize_compressed(&mut out));
    let mut expected = vec![0u8; 32];
    expected[31] = 1;
    assert_eq!(out, expected);
}

#[test]
fn powers_of_two_bound_path_indices() {
    assert!(below_power_of_two(&Fr::zero(), 0));
    assert!(!below_power_of_two(&Fr::one(), 0));
    assert!(below_power_of_two(&Fr::from_u64(255), 8));
    assert!(!below_power_of_two(&Fr::from_u64(256), 8));
    assert!(below_power_of_two(&Fr::from_u64(u64::MAX), 64));
    assert!(!below_power_of_two(&Fr::from_limbs(0, 1, 0, 0).unwrap(), 64));
    let [l0, l1, l2, l3] = MODULUS_LIMBS;
    let top = Fr::from_limbs(l0 - 1, l1, l2, l3).unwrap();
    assert!(!below_power_of_two(&top, 253));
    assert!(below_power_of_two(&top, 254));
    assert!(below_power_of_two(&top, 300));
}
