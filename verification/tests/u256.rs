use op_rbuilder::u256::U256;

fn outside(x: U256) -> alloy_primitives::U256 {
    alloy_primitives::U256::from_limbs([x.l0, x.l1, x.l2, x.l3])
}

const MAX: U256 = U256 { l0: u64::MAX, l1: u64::MAX, l2: u64::MAX, l3: u64::MAX };

#[test]
fn u256_addition_wraps_around() {
    assert_eq!(MAX.wrapping_add(U256::from_u64(1)), U256::zero());
    assert_eq!(MAX.wrapping_add(MAX), U256 { l0: u64::MAX - 1, ..MAX });
    let carry = U256::from_u64(u64::MAX).wrapping_add(U256::from_u64(2));
    assert_eq!(carry, U256 { l0: 1, l1: 1, l2: 0, l3: 0 });
}

#[test]
fn u256_multiplication_wraps_around() {
    let a = U256::from_u128(u128::MAX);
    let b = U256 { l0: 3, l1: 5, l2: 7, l3: 11 };
    assert_eq!(outside(a.wrapping_mul(b)), outside(a).wrapping_mul(outside(b)));
    assert_eq!(U256::from_u64(7).wrapping_mul(U256::from_u64(6)), U256::from_u64(42));
    assert_eq!(MAX.wrapping_mul(MAX), U256::from_u64(1));
}

#[test]
fn u256_narrows_to_u64() {
    assert_eq!(U256::from_u64(17).saturating_to_u64(), 17);
    assert_eq!(U256::from_u128(1 << 64).saturating_to_u64(), u64::MAX);
    assert_eq!(U256 { l0: 0, l1: 0, l2: 0, l3: 1 }.saturating_to_u64(), u64::MAX);
    assert_eq!(U256::from_u64(u64::MAX).to_u64(), u64::MAX);
    assert!(U256::from_u64(u64::MAX).fits_u64());
    assert!(!U256::from_u128(1 << 64).fits_u64());
}

#[test]
fn u256_widens_u128() {
    let x: u128 = 0x0123_4567_89ab_cdef_fedc_ba98_7654_3210;
    assert_eq!(outside(U256::from_u128(x)), alloy_primitives::U256::from(x));
}
