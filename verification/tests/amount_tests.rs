use asset_simulator::amount::U256;

#[test]
fn test_from_u128_and_is_zero() {
    assert!(U256::zero().is_zero());
    assert!(!U256::from_u128(1).is_zero());
    assert_eq!(U256::from_u128(7), U256 { hi: 0, lo: 7 });
}

#[test]
fn test_lt_orders_numerically() {
    let small = U256 { hi: 0, lo: u128::MAX };
    let big = U256 { hi: 1, lo: 0 };
    assert!(small.lt(&big));
    assert!(!big.lt(&small));
    assert!(!small.lt(&small));
    assert!(U256::from_u128(3).lt(&U256::from_u128(4)));
}

#[test]
fn test_saturating_sub_exact() {
    let a = U256::from_u128(100);
    let b = U256::from_u128(30);
    assert_eq!(a.saturating_sub(&b), U256::from_u128(70));
}

#[test]
fn test_saturating_sub_clamps_at_zero() {
    let a = U256::from_u128(30);
    let b = U256::from_u128(100);
    assert!(a.saturating_sub(&b).is_zero());
    assert!(a.saturating_sub(&a).is_zero());
}

#[test]
fn test_saturating_sub_borrows_across_limbs() {
    let a = U256 { hi: 1, lo: 0 };
    let b = U256 { hi: 0, lo: 1 };
    assert_eq!(a.saturating_sub(&b), U256 { hi: 0, lo: u128::MAX });
}

#[test]
fn test_wrapping_add_plain_and_carry() {
    let a = U256::from_u128(40);
    let b = U256::from_u128(2);
    assert_eq!(a.wrapping_add(&b), U256::from_u128(42));
    let c = U256 { hi: 0, lo: u128::MAX };
    assert_eq!(c.wrapping_add(&U256::from_u128(1)), U256 { hi: 1, lo: 0 });
}

#[test]
fn test_wrapping_add_wraps_at_modulus() {
    let max = U256 { hi: u128::MAX, lo: u128::MAX };
    assert!(max.wrapping_add(&U256::from_u128(1)).is_zero());
    assert_eq!(max.wrapping_add(&U256::from_u128(5)), U256::from_u128(4));
}

#[test]
fn test_u256_byte_roundtrip() {
    let x = U256 { hi: 0x0102_0304_0506_0708_090a_0b0c_0d0e_0f10, lo: 0xfedc_ba98 };
    let bytes = x.to_be_bytes();
    assert_eq!(bytes.len(), 32);
    assert_eq!(bytes[0], 0x01);
    assert_eq!(bytes[15], 0x10);
    assert_eq!(bytes[28], 0xfe);
    assert_eq!(bytes[31], 0x98);
    assert_eq!(U256::from_bytes_at(&bytes, 0), x);
}
