use vrf_lottery::u256::U256;

#[test]
fn from_u64_roundtrip() {
    let v = U256::from_u64(5);
    assert_eq!(v.try_to_u64(), Some(5));
    assert_eq!(v.l0, 5);
    assert_eq!(v.l1, 0);
    assert_eq!(v.l2, 0);
    assert_eq!(v.l3, 0);
}

#[test]
fn from_u128_splits_limbs() {
    let v = U256::from_u128((1u128 << 64) + 7);
    assert_eq!(v.l0, 7);
    assert_eq!(v.l1, 1);
    assert_eq!(v.l2, 0);
    assert_eq!(v.l3, 0);
    assert_eq!(v.try_to_u64(), None);
}

#[test]
fn zero_is_zero() {
    assert!(U256::zero().is_zero());
    assert!(!U256::from_u64(1).is_zero());
    assert!(!U256::from_limbs(0, 0, 0, 1).is_zero());
}

#[test]
fn checked_add_small_values() {
    let a = U256::from_u64(1000);
    let b = U256::from_u64(2000);
    assert_eq!(a.checked_add(b), Some(U256::from_u64(3000)));
}

#[test]
fn checked_add_carries_across_limbs() {
    let a = U256::from_limbs(u64::MAX, 0, 0, 0);
    let b = U256::from_u64(1);
    assert_eq!(a.checked_add(b), Some(U256::from_limbs(0, 1, 0, 0)));
}

#[test]
fn checked_add_overflow_is_none() {
    let max = U256::from_limbs(u64::MAX, u64::MAX, u64::MAX, u64::MAX);
    assert_eq!(max.checked_add(U256::from_u64(1)), None);
    assert_eq!(max.checked_add(U256::zero()), Some(max));
}

#[test]
fn lt_orders_by_value() {
    let small = U256::from_u64(5);
    let big = U256::from_limbs(0, 0, 0, 1);
    assert!(small.lt(big));
    assert!(!big.lt(small));
    assert!(!small.lt(small));
    assert!(U256::from_u64(4).lt(U256::from_u64(5)));
}

#[test]
fn mod_u64_small_value() {
    assert_eq!(U256::from_u64(7).mod_u64(3), 1);
    assert_eq!(U256::from_u64(9).mod_u64(3), 0);
}

#[test]
fn mod_u64_two_limbs() {
    // (2^64 + 5) mod 7, checked against 128-bit arithmetic
    let v = U256::from_limbs(5, 1, 0, 0);
    let expected = (((1u128 << 64) + 5) % 7) as u64;
    assert_eq!(v.mod_u64(7), expected);
}

#[test]
fn mod_u64_high_limb() {
    // 2^192 = (2^3)^64 is 1 mod 7, so 2^192 + 4 is 5 mod 7
    let v = U256::from_limbs(4, 0, 0, 1);
    assert_eq!(v.mod_u64(7), 5);
    // and 2^192 is 1 mod 5 (2^4 is 1 mod 5, 192 = 4 * 48), so 2^192 + 4 is 0 mod 5
    assert_eq!(v.mod_u64(5), 0);
}

#[test]
fn mod_u64_by_one_is_zero() {
    let v = U256::from_limbs(123, 456, 789, 101112);
    assert_eq!(v.mod_u64(1), 0);
}
