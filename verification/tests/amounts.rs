use cat_bridge::u256::U256;
use cat_bridge::utils::{denormalize_amount, normalize_amount};

#[test]
fn normalize_identity_when_equal() {
    assert_eq!(normalize_amount(123_456, 8, 8), Some(123_456));
    assert_eq!(normalize_amount(0, 0, 0), Some(0));
}

#[test]
fn normalize_scales_up() {
    // 1_000_000 at 6 decimals is 100_000_000 at the 8-decimal wire precision
    assert_eq!(normalize_amount(1_000_000, 6, 8), Some(100_000_000));
    assert_eq!(normalize_amount(7, 0, 3), Some(7_000));
}

#[test]
fn normalize_scales_down_with_floor() {
    assert_eq!(normalize_amount(100_000_000, 8, 6), Some(1_000_000));
    assert_eq!(normalize_amount(199, 2, 0), Some(1));
    assert_eq!(normalize_amount(99, 2, 0), Some(0));
}

#[test]
fn normalize_overflow_boundaries() {
    // u64::MAX survives an identity conversion but not a single scale-up
    assert_eq!(normalize_amount(u64::MAX, 8, 8), Some(u64::MAX));
    assert_eq!(normalize_amount(u64::MAX, 8, 9), None);
    // the largest value whose ten-fold still fits
    assert_eq!(normalize_amount(u64::MAX / 10, 8, 9), Some(u64::MAX / 10 * 10));
    assert_eq!(normalize_amount(u64::MAX / 10 + 1, 8, 9), None);
    // two orders of magnitude
    assert_eq!(normalize_amount(u64::MAX / 100 + 1, 8, 10), None);
    // a huge decimal difference with a nonzero amount must not wrap
    assert_eq!(normalize_amount(1, 0, 255), None);
    // zero never overflows
    assert_eq!(normalize_amount(0, 0, 255), Some(0));
}

#[test]
fn normalize_round_trip_with_loss() {
    // divisible: no loss
    let down = normalize_amount(1_230_000, 8, 6).unwrap();
    assert_eq!(normalize_amount(down, 6, 8), Some(1_230_000));
    // not divisible: dust is dropped, the round trip loses exactly the remainder
    let down = normalize_amount(1_234_567, 8, 6).unwrap();
    assert_eq!(down, 12_345);
    assert_eq!(normalize_amount(down, 6, 8), Some(1_234_500));
    assert!(1_234_500 < 1_234_567);
}

#[test]
fn normalize_large_decimal_gap_scales_down_to_zero() {
    // 10^20 exceeds any 64-bit amount, so scaling down by 20 digits floors to zero
    assert_eq!(normalize_amount(u64::MAX, 28, 8), Some(0));
}

#[test]
fn denormalize_scales_up_above_wire_precision() {
    assert_eq!(denormalize_amount(1_000, 9), Some(10_000));
    assert_eq!(denormalize_amount(1_000, 8), Some(1_000));
    assert_eq!(denormalize_amount(1_000, 2), Some(1_000));
    assert_eq!(denormalize_amount(u64::MAX, 9), None);
}

#[test]
fn u256_from_and_to_u64() {
    let v = U256::from_u64(0x0102_0304_0506_0708);
    assert_eq!(&v.bytes[..24], &[0u8; 24]);
    assert_eq!(&v.bytes[24..], &[1, 2, 3, 4, 5, 6, 7, 8]);
    assert_eq!(v.to_u64(), 0x0102_0304_0506_0708);
    assert_eq!(v.checked_to_u64(), Some(0x0102_0304_0506_0708));
}

#[test]
fn u256_checked_narrowing_refuses_high_bytes() {
    let mut bytes = [0u8; 32];
    bytes[23] = 1; // 2^64: one past the largest 64-bit value
    bytes[31] = 5;
    let v = U256 { bytes };
    assert_eq!(v.checked_to_u64(), None);
    // the unchecked reading silently discards the high bytes
    assert_eq!(v.to_u64(), 5);
}

#[test]
fn u256_max_u64_round_trips() {
    let v = U256::from_u64(u64::MAX);
    assert_eq!(v.checked_to_u64(), Some(u64::MAX));
    assert_eq!(v.to_u64(), u64::MAX);
}
