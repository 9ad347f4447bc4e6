use clmm_pool::math::{mul_div_ceil, mul_div_floor, mul_div_rem, Q64};

#[test]
fn q64_is_two_to_the_64() {
    assert_eq!(Q64, 1u128 << 64);
}

#[test]
fn mul_div_rem_small_values() {
    assert_eq!(mul_div_rem(7, 3, 4), Some((5, 1)));
    assert_eq!(mul_div_rem(0, 9, 4), Some((0, 0)));
    assert_eq!(mul_div_rem(9, 0, 4), Some((0, 0)));
    assert_eq!(mul_div_rem(10, 10, 1), Some((100, 0)));
}

#[test]
fn mul_div_rem_wide_product() {
    // the product needs 192 bits, the quotient fits
    let a = u128::MAX;
    let b = u64::MAX;
    assert_eq!(mul_div_rem(a, b, a), Some((b as u128, 0)));
    assert_eq!(mul_div_rem(a, b, b as u128), Some((a, 0)));
    // (2^128 - 1) * 3 / 4 = 2^128 - 1 - 2^126 remainder 1
    let q = u128::MAX - (1u128 << 126);
    assert_eq!(mul_div_rem(a, 3, 4), Some((q, 1)));
}

#[test]
fn mul_div_rem_quotient_overflow() {
    assert_eq!(mul_div_rem(u128::MAX, 2, 1), None);
    assert_eq!(mul_div_rem(u128::MAX, u64::MAX, 1), None);
    assert_eq!(mul_div_rem(1u128 << 127, 2, 1), None);
    assert_eq!(mul_div_rem(1u128 << 127, 2, 2), Some((1u128 << 127, 0)));
}

#[test]
fn mul_div_floor_and_ceil_round_apart() {
    assert_eq!(mul_div_floor(7, 3, 4), Some(5));
    assert_eq!(mul_div_ceil(7, 3, 4), Some(6));
    assert_eq!(mul_div_floor(8, 3, 4), Some(6));
    assert_eq!(mul_div_ceil(8, 3, 4), Some(6));
}

#[test]
fn mul_div_by_zero_is_none() {
    assert_eq!(mul_div_floor(7, 3, 0), None);
    assert_eq!(mul_div_ceil(7, 3, 0), None);
    assert_eq!(mul_div_floor(0, 0, 0), None);
}

#[test]
fn mul_div_ceil_overflows_one_past_floor() {
    // floor is exactly u128::MAX with a remainder, so the ceiling does not fit
    assert_eq!(mul_div_floor(u128::MAX, 3, 2).is_none(), true);
    let a = u128::MAX;
    assert_eq!(mul_div_floor(a, 1, 1), Some(a));
    assert_eq!(mul_div_ceil(a, 1, 1), Some(a));
    // (2^128 - 1) * 2 / 2 = 2^128 - 1 exactly
    assert_eq!(mul_div_ceil(a, 2, 2), Some(a));
    // (2^128 - 1) * 5 / 5 exactly, but * 5 / 4 overflows
    assert_eq!(mul_div_ceil(a, 5, 4), None);
}

#[test]
fn mul_div_fixed_point_rate() {
    // ten tokens per second for 500 seconds over 100 units of liquidity
    let rate = 10u128 << 64;
    assert_eq!(mul_div_floor(rate, 500, 100), Some(50u128 << 64));
    assert_eq!(mul_div_ceil(rate, 500, Q64), Some(5000));
    // half a token per second for one second rounds up to one token
    assert_eq!(mul_div_ceil(1u128 << 63, 1, Q64), Some(1));
    assert_eq!(mul_div_floor(1u128 << 63, 1, Q64), Some(0));
}
