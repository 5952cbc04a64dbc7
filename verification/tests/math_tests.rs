use stake_pool::wide_math::{mul_div, wide_div_rem, wide_mul};

#[test]
fn wide_mul_small_values() {
    assert_eq!(wide_mul(7, 6), (0, 42));
    assert_eq!(wide_mul(0, u128::MAX), (0, 0));
    assert_eq!(wide_mul(1, u128::MAX), (0, u128::MAX));
}

#[test]
fn wide_mul_carries_into_high_limb() {
    // (2^64)^2 == 2^128, exactly one in the high limb.
    let two64: u128 = 1u128 << 64;
    assert_eq!(wide_mul(two64, two64), (1, 0));
    // MAX * MAX = 2^256 - 2^129 + 1.
    assert_eq!(wide_mul(u128::MAX, u128::MAX), (u128::MAX - 1, 1));
}

#[test]
fn wide_div_rem_reverses_wide_mul() {
    let (hi, lo) = wide_mul(123_456_789_012_345_678_901_234_567u128, 987_654_321u128);
    let (q, r) = wide_div_rem(hi, lo, 987_654_321u128);
    assert_eq!(q, 123_456_789_012_345_678_901_234_567u128);
    assert_eq!(r, 0);
}

#[test]
fn mul_div_exact_values() {
    assert_eq!(mul_div(10, 9, 3), Some(30));
    assert_eq!(mul_div(1_000_000_000_000_000_000_000_000, 7, 2), Some(3_500_000_000_000_000_000_000_000));
    // Floor rounding.
    assert_eq!(mul_div(7, 3, 2), Some(10));
}

#[test]
fn mul_div_huge_intermediate() {
    // near * supply / common with values far beyond 2^128 in the product.
    let a: u128 = 300_000_000_000_000_000_000_000_000_000_000_000;
    let b: u128 = 200_000_000_000_000_000_000_000_000_000_000_000;
    let d: u128 = 400_000_000_000_000_000_000_000_000_000_000_000;
    assert_eq!(mul_div(a, b, d), Some(150_000_000_000_000_000_000_000_000_000_000_000));
}

#[test]
fn mul_div_quotient_overflow_is_none() {
    assert_eq!(mul_div(u128::MAX, 2, 1), None);
    assert_eq!(mul_div(u128::MAX, u128::MAX, 1), None);
    assert_eq!(mul_div(u128::MAX, u128::MAX, u128::MAX), Some(u128::MAX));
}
