use magpen::fixed::{fp_add, fp_div, fp_from_uint, fp_mul, fp_neg, fp_sqrt, fp_sub, FP_MAX, SCALE};

#[test]
fn add_and_sub_exact() {
    assert_eq!(fp_add(1_500_000_000_000, 250_000_000_000), 1_750_000_000_000);
    assert_eq!(fp_sub(1_500_000_000_000, 250_000_000_000), 1_250_000_000_000);
    assert_eq!(fp_add(-3, 3), 0);
}

#[test]
fn add_saturates_at_fp_max() {
    assert_eq!(fp_add(FP_MAX, FP_MAX), FP_MAX);
    assert_eq!(fp_sub(-FP_MAX, FP_MAX), -FP_MAX);
    assert_eq!(fp_neg(-FP_MAX), FP_MAX);
}

#[test]
fn mul_scales_and_truncates_toward_zero() {
    // 2.0 * 3.0 == 6.0
    assert_eq!(fp_mul(2 * SCALE, 3 * SCALE), 6 * SCALE);
    // (1e-12) * (1e-12) truncates to zero
    assert_eq!(fp_mul(1, 1), 0);
    // sign handling: truncation is symmetric
    assert_eq!(fp_mul(-3 * SCALE, 2 * SCALE), -6 * SCALE);
    assert_eq!(fp_mul(7, -500_000_000_000), -3);
    assert_eq!(fp_mul(7, 500_000_000_000), 3);
}

#[test]
fn div_is_exact_on_divisible_inputs() {
    assert_eq!(fp_div(6 * SCALE, 3 * SCALE), 2 * SCALE);
    assert_eq!(fp_div(1 * SCALE, 2 * SCALE), 500_000_000_000);
    assert_eq!(fp_div(-1 * SCALE, 2 * SCALE), -500_000_000_000);
}

#[test]
fn div_by_zero_is_zero() {
    assert_eq!(fp_div(5 * SCALE, 0), 0);
    assert_eq!(fp_div(0, 0), 0);
}

#[test]
fn sqrt_matches_perfect_squares() {
    assert_eq!(fp_sqrt(4 * SCALE), 2 * SCALE);
    assert_eq!(fp_sqrt(9 * SCALE), 3 * SCALE);
    // sqrt(0.09) == 0.3
    assert_eq!(fp_sqrt(90_000_000_000), 300_000_000_000);
    assert_eq!(fp_sqrt(0), 0);
    assert_eq!(fp_sqrt(-5), 0);
}

#[test]
fn sqrt_truncates_between_squares() {
    // sqrt(2) = 1.414213562373...
    assert_eq!(fp_sqrt(2 * SCALE), 1_414_213_562_373);
}

#[test]
fn from_uint_scales_and_saturates() {
    assert_eq!(fp_from_uint(0), 0);
    assert_eq!(fp_from_uint(7), 7 * SCALE);
    assert_eq!(fp_from_uint(1_000_000_000), FP_MAX);
}
