use lbp_core::math::{pow_wad, sqrt_u128};
use lbp_core::scale::{scale_token_after, scale_token_before};
use lbp_core::swaps::swap_fee_amount;
use lbp_core::weights::linear_interpolation;
use lbp_core::errors::ErrorCode;
use lbp_core::WAD;

#[test]
fn sqrt_exact_squares() {
    assert_eq!(sqrt_u128(0), 0);
    assert_eq!(sqrt_u128(1), 1);
    assert_eq!(sqrt_u128(4), 2);
    assert_eq!(sqrt_u128(1_000_000_000_000_000_000), 1_000_000_000);
}

#[test]
fn sqrt_rounds_down() {
    assert_eq!(sqrt_u128(2), 1);
    assert_eq!(sqrt_u128(3), 1);
    assert_eq!(sqrt_u128(999_999_999_999_999_999), 999_999_999);
    assert_eq!(sqrt_u128(u64::MAX as u128), 4_294_967_295);
}

#[test]
fn pow_identity_exponent_one() {
    assert_eq!(pow_wad(WAD as u128, WAD as u128), Ok(WAD as u128));
    assert_eq!(pow_wad(1_234_567_890, WAD as u128), Ok(1_234_567_890));
}

#[test]
fn pow_zero_exponent_is_one() {
    assert_eq!(pow_wad(1_500_000_000, 0), Ok(WAD as u128));
    assert_eq!(pow_wad(1, 0), Ok(WAD as u128));
}

#[test]
fn pow_square_root_of_quarter() {
    // 0.25 ^ 0.5 == 0.5 exactly, even truncating.
    assert_eq!(pow_wad(250_000_000, 500_000_000), Ok(500_000_000));
}

#[test]
fn pow_integer_cube() {
    // 2 ^ 3 == 8 whole units.
    assert_eq!(pow_wad(2 * WAD as u128, 3 * WAD as u128), Ok(8 * WAD as u128));
}

#[test]
fn pow_fractional_exponent() {
    // 1.5 ^ 2.5, truncating after every step of the fixed algorithm.
    assert_eq!(pow_wad(1_500_000_000, 2_500_000_000), Ok(2_755_675_959));
}

#[test]
fn scale_up_then_down_is_identity() {
    // Token with 6 decimals: up by 10^3, back down by 10^3.
    let up = scale_token_before(123_456, 6).unwrap();
    assert_eq!(up, 123_456_000);
    assert_eq!(scale_token_after(up, 6), Ok(123_456));
}

#[test]
fn scale_identity_at_base_decimals() {
    assert_eq!(scale_token_before(987_654_321, 9), Ok(987_654_321));
    assert_eq!(scale_token_after(987_654_321, 9), Ok(987_654_321));
}

#[test]
fn scale_down_then_up_keeps_multiples() {
    // Token with 12 decimals: down by 10^3; multiples of 1000 survive.
    let down = scale_token_before(123_000, 12).unwrap();
    assert_eq!(down, 123);
    assert_eq!(scale_token_after(down, 12), Ok(123_000));
}

#[test]
fn scale_down_truncates_dust() {
    // 123_456 is no multiple of 1000: the dust is gone after the trip.
    let down = scale_token_before(123_456, 12).unwrap();
    assert_eq!(down, 123);
    assert_eq!(scale_token_after(down, 12), Ok(123_000));
}

#[test]
fn scale_up_overflow_is_math_error() {
    assert_eq!(scale_token_before(u64::MAX, 0), Err(ErrorCode::MathError));
    assert_eq!(scale_token_after(u64::MAX, 18), Err(ErrorCode::MathError));
}

#[test]
fn scale_extreme_decimals() {
    // 10^(d-9) beyond any 64-bit amount: scaling down yields zero,
    // scaling any nonzero amount up cannot fit.
    assert_eq!(scale_token_before(u64::MAX, 40), Ok(0));
    assert_eq!(scale_token_after(0, 40), Ok(0));
    assert_eq!(scale_token_after(1, 40), Err(ErrorCode::MathError));
}

#[test]
fn lerp_hits_both_endpoints() {
    assert_eq!(linear_interpolation(100, 200, 0, 100), 100);
    assert_eq!(linear_interpolation(100, 200, 100, 100), 200);
    assert_eq!(linear_interpolation(200, 100, 0, 100), 200);
    assert_eq!(linear_interpolation(200, 100, 100, 100), 100);
}

#[test]
fn lerp_midpoint_and_truncation() {
    assert_eq!(linear_interpolation(100, 200, 50, 100), 150);
    assert_eq!(linear_interpolation(200, 100, 50, 100), 150);
    // 10 * 1 / 3 truncates.
    assert_eq!(linear_interpolation(0, 10, 1, 3), 3);
    assert_eq!(linear_interpolation(10, 0, 1, 3), 7);
}

#[test]
fn lerp_is_monotonic_over_the_window() {
    let mut last = linear_interpolation(900_000_000, 100_000_000, 0, 10);
    for i in 1..=10u64 {
        let cur = linear_interpolation(900_000_000, 100_000_000, i, 10);
        assert!(cur <= last);
        last = cur;
    }
}

#[test]
fn swap_fee_formula() {
    // 0.5% of 1,000,000.
    assert_eq!(swap_fee_amount(1_000_000, 5_000_000), 5_000);
    assert_eq!(swap_fee_amount(0, 5_000_000), 0);
    assert_eq!(swap_fee_amount(199, 5_000_000), 0);
    assert_eq!(swap_fee_amount(1_000_000, WAD), 1_000_000);
}
