use alian_contracts::shared::errors::Error;
use alian_contracts::shared::math::{
    apply_bps, bps_of, checked_add, checked_div, checked_mul, checked_sub, safe_add, safe_sub,
};

const BPS_DENOMINATOR: i128 = 10_000;

#[test]
fn checked_add_handles_i128_edges() {
    assert_eq!(checked_add(i128::MAX, 0), Ok(i128::MAX));
    assert_eq!(checked_add(i128::MIN, 0), Ok(i128::MIN));
    assert_eq!(checked_add(i128::MAX, 1), Err(Error::Overflow));
    assert_eq!(checked_add(i128::MIN, -1), Err(Error::Overflow));
}

#[test]
fn checked_sub_handles_i128_edges() {
    assert_eq!(checked_sub(i128::MAX, 0), Ok(i128::MAX));
    assert_eq!(checked_sub(i128::MIN, 0), Ok(i128::MIN));
    assert_eq!(checked_sub(i128::MAX, -1), Err(Error::Overflow));
    assert_eq!(checked_sub(i128::MIN, 1), Err(Error::Overflow));
}

#[test]
fn checked_mul_handles_i128_edges() {
    assert_eq!(checked_mul(i128::MAX, 1), Ok(i128::MAX));
    assert_eq!(checked_mul(i128::MIN, 1), Ok(i128::MIN));
    assert_eq!(checked_mul(i128::MAX, 2), Err(Error::Overflow));
    assert_eq!(checked_mul(i128::MIN, -1), Err(Error::Overflow));
}

#[test]
fn checked_div_handles_i128_edges_and_zero() {
    assert_eq!(checked_div(i128::MAX, 1), Ok(i128::MAX));
    assert_eq!(checked_div(i128::MIN, 1), Ok(i128::MIN));
    assert_eq!(checked_div(i128::MIN, -1), Err(Error::Overflow));
    assert_eq!(checked_div(1, 0), Err(Error::InvalidAmount));
}

#[test]
fn checked_operations_match_i128_for_boundary_matrix() {
    let values = [
        i128::MIN,
        i128::MIN + 1,
        -BPS_DENOMINATOR,
        -1,
        0,
        1,
        BPS_DENOMINATOR,
        i128::MAX - 1,
        i128::MAX,
    ];

    for a in values {
        for b in values {
            assert_eq!(checked_add(a, b), a.checked_add(b).ok_or(Error::Overflow));
            assert_eq!(checked_sub(a, b), a.checked_sub(b).ok_or(Error::Overflow));
            assert_eq!(checked_mul(a, b), a.checked_mul(b).ok_or(Error::Overflow));

            let expected_division = if b == 0 {
                Err(Error::InvalidAmount)
            } else {
                a.checked_div(b).ok_or(Error::Overflow)
            };
            assert_eq!(checked_div(a, b), expected_division);
        }
    }
}

#[test]
fn apply_bps_supports_zero_and_full_rate_boundaries() {
    assert_eq!(apply_bps(123_456, 0), Ok(0));
    assert_eq!(apply_bps(123_456, 10_000), Ok(123_456));
    assert_eq!(apply_bps(i128::MAX, 10_000), Ok(i128::MAX));
}

#[test]
fn apply_bps_rounds_down() {
    assert_eq!(apply_bps(101, 100), Ok(1));
    assert_eq!(apply_bps(9_999, 1), Ok(0));
    assert_eq!(apply_bps(10_001, 1), Ok(1));
}

#[test]
fn apply_bps_rejects_invalid_amounts_and_rates() {
    assert_eq!(apply_bps(0, 100), Err(Error::InvalidAmount));
    assert_eq!(apply_bps(-1, 100), Err(Error::InvalidAmount));
    assert_eq!(apply_bps(1, -1), Err(Error::InvalidAmount));
    assert_eq!(apply_bps(1, 10_001), Err(Error::InvalidAmount));
}

#[test]
fn apply_bps_exact_values_and_large_amounts() {
    assert_eq!(apply_bps(10_000, 500), Ok(500));
    assert_eq!(apply_bps(12_345, 2_500), Ok(3_086));
    assert_eq!(apply_bps(i128::MAX, 5_000), Ok(i128::MAX / 2));
    assert_eq!(apply_bps(i128::MAX, 1), Ok(i128::MAX / 10_000));
}

#[test]
fn checked_div_rounds_toward_zero() {
    assert_eq!(checked_div(7, 2), Ok(3));
    assert_eq!(checked_div(-7, 2), Ok(-3));
    assert_eq!(checked_div(7, -2), Ok(-3));
    assert_eq!(checked_div(-7, -2), Ok(3));
    assert_eq!(checked_div(0, -5), Ok(0));
}

#[test]
fn bps_of_uses_full_width_product() {
    assert_eq!(bps_of(10_000, 1_000), Some(1_000));
    assert_eq!(bps_of(10_000, 0), Some(0));
    assert_eq!(bps_of(9_999, 1), Some(0));
    assert_eq!(bps_of(i128::MAX, 10_000), None);
    assert_eq!(bps_of(i128::MAX, 1), Some(i128::MAX / 10_000));
}

#[test]
fn safe_add_and_sub_report_overflow_as_none() {
    assert_eq!(safe_add(1, 2), Some(3));
    assert_eq!(safe_add(i128::MAX, 1), None);
    assert_eq!(safe_sub(1, 2), Some(-1));
    assert_eq!(safe_sub(i128::MIN, 1), None);
}
