use bond_orderbook::fp32::{fp32_div, fp32_mul, fp32_mul_sat, FP32_ONE};

#[test]
fn mul_by_one_is_identity() {
    assert_eq!(fp32_mul(200, FP32_ONE), Some(200));
    assert_eq!(fp32_mul(0, FP32_ONE), Some(0));
    assert_eq!(fp32_mul(u64::MAX, FP32_ONE), Some(u64::MAX));
}

#[test]
fn mul_takes_the_floor() {
    // 7 * 1.5 = 10.5, floored to 10.
    let one_and_a_half = FP32_ONE + (FP32_ONE / 2);
    assert_eq!(fp32_mul(7, one_and_a_half), Some(10));
    // 1 * 0.5 = 0.5, floored to 0.
    assert_eq!(fp32_mul(1, FP32_ONE / 2), Some(0));
}

#[test]
fn mul_reports_overflow() {
    assert_eq!(fp32_mul(u64::MAX, u64::MAX), None);
    // 2^63 * 4.0 = 2^65 does not fit.
    assert_eq!(fp32_mul(1u64 << 63, 4 * FP32_ONE), None);
    // Just inside the range: (2^63 - 1) * 2.0 = 2^64 - 2.
    assert_eq!(fp32_mul((1u64 << 63) - 1, 2 * FP32_ONE), Some(u64::MAX - 1));
}

#[test]
fn mul_sat_saturates() {
    assert_eq!(fp32_mul_sat(u64::MAX, u64::MAX), u64::MAX);
    assert_eq!(fp32_mul_sat(200, FP32_ONE), 200);
}

#[test]
fn div_by_zero_fails() {
    assert_eq!(fp32_div(1, 0), None);
    assert_eq!(fp32_div(0, 0), None);
}

#[test]
fn div_exact_values() {
    assert_eq!(fp32_div(200, FP32_ONE), Some(200));
    // 1 / 0.5 = 2.
    assert_eq!(fp32_div(1, FP32_ONE / 2), Some(2));
    // 10 / 4.0 = 2.
    assert_eq!(fp32_div(10, 4 * FP32_ONE), Some(2));
    // 2^33 / 0.5 overflows a u64 quotient? 2^33 * 2^32 / 2^31 = 2^34: fits.
    assert_eq!(fp32_div(1u64 << 33, FP32_ONE / 2), Some(1u64 << 34));
}

#[test]
fn div_reports_overflow() {
    // u64::MAX / tiny price leaves the u64 range.
    assert_eq!(fp32_div(u64::MAX, 1), None);
}
