//! Fixed-point arithmetic with 32 fractional bits ("fp32"): a price is a
//! `u64` whose low 32 bits are the fraction. Quantities are plain `u64`.
use vstd::prelude::*;

verus! {

/// One unit in fixed-point: 2^32.
pub const FP32_ONE: u64 = 0x1_0000_0000;

/// `n` squeezed into a `u64`, or `None` when it does not fit.
fn safe_downcast(n: u128) -> (r: Option<u64>)
    ensures
        n <= u64::MAX ==> r == Some(n as u64),
        n > u64::MAX ==> r is None,
{
    if n > u64::MAX as u128 {
        None
    } else {
        Some(n as u64)
    }
}

/// Multiply a quantity `a` by a fixed-point price `b_fp32`; the result is a
/// quantity: `floor(a * b_fp32 / 2^32)`, or `None` when that exceeds
/// `u64::MAX`.
pub fn fp32_mul(a: u64, b_fp32: u64) -> (r: Option<u64>)
    ensures
        (a * b_fp32) / (FP32_ONE as int) <= u64::MAX ==> r == Some(
            (((a * b_fp32) / (FP32_ONE as int)) as u64),
        ),
        (a * b_fp32) / (FP32_ONE as int) > u64::MAX ==> r is None,
{
    proof {
        assert(a * b_fp32 <= u64::MAX * u64::MAX) by (nonlinear_arith)
            requires
                a <= u64::MAX && b_fp32 <= u64::MAX,
        ;
    }
    let p: u128 = (a as u128) * (b_fp32 as u128);
    let shifted: u128 = p >> 32;
    proof {
        assert(p >> 32 == p / 0x1_0000_0000) by (bit_vector);
    }
    safe_downcast(shifted)
}

/// The saturating form of the fixed-point multiply: `u64::MAX` stands in
/// for an overflowing product.
pub open spec fn spec_fp32_mul_sat(a: u64, b_fp32: u64) -> u64 {
    if (a * b_fp32) / (FP32_ONE as int) <= u64::MAX {
        (((a * b_fp32) / (FP32_ONE as int)) as u64)
    } else {
        u64::MAX
    }
}

/// Multiply a quantity by a fixed-point price, saturating at `u64::MAX`.
pub fn fp32_mul_sat(a: u64, b_fp32: u64) -> (r: u64)
    ensures
        r == spec_fp32_mul_sat(a, b_fp32),
{
    match fp32_mul(a, b_fp32) {
        Some(v) => v,
        None => u64::MAX,
    }
}

/// Divide a quantity `a` by a fixed-point price `b_fp32`; the result is
/// `floor(a * 2^32 / b_fp32)`, or `None` on division by zero or when the
/// quotient exceeds `u64::MAX`.
pub fn fp32_div(a: u64, b_fp32: u64) -> (r: Option<u64>)
    ensures
        b_fp32 == 0 ==> r is None,
        b_fp32 != 0 && (a * FP32_ONE) / (b_fp32 as int) <= u64::MAX ==> r == Some(
            (((a * FP32_ONE) / (b_fp32 as int)) as u64),
        ),
        b_fp32 != 0 && (a * FP32_ONE) / (b_fp32 as int) > u64::MAX ==> r is None,
{
    if b_fp32 == 0 {
        return None;
    }
    let widened: u128 = (a as u128) << 32;
    proof {
        assert((a as u128) << 32 == a as u128 * 0x1_0000_0000) by (bit_vector);
    }
    let q: u128 = widened / (b_fp32 as u128);
    safe_downcast(q)
}

} // verus!
