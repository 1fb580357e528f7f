//! Parts-per-thing ratios and fixed-point multipliers, computed by
//! `sp_arithmetic` and held here by their inner integers.
use vstd::prelude::*;
use sp_arithmetic::FixedPointNumber;

verus! {

/// The number of parts in a whole `Perbill`.
pub open spec fn perbill_accuracy() -> int {
    1_000_000_000
}

/// The number of parts in a whole `Permill`.
pub open spec fn permill_accuracy() -> int {
    1_000_000
}

/// The inner value of the fixed-point number one (`FixedU128::DIV`).
pub open spec fn fixed_one() -> int {
    1_000_000_000_000_000_000
}

/// `x` clamped to the range of `u128`.
pub open spec fn saturate_u128(x: int) -> u128 {
    if x > u128::MAX {
        u128::MAX
    } else if x < 0 {
        0
    } else {
        x as u128
    }
}

/// `x` clamped to the range of `u64`.
pub open spec fn saturate_u64(x: int) -> u64 {
    if x > u64::MAX {
        u64::MAX
    } else if x < 0 {
        0
    } else {
        x as u64
    }
}

/// `parts / 1_000_000_000` of `x`, rounded to the nearest integer, a tie
/// rounded down, computed without overflow as `sp_arithmetic` does.
pub open spec fn perbill_of(parts: int, x: int) -> int {
    let a = perbill_accuracy();
    let rem_mul = (x % a) * parts;
    (x / a) * parts + rem_mul / a + (if rem_mul % a > a / 2 { 1int } else { 0int })
}

/// `Perbill::from_percent(x)`, by its number of parts: `x` percent,
/// saturating at one hundred percent.
#[verifier::external_body]
pub(crate) fn perbill_from_percent(x: u32) -> (r: u32)
    ensures
        r == (if x > 100 { 100 } else { x }) * 10_000_000,
{
    sp_arithmetic::Perbill::from_percent(x).deconstruct()
}

/// `Perbill::from_parts(parts) * x` on a `u64`: `parts` billionths of `x`,
/// rounded to the nearest integer, a tie rounded down.
#[verifier::external_body]
pub(crate) fn perbill_mul_u64(parts: u32, x: u64) -> (r: u64)
    requires
        parts <= perbill_accuracy(),
    ensures
        r == perbill_of(parts as int, x as int),
{
    sp_arithmetic::Perbill::from_parts(parts) * x
}

/// `Permill::from_parts(parts)`, by its number of parts: `parts`, saturating
/// at one million.
#[verifier::external_body]
pub(crate) fn permill_from_parts(parts: u32) -> (r: u32)
    ensures
        r == (if parts > 1_000_000 { 1_000_000 } else { parts }),
{
    sp_arithmetic::Permill::from_parts(parts).deconstruct()
}

/// `Perquintill::from_percent(x)`, by its number of parts: `x` percent,
/// saturating at one hundred percent.
#[verifier::external_body]
pub(crate) fn perquintill_from_percent(x: u64) -> (r: u64)
    ensures
        r == (if x > 100 { 100 } else { x }) * 10_000_000_000_000_000,
{
    sp_arithmetic::Perquintill::from_percent(x).deconstruct()
}

/// `FixedU128::saturating_from_rational(n, d)`, by its inner value:
/// `n / d` scaled by `10^18`, rounded down, saturating at `u128::MAX`.
#[verifier::external_body]
pub(crate) fn fixed_from_rational(n: u128, d: u128) -> (r: u128)
    requires
        d != 0,
    ensures
        r == saturate_u128(n * fixed_one() / d as int),
{
    sp_arithmetic::FixedU128::saturating_from_rational(n, d).into_inner()
}

/// `FixedU128::from(n)`, by its inner value: `n * 10^18`, saturating at
/// `u128::MAX`.
#[verifier::external_body]
pub(crate) fn fixed_from_integer(n: u128) -> (r: u128)
    ensures
        r == saturate_u128(n * fixed_one()),
{
    sp_arithmetic::FixedU128::from(n).into_inner()
}

/// `FixedU128::from_inner(inner).saturating_mul_int(n)`: `inner * n / 10^18`
/// rounded down, saturating at `u128::MAX`.
#[verifier::external_body]
pub(crate) fn fixed_saturating_mul_int(inner: u128, n: u128) -> (r: u128)
    ensures
        r == saturate_u128(inner * n / fixed_one()),
{
    sp_arithmetic::FixedU128::from_inner(inner).saturating_mul_int(n)
}

} // verus!
