//! The runtime's fee and gas parameters: the length-to-fee polynomial, the
//! fixed gas price, the base-fee thresholds, and the block gas limit.
use vstd::prelude::*;
use vstd::arithmetic::power::pow;
use crate::arithmetic::{
    fixed_from_integer, fixed_from_rational, fixed_one, fixed_saturating_mul_int, perbill_accuracy,
    perbill_from_percent, perbill_mul_u64, perbill_of, permill_from_parts, perquintill_from_percent,
    saturate_u128, saturate_u64,
};
use crate::currency::{SUPPLY_FACTOR, TRANSACTION_BYTE_FEE, WEIGHT_FEE};
use crate::weights::{Weight, db_reads, ref_time_per_millis, ref_time_per_second};

verus! {

/// One term of a fee polynomial: `(coeff_frac + coeff_integer) * x^degree`,
/// added, or subtracted when `negative`.
#[derive(Clone, Copy, PartialEq, Eq, Structural, Debug)]
pub struct FeeCoefficient {
    /// The integral part of the coefficient.
    pub coeff_integer: u128,
    /// The fractional part of the coefficient, in billionths.
    pub coeff_frac: u32,
    /// Whether the term is subtracted.
    pub negative: bool,
    /// The exponent of the term.
    pub degree: u8,
}

/// The running total after adding (or subtracting) one term at `x`, every
/// step saturating.
pub open spec fn term_eval(acc: u128, c: FeeCoefficient, x: u128) -> u128 {
    let power = saturate_u128(pow(x as int, c.degree as nat));
    let frac_parts: int = if c.coeff_frac > perbill_accuracy() { perbill_accuracy() } else { c.coeff_frac as int };
    let frac = perbill_of(frac_parts, power as int);
    let integer = saturate_u128(c.coeff_integer * power);
    if c.negative {
        saturate_u128(saturate_u128(acc - frac) - integer)
    } else {
        saturate_u128(saturate_u128(acc + frac) + integer)
    }
}

/// The polynomial's value at `x`: its terms applied in order, from zero.
pub open spec fn poly_eval(cs: Seq<FeeCoefficient>, x: u128) -> u128
    decreases cs.len(),
{
    if cs.len() == 0 {
        0
    } else {
        term_eval(poly_eval(cs.drop_last(), x), cs.last(), x)
    }
}

/// `FeePolynomial::eval(x)` of `sp_weights` on the polynomial `coeffs`:
/// starting from zero, each term in order adds (or subtracts) its fractional
/// and its integral part times `x` to the power of its degree, every step
/// saturating, as `poly_eval` states.
#[verifier::external_body]
fn fee_polynomial_eval(coeffs: &Vec<FeeCoefficient>, x: u64) -> (r: u128)
    ensures
        r == poly_eval(coeffs@, x as u128),
{
    let terms: sp_weights::WeightToFeeCoefficients<u128> = coeffs.iter().map(|c| sp_weights::WeightToFeeCoefficient {
        coeff_integer: c.coeff_integer,
        coeff_frac: sp_arithmetic::Perbill::from_parts(c.coeff_frac),
        negative: c.negative,
        degree: c.degree,
    }).collect();
    sp_weights::FeePolynomial::from(terms).eval(x)
}

/// The length-to-fee polynomial's terms.
pub open spec fn length_fee_terms() -> Seq<FeeCoefficient> {
    seq![
        FeeCoefficient { degree: 1, coeff_frac: 0, coeff_integer: TRANSACTION_BYTE_FEE, negative: false },
        FeeCoefficient { degree: 3, coeff_frac: 0, coeff_integer: (1 * SUPPLY_FACTOR) as u128, negative: false },
    ]
}

/// No parts of anything is zero.
proof fn lemma_perbill_of_zero(y: int)
    ensures
        perbill_of(0, y) == 0,
{
}

/// Converts a transaction's length into a fee: a linear term at the
/// transaction byte fee and a cubic term.
pub struct LengthToFee;

impl LengthToFee {
    /// The polynomial's terms.
    pub fn polynomial() -> (r: Vec<FeeCoefficient>)
        ensures
            r@ == length_fee_terms(),
    {
        let mut v: Vec<FeeCoefficient> = Vec::new();
        v.push(FeeCoefficient { degree: 1, coeff_frac: 0, coeff_integer: TRANSACTION_BYTE_FEE, negative: false });
        v.push(FeeCoefficient { degree: 3, coeff_frac: 0, coeff_integer: 1 * SUPPLY_FACTOR, negative: false });
        assert(v@ =~= length_fee_terms());
        v
    }

    /// The fee for a transaction of `len` bytes: the polynomial evaluated at
    /// `len`, which is `TRANSACTION_BYTE_FEE * len + len^3`.
    pub fn length_to_fee(len: u32) -> (r: u128)
        ensures
            r == TRANSACTION_BYTE_FEE * len + len * len * len,
    {
        let terms = Self::polynomial();
        let r = fee_polynomial_eval(&terms, len as u64);
        proof {
            let x = len as u128;
            let cs = length_fee_terms();
            reveal_with_fuel(pow, 4);
            assert(pow(x as int, 1) == x);
            assert(pow(x as int, 2) == x * pow(x as int, 1));
            assert(pow(x as int, 3) == x * pow(x as int, 2));
            assert(x * (x * x) == x * x * x) by (nonlinear_arith);
            assert(pow(x as int, 3) == x * x * x);
            assert(x * x * x <= 4_294_967_295int * 4_294_967_295 * 4_294_967_295) by (nonlinear_arith)
                requires x <= 4_294_967_295;
            assert(TRANSACTION_BYTE_FEE * x <= 10_000_000_000_000 * 4_294_967_295int) by (nonlinear_arith)
                requires x <= 4_294_967_295;
            lemma_perbill_of_zero(x as int);
            lemma_perbill_of_zero(x * x * x);
            let c1 = cs[0];
            let c3 = cs[1];
            let one = seq![c1];
            assert(cs.drop_last() =~= one);
            assert(one.drop_last() =~= Seq::<FeeCoefficient>::empty());
            assert(poly_eval(Seq::<FeeCoefficient>::empty(), x) == 0);
            assert(poly_eval(one, x) == term_eval(0, c1, x));
            assert(saturate_u128(pow(x as int, 1)) == x);
            assert(saturate_u128(c1.coeff_integer * x) == TRANSACTION_BYTE_FEE * x);
            assert(term_eval(0, c1, x) == TRANSACTION_BYTE_FEE * x);
            let acc = TRANSACTION_BYTE_FEE * x;
            assert(poly_eval(cs, x) == term_eval(acc as u128, c3, x));
            assert(saturate_u128(pow(x as int, 3)) == x * x * x);
            assert(saturate_u128(c3.coeff_integer * (x * x * x)) == x * x * x);
            assert(term_eval(acc as u128, c3, x) == acc + x * x * x);
        }
        r
    }
}

/// Milliseconds per block.
pub const MILLISECS_PER_BLOCK: u64 = 6000;
/// The Aura slot duration.
pub const SLOT_DURATION: u64 = MILLISECS_PER_BLOCK;
/// Blocks per minute.
pub const MINUTES: u32 = 60_000 / (MILLISECS_PER_BLOCK as u32);
/// Blocks per hour.
pub const HOURS: u32 = MINUTES * 60;
/// Blocks per day.
pub const DAYS: u32 = HOURS * 24;
/// The session period, in blocks.
pub const PERIOD: u32 = 2 * MINUTES;
/// The session offset, in blocks.
pub const OFFSET: u32 = 0;
/// The minimum period between blocks, in milliseconds.
pub const MINIMUM_PERIOD: u64 = SLOT_DURATION / 2;
/// The EVM chain identifier.
pub const CHAIN_ID: u64 = 1339;
/// Milliseconds of computation allowed per block.
pub const WEIGHT_MILLISECS_PER_BLOCK: u64 = 2000;
/// The maximum block length, in bytes.
pub const MAXIMUM_BLOCK_LENGTH: u32 = 5 * 1024 * 1024;
/// Gas per second of computation.
pub const GAS_PER_SECOND: u64 = 40_000_000;
/// Block hashes kept.
pub const BLOCK_HASH_COUNT: u32 = 256;
/// The SS58 address prefix.
pub const SS58_PREFIX: u8 = 42;
/// The maximum number of Aura authorities.
pub const MAX_AUTHORITIES: u32 = 100;
/// The existential deposit.
pub const EXISTENTIAL_DEPOSIT: u128 = 500;
/// The most locks on one account.
pub const MAX_LOCKS: u32 = 50;
/// The most signatories of a multisig.
pub const MAX_SIGNATORIES: u16 = 100;
/// The minimum number of validators left by a removal.
pub const MIN_AUTHORITIES: u32 = 1;
/// The gas limit to proof size ratio.
pub const GAS_LIMIT_POV_SIZE_RATIO: u64 = 4;
/// The bound divisor of the dynamic fee.
pub const BOUND_DIVISION: u64 = 1024;
/// The multiplier of operational fees.
pub const OPERATIONAL_FEE_MULTIPLIER: u8 = 5;
/// The most well-known nodes.
pub const MAX_WELL_KNOWN_NODES: u32 = 512;
/// The longest peer identifier.
pub const MAX_PEER_ID_LENGTH: u32 = 128;

/// The reference time that one unit of gas costs: one second of reference
/// time divided by the gas per second.
pub fn weight_per_gas() -> (r: u64)
    ensures
        r == 25_000,
{
    ref_time_per_second() / GAS_PER_SECOND
}

/// The weight of one unit of gas.
pub fn weight_per_gas_weight() -> (r: Weight)
    ensures
        r == (Weight { ref_time: 25_000, proof_size: 0 }),
{
    Weight::from_parts(weight_per_gas(), 0)
}

/// The share of a block that normal dispatches may fill, in billionths: 75%.
pub fn normal_dispatch_ratio() -> (r: u32)
    ensures
        r == 750_000_000,
{
    perbill_from_percent(75)
}

/// The maximum block weight: two seconds of reference time, unlimited proof
/// size.
pub fn maximum_block_weight() -> (r: Weight)
    ensures
        r == (Weight { ref_time: 2_000_000_000_000, proof_size: u64::MAX }),
{
    Weight::from_parts(WEIGHT_MILLISECS_PER_BLOCK * ref_time_per_millis(), u64::MAX)
}

/// The block gas limit: the normal share of the maximum block reference time,
/// in gas.
pub fn block_gas_limit() -> (r: u64)
    ensures
        r == perbill_of(750_000_000, 2_000_000_000_000) / 25_000,
        r == 60_000_000,
{
    let ratio = normal_dispatch_ratio();
    let normal = perbill_mul_u64(ratio, maximum_block_weight().ref_time());
    normal / weight_per_gas()
}

/// The base-fee thresholds of block fullness, in millionths.
pub struct BaseFeeThreshold;

impl BaseFeeThreshold {
    /// Zero.
    pub fn lower() -> (r: u32)
        ensures
            r == 0,
    {
        permill_from_parts(0)
    }

    /// One half.
    pub fn ideal() -> (r: u32)
        ensures
            r == 500_000,
    {
        permill_from_parts(500_000)
    }

    /// One.
    pub fn upper() -> (r: u32)
        ensures
            r == 1_000_000,
    {
        permill_from_parts(1_000_000)
    }
}

/// The default base-fee elasticity, in millionths: 12.5%.
pub fn default_elasticity() -> (r: u32)
    ensures
        r == 125_000,
{
    permill_from_parts(125_000)
}

/// The targeted block fullness of the fee adjustment, in quintillionths: 25%.
pub fn target_block_fullness() -> (r: u64)
    ensures
        r == 250_000_000_000_000_000,
{
    perquintill_from_percent(25)
}

/// The fee adjustment variable, as a fixed-point inner value: 4 / 1000.
pub fn adjustment_variable() -> (r: u128)
    ensures
        r == 4_000_000_000_000_000,
{
    fixed_from_rational(4, 1_000)
}

/// The least fee multiplier, as a fixed-point inner value: 1.
pub fn minimum_multiplier() -> (r: u128)
    ensures
        r == 1_000_000_000_000_000_000,
{
    fixed_from_integer(1)
}

/// The greatest fee multiplier, as a fixed-point inner value: 100 000.
pub fn maximum_multiplier() -> (r: u128)
    ensures
        r == 100_000_000_000_000_000_000_000,
{
    fixed_from_integer(100_000)
}

/// The EVM gas price derived from the transaction-payment fee multiplier.
pub struct FixedGasPrice;

impl FixedGasPrice {
    /// The minimum gas price for the fee multiplier `next_fee_multiplier`
    /// (a fixed-point inner value): the multiplier applied to the weight fee
    /// of one unit of gas, and the weight of the one database read that
    /// looking up the multiplier costs.
    pub fn min_gas_price(next_fee_multiplier: u128, db_read: u64, db_write: u64) -> (r: (u128, Weight))
        ensures
            r.0 == saturate_u128(next_fee_multiplier * (WEIGHT_FEE * 25_000) / fixed_one()),
            r.1 == (Weight { ref_time: db_read, proof_size: 0 }),
    {
        let fee_per_gas = match WEIGHT_FEE.checked_mul(weight_per_gas() as u128) {
            Some(v) => v,
            None => u128::MAX,
        };
        let price = fixed_saturating_mul_int(next_fee_multiplier, fee_per_gas);
        (price, db_reads(db_read, db_write, 1))
    }
}

} // verus!
