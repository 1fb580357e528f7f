//! LAVA, the native token, with 18 decimals of precision, and the deposits
//! and fees priced in it.
use vstd::prelude::*;

verus! {

/// A balance, in the smallest unit of LAVA.
pub type Balance = u128;

pub const SUPPLY_FACTOR: u128 = 1;
pub const WEI: u128 = 1;
pub const KILOWEI: u128 = 1_000;
pub const MEGAWEI: u128 = 1_000_000;
pub const GIGAWEI: u128 = 1_000_000_000;
pub const MICROLAVA: u128 = 1_000_000_000_000;
pub const MILLILAVA: u128 = 1_000_000_000_000_000;
pub const LAVA: u128 = 1_000_000_000_000_000_000;
pub const KILOLAVA: u128 = 1_000_000_000_000_000_000_000;

pub const TRANSACTION_BYTE_FEE: u128 = 10 * MICROLAVA * SUPPLY_FACTOR;
pub const STORAGE_BYTE_FEE: u128 = 100 * MICROLAVA * SUPPLY_FACTOR;
pub const WEIGHT_FEE: u128 = 50 * KILOWEI * SUPPLY_FACTOR;

/// The maximum supply: one billion LAVA.
pub const MAXIMUM_SUPPLY: u128 = 1_000_000_000 * LAVA;

/// The deposit for `items` storage items holding `bytes` bytes in all.
pub open spec fn deposit_spec(items: u32, bytes: u32) -> int {
    items * 100 * MILLILAVA * SUPPLY_FACTOR + bytes * STORAGE_BYTE_FEE
}

/// The deposit for `items` storage items holding `bytes` bytes in all:
/// 0.1 LAVA per item and 100 micro-LAVA per byte.
pub fn deposit(items: u32, bytes: u32) -> (r: u128)
    ensures
        r == deposit_spec(items, bytes),
{
    assert(items * 100 * MILLILAVA * SUPPLY_FACTOR <= 4_294_967_295 * 100_000_000_000_000_000) by (nonlinear_arith)
        requires items <= 4_294_967_295;
    assert(bytes * STORAGE_BYTE_FEE <= 4_294_967_295 * 100_000_000_000_000) by (nonlinear_arith)
        requires bytes <= 4_294_967_295;
    items as u128 * 100 * MILLILAVA * SUPPLY_FACTOR + (bytes as u128) * STORAGE_BYTE_FEE
}

/// The multisig deposit base: one storage item of 88 bytes.
pub fn deposit_base() -> (r: u128)
    ensures
        r == deposit_spec(1, 88),
{
    deposit(1, 88)
}

/// The multisig deposit factor: 32 more bytes.
pub fn deposit_factor() -> (r: u128)
    ensures
        r == deposit_spec(0, 32),
{
    deposit(0, 32)
}

/// The default base fee per gas: one gigawei times the supply factor,
/// saturating.
pub fn default_base_fee_per_gas() -> (r: u128)
    ensures
        r == GIGAWEI * SUPPLY_FACTOR,
{
    match GIGAWEI.checked_mul(SUPPLY_FACTOR) {
        Some(v) => v,
        None => u128::MAX,
    }
}


/// Law: the deposit of two groups of storage items together is the sum of
/// their deposits.
pub proof fn law_deposit_is_additive(i1: u32, b1: u32, i2: u32, b2: u32)
    requires
        i1 + i2 <= u32::MAX,
        b1 + b2 <= u32::MAX,
    ensures
        deposit_spec((i1 + i2) as u32, (b1 + b2) as u32) == deposit_spec(i1, b1) + deposit_spec(i2, b2),
{
    assert((i1 + i2) * 100 * MILLILAVA * SUPPLY_FACTOR == i1 * 100 * MILLILAVA * SUPPLY_FACTOR + i2 * 100
        * MILLILAVA * SUPPLY_FACTOR) by (nonlinear_arith);
    assert((b1 + b2) * STORAGE_BYTE_FEE == b1 * STORAGE_BYTE_FEE + b2 * STORAGE_BYTE_FEE) by (nonlinear_arith);
}

} // verus!
