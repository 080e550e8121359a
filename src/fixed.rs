//! Fixed-point constants and the wide-intermediate arithmetic that every
//! amount of the vault goes through.

use vstd::prelude::*;
use crate::error::CrucibleError;

verus! {

/// Scale of the exchange rate: `RATE_SCALE` stands for a rate of 1.
pub const RATE_SCALE: u128 = 1_000_000_000;

/// Basis points in a whole (100%).
pub const BPS_DENOMINATOR: u64 = 10_000;

/// Transfer fee charged on wrap and on unwrap, in basis points (1%).
pub const FEE_RATE: u64 = 100;

/// Part of the unsettled fees that each accrual distributes through the
/// exchange rate, in percent.
pub const YIELD_SHARE: u64 = 80;

/// Part of each fee that is routed to the treasury, in percent.
pub const TREASURY_SHARE: u64 = 20;

/// The fee on an amount: `amount * FEE_RATE / 10000`, rounded down.
pub open spec fn fee_of(amount: int) -> int {
    amount * FEE_RATE as int / BPS_DENOMINATOR as int
}

/// The treasury's cut of a fee, rounded down.
pub open spec fn treasury_cut_of(fee: int) -> int {
    fee * TREASURY_SHARE as int / 100
}

/// The part of a fee that stays in the vault as unsettled yield.
pub open spec fn retained_of(fee: int) -> int {
    fee - treasury_cut_of(fee)
}

/// The part of the unsettled fees that one accrual distributes.
pub open spec fn yield_of(fees: int) -> int {
    fees * YIELD_SHARE as int / 100
}

/// Shares worth `base` units at `rate`, rounded down.
pub open spec fn shares_of(base: int, rate: int) -> int {
    base * RATE_SCALE as int / rate
}

/// Base units that `shares` are worth at `rate`, rounded down.
pub open spec fn base_of(shares: int, rate: int) -> int {
    shares * rate / RATE_SCALE as int
}

/// `a - b`, or zero where `b` exceeds `a`.
pub open spec fn sat_sub(a: int, b: int) -> int {
    if a >= b { a - b } else { 0 }
}

proof fn lemma_fee_bounds(amount: int)
    requires
        amount >= 0,
    ensures
        0 <= fee_of(amount) <= amount,
        amount > 0 ==> fee_of(amount) < amount,
{
}

/// Converting base units to shares and back never gains: the shares are
/// worth at most the base they were bought with, and at least one unit when
/// at least one share was bought at a rate of 1:1 or above. At exactly 1:1
/// the round trip is lossless.
pub proof fn lemma_shares_round_trip(base: int, rate: int)
    requires
        base >= 0,
        rate > 0,
    ensures
        shares_of(base, rate) >= 0,
        shares_of(base, rate) * rate <= base * RATE_SCALE as int,
        base_of(shares_of(base, rate), rate) <= base,
        rate >= RATE_SCALE && shares_of(base, rate) >= 1 ==> base_of(
            shares_of(base, rate),
            rate,
        ) >= 1,
        rate == RATE_SCALE ==> shares_of(base, rate) == base,
        rate == RATE_SCALE ==> base_of(base, rate) == base,
{
    let s = RATE_SCALE as int;
    let q = base * s / rate;
    assert(q >= 0 && q * rate <= base * s) by (nonlinear_arith)
        requires
            base >= 0,
            rate > 0,
            s > 0,
            q == base * s / rate,
    ;
    assert(q * rate / s <= base) by (nonlinear_arith)
        requires
            q * rate <= base * s,
            s > 0,
    ;
    if rate >= s && q >= 1 {
        assert(q * rate / s >= 1) by (nonlinear_arith)
            requires
                rate >= s,
                q >= 1,
                s > 0,
        ;
    }
    if rate == s {
        assert(base * s / s == base) by (nonlinear_arith)
            requires
                s > 0,
        ;
    }
}

/// The fee on `amount`, computed with a 128-bit intermediate.
pub fn fee_for(amount: u64) -> (fee: u64)
    ensures
        fee == fee_of(amount as int),
        fee <= amount,
        amount > 0 ==> fee < amount,
{
    proof { lemma_fee_bounds(amount as int); }
    let rate: u128 = FEE_RATE as u128;
    let wide: u128 = (amount as u128) * rate / (BPS_DENOMINATOR as u128);
    wide as u64
}

/// The treasury's cut of `fee`.
pub fn treasury_cut(fee: u64) -> (cut: u64)
    ensures
        cut == treasury_cut_of(fee as int),
        cut <= fee,
{
    let share: u128 = TREASURY_SHARE as u128;
    let wide: u128 = (fee as u128) * share / 100;
    assert(wide <= fee) by (nonlinear_arith)
        requires
            wide == fee * 20 / 100,
    ;
    wide as u64
}

/// The part of the unsettled fees that one accrual distributes.
pub fn yield_portion(fees: u64) -> (y: u64)
    ensures
        y == yield_of(fees as int),
        y <= fees,
{
    let share: u128 = YIELD_SHARE as u128;
    let wide: u128 = (fees as u128) * share / 100;
    assert(wide <= fees) by (nonlinear_arith)
        requires
            wide == fees * 80 / 100,
    ;
    wide as u64
}

/// `a * b / d` over a 128-bit intermediate: `DivisionByZero` where `d` is
/// zero, `ArithmeticOverflow` where the product does not fit.
pub fn mul_div(a: u128, b: u128, d: u128) -> (r: Result<u128, CrucibleError>)
    ensures
        d == 0 ==> r == Err::<u128, CrucibleError>(CrucibleError::DivisionByZero),
        d != 0 && a * b > u128::MAX ==> r == Err::<u128, CrucibleError>(
            CrucibleError::ArithmeticOverflow,
        ),
        d != 0 && a * b <= u128::MAX ==> r == Ok::<u128, CrucibleError>(((a * b) / (d as int)) as u128),
{
    if d == 0 {
        return Err(CrucibleError::DivisionByZero);
    }
    match a.checked_mul(b) {
        Some(p) => Ok(p / d),
        None => Err(CrucibleError::ArithmeticOverflow),
    }
}

} // verus!
