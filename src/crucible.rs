//! The exchange-rate vault: deposits of a base asset are wrapped into shares
//! at a fixed-point exchange rate, a fee is skimmed on the way in and out, and
//! accrued fees are distributed to all share holders by raising the rate.

use vstd::prelude::*;
use crate::error::CrucibleError;
use crate::fixed::{
    base_of, fee_for, fee_of, mul_div, retained_of, sat_sub, shares_of, treasury_cut,
    treasury_cut_of, yield_of, yield_portion, RATE_SCALE,
};

verus! {

/// The vault of one base asset.
#[derive(Debug, Clone, Copy, PartialEq, Eq, Structural)]
pub struct Crucible {
    /// Net base-asset units currently held for depositors.
    pub total_base_deposited: u64,
    /// Share units minted and not yet burned.
    pub total_shares_outstanding: u64,
    /// Base units per share, scaled by `RATE_SCALE`.
    pub exchange_rate: u128,
    /// Fee revenue kept since the last accrual, waiting to be distributed.
    pub fees_accrued_unsettled: u64,
    /// Running total of the yield distributed to share holders.
    pub apy_distributed_cumulative: u64,
    /// When set, wrap and unwrap are refused.
    pub paused: bool,
}

/// One depositor's holding in a vault.
#[derive(Debug, Clone, Copy, PartialEq, Eq, Structural)]
pub struct UserPosition {
    /// Shares attributed to this position.
    pub shares_held: u64,
    /// Net base units put in minus net base units taken out: the cost basis.
    pub base_principal_tracked: u64,
}

/// What a successful wrap asks the caller to move.
#[derive(Debug, Clone, Copy, PartialEq, Eq, Structural)]
pub struct WrapReceipt {
    /// Shares to mint to the depositor.
    pub shares_minted: u64,
    /// The fee taken from the deposit.
    pub fee: u64,
    /// The part of the fee to send to the treasury.
    pub treasury_fee: u64,
    /// The deposit net of the fee, credited to the pool.
    pub net_in: u64,
}

/// What a successful unwrap asks the caller to move.
#[derive(Debug, Clone, Copy, PartialEq, Eq, Structural)]
pub struct UnwrapReceipt {
    /// Base units to release to the holder.
    pub base_out: u64,
    /// The shares' worth before the fee.
    pub gross_base: u64,
    /// The fee taken from the withdrawal.
    pub fee: u64,
    /// The part of the fee to send to the treasury.
    pub treasury_fee: u64,
}

/// What a successful accrual distributed.
#[derive(Debug, Clone, Copy, PartialEq, Eq, Structural)]
pub struct YieldAccrual {
    /// The part of the unsettled fees paid out through the rate.
    pub yield_amount: u64,
    /// The amount by which the exchange rate rose.
    pub rate_increase: u128,
}

impl Crucible {
    /// The vault's invariant: the rate never falls below 1:1.
    pub open spec fn wf(self) -> bool {
        self.exchange_rate >= RATE_SCALE
    }
}

/// Result of wrapping `amount` into vault `v` for position `p`: the new vault,
/// the new position and the receipt, or the error.
pub open spec fn wrap_result(v: Crucible, p: UserPosition, amount: u64) -> Result<
    (Crucible, UserPosition, WrapReceipt),
    CrucibleError,
> {
    let fee = fee_of(amount as int);
    let net = amount - fee;
    let cut = treasury_cut_of(fee);
    if amount == 0 {
        Err(CrucibleError::InvalidAmount)
    } else if v.paused {
        Err(CrucibleError::VaultPaused)
    } else if net == 0 {
        Err(CrucibleError::InvalidAmount)
    } else if v.exchange_rate == 0 {
        Err(CrucibleError::DivisionByZero)
    } else {
        let shares = shares_of(net, v.exchange_rate as int);
        if shares == 0 {
            Err(CrucibleError::InvalidAmount)
        } else if shares > u64::MAX || v.total_base_deposited + net > u64::MAX
            || v.total_shares_outstanding + shares > u64::MAX || v.fees_accrued_unsettled
            + retained_of(fee) > u64::MAX || p.shares_held + shares > u64::MAX
            || p.base_principal_tracked + net > u64::MAX {
            Err(CrucibleError::ArithmeticOverflow)
        } else {
            Ok(
                (
                    Crucible {
                        total_base_deposited: (v.total_base_deposited + net) as u64,
                        total_shares_outstanding: (v.total_shares_outstanding + shares) as u64,
                        fees_accrued_unsettled: (v.fees_accrued_unsettled + retained_of(
                            fee,
                        )) as u64,
                        ..v
                    },
                    UserPosition {
                        shares_held: (p.shares_held + shares) as u64,
                        base_principal_tracked: (p.base_principal_tracked + net) as u64,
                    },
                    WrapReceipt {
                        shares_minted: shares as u64,
                        fee: fee as u64,
                        treasury_fee: cut as u64,
                        net_in: net as u64,
                    },
                ),
            )
        }
    }
}

/// Result of unwrapping `shares` from vault `v` for position `p`. The running
/// totals and the cost basis go down by saturating subtraction, so a position
/// that closes at its exact balance never underflows them.
pub open spec fn unwrap_result(v: Crucible, p: UserPosition, shares: u64) -> Result<
    (Crucible, UserPosition, UnwrapReceipt),
    CrucibleError,
> {
    let gross = base_of(shares as int, v.exchange_rate as int);
    let fee = fee_of(gross);
    let net = gross - fee;
    if shares == 0 {
        Err(CrucibleError::InvalidAmount)
    } else if v.paused {
        Err(CrucibleError::VaultPaused)
    } else if shares > p.shares_held {
        Err(CrucibleError::InsufficientBalance)
    } else if shares * v.exchange_rate > u128::MAX || gross > u64::MAX {
        Err(CrucibleError::ArithmeticOverflow)
    } else if net == 0 {
        Err(CrucibleError::InvalidAmount)
    } else if v.fees_accrued_unsettled + retained_of(fee) > u64::MAX {
        Err(CrucibleError::ArithmeticOverflow)
    } else {
        Ok(
            (
                Crucible {
                    total_base_deposited: sat_sub(v.total_base_deposited as int, net) as u64,
                    total_shares_outstanding: sat_sub(
                        v.total_shares_outstanding as int,
                        shares as int,
                    ) as u64,
                    fees_accrued_unsettled: (v.fees_accrued_unsettled + retained_of(fee)) as u64,
                    ..v
                },
                UserPosition {
                    shares_held: (p.shares_held - shares) as u64,
                    base_principal_tracked: sat_sub(p.base_principal_tracked as int, net) as u64,
                },
                UnwrapReceipt {
                    base_out: net as u64,
                    gross_base: gross as u64,
                    fee: fee as u64,
                    treasury_fee: treasury_cut_of(fee) as u64,
                },
            ),
        )
    }
}

/// Result of an accrual on vault `v`: the yield share of the unsettled fees
/// raises the rate by `yield * RATE_SCALE / total_shares_outstanding`, or by
/// nothing when no shares are outstanding, and the unsettled fees are reset.
pub open spec fn accrue_result(v: Crucible) -> Result<(Crucible, YieldAccrual), CrucibleError> {
    let y = yield_of(v.fees_accrued_unsettled as int);
    let increase = if v.total_shares_outstanding > 0 {
        y * RATE_SCALE as int / v.total_shares_outstanding as int
    } else {
        0
    };
    let paid = if v.total_shares_outstanding > 0 {
        y
    } else {
        0
    };
    if v.fees_accrued_unsettled == 0 {
        Err(CrucibleError::InvalidAmount)
    } else if v.exchange_rate + increase > u128::MAX || v.apy_distributed_cumulative + paid
        > u64::MAX {
        Err(CrucibleError::ArithmeticOverflow)
    } else {
        Ok(
            (
                Crucible {
                    exchange_rate: (v.exchange_rate + increase) as u128,
                    fees_accrued_unsettled: 0,
                    apy_distributed_cumulative: (v.apy_distributed_cumulative + paid) as u64,
                    ..v
                },
                YieldAccrual { yield_amount: paid as u64, rate_increase: increase as u128 },
            ),
        )
    }
}

impl UserPosition {
    /// An empty position, as a depositor's first wrap finds it.
    pub fn new() -> (p: UserPosition)
        ensures
            p.shares_held == 0,
            p.base_principal_tracked == 0,
    {
        UserPosition { shares_held: 0, base_principal_tracked: 0 }
    }
}

impl Crucible {
    /// A fresh vault at the 1:1 rate, holding nothing, not paused.
    pub fn initialize_crucible() -> (v: Crucible)
        ensures
            v.wf(),
            v.exchange_rate == RATE_SCALE,
            v.total_base_deposited == 0,
            v.total_shares_outstanding == 0,
            v.fees_accrued_unsettled == 0,
            v.apy_distributed_cumulative == 0,
            !v.paused,
    {
        Crucible {
            total_base_deposited: 0,
            total_shares_outstanding: 0,
            exchange_rate: RATE_SCALE,
            fees_accrued_unsettled: 0,
            apy_distributed_cumulative: 0,
            paused: false,
        }
    }

    /// Wraps `amount` base units for `position`: takes the 1% fee, mints
    /// shares for the rest at the current rate (rounded down), routes a fifth
    /// of the fee to the treasury and keeps the remainder as unsettled yield.
    pub fn wrap(&mut self, position: &mut UserPosition, amount: u64) -> (r: Result<
        WrapReceipt,
        CrucibleError,
    >)
        ensures
            match wrap_result(*old(self), *old(position), amount) {
                Ok((v, p, receipt)) => {
                    &&& r == Ok::<WrapReceipt, CrucibleError>(receipt)
                    &&& *final(self) == v
                    &&& *final(position) == p
                },
                Err(e) => {
                    &&& r == Err::<WrapReceipt, CrucibleError>(e)
                    &&& *final(self) == *old(self)
                    &&& *final(position) == *old(position)
                },
            },
    {
        if amount == 0 {
            return Err(CrucibleError::InvalidAmount);
        }
        if self.paused {
            return Err(CrucibleError::VaultPaused);
        }
        let fee = fee_for(amount);
        let net = amount - fee;
        if net == 0 {
            return Err(CrucibleError::InvalidAmount);
        }
        let wide = match mul_div(net as u128, RATE_SCALE, self.exchange_rate) {
            Ok(w) => w,
            Err(e) => return Err(e),
        };
        if wide == 0 {
            return Err(CrucibleError::InvalidAmount);
        }
        if wide > u64::MAX as u128 {
            return Err(CrucibleError::ArithmeticOverflow);
        }
        let shares = wide as u64;
        let cut = treasury_cut(fee);
        let retained = fee - cut;
        let total_base = match self.total_base_deposited.checked_add(net) {
            Some(t) => t,
            None => return Err(CrucibleError::ArithmeticOverflow),
        };
        let total_shares = match self.total_shares_outstanding.checked_add(shares) {
            Some(t) => t,
            None => return Err(CrucibleError::ArithmeticOverflow),
        };
        let fees = match self.fees_accrued_unsettled.checked_add(retained) {
            Some(t) => t,
            None => return Err(CrucibleError::ArithmeticOverflow),
        };
        let held = match position.shares_held.checked_add(shares) {
            Some(t) => t,
            None => return Err(CrucibleError::ArithmeticOverflow),
        };
        let principal = match position.base_principal_tracked.checked_add(net) {
            Some(t) => t,
            None => return Err(CrucibleError::ArithmeticOverflow),
        };
        self.total_base_deposited = total_base;
        self.total_shares_outstanding = total_shares;
        self.fees_accrued_unsettled = fees;
        position.shares_held = held;
        position.base_principal_tracked = principal;
        Ok(WrapReceipt { shares_minted: shares, fee, treasury_fee: cut, net_in: net })
    }

    /// Unwraps `shares` of `position`: burns them, releases their worth at the
    /// current rate (rounded down) less the 1% fee, routes a fifth of the fee
    /// to the treasury and keeps the remainder as unsettled yield.
    pub fn unwrap(&mut self, position: &mut UserPosition, shares: u64) -> (r: Result<
        UnwrapReceipt,
        CrucibleError,
    >)
        ensures
            match unwrap_result(*old(self), *old(position), shares) {
                Ok((v, p, receipt)) => {
                    &&& r == Ok::<UnwrapReceipt, CrucibleError>(receipt)
                    &&& *final(self) == v
                    &&& *final(position) == p
                },
                Err(e) => {
                    &&& r == Err::<UnwrapReceipt, CrucibleError>(e)
                    &&& *final(self) == *old(self)
                    &&& *final(position) == *old(position)
                },
            },
    {
        if shares == 0 {
            return Err(CrucibleError::InvalidAmount);
        }
        if self.paused {
            return Err(CrucibleError::VaultPaused);
        }
        if shares > position.shares_held {
            return Err(CrucibleError::InsufficientBalance);
        }
        let wide = match mul_div(shares as u128, self.exchange_rate, RATE_SCALE) {
            Ok(w) => w,
            Err(e) => return Err(e),
        };
        if wide > u64::MAX as u128 {
            return Err(CrucibleError::ArithmeticOverflow);
        }
        let gross = wide as u64;
        let fee = fee_for(gross);
        let net = gross - fee;
        if net == 0 {
            return Err(CrucibleError::InvalidAmount);
        }
        let cut = treasury_cut(fee);
        let retained = fee - cut;
        let fees = match self.fees_accrued_unsettled.checked_add(retained) {
            Some(t) => t,
            None => return Err(CrucibleError::ArithmeticOverflow),
        };
        self.total_base_deposited = self.total_base_deposited.saturating_sub(net);
        self.total_shares_outstanding = self.total_shares_outstanding.saturating_sub(shares);
        self.fees_accrued_unsettled = fees;
        position.shares_held = position.shares_held - shares;
        position.base_principal_tracked = position.base_principal_tracked.saturating_sub(net);
        Ok(UnwrapReceipt { base_out: net, gross_base: gross, fee, treasury_fee: cut })
    }

    /// Distributes the yield share of the unsettled fees to all share holders
    /// by raising the exchange rate, and resets the unsettled fees. Refused
    /// with `InvalidAmount` when there is nothing to distribute.
    pub fn accrue_yield(&mut self) -> (r: Result<YieldAccrual, CrucibleError>)
        ensures
            match accrue_result(*old(self)) {
                Ok((v, accrual)) => {
                    &&& r == Ok::<YieldAccrual, CrucibleError>(accrual)
                    &&& *final(self) == v
                },
                Err(e) => {
                    &&& r == Err::<YieldAccrual, CrucibleError>(e)
                    &&& *final(self) == *old(self)
                },
            },
    {
        if self.fees_accrued_unsettled == 0 {
            return Err(CrucibleError::InvalidAmount);
        }
        let y = yield_portion(self.fees_accrued_unsettled);
        let mut increase: u128 = 0;
        let mut paid: u64 = 0;
        if self.total_shares_outstanding > 0 {
            increase = match mul_div(y as u128, RATE_SCALE, self.total_shares_outstanding as u128) {
                Ok(w) => w,
                Err(e) => return Err(e),
            };
            paid = y;
        }
        let rate = match self.exchange_rate.checked_add(increase) {
            Some(t) => t,
            None => return Err(CrucibleError::ArithmeticOverflow),
        };
        let cumulative = match self.apy_distributed_cumulative.checked_add(paid) {
            Some(t) => t,
            None => return Err(CrucibleError::ArithmeticOverflow),
        };
        self.exchange_rate = rate;
        self.fees_accrued_unsettled = 0;
        self.apy_distributed_cumulative = cumulative;
        Ok(YieldAccrual { yield_amount: paid, rate_increase: increase })
    }

    /// Pauses the vault (`is_active == false`) or resumes it. Pausing stops
    /// wrap and unwrap only; accrual stays permitted.
    pub fn set_crucible_status(&mut self, is_active: bool)
        ensures
            *final(self) == (Crucible { paused: !is_active, ..*old(self) }),
    {
        self.paused = !is_active;
    }
}

} // verus!
