//! The leveraged-position ledger: vault shares held as collateral against a
//! borrowed amount of the base asset, valued at the vault's live exchange
//! rate.

use vstd::prelude::*;
use crate::crucible::Crucible;
use crate::error::CrucibleError;
use crate::fixed::{base_of, mul_div, BPS_DENOMINATOR, RATE_SCALE};

verus! {

/// Vault-wide settings of the leverage layer, all in basis points.
#[derive(Debug, Clone, Copy, PartialEq, Eq, Structural)]
pub struct LvfConfig {
    /// Largest leverage a position may be opened with (20000 is 2x).
    pub max_leverage_bps: u64,
    /// A position whose collateral value over its debt falls below this is
    /// liquidatable.
    pub liquidation_threshold_bps: u64,
    /// Part of the collateral value paid to whoever liquidates.
    pub liquidation_bounty_bps: u64,
    /// When set, no position may be opened.
    pub paused: bool,
}

/// One user's leveraged position.
#[derive(Debug, Clone, Copy, PartialEq, Eq, Structural)]
pub struct LvfPosition {
    /// Shares held as collateral.
    pub position_shares: u128,
    /// Base units borrowed against the collateral.
    pub borrowed_amount: u128,
    /// The vault's exchange rate when the position was opened.
    pub entry_exchange_rate: u128,
    /// Leverage requested at open, in basis points.
    pub leverage_bps: u64,
}

/// Worth of `shares` in base units at `rate`, rounded down.
pub open spec fn collateral_value(shares: int, rate: int) -> int {
    base_of(shares, rate)
}

/// The part of `value` borrowed at `leverage_bps`: the leverage above 1x.
pub open spec fn borrow_of(value: int, leverage_bps: int) -> int {
    value * (leverage_bps - BPS_DENOMINATOR) / BPS_DENOMINATOR as int
}

/// Result of opening a position on `collateral_shares` at `leverage_bps`
/// against vault `v`.
pub open spec fn open_result(
    config: LvfConfig,
    v: Crucible,
    collateral_shares: u128,
    leverage_bps: u64,
) -> Result<LvfPosition, CrucibleError> {
    let value = collateral_value(collateral_shares as int, v.exchange_rate as int);
    if config.paused || v.paused {
        Err(CrucibleError::VaultPaused)
    } else if leverage_bps < BPS_DENOMINATOR || leverage_bps > config.max_leverage_bps {
        Err(CrucibleError::InvalidLeverage)
    } else if collateral_shares * v.exchange_rate > u128::MAX || value * (leverage_bps
        - BPS_DENOMINATOR) > u128::MAX {
        Err(CrucibleError::ArithmeticOverflow)
    } else {
        Ok(
            LvfPosition {
                position_shares: collateral_shares,
                borrowed_amount: borrow_of(value, leverage_bps as int) as u128,
                entry_exchange_rate: v.exchange_rate,
                leverage_bps,
            },
        )
    }
}

/// The collateral's value at the vault's live rate, or the overflow of the
/// product.
pub open spec fn value_result(pos: LvfPosition, v: Crucible) -> Result<u128, CrucibleError> {
    if pos.position_shares * v.exchange_rate > u128::MAX {
        Err(CrucibleError::ArithmeticOverflow)
    } else {
        Ok(collateral_value(pos.position_shares as int, v.exchange_rate as int) as u128)
    }
}

/// Whether the position may be liquidated: collateral value times 10000 over
/// the debt, rounded down, is under the threshold. A position without debt
/// never is.
pub open spec fn liquidatable_result(pos: LvfPosition, config: LvfConfig, v: Crucible) -> Result<
    bool,
    CrucibleError,
> {
    if pos.borrowed_amount == 0 {
        Ok(false)
    } else {
        match value_result(pos, v) {
            Err(e) => Err(e),
            Ok(value) => if value * BPS_DENOMINATOR > u128::MAX {
                Err(CrucibleError::ArithmeticOverflow)
            } else {
                Ok(
                    ((value * BPS_DENOMINATOR as int) / (pos.borrowed_amount as int)) < (
                    config.liquidation_threshold_bps as int),
                )
            },
        }
    }
}

/// A closed position: no collateral and no debt.
pub open spec fn closed(pos: LvfPosition) -> LvfPosition {
    LvfPosition { position_shares: 0, borrowed_amount: 0, ..pos }
}

/// Result of repaying `amount` of the debt of `pos`: the new position and the
/// collateral shares released, which are all of them when the debt is paid
/// off (the position closes) and none otherwise.
pub open spec fn repay_result(pos: LvfPosition, amount: u128) -> Result<
    (LvfPosition, u128),
    CrucibleError,
> {
    if amount == 0 || amount > pos.borrowed_amount {
        Err(CrucibleError::InvalidAmount)
    } else if amount == pos.borrowed_amount {
        Ok((closed(pos), pos.position_shares))
    } else {
        Ok((LvfPosition { borrowed_amount: (pos.borrowed_amount - amount) as u128, ..pos }, 0))
    }
}

/// Result of adding `shares` of collateral to `pos`.
pub open spec fn add_collateral_result(pos: LvfPosition, shares: u128) -> Result<
    LvfPosition,
    CrucibleError,
> {
    if shares == 0 {
        Err(CrucibleError::InvalidAmount)
    } else if pos.position_shares + shares > u128::MAX {
        Err(CrucibleError::ArithmeticOverflow)
    } else {
        Ok(LvfPosition { position_shares: (pos.position_shares + shares) as u128, ..pos })
    }
}

impl LvfPosition {
    /// Opens a position on `collateral_shares` at `leverage_bps`, borrowing
    /// the collateral's value times the leverage above 1x and recording the
    /// vault's current rate as the entry rate.
    pub fn open(config: &LvfConfig, vault: &Crucible, collateral_shares: u128, leverage_bps: u64)
        -> (r: Result<LvfPosition, CrucibleError>)
        ensures
            r == open_result(*config, *vault, collateral_shares, leverage_bps),
    {
        if config.paused || vault.paused {
            return Err(CrucibleError::VaultPaused);
        }
        if leverage_bps < BPS_DENOMINATOR || leverage_bps > config.max_leverage_bps {
            return Err(CrucibleError::InvalidLeverage);
        }
        let value = match mul_div(collateral_shares, vault.exchange_rate, RATE_SCALE) {
            Ok(w) => w,
            Err(e) => return Err(e),
        };
        let excess = (leverage_bps - BPS_DENOMINATOR) as u128;
        let borrowed = match mul_div(value, excess, BPS_DENOMINATOR as u128) {
            Ok(w) => w,
            Err(e) => return Err(e),
        };
        Ok(
            LvfPosition {
                position_shares: collateral_shares,
                borrowed_amount: borrowed,
                entry_exchange_rate: vault.exchange_rate,
                leverage_bps,
            },
        )
    }

    /// The collateral's value at the vault's live exchange rate, not the
    /// entry rate.
    pub fn value_now(&self, vault: &Crucible) -> (r: Result<u128, CrucibleError>)
        ensures
            r == value_result(*self, *vault),
    {
        mul_div(self.position_shares, vault.exchange_rate, RATE_SCALE)
    }

    /// The growth of the collateral's value since open:
    /// `(live rate - entry rate) * shares / RATE_SCALE`, zero if the rate
    /// has not risen.
    pub fn realized_yield(&self, vault: &Crucible) -> (r: Result<u128, CrucibleError>)
        ensures
            vault.exchange_rate <= self.entry_exchange_rate ==> r == Ok::<u128, CrucibleError>(0),
            vault.exchange_rate > self.entry_exchange_rate ==> r == (if (vault.exchange_rate
                - self.entry_exchange_rate) * self.position_shares > u128::MAX {
                Err::<u128, CrucibleError>(CrucibleError::ArithmeticOverflow)
            } else {
                Ok::<u128, CrucibleError>(
                    collateral_value(
                        self.position_shares as int,
                        vault.exchange_rate - self.entry_exchange_rate,
                    ) as u128,
                )
            }),
    {
        if vault.exchange_rate <= self.entry_exchange_rate {
            return Ok(0);
        }
        let growth = vault.exchange_rate - self.entry_exchange_rate;
        proof {
            assert(growth * self.position_shares == self.position_shares * growth)
                by (nonlinear_arith);
        }
        mul_div(self.position_shares, growth, RATE_SCALE)
    }

    /// Whether the position may be liquidated now.
    pub fn is_liquidatable(&self, config: &LvfConfig, vault: &Crucible) -> (r: Result<
        bool,
        CrucibleError,
    >)
        ensures
            r == liquidatable_result(*self, *config, *vault),
    {
        if self.borrowed_amount == 0 {
            return Ok(false);
        }
        let value = match self.value_now(vault) {
            Ok(w) => w,
            Err(e) => return Err(e),
        };
        let scaled = match value.checked_mul(BPS_DENOMINATOR as u128) {
            Some(w) => w,
            None => return Err(CrucibleError::ArithmeticOverflow),
        };
        Ok(scaled / self.borrowed_amount < config.liquidation_threshold_bps as u128)
    }

    /// Liquidates an unhealthy position: returns the bounty owed to the
    /// liquidator (the bounty share of the collateral value) and closes the
    /// position. A healthy position is refused with `NotLiquidatable`.
    pub fn liquidate(&mut self, config: &LvfConfig, vault: &Crucible) -> (r: Result<
        u128,
        CrucibleError,
    >)
        ensures
            match liquidatable_result(*old(self), *config, *vault) {
                Err(e) => r == Err::<u128, CrucibleError>(e) && *final(self) == *old(self),
                Ok(false) => r == Err::<u128, CrucibleError>(CrucibleError::NotLiquidatable)
                    && *final(self) == *old(self),
                Ok(true) => {
                    let value = value_result(*old(self), *vault)->Ok_0;
                    if value * config.liquidation_bounty_bps > u128::MAX {
                        &&& r == Err::<u128, CrucibleError>(CrucibleError::ArithmeticOverflow)
                        &&& *final(self) == *old(self)
                    } else {
                        &&& r == Ok::<u128, CrucibleError>(
                            (value * config.liquidation_bounty_bps / BPS_DENOMINATOR as int) as u128,
                        )
                        &&& *final(self) == closed(*old(self))
                    }
                },
            },
    {
        let unhealthy = match self.is_liquidatable(config, vault) {
            Ok(b) => b,
            Err(e) => return Err(e),
        };
        if !unhealthy {
            return Err(CrucibleError::NotLiquidatable);
        }
        let value = match self.value_now(vault) {
            Ok(w) => w,
            Err(e) => return Err(e),
        };
        let bounty = match mul_div(
            value,
            config.liquidation_bounty_bps as u128,
            BPS_DENOMINATOR as u128,
        ) {
            Ok(w) => w,
            Err(e) => return Err(e),
        };
        self.position_shares = 0;
        self.borrowed_amount = 0;
        Ok(bounty)
    }

    /// Repays `amount` of the debt. Repaying all of it closes the position and
    /// returns the collateral shares it released; a partial repayment
    /// releases none. Zero, or more than is owed, is refused.
    pub fn repay(&mut self, amount: u128) -> (r: Result<u128, CrucibleError>)
        ensures
            match repay_result(*old(self), amount) {
                Ok((p, released)) => r == Ok::<u128, CrucibleError>(released) && *final(self) == p,
                Err(e) => r == Err::<u128, CrucibleError>(e) && *final(self) == *old(self),
            },
    {
        if amount == 0 || amount > self.borrowed_amount {
            return Err(CrucibleError::InvalidAmount);
        }
        self.borrowed_amount = self.borrowed_amount - amount;
        if self.borrowed_amount == 0 {
            let released = self.position_shares;
            self.position_shares = 0;
            Ok(released)
        } else {
            Ok(0)
        }
    }

    /// Adds `shares` of collateral. Zero is refused.
    pub fn add_collateral(&mut self, shares: u128) -> (r: Result<(), CrucibleError>)
        ensures
            match add_collateral_result(*old(self), shares) {
                Ok(p) => r == Ok::<(), CrucibleError>(()) && *final(self) == p,
                Err(e) => r == Err::<(), CrucibleError>(e) && *final(self) == *old(self),
            },
    {
        if shares == 0 {
            return Err(CrucibleError::InvalidAmount);
        }
        match self.position_shares.checked_add(shares) {
            Some(t) => {
                self.position_shares = t;
                Ok(())
            },
            None => Err(CrucibleError::ArithmeticOverflow),
        }
    }
}

} // verus!
