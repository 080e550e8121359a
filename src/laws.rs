//! Properties that hold across operations of the vault.

use vstd::prelude::*;
use crate::crucible::{accrue_result, unwrap_result, wrap_result, Crucible, UserPosition};
use crate::fixed::{
    base_of, fee_of, lemma_shares_round_trip, retained_of, sat_sub, BPS_DENOMINATOR, RATE_SCALE,
};
use crate::lvf::{
    add_collateral_result, collateral_value, liquidatable_result, repay_result, value_result,
    LvfConfig, LvfPosition,
};

verus! {

/// Wrapping `amount` and at once unwrapping every share it minted gives back
/// `amount` less exactly the entry fee and the exit fee, less the rounding of
/// the share conversion, which is never negative and is zero at a rate of
/// 1:1. The holder never gets back more than `amount`. The unwrap succeeds
/// unless the vault's unsettled-fee counter would overflow.
pub proof fn lemma_wrap_then_unwrap(v: Crucible, p: UserPosition, amount: u64)
    requires
        v.wf(),
        wrap_result(v, p, amount) is Ok,
    ensures
        ({
            let (v1, p1, w) = wrap_result(v, p, amount)->Ok_0;
            let gross = base_of(w.shares_minted as int, v.exchange_rate as int);
            let out = unwrap_result(v1, p1, w.shares_minted);
            &&& w.fee == fee_of(amount as int)
            &&& 0 < gross <= w.net_in
            &&& v.exchange_rate == RATE_SCALE ==> gross == w.net_in
            &&& out is Ok <==> v1.fees_accrued_unsettled + retained_of(fee_of(gross)) <= u64::MAX
            &&& out is Ok ==> {
                let u = out->Ok_0.2;
                &&& u.gross_base == gross
                &&& u.fee == fee_of(gross)
                &&& u.base_out == amount - w.fee - u.fee - (w.net_in - gross)
                &&& u.base_out <= amount
            }
        }),
{
    let (v1, p1, w) = wrap_result(v, p, amount)->Ok_0;
    let net = w.net_in as int;
    lemma_shares_round_trip(net, v.exchange_rate as int);
    let gross = w.shares_minted * v.exchange_rate / RATE_SCALE as int;
    assert(w.shares_minted * v.exchange_rate <= u128::MAX);
    assert(0 <= gross <= net);
    assert(fee_of(gross) <= gross / 100);
}

/// One operation on a vault, with the caller's position where it needs one.
pub enum VaultOp {
    Wrap(UserPosition, u64),
    Unwrap(UserPosition, u64),
    AccrueYield,
    SetStatus(bool),
}

/// The vault after one operation; a refused operation leaves it unchanged.
pub open spec fn step(v: Crucible, op: VaultOp) -> Crucible {
    match op {
        VaultOp::Wrap(p, amount) => match wrap_result(v, p, amount) {
            Ok((v1, _, _)) => v1,
            Err(_) => v,
        },
        VaultOp::Unwrap(p, shares) => match unwrap_result(v, p, shares) {
            Ok((v1, _, _)) => v1,
            Err(_) => v,
        },
        VaultOp::AccrueYield => match accrue_result(v) {
            Ok((v1, _)) => v1,
            Err(_) => v,
        },
        VaultOp::SetStatus(is_active) => Crucible { paused: !is_active, ..v },
    }
}

/// The vault after a sequence of operations, applied in order.
pub open spec fn run(v: Crucible, ops: Seq<VaultOp>) -> Crucible
    decreases ops.len(),
{
    if ops.len() == 0 {
        v
    } else {
        run(step(v, ops[0]), ops.drop_first())
    }
}

/// No single operation lowers the exchange rate.
pub proof fn lemma_step_rate_non_decreasing(v: Crucible, op: VaultOp)
    ensures
        step(v, op).exchange_rate >= v.exchange_rate,
{
}

/// The exchange rate never decreases across any sequence of wraps, unwraps,
/// accruals and pause toggles, so a vault that starts at or above 1:1 stays
/// well formed.
pub proof fn lemma_rate_non_decreasing(v: Crucible, ops: Seq<VaultOp>)
    ensures
        run(v, ops).exchange_rate >= v.exchange_rate,
        v.wf() ==> run(v, ops).wf(),
    decreases ops.len(),
{
    if ops.len() > 0 {
        lemma_step_rate_non_decreasing(v, ops[0]);
        lemma_rate_non_decreasing(step(v, ops[0]), ops.drop_first());
    }
}

/// With no shares outstanding an accrual leaves the exchange rate as it is
/// and pays out nothing; it succeeds exactly when there are unsettled fees,
/// which it clears.
pub proof fn lemma_accrue_without_shares(v: Crucible)
    requires
        v.total_shares_outstanding == 0,
    ensures
        accrue_result(v) is Ok <==> v.fees_accrued_unsettled > 0,
        accrue_result(v) is Ok ==> {
            let (v1, a) = accrue_result(v)->Ok_0;
            &&& v1.exchange_rate == v.exchange_rate
            &&& a.rate_increase == 0
            &&& a.yield_amount == 0
            &&& v1.fees_accrued_unsettled == 0
        },
{
}

/// Unwrapping a position's whole share balance empties the position and
/// lowers the outstanding total by that balance, to no less than zero.
pub proof fn lemma_full_withdrawal(v: Crucible, p: UserPosition)
    requires
        unwrap_result(v, p, p.shares_held) is Ok,
    ensures
        ({
            let (v1, p1, u) = unwrap_result(v, p, p.shares_held)->Ok_0;
            &&& p1.shares_held == 0
            &&& v1.total_shares_outstanding == sat_sub(
                v.total_shares_outstanding as int,
                p.shares_held as int,
            )
            &&& v1.total_shares_outstanding <= v.total_shares_outstanding
            &&& v.total_shares_outstanding >= p.shares_held ==> v1.total_shares_outstanding
                == v.total_shares_outstanding - p.shares_held
            &&& v1.total_base_deposited == sat_sub(
                v.total_base_deposited as int,
                u.base_out as int,
            )
        }),
{
}

/// A position with debt is liquidatable exactly when its collateral value
/// over its debt is below the threshold as a fraction of 10000; the rounding
/// of the division in the test never changes the verdict.
pub proof fn lemma_liquidation_threshold(pos: LvfPosition, config: LvfConfig, v: Crucible)
    requires
        pos.borrowed_amount > 0,
        liquidatable_result(pos, config, v) is Ok,
    ensures
        liquidatable_result(pos, config, v)->Ok_0 <==> value_result(pos, v)->Ok_0
            * BPS_DENOMINATOR < config.liquidation_threshold_bps * pos.borrowed_amount,
{
    let value = value_result(pos, v)->Ok_0 as int;
    let a = value * BPS_DENOMINATOR as int;
    let b = pos.borrowed_amount as int;
    let t = config.liquidation_threshold_bps as int;
    assert((a / b < t) <==> (a < t * b)) by (nonlinear_arith)
        requires
            a >= 0,
            b > 0,
            t >= 0,
    ;
}

proof fn lemma_value_monotone(s0: int, s1: int, rate: int)
    requires
        0 <= s0 <= s1,
        rate >= 0,
    ensures
        0 <= base_of(s0, rate) <= base_of(s1, rate),
{
    let k = RATE_SCALE as int;
    assert(0 <= s0 * rate / k <= s1 * rate / k) by (nonlinear_arith)
        requires
            0 <= s0 <= s1,
            rate >= 0,
            k > 0,
    ;
}

/// Repaying debt or adding collateral never raises a position's leverage: at
/// any exchange rate, debt per unit of collateral value afterwards is at most
/// what it was before (compared cross-multiplied, so an emptied position
/// counts too).
pub proof fn lemma_adjustments_never_raise_leverage(
    pos: LvfPosition,
    amount: u128,
    shares: u128,
    rate: u128,
)
    ensures
        repay_result(pos, amount) is Ok ==> {
            let p1 = repay_result(pos, amount)->Ok_0.0;
            p1.borrowed_amount * collateral_value(pos.position_shares as int, rate as int)
                <= pos.borrowed_amount * collateral_value(p1.position_shares as int, rate as int)
        },
        add_collateral_result(pos, shares) is Ok ==> {
            let p1 = add_collateral_result(pos, shares)->Ok_0;
            p1.borrowed_amount * collateral_value(pos.position_shares as int, rate as int)
                <= pos.borrowed_amount * collateral_value(p1.position_shares as int, rate as int)
        },
{
    let v0 = collateral_value(pos.position_shares as int, rate as int);
    lemma_value_monotone(0, pos.position_shares as int, rate as int);
    if repay_result(pos, amount) is Ok {
        let p1 = repay_result(pos, amount)->Ok_0.0;
        if p1.borrowed_amount != 0 {
            let b0 = pos.borrowed_amount as int;
            let b1 = p1.borrowed_amount as int;
            assert(b1 * v0 <= b0 * v0) by (nonlinear_arith)
                requires
                    0 <= b1 <= b0,
                    v0 >= 0,
            ;
        }
    }
    if add_collateral_result(pos, shares) is Ok {
        let p1 = add_collateral_result(pos, shares)->Ok_0;
        let v1 = collateral_value(p1.position_shares as int, rate as int);
        lemma_value_monotone(pos.position_shares as int, p1.position_shares as int, rate as int);
        let b = pos.borrowed_amount as int;
        assert(b * v0 <= b * v1) by (nonlinear_arith)
            requires
                0 <= v0 <= v1,
                b >= 0,
        ;
    }
}

} // verus!
