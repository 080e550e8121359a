use forge_crucibles::crucible::Crucible;
use forge_crucibles::error::CrucibleError;
use forge_crucibles::lvf::{LvfConfig, LvfPosition};

fn config(threshold_bps: u64) -> LvfConfig {
    LvfConfig {
        max_leverage_bps: 30000,
        liquidation_threshold_bps: threshold_bps,
        liquidation_bounty_bps: 500,
        paused: false,
    }
}

fn vault_at(rate: u128) -> Crucible {
    let mut v = Crucible::initialize_crucible();
    v.exchange_rate = rate;
    v
}

#[test]
fn open_two_x_on_thousand_shares_then_rate_rises() {
    let v = vault_at(1_000_000_000);
    let pos = LvfPosition::open(&config(12000), &v, 1000, 20000).unwrap();
    assert_eq!(pos.borrowed_amount, 1000);
    assert_eq!(pos.position_shares, 1000);
    assert_eq!(pos.entry_exchange_rate, 1_000_000_000);
    assert_eq!(pos.leverage_bps, 20000);
    let later = vault_at(1_100_000_000);
    assert_eq!(pos.value_now(&later), Ok(1100));
    assert_eq!(pos.realized_yield(&later), Ok(100));
    // 1100 / 1000 is below 1.2 but not below 1.1
    assert_eq!(pos.is_liquidatable(&config(12000), &later), Ok(true));
    assert_eq!(pos.is_liquidatable(&config(11000), &later), Ok(false));
    assert_eq!(pos.is_liquidatable(&config(11001), &later), Ok(true));
}

#[test]
fn open_at_one_x_borrows_nothing_and_is_never_liquidatable() {
    let v = vault_at(1_000_000_000);
    let pos = LvfPosition::open(&config(50000), &v, 1000, 10000).unwrap();
    assert_eq!(pos.borrowed_amount, 0);
    assert_eq!(pos.is_liquidatable(&config(50000), &v), Ok(false));
}

#[test]
fn open_below_one_x_is_invalid_leverage() {
    let v = vault_at(1_000_000_000);
    assert_eq!(
        LvfPosition::open(&config(12000), &v, 1000, 9999),
        Err(CrucibleError::InvalidLeverage)
    );
}

#[test]
fn open_above_max_is_invalid_leverage() {
    let v = vault_at(1_000_000_000);
    assert_eq!(
        LvfPosition::open(&config(12000), &v, 1000, 30001),
        Err(CrucibleError::InvalidLeverage)
    );
    assert!(LvfPosition::open(&config(12000), &v, 1000, 30000).is_ok());
}

#[test]
fn open_while_paused_is_refused() {
    let mut v = vault_at(1_000_000_000);
    v.paused = true;
    assert_eq!(LvfPosition::open(&config(12000), &v, 1000, 20000), Err(CrucibleError::VaultPaused));
    let v = vault_at(1_000_000_000);
    let mut c = config(12000);
    c.paused = true;
    assert_eq!(LvfPosition::open(&c, &v, 1000, 20000), Err(CrucibleError::VaultPaused));
}

#[test]
fn open_overflowing_value_is_refused() {
    let v = vault_at(1_000_000_000);
    assert_eq!(
        LvfPosition::open(&config(12000), &v, u128::MAX, 20000),
        Err(CrucibleError::ArithmeticOverflow)
    );
}

#[test]
fn open_uses_live_rate_for_borrow() {
    let v = vault_at(1_500_000_000);
    let pos = LvfPosition::open(&config(12000), &v, 2000, 15000).unwrap();
    // value 3000, half of it borrowed
    assert_eq!(pos.borrowed_amount, 1500);
    assert_eq!(pos.entry_exchange_rate, 1_500_000_000);
    assert_eq!(pos.realized_yield(&vault_at(1_000_000_000)), Ok(0));
}

#[test]
fn liquidate_unhealthy_pays_bounty_and_closes() {
    let v = vault_at(1_000_000_000);
    let mut pos = LvfPosition::open(&config(12000), &v, 1000, 20000).unwrap();
    let bounty = pos.liquidate(&config(12000), &vault_at(1_100_000_000)).unwrap();
    assert_eq!(bounty, 55);
    assert_eq!(pos.position_shares, 0);
    assert_eq!(pos.borrowed_amount, 0);
}

#[test]
fn liquidate_healthy_is_refused() {
    let v = vault_at(1_000_000_000);
    let mut pos = LvfPosition::open(&config(11000), &v, 1000, 20000).unwrap();
    let before = pos;
    assert_eq!(
        pos.liquidate(&config(11000), &vault_at(1_100_000_000)),
        Err(CrucibleError::NotLiquidatable)
    );
    assert_eq!(pos, before);
}

#[test]
fn partial_repay_keeps_collateral() {
    let v = vault_at(1_000_000_000);
    let mut pos = LvfPosition::open(&config(12000), &v, 1000, 20000).unwrap();
    assert_eq!(pos.repay(400), Ok(0));
    assert_eq!(pos.borrowed_amount, 600);
    assert_eq!(pos.position_shares, 1000);
}

#[test]
fn full_repay_releases_collateral_and_closes() {
    let v = vault_at(1_000_000_000);
    let mut pos = LvfPosition::open(&config(12000), &v, 1000, 20000).unwrap();
    assert_eq!(pos.repay(1000), Ok(1000));
    assert_eq!(pos.borrowed_amount, 0);
    assert_eq!(pos.position_shares, 0);
}

#[test]
fn repay_zero_or_too_much_is_invalid() {
    let v = vault_at(1_000_000_000);
    let mut pos = LvfPosition::open(&config(12000), &v, 1000, 20000).unwrap();
    let before = pos;
    assert_eq!(pos.repay(0), Err(CrucibleError::InvalidAmount));
    assert_eq!(pos.repay(1001), Err(CrucibleError::InvalidAmount));
    assert_eq!(pos, before);
}

#[test]
fn add_collateral_makes_position_safer() {
    let v = vault_at(1_000_000_000);
    let cfg = config(12000);
    let mut pos = LvfPosition::open(&cfg, &v, 1000, 20000).unwrap();
    assert_eq!(pos.is_liquidatable(&cfg, &v), Ok(true));
    assert_eq!(pos.add_collateral(500), Ok(()));
    assert_eq!(pos.position_shares, 1500);
    assert_eq!(pos.borrowed_amount, 1000);
    assert_eq!(pos.is_liquidatable(&cfg, &v), Ok(false));
    assert_eq!(pos.add_collateral(0), Err(CrucibleError::InvalidAmount));
    let mut big = pos;
    big.position_shares = u128::MAX;
    assert_eq!(big.add_collateral(1), Err(CrucibleError::ArithmeticOverflow));
}

#[test]
fn value_now_overflow_is_reported() {
    let pos = LvfPosition {
        position_shares: u128::MAX / 2,
        borrowed_amount: 1,
        entry_exchange_rate: 1_000_000_000,
        leverage_bps: 20000,
    };
    let v = vault_at(1_000_000_000);
    assert_eq!(pos.value_now(&v), Err(CrucibleError::ArithmeticOverflow));
    assert_eq!(pos.is_liquidatable(&config(12000), &v), Err(CrucibleError::ArithmeticOverflow));
}
