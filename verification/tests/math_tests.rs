use liquidation_engine::math::{
    compute_liquidator_reward, compute_maintenance_margin, compute_margin, compute_margin_ratio,
    compute_notional, compute_partial_liquidation_amount, compute_pnl, div_trunc_i128,
    get_maintenance_margin_bps,
};

#[test]
fn maintenance_margin_tiers() {
    // Higher leverage tiers require a smaller relative cushion because
    // liquidation triggers proportionally sooner in absolute price terms;
    // anything outside the defined tiers falls back to the most conservative
    // 250 bps.
    assert_eq!(get_maintenance_margin_bps(1), 250);
    assert_eq!(get_maintenance_margin_bps(20), 250);
    assert_eq!(get_maintenance_margin_bps(21), 100);
    assert_eq!(get_maintenance_margin_bps(50), 100);
    assert_eq!(get_maintenance_margin_bps(51), 50);
    assert_eq!(get_maintenance_margin_bps(100), 50);
    assert_eq!(get_maintenance_margin_bps(101), 25);
    assert_eq!(get_maintenance_margin_bps(500), 25);
    assert_eq!(get_maintenance_margin_bps(501), 10);
    assert_eq!(get_maintenance_margin_bps(1000), 10);
    assert_eq!(get_maintenance_margin_bps(0), 250);
    assert_eq!(get_maintenance_margin_bps(1001), 250);
    assert_eq!(get_maintenance_margin_bps(u16::MAX), 250);
}

#[test]
fn pnl_long_and_short() {
    assert_eq!(compute_pnl(50_000, 49_000, 3, true), -3_000);
    assert_eq!(compute_pnl(50_000, 49_000, 3, false), 3_000);
    assert_eq!(compute_pnl(100, 100, 7, true), 0);
}

#[test]
fn margin_is_collateral_plus_pnl() {
    assert_eq!(compute_margin(1_000, -400), 600);
    assert_eq!(compute_margin(-50, 20), -30);
}

#[test]
fn notional_is_price_times_quantity() {
    assert_eq!(compute_notional(40_000_000_000, 2_000_000), 80_000_000_000_000_000u128);
    assert_eq!(compute_notional(u64::MAX, 0), 0);
}

#[test]
fn maintenance_margin_amount() {
    // 50 bps of a 80_000e6 notional.
    assert_eq!(compute_maintenance_margin(80_000_000_000, 50), 400_000_000);
    assert_eq!(compute_maintenance_margin(10_000, 1), 1);
    assert_eq!(compute_maintenance_margin(9_999, 1), 0);
}

#[test]
fn margin_ratio_truncates_and_handles_zero_notional() {
    assert_eq!(compute_margin_ratio(100_000_000, 99_600_000_000), 10);
    assert_eq!(compute_margin_ratio(-100, 10_000), -100);
    // Zero notional is "infinitely healthy" by policy, not an error.
    assert_eq!(compute_margin_ratio(0, 0), i64::MAX);
}

#[test]
fn partial_amount_is_half_rounded_down() {
    assert_eq!(compute_partial_liquidation_amount(0), 0);
    assert_eq!(compute_partial_liquidation_amount(1), 0);
    assert_eq!(compute_partial_liquidation_amount(2), 1);
    assert_eq!(compute_partial_liquidation_amount(7), 3);
}

#[test]
fn liquidator_reward_formula() {
    assert_eq!(compute_liquidator_reward(49_800_000_000, 50), 249_000_000);
    assert_eq!(compute_liquidator_reward(199, 50), 0);
}

#[test]
fn division_truncates_toward_zero() {
    // Not Euclidean: -7/2 is -3, not -4.
    assert_eq!(div_trunc_i128(-7, 2), -3);
    assert_eq!(div_trunc_i128(7, 2), 3);
    assert_eq!(div_trunc_i128(-1, 1_000_000), 0);
}
