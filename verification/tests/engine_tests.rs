use liquidation_engine::engine::{
    liquidate_full, liquidate_partial, LiquidationContext,
};
use liquidation_engine::insurance::{capped_liquidation_reward, insurance_waterfall};
use liquidation_engine::state::{
    create_position, initialize_insurance_fund, EngineConfig, InsuranceFund, Position,
};
use liquidation_engine::ErrorCode;

fn ctx(now: i64) -> LiquidationContext {
    let mut symbol = [0u8; 16];
    symbol[..6].copy_from_slice(b"BTCUSD");
    LiquidationContext { liquidator: [9u8; 32], symbol, symbol_id: 7, now }
}

fn cfg() -> EngineConfig {
    EngineConfig { liquidator_reward_bps: 50 }
}

fn fund_with(balance: u64) -> InsuranceFund {
    InsuranceFund {
        authority: [2u8; 32],
        balance,
        total_contributions: 0,
        total_bad_debt_covered: 0,
        utilization_ratio: 0,
    }
}

#[test]
fn create_position_sets_fields() {
    let p = create_position([3u8; 32], 50_000_000_000, 2_000_000, 1_000_000_000, true, 50, 42);
    assert_eq!(p.owner, [3u8; 32]);
    assert_eq!(p.entry_price, 50_000_000_000);
    assert_eq!(p.size, 2_000_000);
    assert_eq!(p.collateral, 1_000_000_000);
    assert!(p.is_long);
    assert_eq!(p.leverage, 50);
    assert_eq!(p.last_update_ts, 42);
}

#[test]
fn initialize_insurance_fund_starts_empty() {
    let f = initialize_insurance_fund([4u8; 32]);
    assert_eq!(f.authority, [4u8; 32]);
    assert_eq!(f.balance, 0);
    assert_eq!(f.total_contributions, 0);
    assert_eq!(f.total_bad_debt_covered, 0);
    assert_eq!(f.utilization_ratio, 0);
}

#[test]
fn healthy_position_is_a_noop_for_both_entry_points() {
    // Ratio is exactly at the 100 bps maintenance threshold for the leverage-50
    // tier, with positive margin: exactly at the threshold counts as healthy.
    let before = create_position([3u8; 32], 50_000_000_000, 2_000_000, 1_000_000_000, true, 50, 0);
    let mut pos = before;
    let r = liquidate_partial(&mut pos, 50_000_000_000, &ctx(10), &cfg());
    assert!(matches!(r, Ok(None)));
    assert_eq!(pos, before);

    let fund_before = fund_with(5_000_000_000);
    let mut fund = fund_before;
    let mut pos2 = before;
    let r2 = liquidate_full(&mut pos2, &mut fund, 50_000_000_000, &ctx(10), &cfg());
    assert!(matches!(r2, Ok(None)));
    assert_eq!(pos2, before);
    assert_eq!(fund, fund_before);
}

#[test]
fn partial_commit_restores_health_and_records_round_trip() {
    // Unhealthy (ratio 10 bps < 100 bps) but a half close restores health.
    let before = create_position([3u8; 32], 50_000_000_000, 2_000_000, 500_000_000, true, 50, 0);
    let mut pos = before;
    let r = liquidate_partial(&mut pos, 49_800_000_000, &ctx(99), &cfg());
    let out = r.unwrap().unwrap();
    assert_eq!(pos.size, 1_000_000);
    assert_eq!(pos.collateral, 49_851_000_000);
    assert_eq!(pos.last_update_ts, 99);
    assert_eq!(pos.owner, before.owner);
    assert_eq!(pos.entry_price, before.entry_price);
    assert_eq!(pos.leverage, before.leverage);
    // The record matches the values used to mutate the position.
    assert_eq!(out.record.position_owner, before.owner);
    assert_eq!(out.record.liquidator, [9u8; 32]);
    assert_eq!(out.record.liquidated_size, 1_000_000);
    assert_eq!(out.record.liquidated_size + pos.size, before.size);
    assert_eq!(out.record.liquidation_price, 49_800_000_000);
    assert_eq!(out.record.margin_before, 100_000_000);
    assert_eq!(out.record.margin_after, pos.collateral);
    assert_eq!(out.record.liquidator_reward, 249_000_000);
    assert_eq!(out.record.bad_debt, 0);
    assert_eq!(out.record.timestamp, 99);
    // The event mirrors the record.
    assert_eq!(out.event.position_owner, out.record.position_owner);
    assert_eq!(out.event.symbol_id, 7);
    assert_eq!(out.event.liquidated_size, out.record.liquidated_size);
    assert_eq!(out.event.margin_before, out.record.margin_before);
    assert_eq!(out.event.margin_after, out.record.margin_after);
    assert_eq!(out.event.liquidator_reward, out.record.liquidator_reward);
    assert_eq!(out.event.bad_debt, out.record.bad_debt);
    assert_eq!(out.event.timestamp, out.record.timestamp);
    // Payments: reward to the liquidator, net proceeds to the trader.
    assert_eq!(out.liquidator_payment, 249_000_000);
    assert_eq!(out.trader_payment, 49_551_000_000);
    assert!(!out.paid_from_insurance);
    assert!(out.insolvency.is_none());
}

#[test]
fn partial_that_cannot_restore_health_rejects_without_mutation() {
    let before = create_position([3u8; 32], 50_000_000_000, 2_000_000, -35_000_000_000, true, 50, 0);
    let mut pos = before;
    let r = liquidate_partial(&mut pos, 40_000_000_000, &ctx(5), &cfg());
    assert_eq!(r, Err(ErrorCode::PartialInsufficient));
    assert_eq!(pos, before);
}

#[test]
fn size_one_or_zero_is_too_small_to_partial() {
    // Size one, unhealthy: half the size rounds to zero.
    let before = create_position([3u8; 32], 50_000_000_000, 1, -5, true, 50, 0);
    let mut pos = before;
    let r = liquidate_partial(&mut pos, 50_000_000_000, &ctx(5), &cfg());
    assert_eq!(r, Err(ErrorCode::TooSmallToPartial));
    assert_eq!(pos, before);

    // A closed position (size zero carries no collateral) is unhealthy by
    // the margin test and equally too small.
    let before0 = create_position([3u8; 32], 50_000_000_000, 0, 0, true, 50, 0);
    let mut pos0 = before0;
    let r0 = liquidate_partial(&mut pos0, 50_000_000_000, &ctx(5), &cfg());
    assert_eq!(r0, Err(ErrorCode::TooSmallToPartial));
    assert_eq!(pos0, before0);
}

#[test]
fn full_liquidation_solvent_pays_reward_and_remainder() {
    // Margin 100e6 >= 0 but ratio 10 bps < 100 bps: full liquidation settles.
    let before = create_position([3u8; 32], 50_000_000_000, 2_000_000, 500_000_000, true, 50, 0);
    let mut pos = before;
    let fund_before = fund_with(5_000_000_000);
    let mut fund = fund_before;
    let r = liquidate_full(&mut pos, &mut fund, 49_800_000_000, &ctx(77), &cfg());
    let out = r.unwrap().unwrap();
    assert_eq!(pos.size, 0);
    assert_eq!(pos.collateral, 0);
    assert_eq!(pos.last_update_ts, 77);
    assert_eq!(fund, fund_before);
    assert_eq!(out.record.liquidated_size, 2_000_000);
    assert_eq!(out.record.margin_before, 100_000_000);
    assert_eq!(out.record.margin_after, 0);
    assert_eq!(out.record.liquidator_reward, 500_000);
    assert_eq!(out.record.bad_debt, 0);
    assert_eq!(out.liquidator_payment, 500_000);
    assert_eq!(out.trader_payment, 99_500_000);
    assert!(!out.paid_from_insurance);
    assert!(out.insolvency.is_none());
}

#[test]
fn full_liquidation_insolvent_partial_cover_reports_insolvency() {
    // Entry 50000e6, size two units, collateral 1000e6, leverage 50, long;
    // the price drops to 40000e6, margin goes to -19000e6, and the fund's
    // 5000e6 only partially covers the bad debt.
    let before = create_position([3u8; 32], 50_000_000_000, 2_000_000, 1_000_000_000, true, 50, 0);
    let mut pos = before;
    let mut fund = fund_with(5_000_000_000);
    let r = liquidate_full(&mut pos, &mut fund, 40_000_000_000, &ctx(88), &cfg());
    let out = r.unwrap().unwrap();
    assert_eq!(pos.size, 0);
    assert_eq!(pos.collateral, 0);
    assert_eq!(out.record.margin_before, -19_000_000_000);
    assert_eq!(out.record.margin_after, 0);
    assert_eq!(fund.balance, 0);
    assert_eq!(fund.total_bad_debt_covered, 5_000_000_000);
    // covered + leftover == bad debt
    assert_eq!(5_000_000_000 + out.record.bad_debt, 19_000_000_000);
    // Reward is capped by the nominal rate on the covered amount.
    assert_eq!(out.record.liquidator_reward, 25_000_000);
    assert_eq!(out.liquidator_payment, 25_000_000);
    assert_eq!(out.trader_payment, 0);
    assert!(out.paid_from_insurance);
    let ev = out.insolvency.unwrap();
    assert_eq!(ev.amount, 14_000_000_000);
    assert_eq!(ev.timestamp, 88);
}

#[test]
fn full_liquidation_insolvent_fully_covered_leaves_no_insolvency() {
    let before = create_position([3u8; 32], 50_000_000_000, 2_000_000, 1_000_000_000, true, 50, 0);
    let mut pos = before;
    let mut fund = fund_with(20_000_000_000);
    let r = liquidate_full(&mut pos, &mut fund, 40_000_000_000, &ctx(88), &cfg());
    let out = r.unwrap().unwrap();
    assert_eq!(fund.balance, 1_000_000_000);
    assert_eq!(fund.total_bad_debt_covered, 19_000_000_000);
    assert_eq!(out.record.bad_debt, 0);
    assert_eq!(out.record.liquidator_reward, 95_000_000);
    assert!(out.insolvency.is_none());
    assert!(out.paid_from_insurance);
}

#[test]
fn covered_debt_accumulator_is_monotone_across_calls() {
    let mut fund = fund_with(20_000_000_000);
    let mut pos = create_position([3u8; 32], 50_000_000_000, 2_000_000, 1_000_000_000, true, 50, 0);
    liquidate_full(&mut pos, &mut fund, 40_000_000_000, &ctx(1), &cfg()).unwrap();
    let after_first = fund.total_bad_debt_covered;
    assert_eq!(after_first, 19_000_000_000);
    let mut pos2 = create_position([5u8; 32], 50_000_000_000, 2_000_000, 1_000_000_000, true, 50, 0);
    liquidate_full(&mut pos2, &mut fund, 40_000_000_000, &ctx(2), &cfg()).unwrap();
    assert!(fund.total_bad_debt_covered >= after_first);
    assert_eq!(fund.total_bad_debt_covered, 20_000_000_000);
    assert_eq!(fund.balance, 0);
}

#[test]
fn waterfall_accounts_exactly() {
    assert_eq!(insurance_waterfall(5, 19), (5u64, 14i128));
    assert_eq!(insurance_waterfall(20, 19), (19u64, 0i128));
    assert_eq!(insurance_waterfall(0, 7), (0u64, 7i128));
    assert_eq!(insurance_waterfall(7, 0), (0u64, 0i128));
}

#[test]
fn reward_on_bad_debt_path_is_capped() {
    // Nominal rate on the covered amount...
    assert_eq!(capped_liquidation_reward(5_000_000_000, 50), 25_000_000);
    // ...and never more than the covered amount itself.
    assert_eq!(capped_liquidation_reward(100, 10_000), 100);
    assert_eq!(capped_liquidation_reward(0, 50), 0);
}

#[test]
fn zero_price_is_rejected_without_mutation() {
    let before = create_position([3u8; 32], 50_000_000_000, 2_000_000, 1_000_000_000, true, 50, 0);
    let mut pos = before;
    let r = liquidate_partial(&mut pos, 0, &ctx(5), &cfg());
    assert_eq!(r, Err(ErrorCode::InvalidOraclePrice));
    assert_eq!(pos, before);
    let mut fund = fund_with(1);
    let r2 = liquidate_full(&mut pos, &mut fund, 0, &ctx(5), &cfg());
    assert_eq!(r2, Err(ErrorCode::InvalidOraclePrice));
    assert_eq!(pos, before);
}

#[test]
fn full_liquidation_of_closed_position_is_zero_position() {
    let before = create_position([3u8; 32], 50_000_000_000, 0, 0, true, 50, 0);
    let mut pos = before;
    let mut fund = fund_with(1);
    let r = liquidate_full(&mut pos, &mut fund, 50_000_000_000, &ctx(5), &cfg());
    assert_eq!(r, Err(ErrorCode::ZeroPosition));
    assert_eq!(pos, before);
}

#[test]
fn widened_product_overflow_is_reported_not_wrapped() {
    let before = Position {
        owner: [3u8; 32],
        size: u64::MAX,
        entry_price: 1,
        collateral: 0,
        is_long: true,
        last_update_ts: 0,
        leverage: 1,
    };
    let mut pos = before;
    let r = liquidate_partial(&mut pos, u64::MAX, &ctx(5), &cfg());
    assert_eq!(r, Err(ErrorCode::ArithmeticOverflow));
    assert_eq!(pos, before);
    let mut fund = fund_with(1);
    let r2 = liquidate_full(&mut pos, &mut fund, u64::MAX, &ctx(5), &cfg());
    assert_eq!(r2, Err(ErrorCode::ArithmeticOverflow));
    assert_eq!(pos, before);
}
