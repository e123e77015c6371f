//! Fixed-point arithmetic primitives and the pure margin calculator.
//!
//! All engine arithmetic widens to `i128`/`u128` before multiplying, divides
//! truncating toward zero, and fails with `ErrorCode::ArithmeticOverflow`
//! instead of wrapping. The spec functions here are the mathematical model
//! that every engine contract is stated over.

use vstd::prelude::*;
use vstd::arithmetic::div_mod::{
    lemma_div_is_ordered, lemma_div_nonincreasing, lemma_div_pos_is_pos,
};
use vstd::arithmetic::div_mod::lemma_div_by_multiple;
use vstd::arithmetic::mul::{
    lemma_mul_left_inequality, lemma_mul_nonnegative, lemma_mul_upper_bound,
};

use crate::{ErrorCode, BPS_DENOM, PRICE_PRECISION};

verus! {

/// Division truncating toward zero: the semantics of Rust's `/` on signed
/// integers. Ghost `/` is Euclidean, so contracts name truncation explicitly.
pub open spec fn div_trunc(x: int, d: int) -> int
    recommends
        d > 0,
{
    if x >= 0 {
        x / d
    } else {
        -((-x) / d)
    }
}

/// Truncating division shrinks magnitude: a bound on the dividend scales down
/// by the divisor.
pub proof fn lemma_div_trunc_bound(x: int, d: int, b: int)
    requires
        d >= 1,
        0 <= b,
        -b <= x <= b,
    ensures
        -(b / d) <= div_trunc(x, d) <= b / d,
{
    if x >= 0 {
        lemma_div_pos_is_pos(x, d);
        lemma_div_is_ordered(x, b, d);
        lemma_div_pos_is_pos(b, d);
    } else {
        lemma_div_pos_is_pos(-x, d);
        lemma_div_is_ordered(-x, b, d);
        lemma_div_pos_is_pos(b, d);
    }
}

/// Truncating division is monotone on non-negative dividends.
pub proof fn lemma_div_trunc_ordered(x: int, y: int, d: int)
    requires
        d >= 1,
        0 <= x <= y,
    ensures
        0 <= div_trunc(x, d) <= div_trunc(y, d),
{
    lemma_div_pos_is_pos(x, d);
    lemma_div_is_ordered(x, y, d);
}

/// Truncating division by `d >= 1` never grows a non-negative dividend.
pub proof fn lemma_div_trunc_nonincreasing(x: int, d: int)
    requires
        d >= 1,
        0 <= x,
    ensures
        0 <= div_trunc(x, d) <= x,
{
    lemma_div_pos_is_pos(x, d);
    lemma_div_nonincreasing(x, d);
}

/// Truncating `i128` division, total for every positive divisor.
pub fn div_trunc_i128(a: i128, d: i128) -> (r: i128)
    requires
        d > 0,
    ensures
        r == div_trunc(a as int, d as int),
{
    proof {
        if a >= 0 {
            lemma_div_pos_is_pos(a as int, d as int);
            lemma_div_nonincreasing(a as int, d as int);
        } else {
            lemma_div_pos_is_pos(-(a as int), d as int);
            lemma_div_nonincreasing(-(a as int), d as int);
        }
    }
    match a.checked_div(d) {
        Some(v) => v,
        None => {
            proof {
                assert(false);
            }
            0
        },
    }
}

/// A basis-point fraction of a non-negative base never exceeds the base.
pub proof fn lemma_bps_fraction_le_base(base: int, bps: int)
    requires
        base >= 0,
        0 <= bps <= BPS_DENOM,
    ensures
        0 <= div_trunc(base * bps, BPS_DENOM as int) <= base,
{
    lemma_mul_nonnegative(base, bps);
    lemma_div_trunc_nonincreasing(base * bps, BPS_DENOM as int);
    if base > 0 {
        lemma_mul_left_inequality(base, bps, BPS_DENOM as int);
        lemma_div_trunc_ordered(base * bps, base * (BPS_DENOM as int), BPS_DENOM as int);
        lemma_mul_nonnegative(base, BPS_DENOM as int);
        lemma_div_by_multiple(base, BPS_DENOM as int);
    } else {
        assert(base * bps == 0) by (nonlinear_arith)
            requires
                base == 0,
        ;
    }
}

/// Per-unit profit or loss: price movement in favour of the position's side.
pub open spec fn spec_pnl_per_unit(entry_price: int, price: int, is_long: bool) -> int {
    if is_long {
        price - entry_price
    } else {
        entry_price - price
    }
}

/// Unrealized profit or loss over `size` units, in collateral units.
pub open spec fn spec_unrealized_pnl(entry_price: int, price: int, size: int, is_long: bool) -> int {
    div_trunc(spec_pnl_per_unit(entry_price, price, is_long) * size, PRICE_PRECISION as int)
}

/// Current market value of `size` units, in collateral units.
pub open spec fn spec_notional(price: int, size: int) -> int
    recommends
        price >= 0,
        size >= 0,
{
    (size * price) / (PRICE_PRECISION as int)
}

/// Margin: collateral plus unrealized profit or loss.
pub open spec fn spec_margin(
    collateral: int,
    entry_price: int,
    price: int,
    size: int,
    is_long: bool,
) -> int {
    collateral + spec_unrealized_pnl(entry_price, price, size, is_long)
}

/// Maintenance-margin requirement in basis points, tiered by leverage.
/// Higher tiers require a smaller relative cushion; anything outside the
/// defined tiers falls back to the most conservative requirement.
pub open spec fn spec_maintenance_margin_bps(leverage: u16) -> int {
    if 1 <= leverage <= 20 {
        250
    } else if 21 <= leverage <= 50 {
        100
    } else if 51 <= leverage <= 100 {
        50
    } else if 101 <= leverage <= 500 {
        25
    } else if 501 <= leverage <= 1000 {
        10
    } else {
        250
    }
}

/// Health: positive margin and a margin ratio at or above the maintenance
/// requirement. A zero notional counts as infinitely healthy by policy.
pub open spec fn spec_healthy(margin: int, notional: int, maintenance_bps: int) -> bool {
    margin > 0 && (notional == 0 || div_trunc(margin * BPS_DENOM as int, notional)
        >= maintenance_bps)
}

/// Maintenance-margin basis points for a leverage tier.
pub fn get_maintenance_margin_bps(leverage: u16) -> (r: u64)
    ensures
        r == spec_maintenance_margin_bps(leverage),
{
    if 1 <= leverage && leverage <= 20 {
        250
    } else if 21 <= leverage && leverage <= 50 {
        100
    } else if 51 <= leverage && leverage <= 100 {
        50
    } else if 101 <= leverage && leverage <= 500 {
        25
    } else if 501 <= leverage && leverage <= 1000 {
        10
    } else {
        250
    }
}

/// Raw profit or loss of `quantity` units between entry and current price,
/// without price-precision rescaling.
pub fn compute_pnl(entry_price: u64, price: u64, quantity: u64, is_long: bool) -> (r: i64)
    requires
        entry_price <= i64::MAX,
        price <= i64::MAX,
        quantity <= i64::MAX,
        i64::MIN <= spec_pnl_per_unit(entry_price as int, price as int, is_long) * quantity
            <= i64::MAX,
    ensures
        r == spec_pnl_per_unit(entry_price as int, price as int, is_long) * quantity,
{
    let price_diff: i64 = if is_long {
        price as i64 - entry_price as i64
    } else {
        entry_price as i64 - price as i64
    };
    price_diff * (quantity as i64)
}

/// Collateral plus profit or loss.
pub fn compute_margin(collateral: i64, pnl: i64) -> (r: i64)
    requires
        i64::MIN <= collateral + pnl <= i64::MAX,
    ensures
        r == collateral + pnl,
{
    collateral + pnl
}

/// Notional value without price-precision rescaling: `price * quantity`.
pub fn compute_notional(price: u64, quantity: u64) -> (r: u128)
    ensures
        r == price * quantity,
{
    proof {
        lemma_mul_upper_bound(price as int, u64::MAX as int, quantity as int, u64::MAX as int);
    }
    (price as u128) * (quantity as u128)
}

/// Maintenance-margin amount: `notional * bps / 10_000`, truncated.
pub fn compute_maintenance_margin(notional: u128, bps: u64) -> (r: i64)
    requires
        notional * bps <= u128::MAX,
        (notional * bps) / (BPS_DENOM as int) <= i64::MAX,
    ensures
        r == (notional * bps) / (BPS_DENOM as int),
{
    ((notional * (bps as u128)) / 10_000u128) as i64
}

/// Margin ratio in basis points: `margin * 10_000 / notional`, truncated
/// toward zero; a zero notional yields the maximum representable ratio.
pub fn compute_margin_ratio(margin: i64, notional: u128) -> (r: i64)
    requires
        notional <= i128::MAX,
        notional > 0 ==> i64::MIN <= div_trunc(margin * BPS_DENOM as int, notional as int)
            <= i64::MAX,
    ensures
        notional == 0 ==> r == i64::MAX,
        notional > 0 ==> r == div_trunc(margin * BPS_DENOM as int, notional as int),
{
    if notional == 0 {
        return i64::MAX;
    }
    div_trunc_i128((margin as i128) * 10_000i128, notional as i128) as i64
}

/// Quantity closed by a partial liquidation: half the size, rounded down.
pub fn compute_partial_liquidation_amount(quantity: u64) -> (r: u64)
    ensures
        r == quantity / 2,
{
    quantity / 2
}

/// Liquidator reward on a notional amount: `notional * reward_bps / 10_000`.
pub fn compute_liquidator_reward(notional: u128, reward_bps: u64) -> (r: u64)
    requires
        notional * reward_bps <= u128::MAX,
        (notional * reward_bps) / (BPS_DENOM as int) <= u64::MAX,
    ensures
        r == (notional * reward_bps) / (BPS_DENOM as int),
{
    ((notional * (reward_bps as u128)) / 10_000u128) as u64
}

} // verus!
