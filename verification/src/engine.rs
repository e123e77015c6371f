//! The liquidation decision engine.
//!
//! Each entry point is one synchronous invocation over a single position (and,
//! for full liquidation, a single insurance fund). Every outcome is computed
//! into locals first and applied only once every narrowing cast has been
//! checked, so a failing invocation leaves both accounts exactly as they were.

use vstd::prelude::*;
use vstd::arithmetic::div_mod::lemma_div_nonincreasing;
use vstd::arithmetic::mul::{lemma_mul_inequality, lemma_mul_nonnegative, lemma_mul_upper_bound};

use crate::insurance::{
    capped_liquidation_reward, insurance_waterfall, spec_capped_reward, spec_covered,
    spec_leftover,
};
use crate::math::{
    div_trunc, div_trunc_i128, get_maintenance_margin_bps, lemma_bps_fraction_le_base,
    lemma_div_trunc_bound, lemma_div_trunc_nonincreasing, spec_healthy, spec_notional,
    spec_pnl_per_unit,
};
use crate::oracle::{get_oracle_price, spec_feed_price};
use crate::state::{
    EngineConfig, InsuranceFund, LiquidationEvent, LiquidationRecord, OracleConfig, Position,
    ProtocolInsolvencyEvent,
};
use crate::{ErrorCode, BPS_DENOM, PRICE_PRECISION};

verus! {

/// Caller-supplied facts about one liquidation invocation: who liquidates,
/// which instrument, and the current time.
#[derive(Clone, Copy, Debug, PartialEq, Eq)]
pub struct LiquidationContext {
    /// Opaque identity of the liquidator.
    pub liquidator: [u8; 32],
    /// Instrument symbol recorded in the audit entry, zero-padded.
    pub symbol: [u8; 16],
    /// Instrument identifier carried by the emitted event.
    pub symbol_id: u16,
    /// The current time, recorded and stamped on every mutation.
    pub now: i64,
}

/// Everything a committed liquidation asks of its collaborators: the audit
/// record to append, the event to publish, the transfers to execute, and the
/// insolvency notification, if any.
#[derive(Clone, Copy, Debug, PartialEq, Eq)]
pub struct LiquidationOutcome {
    /// The audit record; append-only, created exactly once per commit.
    pub record: LiquidationRecord,
    /// The notification mirroring the record's key fields.
    pub event: LiquidationEvent,
    /// Amount owed to the liquidator.
    pub liquidator_payment: u64,
    /// Amount owed to the trader (net proceeds or leftover margin).
    pub trader_payment: u64,
    /// True when the liquidator payment is drawn from the insurance fund
    /// rather than the protocol vault.
    pub paid_from_insurance: bool,
    /// Present when full liquidation left bad debt the fund could not cover.
    pub insolvency: Option<ProtocolInsolvencyEvent>,
}

/// Whether a value fits the signed 64-bit range of record fields.
pub open spec fn fits_i64(x: int) -> bool {
    i64::MIN <= x <= i64::MAX
}

/// Per-unit profit or loss of the position at `price`.
pub open spec fn spec_raw_pnl(s: Position, price: int) -> int {
    spec_pnl_per_unit(s.entry_price as int, price, s.is_long)
}

/// Whether widening the notional or PnL product overflows `i128`: the one
/// way evaluating a position's health can fail.
pub open spec fn spec_eval_overflow(s: Position, price: int) -> bool {
    ||| (s.size as int) * price > i128::MAX as int
    ||| spec_raw_pnl(s, price) * (s.size as int) > i128::MAX as int
    ||| spec_raw_pnl(s, price) * (s.size as int) < i128::MIN as int
}

/// The quantity a partial liquidation closes: half the size, rounded down.
pub open spec fn spec_partial_closed(s: Position) -> int {
    (s.size as int) / 2
}

/// The quantity that remains after a partial close.
pub open spec fn spec_partial_remaining(s: Position) -> int {
    s.size - spec_partial_closed(s)
}

/// Proceeds of selling the closed quantity at `price`.
pub open spec fn spec_partial_proceeds(s: Position, price: int) -> int {
    div_trunc(spec_partial_closed(s) * price, PRICE_PRECISION as int)
}

/// Liquidator reward taken out of the partial-close proceeds.
pub open spec fn spec_partial_reward(s: Position, price: int, bps: int) -> int {
    div_trunc(spec_partial_proceeds(s, price) * bps, BPS_DENOM as int)
}

/// Proceeds credited to the remaining position after the reward.
pub open spec fn spec_partial_net_proceeds(s: Position, price: int, bps: int) -> int {
    spec_partial_proceeds(s, price) - spec_partial_reward(s, price, bps)
}

/// The remaining position's margin after the partial close: collateral plus
/// the remaining quantity's unrealized PnL plus the net proceeds.
pub open spec fn spec_partial_new_margin(s: Position, price: int, bps: int) -> int {
    s.collateral + div_trunc(spec_raw_pnl(s, price) * spec_partial_remaining(s),
        PRICE_PRECISION as int) + spec_partial_net_proceeds(s, price, bps)
}

/// Whether the remaining position would be healthy after the partial close:
/// only then does the partial commit.
pub open spec fn spec_partial_post_healthy(s: Position, price: int, bps: int) -> bool {
    spec_healthy(
        spec_partial_new_margin(s, price, bps),
        spec_notional(price, spec_partial_remaining(s)),
        s.maintenance_bps(),
    )
}

/// Whether committing the partial close would lose magnitude in a narrowing
/// cast: the margins into the record's `i64` fields, the payments into `u64`.
pub open spec fn spec_partial_commit_overflow(s: Position, price: int, bps: int) -> bool {
    ||| !fits_i64(s.margin_at(price))
    ||| !fits_i64(spec_partial_new_margin(s, price, bps))
    ||| spec_partial_reward(s, price, bps) > u64::MAX as int
    ||| spec_partial_net_proceeds(s, price, bps) > u64::MAX as int
}

/// Liquidator reward of a solvent full liquidation, taken from the final
/// margin.
pub open spec fn spec_full_reward(s: Position, price: int, bps: int) -> int {
    div_trunc(s.margin_at(price) * bps, BPS_DENOM as int)
}

/// Whether committing a full liquidation would lose magnitude in a narrowing
/// cast or overflow the fund's covered-debt accumulator.
pub open spec fn spec_full_commit_overflow(
    s: Position,
    fund: InsuranceFund,
    price: int,
    bps: int,
) -> bool {
    let m = s.margin_at(price);
    if m >= 0 {
        m > i64::MAX as int
    } else {
        ||| fund.total_bad_debt_covered + spec_covered(fund.balance as int, -m) > u64::MAX as int
        ||| spec_leftover(fund.balance as int, -m) > u64::MAX as int
        ||| m < i64::MIN as int
    }
}

/// The event that mirrors a record's key fields.
pub open spec fn spec_event_for(rec: LiquidationRecord, symbol_id: u16) -> LiquidationEvent {
    LiquidationEvent {
        position_owner: rec.position_owner,
        liquidator: rec.liquidator,
        symbol_id,
        liquidated_size: rec.liquidated_size,
        liquidation_price: rec.liquidation_price,
        margin_before: rec.margin_before,
        margin_after: rec.margin_after,
        liquidator_reward: rec.liquidator_reward,
        bad_debt: rec.bad_debt,
        timestamp: rec.timestamp,
    }
}

/// What a committed partial liquidation did: how the position `s` became
/// `pos2`, and what outcome `out` it produced, all at `price` under reward
/// rate `bps`.
pub open spec fn spec_partial_committed(
    s: Position,
    price: u64,
    ctx: LiquidationContext,
    bps: int,
    pos2: Position,
    out: LiquidationOutcome,
) -> bool {
    let p = price as int;
    let closed = spec_partial_closed(s);
    let new_margin = spec_partial_new_margin(s, p, bps);
    &&& price > 0
    &&& !spec_eval_overflow(s, p)
    &&& !s.healthy_at(p)
    &&& closed != 0
    &&& spec_partial_post_healthy(s, p, bps)
    &&& !spec_partial_commit_overflow(s, p, bps)
    &&& pos2 == (Position {
        owner: s.owner,
        size: (s.size - closed) as u64,
        entry_price: s.entry_price,
        collateral: new_margin as i64,
        is_long: s.is_long,
        last_update_ts: ctx.now,
        leverage: s.leverage,
    })
    &&& out.record == (LiquidationRecord {
        position_owner: s.owner,
        liquidator: ctx.liquidator,
        symbol: ctx.symbol,
        liquidated_size: closed as u64,
        liquidation_price: price,
        margin_before: s.margin_at(p) as i64,
        margin_after: new_margin as i64,
        liquidator_reward: spec_partial_reward(s, p, bps) as u64,
        bad_debt: 0,
        timestamp: ctx.now,
    })
    &&& out.event == spec_event_for(out.record, ctx.symbol_id)
    &&& out.liquidator_payment == spec_partial_reward(s, p, bps)
    &&& out.trader_payment == spec_partial_net_proceeds(s, p, bps)
    &&& !out.paid_from_insurance
    &&& out.insolvency is None
}

/// What a committed full liquidation did: how the position `s` and the fund
/// `fund0` became `pos2` and `fund2`, and what outcome `out` it produced.
pub open spec fn spec_full_committed(
    s: Position,
    fund0: InsuranceFund,
    price: u64,
    ctx: LiquidationContext,
    bps: int,
    pos2: Position,
    fund2: InsuranceFund,
    out: LiquidationOutcome,
) -> bool {
    let p = price as int;
    let m = s.margin_at(p);
    &&& price > 0
    &&& s.size > 0
    &&& !spec_eval_overflow(s, p)
    &&& !s.healthy_at(p)
    &&& !spec_full_commit_overflow(s, fund0, p, bps)
    &&& pos2 == (Position {
        owner: s.owner,
        size: 0,
        entry_price: s.entry_price,
        collateral: 0,
        is_long: s.is_long,
        last_update_ts: ctx.now,
        leverage: s.leverage,
    })
    &&& out.record.position_owner == s.owner
    &&& out.record.liquidator == ctx.liquidator
    &&& out.record.symbol == ctx.symbol
    &&& out.record.liquidated_size == s.size
    &&& out.record.liquidation_price == price
    &&& out.record.margin_before == m as i64
    &&& out.record.margin_after == 0
    &&& out.record.timestamp == ctx.now
    &&& out.event == spec_event_for(out.record, ctx.symbol_id)
    &&& m >= 0 ==> {
        &&& fund2 == fund0
        &&& out.record.liquidator_reward == spec_full_reward(s, p, bps)
        &&& out.record.bad_debt == 0
        &&& out.liquidator_payment == spec_full_reward(s, p, bps)
        &&& out.trader_payment == m - spec_full_reward(s, p, bps)
        &&& !out.paid_from_insurance
        &&& out.insolvency is None
    }
    &&& m < 0 ==> ({
        let covered = spec_covered(fund0.balance as int, -m);
        let leftover = spec_leftover(fund0.balance as int, -m);
        &&& fund2 == (InsuranceFund {
            authority: fund0.authority,
            balance: (fund0.balance - covered) as u64,
            total_contributions: fund0.total_contributions,
            total_bad_debt_covered: (fund0.total_bad_debt_covered + covered) as u64,
            utilization_ratio: fund0.utilization_ratio,
        })
        &&& out.record.liquidator_reward == spec_capped_reward(covered, bps)
        &&& out.record.bad_debt == leftover
        &&& out.liquidator_payment == spec_capped_reward(covered, bps)
        &&& out.liquidator_payment <= covered
        &&& out.trader_payment == 0
        &&& out.paid_from_insurance
        &&& out.insolvency == (if leftover > 0 {
            Some(ProtocolInsolvencyEvent { amount: leftover as u64, timestamp: ctx.now })
        } else {
            None::<ProtocolInsolvencyEvent>
        })
    })
}

/// Health check over an already-computed margin and notional.
fn check_healthy(m: i128, n: i128, mmr: u64) -> (r: bool)
    requires
        n >= 0,
        i128::MIN <= m * (BPS_DENOM as int),
        m * (BPS_DENOM as int) <= i128::MAX,
    ensures
        r == spec_healthy(m as int, n as int, mmr as int),
{
    if m <= 0 {
        return false;
    }
    if n == 0 {
        return true;
    }
    let ratio = div_trunc_i128(m * (BPS_DENOM as i128), n);
    ratio >= mmr as i128
}

/// Attempts a partial liquidation: closes half the size at `price`, takes the
/// liquidator's reward from the proceeds, credits the rest to the remaining
/// position, and commits only if the remainder is healthy. A healthy position
/// is a no-op (`Ok(None)`); every failure leaves the position untouched.
pub fn liquidate_partial(
    pos: &mut Position,
    price: u64,
    ctx: &LiquidationContext,
    cfg: &EngineConfig,
) -> (r: Result<Option<LiquidationOutcome>, ErrorCode>)
    requires
        cfg.wf(),
    ensures
        !(r matches Ok(Some(_))) ==> *final(pos) == *old(pos),
        old(pos).wf() ==> final(pos).wf(),
        (r == Err::<Option<LiquidationOutcome>, ErrorCode>(ErrorCode::InvalidOraclePrice))
            <==> price == 0,
        (r == Ok::<Option<LiquidationOutcome>, ErrorCode>(None)) <==> (price > 0
            && !spec_eval_overflow(*old(pos), price as int) && old(pos).healthy_at(price as int)),
        (r == Err::<Option<LiquidationOutcome>, ErrorCode>(ErrorCode::TooSmallToPartial)) <==> (
        price > 0 && !spec_eval_overflow(*old(pos), price as int) && !old(pos).healthy_at(
            price as int,
        ) && old(pos).size / 2 == 0),
        (r == Err::<Option<LiquidationOutcome>, ErrorCode>(ErrorCode::PartialInsufficient)) <==> (
        price > 0 && !spec_eval_overflow(*old(pos), price as int) && !old(pos).healthy_at(
            price as int,
        ) && old(pos).size / 2 != 0 && !spec_partial_post_healthy(
            *old(pos),
            price as int,
            cfg.liquidator_reward_bps as int,
        )),
        (r == Err::<Option<LiquidationOutcome>, ErrorCode>(ErrorCode::ArithmeticOverflow)) <==> (
        price > 0 && (spec_eval_overflow(*old(pos), price as int) || (!spec_eval_overflow(
            *old(pos),
            price as int,
        ) && !old(pos).healthy_at(price as int) && old(pos).size / 2 != 0
            && spec_partial_post_healthy(*old(pos), price as int, cfg.liquidator_reward_bps as int)
            && spec_partial_commit_overflow(
            *old(pos),
            price as int,
            cfg.liquidator_reward_bps as int,
        )))),
        (r matches Ok(Some(_))) <==> (price > 0 && !spec_eval_overflow(*old(pos), price as int)
            && !old(pos).healthy_at(price as int) && old(pos).size / 2 != 0
            && spec_partial_post_healthy(*old(pos), price as int, cfg.liquidator_reward_bps as int)
            && !spec_partial_commit_overflow(
            *old(pos),
            price as int,
            cfg.liquidator_reward_bps as int,
        )),
        r matches Ok(Some(out)) ==> spec_partial_committed(
            *old(pos),
            price,
            *ctx,
            cfg.liquidator_reward_bps as int,
            *final(pos),
            out,
        ),
        r matches Ok(Some(out)) ==> out.record.liquidated_size + final(pos).size == old(pos).size
            && out.record.margin_after == final(pos).collateral && out.record.liquidation_price
            == price && final(pos).size > 0,
{
    if price == 0 {
        return Err(ErrorCode::InvalidOraclePrice);
    }
    let p: i128 = price as i128;
    let e: i128 = pos.entry_price as i128;
    let q: i128 = pos.size as i128;
    let c: i128 = pos.collateral as i128;

    let qp = match q.checked_mul(p) {
        Some(v) => v,
        None => {
            proof {
                lemma_mul_nonnegative(q as int, p as int);
            }
            return Err(ErrorCode::ArithmeticOverflow);
        },
    };
    let n = div_trunc_i128(qp, PRICE_PRECISION as i128);
    let raw: i128 = if pos.is_long {
        p - e
    } else {
        e - p
    };
    let rq = match raw.checked_mul(q) {
        Some(v) => v,
        None => {
            return Err(ErrorCode::ArithmeticOverflow);
        },
    };
    let upl = div_trunc_i128(rq, PRICE_PRECISION as i128);
    proof {
        lemma_div_trunc_bound(rq as int, PRICE_PRECISION as int, i128::MAX as int + 1);
        lemma_div_trunc_nonincreasing(qp as int, PRICE_PRECISION as int);
        lemma_mul_nonnegative(q as int, p as int);
    }
    let m = c + upl;
    let mmr = get_maintenance_margin_bps(pos.leverage);
    let healthy = check_healthy(m, n, mmr);
    proof {
        assert(m == old(pos).margin_at(price as int));
        assert(n == old(pos).notional_at(price as int));
        assert(healthy == old(pos).healthy_at(price as int));
    }
    if healthy {
        return Ok(None);
    }
    let closed: u64 = pos.size / 2;
    if closed == 0 {
        return Err(ErrorCode::TooSmallToPartial);
    }
    proof {
        lemma_div_nonincreasing(pos.size as int, 2);
    }
    let remaining: u64 = pos.size - closed;
    proof {
        lemma_mul_nonnegative(closed as int, p as int);
        lemma_mul_inequality(closed as int, q as int, p as int);
    }
    let cp: i128 = (closed as i128) * p;
    let proceeds = div_trunc_i128(cp, PRICE_PRECISION as i128);
    proof {
        lemma_div_trunc_bound(cp as int, PRICE_PRECISION as int, i128::MAX as int);
        lemma_mul_nonnegative(proceeds as int, cfg.liquidator_reward_bps as int);
        lemma_mul_upper_bound(
            proceeds as int,
            (i128::MAX as int) / (PRICE_PRECISION as int),
            cfg.liquidator_reward_bps as int,
            BPS_DENOM as int,
        );
    }
    let pr: i128 = proceeds * (cfg.liquidator_reward_bps as i128);
    let reward = div_trunc_i128(pr, BPS_DENOM as i128);
    proof {
        lemma_bps_fraction_le_base(proceeds as int, cfg.liquidator_reward_bps as int);
    }
    let net = proceeds - reward;
    proof {
        lemma_mul_nonnegative(remaining as int, p as int);
        lemma_mul_inequality(remaining as int, q as int, p as int);
    }
    let rp: i128 = (remaining as i128) * p;
    let nn = div_trunc_i128(rp, PRICE_PRECISION as i128);
    proof {
        lemma_div_trunc_nonincreasing(rp as int, PRICE_PRECISION as int);
        assert(i128::MIN <= raw * (remaining as int) && raw * (remaining as int) <= i128::MAX)
            by (nonlinear_arith)
            requires
                0 <= remaining as int <= q as int,
                i128::MIN <= raw * (q as int) <= i128::MAX,
        ;
    }
    let rr: i128 = raw * (remaining as i128);
    let new_upl = div_trunc_i128(rr, PRICE_PRECISION as i128);
    proof {
        lemma_div_trunc_bound(rr as int, PRICE_PRECISION as int, i128::MAX as int + 1);
    }
    let new_margin = c + new_upl + net;
    let post_healthy = check_healthy(new_margin, nn, mmr);
    proof {
        assert(new_margin == spec_partial_new_margin(
            *old(pos),
            price as int,
            cfg.liquidator_reward_bps as int,
        ));
        assert(nn == spec_notional(price as int, spec_partial_remaining(*old(pos))));
        assert(post_healthy == spec_partial_post_healthy(
            *old(pos),
            price as int,
            cfg.liquidator_reward_bps as int,
        ));
    }
    if !post_healthy {
        return Err(ErrorCode::PartialInsufficient);
    }
    if m < i64::MIN as i128 || m > i64::MAX as i128 {
        return Err(ErrorCode::ArithmeticOverflow);
    }
    if new_margin < i64::MIN as i128 || new_margin > i64::MAX as i128 {
        return Err(ErrorCode::ArithmeticOverflow);
    }
    if reward > u64::MAX as i128 {
        return Err(ErrorCode::ArithmeticOverflow);
    }
    if net > u64::MAX as i128 {
        return Err(ErrorCode::ArithmeticOverflow);
    }
    let record = LiquidationRecord {
        position_owner: pos.owner,
        liquidator: ctx.liquidator,
        symbol: ctx.symbol,
        liquidated_size: closed,
        liquidation_price: price,
        margin_before: m as i64,
        margin_after: new_margin as i64,
        liquidator_reward: reward as u64,
        bad_debt: 0,
        timestamp: ctx.now,
    };
    let event = LiquidationEvent {
        position_owner: record.position_owner,
        liquidator: record.liquidator,
        symbol_id: ctx.symbol_id,
        liquidated_size: record.liquidated_size,
        liquidation_price: record.liquidation_price,
        margin_before: record.margin_before,
        margin_after: record.margin_after,
        liquidator_reward: record.liquidator_reward,
        bad_debt: record.bad_debt,
        timestamp: record.timestamp,
    };
    pos.size = remaining;
    pos.collateral = new_margin as i64;
    pos.last_update_ts = ctx.now;
    Ok(
        Some(
            LiquidationOutcome {
                record,
                event,
                liquidator_payment: reward as u64,
                trader_payment: net as u64,
                paid_from_insurance: false,
                insolvency: None,
            },
        ),
    )
}

/// Fully liquidates an unhealthy position at `price`: the position closes
/// unconditionally once settlement is entered. A non-negative final margin
/// pays the liquidator's reward and returns the remainder to the trader; a
/// negative one becomes bad debt that the insurance fund absorbs through the
/// waterfall, with any leftover reported as a protocol insolvency. A healthy
/// position is a no-op (`Ok(None)`); every failure leaves both accounts
/// untouched.
pub fn liquidate_full(
    pos: &mut Position,
    fund: &mut InsuranceFund,
    price: u64,
    ctx: &LiquidationContext,
    cfg: &EngineConfig,
) -> (r: Result<Option<LiquidationOutcome>, ErrorCode>)
    requires
        cfg.wf(),
    ensures
        !(r matches Ok(Some(_))) ==> *final(pos) == *old(pos) && *final(fund) == *old(fund),
        final(fund).total_bad_debt_covered >= old(fund).total_bad_debt_covered,
        r matches Ok(Some(_)) ==> final(pos).size == 0 && final(pos).collateral == 0
            && final(pos).wf(),
        old(pos).wf() ==> final(pos).wf(),
        (r == Err::<Option<LiquidationOutcome>, ErrorCode>(ErrorCode::InvalidOraclePrice))
            <==> price == 0,
        (r == Err::<Option<LiquidationOutcome>, ErrorCode>(ErrorCode::ZeroPosition)) <==> (price > 0
            && old(pos).size == 0),
        (r == Ok::<Option<LiquidationOutcome>, ErrorCode>(None)) <==> (price > 0 && old(pos).size
            > 0 && !spec_eval_overflow(*old(pos), price as int) && old(pos).healthy_at(
            price as int,
        )),
        (r == Err::<Option<LiquidationOutcome>, ErrorCode>(ErrorCode::ArithmeticOverflow)) <==> (
        price > 0 && old(pos).size > 0 && (spec_eval_overflow(*old(pos), price as int) || (
        !spec_eval_overflow(*old(pos), price as int) && !old(pos).healthy_at(price as int)
            && spec_full_commit_overflow(
            *old(pos),
            *old(fund),
            price as int,
            cfg.liquidator_reward_bps as int,
        )))),
        (r matches Ok(Some(_))) <==> (price > 0 && old(pos).size > 0 && !spec_eval_overflow(
            *old(pos),
            price as int,
        ) && !old(pos).healthy_at(price as int) && !spec_full_commit_overflow(
            *old(pos),
            *old(fund),
            price as int,
            cfg.liquidator_reward_bps as int,
        )),
        r matches Ok(Some(out)) ==> spec_full_committed(
            *old(pos),
            *old(fund),
            price,
            *ctx,
            cfg.liquidator_reward_bps as int,
            *final(pos),
            *final(fund),
            out,
        ),
        r matches Ok(Some(out)) ==> out.record.liquidated_size == old(pos).size && old(
            fund,
        ).balance - final(fund).balance == final(fund).total_bad_debt_covered - old(
            fund,
        ).total_bad_debt_covered && out.record.bad_debt + final(fund).total_bad_debt_covered - old(
            fund,
        ).total_bad_debt_covered == (if old(pos).margin_at(price as int) < 0 {
            -old(pos).margin_at(price as int)
        } else {
            0
        }),
{
    if price == 0 {
        return Err(ErrorCode::InvalidOraclePrice);
    }
    if pos.size == 0 {
        return Err(ErrorCode::ZeroPosition);
    }
    let p: i128 = price as i128;
    let e: i128 = pos.entry_price as i128;
    let q: i128 = pos.size as i128;
    let c: i128 = pos.collateral as i128;

    let raw: i128 = if pos.is_long {
        p - e
    } else {
        e - p
    };
    let rq = match raw.checked_mul(q) {
        Some(v) => v,
        None => {
            return Err(ErrorCode::ArithmeticOverflow);
        },
    };
    let upl = div_trunc_i128(rq, PRICE_PRECISION as i128);
    let qp = match q.checked_mul(p) {
        Some(v) => v,
        None => {
            proof {
                lemma_mul_nonnegative(q as int, p as int);
            }
            return Err(ErrorCode::ArithmeticOverflow);
        },
    };
    let n = div_trunc_i128(qp, PRICE_PRECISION as i128);
    proof {
        lemma_div_trunc_bound(rq as int, PRICE_PRECISION as int, i128::MAX as int + 1);
        lemma_div_trunc_nonincreasing(qp as int, PRICE_PRECISION as int);
        lemma_mul_nonnegative(q as int, p as int);
    }
    let m = c + upl;
    let mmr = get_maintenance_margin_bps(pos.leverage);
    let healthy = check_healthy(m, n, mmr);
    proof {
        assert(m == old(pos).margin_at(price as int));
        assert(n == old(pos).notional_at(price as int));
        assert(healthy == old(pos).healthy_at(price as int));
    }
    if healthy {
        return Ok(None);
    }
    if m >= 0 {
        if m > i64::MAX as i128 {
            return Err(ErrorCode::ArithmeticOverflow);
        }
        proof {
            lemma_mul_nonnegative(m as int, cfg.liquidator_reward_bps as int);
            lemma_mul_upper_bound(
                m as int,
                i64::MAX as int,
                cfg.liquidator_reward_bps as int,
                BPS_DENOM as int,
            );
        }
        let mr: i128 = m * (cfg.liquidator_reward_bps as i128);
        let reward = div_trunc_i128(mr, BPS_DENOM as i128);
        proof {
            lemma_bps_fraction_le_base(m as int, cfg.liquidator_reward_bps as int);
        }
        let remaining = m - reward;
        let record = LiquidationRecord {
            position_owner: pos.owner,
            liquidator: ctx.liquidator,
            symbol: ctx.symbol,
            liquidated_size: pos.size,
            liquidation_price: price,
            margin_before: m as i64,
            margin_after: 0,
            liquidator_reward: reward as u64,
            bad_debt: 0,
            timestamp: ctx.now,
        };
        let event = LiquidationEvent {
            position_owner: record.position_owner,
            liquidator: record.liquidator,
            symbol_id: ctx.symbol_id,
            liquidated_size: record.liquidated_size,
            liquidation_price: record.liquidation_price,
            margin_before: record.margin_before,
            margin_after: record.margin_after,
            liquidator_reward: record.liquidator_reward,
            bad_debt: record.bad_debt,
            timestamp: record.timestamp,
        };
        pos.size = 0;
        pos.collateral = 0;
        pos.last_update_ts = ctx.now;
        return Ok(
            Some(
                LiquidationOutcome {
                    record,
                    event,
                    liquidator_payment: reward as u64,
                    trader_payment: remaining as u64,
                    paid_from_insurance: false,
                    insolvency: None,
                },
            ),
        );
    }
    let bad_debt: i128 = -m;
    let (covered, leftover) = insurance_waterfall(fund.balance, bad_debt);
    let new_total: i128 = (fund.total_bad_debt_covered as i128) + (covered as i128);
    if new_total > u64::MAX as i128 {
        return Err(ErrorCode::ArithmeticOverflow);
    }
    if leftover > u64::MAX as i128 {
        return Err(ErrorCode::ArithmeticOverflow);
    }
    if m < i64::MIN as i128 {
        return Err(ErrorCode::ArithmeticOverflow);
    }
    let reward_paid = capped_liquidation_reward(covered, cfg.liquidator_reward_bps);
    let record = LiquidationRecord {
        position_owner: pos.owner,
        liquidator: ctx.liquidator,
        symbol: ctx.symbol,
        liquidated_size: pos.size,
        liquidation_price: price,
        margin_before: m as i64,
        margin_after: 0,
        liquidator_reward: reward_paid,
        bad_debt: leftover as u64,
        timestamp: ctx.now,
    };
    let event = LiquidationEvent {
        position_owner: record.position_owner,
        liquidator: record.liquidator,
        symbol_id: ctx.symbol_id,
        liquidated_size: record.liquidated_size,
        liquidation_price: record.liquidation_price,
        margin_before: record.margin_before,
        margin_after: record.margin_after,
        liquidator_reward: record.liquidator_reward,
        bad_debt: record.bad_debt,
        timestamp: record.timestamp,
    };
    let insolvency = if leftover > 0 {
        Some(ProtocolInsolvencyEvent { amount: leftover as u64, timestamp: ctx.now })
    } else {
        None
    };
    pos.size = 0;
    pos.collateral = 0;
    pos.last_update_ts = ctx.now;
    fund.balance = fund.balance - covered;
    fund.total_bad_debt_covered = new_total as u64;
    Ok(
        Some(
            LiquidationOutcome {
                record,
                event,
                liquidator_payment: reward_paid,
                trader_payment: 0,
                paid_from_insurance: true,
                insolvency,
            },
        ),
    )
}

/// A position of size zero or one can never be partially liquidated: half
/// its size rounds to zero, so by `liquidate_partial`'s contract the attempt
/// yields `TooSmallToPartial` and mutates nothing. A size-one position must
/// be unhealthy at the price to get that far; a healthy one is a no-op.
pub proof fn lemma_partial_too_small(s: Position, price: u64)
    requires
        s.wf(),
        s.size <= 1,
        price > 0,
        s.size == 1 ==> !s.healthy_at(price as int),
    ensures
        !spec_eval_overflow(s, price as int),
        !s.healthy_at(price as int),
        spec_partial_closed(s) == 0,
{
    let p = price as int;
    let raw = spec_raw_pnl(s, p);
    if s.size == 0 {
        assert((s.size as int) * p == 0 && raw * (s.size as int) == 0) by (nonlinear_arith)
            requires
                s.size == 0,
        ;
        assert(s.margin_at(p) == 0);
    } else {
        assert((s.size as int) * p == p && raw * (s.size as int) == raw) by (nonlinear_arith)
            requires
                s.size == 1,
        ;
    }
}

/// Partial liquidation against a Pyth price account: parses and validates the
/// feed at `ctx.now`, then runs the partial pipeline at the validated price.
/// A rejected feed (unparseable, stale, low-confidence, non-positive, or
/// unrepresentable) surfaces its error and no liquidation logic runs: the
/// position is untouched.
pub fn liquidate_partial_from_feed(
    pos: &mut Position,
    oracle_data: &[u8],
    ctx: &LiquidationContext,
    oracle_cfg: &OracleConfig,
    cfg: &EngineConfig,
) -> (r: Result<Option<LiquidationOutcome>, ErrorCode>)
    requires
        oracle_cfg.wf(),
        cfg.wf(),
    ensures
        !(r matches Ok(Some(_))) ==> *final(pos) == *old(pos),
        old(pos).wf() ==> final(pos).wf(),
        ({
            let fp = spec_feed_price(oracle_data@, ctx.now as int, *oracle_cfg);
            let s = *old(pos);
            let bps = cfg.liquidator_reward_bps as int;
            &&& (fp matches Err(e) ==> r == Err::<Option<LiquidationOutcome>, ErrorCode>(e))
            &&& (fp matches Ok(p) ==> {
                &&& ((r == Err::<Option<LiquidationOutcome>, ErrorCode>(
                    ErrorCode::InvalidOraclePrice,
                )) <==> p == 0)
                &&& ((r == Ok::<Option<LiquidationOutcome>, ErrorCode>(None)) <==> (p > 0
                    && !spec_eval_overflow(s, p as int) && s.healthy_at(p as int)))
                &&& ((r == Err::<Option<LiquidationOutcome>, ErrorCode>(
                    ErrorCode::TooSmallToPartial,
                )) <==> (p > 0 && !spec_eval_overflow(s, p as int) && !s.healthy_at(p as int)
                    && s.size / 2 == 0))
                &&& ((r == Err::<Option<LiquidationOutcome>, ErrorCode>(
                    ErrorCode::PartialInsufficient,
                )) <==> (p > 0 && !spec_eval_overflow(s, p as int) && !s.healthy_at(p as int)
                    && s.size / 2 != 0 && !spec_partial_post_healthy(s, p as int, bps)))
                &&& ((r matches Ok(Some(_))) <==> (p > 0 && !spec_eval_overflow(s, p as int)
                    && !s.healthy_at(p as int) && s.size / 2 != 0 && spec_partial_post_healthy(
                    s,
                    p as int,
                    bps,
                ) && !spec_partial_commit_overflow(s, p as int, bps)))
                &&& (r matches Ok(Some(out)) ==> spec_partial_committed(
                    s,
                    p,
                    *ctx,
                    bps,
                    *final(pos),
                    out,
                ))
            })
        }),
{
    let price = match get_oracle_price(oracle_data, ctx.now, oracle_cfg) {
        Ok(v) => v,
        Err(e) => {
            return Err(e);
        },
    };
    liquidate_partial(pos, price, ctx, cfg)
}

/// Full liquidation against a Pyth price account: parses and validates the
/// feed at `ctx.now`, then runs the full-liquidation pipeline at the
/// validated price. A rejected feed surfaces its error and no liquidation
/// logic runs: position and fund are untouched.
pub fn liquidate_full_from_feed(
    pos: &mut Position,
    fund: &mut InsuranceFund,
    oracle_data: &[u8],
    ctx: &LiquidationContext,
    oracle_cfg: &OracleConfig,
    cfg: &EngineConfig,
) -> (r: Result<Option<LiquidationOutcome>, ErrorCode>)
    requires
        oracle_cfg.wf(),
        cfg.wf(),
    ensures
        !(r matches Ok(Some(_))) ==> *final(pos) == *old(pos) && *final(fund) == *old(fund),
        final(fund).total_bad_debt_covered >= old(fund).total_bad_debt_covered,
        old(pos).wf() ==> final(pos).wf(),
        r matches Ok(Some(_)) ==> final(pos).size == 0 && final(pos).collateral == 0,
        ({
            let fp = spec_feed_price(oracle_data@, ctx.now as int, *oracle_cfg);
            let s = *old(pos);
            let bps = cfg.liquidator_reward_bps as int;
            &&& (fp matches Err(e) ==> r == Err::<Option<LiquidationOutcome>, ErrorCode>(e))
            &&& (fp matches Ok(p) ==> {
                &&& ((r == Err::<Option<LiquidationOutcome>, ErrorCode>(
                    ErrorCode::InvalidOraclePrice,
                )) <==> p == 0)
                &&& ((r == Err::<Option<LiquidationOutcome>, ErrorCode>(ErrorCode::ZeroPosition))
                    <==> (p > 0 && s.size == 0))
                &&& ((r == Ok::<Option<LiquidationOutcome>, ErrorCode>(None)) <==> (p > 0 && s.size
                    > 0 && !spec_eval_overflow(s, p as int) && s.healthy_at(p as int)))
                &&& ((r matches Ok(Some(_))) <==> (p > 0 && s.size > 0 && !spec_eval_overflow(
                    s,
                    p as int,
                ) && !s.healthy_at(p as int) && !spec_full_commit_overflow(
                    s,
                    *old(fund),
                    p as int,
                    bps,
                )))
                &&& (r matches Ok(Some(out)) ==> spec_full_committed(
                    s,
                    *old(fund),
                    p,
                    *ctx,
                    bps,
                    *final(pos),
                    *final(fund),
                    out,
                ))
            })
        }),
{
    let price = match get_oracle_price(oracle_data, ctx.now, oracle_cfg) {
        Ok(v) => v,
        Err(e) => {
            return Err(e);
        },
    };
    liquidate_full(pos, fund, price, ctx, cfg)
}

} // verus!
