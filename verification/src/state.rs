//! The engine's data model: positions, the insurance fund, audit records,
//! events, and the tunable configuration the engine runs under.
//!
//! Party identities are opaque 32-byte identifiers; the engine never inspects
//! them, it only copies them into records and events.

use vstd::prelude::*;

use crate::math::{
    spec_healthy, spec_maintenance_margin_bps, spec_margin, spec_notional,
};
use crate::BPS_DENOM;

verus! {

/// One leveraged position. A size of zero means the position is closed, and a
/// closed position carries no residual collateral.
#[derive(Clone, Copy, Debug, PartialEq, Eq)]
pub struct Position {
    /// Opaque identity of the trader who owns the position.
    pub owner: [u8; 32],
    /// Quantity of the underlying; zero means closed.
    pub size: u64,
    /// Fixed-point price (six decimals) at which the position was opened.
    pub entry_price: u64,
    /// Collateral backing the position; transiently negative margin can occur
    /// before liquidation settles it.
    pub collateral: i64,
    /// True for a long position, false for a short.
    pub is_long: bool,
    /// Timestamp of the last mutation.
    pub last_update_ts: i64,
    /// Leverage multiplier, tiered into maintenance-margin brackets.
    pub leverage: u16,
}

impl Position {
    /// A closed position carries no residual collateral.
    pub open spec fn wf(self) -> bool {
        self.size == 0 ==> self.collateral == 0
    }

    /// Margin at `price`: collateral plus unrealized profit or loss.
    pub open spec fn margin_at(self, price: int) -> int {
        spec_margin(
            self.collateral as int,
            self.entry_price as int,
            price,
            self.size as int,
            self.is_long,
        )
    }

    /// Notional value at `price`.
    pub open spec fn notional_at(self, price: int) -> int {
        spec_notional(price, self.size as int)
    }

    /// Maintenance-margin requirement for this position's leverage tier.
    pub open spec fn maintenance_bps(self) -> int {
        spec_maintenance_margin_bps(self.leverage)
    }

    /// Health at `price`: positive margin and a ratio at or above the
    /// maintenance requirement. A position exactly at the threshold with
    /// positive margin is healthy and is not liquidated.
    pub open spec fn healthy_at(self, price: int) -> bool {
        spec_healthy(self.margin_at(price), self.notional_at(price), self.maintenance_bps())
    }
}

/// Opens a position with the given parameters.
pub fn create_position(
    owner: [u8; 32],
    entry_price: u64,
    size: u64,
    collateral: i64,
    is_long: bool,
    leverage: u16,
    now: i64,
) -> (r: Position)
    requires
        size == 0 ==> collateral == 0,
    ensures
        r == (Position {
            owner,
            size,
            entry_price,
            collateral,
            is_long,
            last_update_ts: now,
            leverage,
        }),
        r.wf(),
{
    Position { owner, size, entry_price, collateral, is_long, last_update_ts: now, leverage }
}

/// The reserve that absorbs bad debt left by insolvent full liquidations.
#[derive(Clone, Copy, Debug, PartialEq, Eq)]
pub struct InsuranceFund {
    /// Administrative identity; not consumed by the computation core.
    pub authority: [u8; 32],
    /// Non-negative bookkeeping mirror of the real backing assets.
    pub balance: u64,
    /// Lifetime contributions; bookkeeping only.
    pub total_contributions: u64,
    /// Monotonically non-decreasing accumulator of covered bad debt.
    pub total_bad_debt_covered: u64,
    /// Bookkeeping only; not consumed by the decision logic.
    pub utilization_ratio: u64,
}

/// Sets up an empty insurance fund under the given authority.
pub fn initialize_insurance_fund(authority: [u8; 32]) -> (r: InsuranceFund)
    ensures
        r == (InsuranceFund {
            authority,
            balance: 0,
            total_contributions: 0,
            total_bad_debt_covered: 0,
            utilization_ratio: 0,
        }),
{
    InsuranceFund {
        authority,
        balance: 0,
        total_contributions: 0,
        total_bad_debt_covered: 0,
        utilization_ratio: 0,
    }
}

/// Immutable audit entry, created exactly once per committed liquidation.
#[derive(Clone, Copy, Debug, PartialEq, Eq)]
pub struct LiquidationRecord {
    pub position_owner: [u8; 32],
    pub liquidator: [u8; 32],
    /// Instrument symbol, zero-padded.
    pub symbol: [u8; 16],
    pub liquidated_size: u64,
    pub liquidation_price: u64,
    pub margin_before: i64,
    pub margin_after: i64,
    pub liquidator_reward: u64,
    pub bad_debt: u64,
    pub timestamp: i64,
}

/// Transient notification mirroring the record's key fields.
#[derive(Clone, Copy, Debug, PartialEq, Eq)]
pub struct LiquidationEvent {
    pub position_owner: [u8; 32],
    pub liquidator: [u8; 32],
    pub symbol_id: u16,
    pub liquidated_size: u64,
    pub liquidation_price: u64,
    pub margin_before: i64,
    pub margin_after: i64,
    pub liquidator_reward: u64,
    pub bad_debt: u64,
    pub timestamp: i64,
}

/// Emitted when a full liquidation leaves bad debt the fund could not cover.
#[derive(Clone, Copy, Debug, PartialEq, Eq)]
pub struct ProtocolInsolvencyEvent {
    pub amount: u64,
    pub timestamp: i64,
}

/// Tunable engine policy.
#[derive(Clone, Copy, Debug, PartialEq, Eq)]
pub struct EngineConfig {
    /// Liquidator reward rate in basis points.
    pub liquidator_reward_bps: u64,
}

impl EngineConfig {
    /// The reward rate never exceeds one: a reward is a fraction of what it
    /// is computed from.
    pub open spec fn wf(self) -> bool {
        self.liquidator_reward_bps <= BPS_DENOM
    }
}

/// Tunable oracle acceptance policy.
#[derive(Clone, Copy, Debug, PartialEq, Eq)]
pub struct OracleConfig {
    /// Maximum age, in seconds, of an acceptable price sample.
    pub max_staleness: u64,
    /// The confidence interval must stay under `price / max_conf_factor`.
    pub max_conf_factor: i64,
}

impl OracleConfig {
    pub open spec fn wf(self) -> bool {
        self.max_conf_factor >= 1
    }
}

} // verus!
