//! A margin-and-liquidation engine for leveraged trading positions.
//!
//! Given a position's entry price, size, collateral, leverage and side, plus a
//! validated market price, the engine decides whether the position must be
//! liquidated (partially or fully), computes the monetary consequences
//! (liquidator reward, trader payout, bad debt), applies an insurance-fund
//! waterfall to any bad debt, and produces an audit record of the outcome.
//!
//! All decision and settlement arithmetic is verified: every public function
//! states exactly which outcome each input produces, and every rejected call
//! leaves the position and the fund untouched.

use vstd::prelude::*;

pub mod engine;
pub mod insurance;
pub mod math;
pub mod oracle;
pub mod state;

verus! {

/// Scale of fixed-point prices and collateral amounts: six decimal places.
pub const PRICE_PRECISION: u64 = 1_000_000;

/// Denominator for basis-point quantities.
pub const BPS_DENOM: u64 = 10_000;

/// Every way an invocation of the engine can fail. A failed invocation never
/// mutates the position or the insurance fund.
#[derive(Clone, Copy, Debug, PartialEq, Eq, Structural)]
pub enum ErrorCode {
    /// The oracle account bytes do not parse as a price feed.
    InvalidOracleAccount,
    /// The freshest price sample is older than the configured max staleness.
    StaleOraclePrice,
    /// The confidence interval is too wide relative to the price.
    OracleConfidenceTooHigh,
    /// The oracle reported a non-positive price.
    InvalidOraclePrice,
    /// A checked operation overflowed its widened range, or a narrowing cast
    /// would have lost magnitude.
    ArithmeticOverflow,
    /// The position has zero size where a positive size is required.
    ZeroPosition,
    /// Half the position size rounds to zero, so no partial close is possible.
    TooSmallToPartial,
    /// A partial close would leave the remainder unhealthy; full liquidation
    /// is required instead.
    PartialInsufficient,
    /// Surfaced by collaborators when a caller lacks authority; the
    /// computation core never produces it.
    Unauthorized,
}

} // verus!
