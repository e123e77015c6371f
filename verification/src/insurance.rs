//! The insurance-fund waterfall: how a reserve absorbs the bad debt left by
//! an insolvent full liquidation, and how the liquidator's reward on that
//! path is capped by what was actually recovered.

use vstd::prelude::*;
use vstd::arithmetic::div_mod::lemma_div_by_multiple;
use vstd::arithmetic::mul::{lemma_mul_left_inequality, lemma_mul_upper_bound};

use crate::math::{
    div_trunc, lemma_div_trunc_nonincreasing, lemma_div_trunc_ordered, div_trunc_i128,
};
use crate::BPS_DENOM;

verus! {

/// How much of `bad_debt` a fund holding `balance` covers: all of it when the
/// balance suffices, otherwise the whole balance.
pub open spec fn spec_covered(balance: int, bad_debt: int) -> int
    recommends
        balance >= 0,
        bad_debt >= 0,
{
    if balance >= bad_debt {
        bad_debt
    } else {
        balance
    }
}

/// The bad debt left uncovered after the waterfall.
pub open spec fn spec_leftover(balance: int, bad_debt: int) -> int {
    bad_debt - spec_covered(balance, bad_debt)
}

/// The liquidator reward on the bad-debt path: the nominal reward rate on the
/// covered amount, and never more than the covered amount itself.
pub open spec fn spec_capped_reward(covered: int, reward_bps: int) -> int
    recommends
        covered >= 0,
        0 <= reward_bps <= BPS_DENOM,
{
    if covered > 0 {
        let max_reward = div_trunc(covered * reward_bps, BPS_DENOM as int);
        if covered >= max_reward {
            max_reward
        } else {
            covered
        }
    } else {
        0
    }
}

/// Splits `bad_debt` into the amount the fund covers and the leftover that
/// becomes a protocol liability. Pure: the caller applies the fund mutation
/// once every other outcome of the invocation is known.
pub fn insurance_waterfall(balance: u64, bad_debt: i128) -> (r: (u64, i128))
    requires
        bad_debt >= 0,
    ensures
        r.0 == spec_covered(balance as int, bad_debt as int),
        r.1 == spec_leftover(balance as int, bad_debt as int),
        r.0 <= balance,
        r.0 + r.1 == bad_debt,
        0 <= r.1,
{
    if (balance as i128) >= bad_debt {
        (bad_debt as u64, 0)
    } else {
        (balance, bad_debt - (balance as i128))
    }
}

/// The liquidator reward paid out of a covered amount.
pub fn capped_liquidation_reward(covered: u64, reward_bps: u64) -> (r: u64)
    requires
        reward_bps <= BPS_DENOM,
    ensures
        r == spec_capped_reward(covered as int, reward_bps as int),
        r <= covered,
{
    if covered == 0 {
        return 0;
    }
    proof {
        lemma_mul_upper_bound(covered as int, u64::MAX as int, reward_bps as int, BPS_DENOM as int);
    }
    let max_reward: i128 = div_trunc_i128(
        (covered as i128) * (reward_bps as i128),
        BPS_DENOM as i128,
    );
    proof {
        lemma_div_trunc_nonincreasing((covered as int) * (reward_bps as int), BPS_DENOM as int);
    }
    if (covered as i128) >= max_reward {
        max_reward as u64
    } else {
        covered
    }
}

/// The waterfall accounts for the bad debt exactly: covered plus leftover is
/// the bad debt, the fund never pays more than it holds, and the reward paid
/// on the bad-debt path never exceeds the covered amount nor the nominal
/// reward rate applied to it.
pub proof fn lemma_insurance_waterfall(balance: int, bad_debt: int, reward_bps: int)
    requires
        balance >= 0,
        bad_debt >= 0,
        0 <= reward_bps <= BPS_DENOM,
    ensures
        spec_covered(balance, bad_debt) + spec_leftover(balance, bad_debt) == bad_debt,
        0 <= spec_covered(balance, bad_debt) <= balance,
        0 <= spec_leftover(balance, bad_debt),
        spec_capped_reward(spec_covered(balance, bad_debt), reward_bps) <= spec_covered(
            balance,
            bad_debt,
        ),
        spec_capped_reward(spec_covered(balance, bad_debt), reward_bps) <= div_trunc(
            spec_covered(balance, bad_debt) * reward_bps,
            BPS_DENOM as int,
        ),
{
    let covered = spec_covered(balance, bad_debt);
    if covered > 0 {
        lemma_div_trunc_nonincreasing(covered * reward_bps, BPS_DENOM as int);
        let max_reward = div_trunc(covered * reward_bps, BPS_DENOM as int);
        if covered < max_reward {
            lemma_mul_left_inequality(covered, reward_bps, BPS_DENOM as int);
            lemma_div_trunc_ordered(covered * reward_bps, covered * (BPS_DENOM as int),
                BPS_DENOM as int);
            lemma_div_by_multiple(covered, BPS_DENOM as int);
            assert(covered * (BPS_DENOM as int) == (BPS_DENOM as int) * covered);
            assert(max_reward <= covered);
        }
    } else {
        lemma_div_trunc_nonincreasing(0, BPS_DENOM as int);
        assert(covered * reward_bps == 0) by (nonlinear_arith)
            requires
                covered == 0,
        ;
    }
}

} // verus!
