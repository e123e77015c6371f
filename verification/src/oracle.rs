//! The price-oracle adapter: the sole trust boundary for external price data.
//!
//! A Pyth price account is parsed (trusted call) into a plain
//! [`PriceSample`]; everything after that — staleness, positivity and
//! confidence policy, and rescaling to the engine's fixed price precision —
//! is verified code with an exact contract.

use vstd::prelude::*;
use vstd::arithmetic::div_mod::{lemma_div_denominator, lemma_div_pos_is_pos};
use vstd::arithmetic::mul::lemma_mul_is_associative;

use pyth_sdk_solana::state::{load_price_account, PriceStatus};

use crate::math::{div_trunc, div_trunc_i128};
use crate::state::OracleConfig;
use crate::ErrorCode;

verus! {

/// The exponent of the engine's fixed price precision (10^6 means -6).
pub const TARGET_EXPONENT: i32 = -6;

/// One price reading, as the feed reports it: `price * 10^expo` with a
/// confidence interval of `conf * 10^expo`, published at `publish_time`.
#[derive(Clone, Copy, Debug, PartialEq, Eq)]
pub struct PriceSample {
    pub price: i64,
    pub conf: u64,
    pub expo: i32,
    pub publish_time: i64,
}

/// The current sample of the Pyth price feed held in the given account
/// bytes, or `None` where the bytes do not parse as a price account. The
/// sample is a function of the bytes alone.
pub uninterp spec fn pyth_feed_sample(data: Seq<u8>) -> Option<(i64, u64, i32, i64)>;

/// Byte length of a Solana Pyth price account with its 32 publisher slots
/// (`pyth_sdk_solana::state::SolanaPriceAccount`).
const PYTH_ACCOUNT_LEN: usize = 3312;

/// Relies on `pyth_sdk_solana::state::load_price_account`: parses a Pyth
/// price account from its raw bytes, rejecting a short buffer, a wrong magic
/// number, version or account type. The parse is total: the bytes are first
/// copied into an 8-byte-aligned buffer (`bytemuck::from_bytes`, which the
/// parse uses, panics on a misaligned slice), and the three enum-typed bytes
/// the account layout carries at offsets 16 (price type), 224 (aggregate
/// status) and 225 (corporate action) are range-checked so the parse never
/// materialises an invalid enum value. The sample fields are then read as
/// `pyth_sdk_solana::state::GenericPriceAccount::to_price_feed` reads them:
/// the current aggregate when its status is `Trading`, otherwise the previous
/// trading-status values; either way a pure function of the bytes.
#[verifier::external_body]
fn load_price_sample(data: &[u8]) -> (r: Result<PriceSample, ErrorCode>)
    ensures
        match r {
            Ok(s) => pyth_feed_sample(data@) == Some((s.price, s.conf, s.expo, s.publish_time)),
            Err(e) => e == ErrorCode::InvalidOracleAccount && pyth_feed_sample(data@) is None,
        },
{
    if data.len() < PYTH_ACCOUNT_LEN || data[16] > 1 || data[224] > 4 || data[225] > 0 {
        return Err(ErrorCode::InvalidOracleAccount);
    }
    let mut buf = vec![0u64; PYTH_ACCOUNT_LEN / 8];
    bytemuck::cast_slice_mut::<u64, u8>(&mut buf).copy_from_slice(&data[..PYTH_ACCOUNT_LEN]);
    let acct = match load_price_account::<32, ()>(bytemuck::cast_slice(&buf)) {
        Ok(a) => a,
        Err(_) => return Err(ErrorCode::InvalidOracleAccount),
    };
    let (price, conf, publish_time) = match acct.agg.status {
        PriceStatus::Trading => (acct.agg.price, acct.agg.conf, acct.timestamp),
        _ => (acct.prev_price, acct.prev_conf, acct.prev_timestamp),
    };
    Ok(PriceSample { price, conf, expo: acct.expo, publish_time })
}

/// Ten to the `k`.
pub open spec fn pow10(k: nat) -> int
    decreases k,
{
    if k == 0 {
        1
    } else {
        10 * pow10((k - 1) as nat)
    }
}

pub proof fn lemma_pow10_pos(k: nat)
    ensures
        pow10(k) >= 1,
        k >= 1 ==> pow10(k) >= 10,
    decreases k,
{
    if k > 0 {
        lemma_pow10_pos((k - 1) as nat);
    }
}

pub proof fn lemma_pow10_adds(m: nat, n: nat)
    ensures
        pow10(m + n) == pow10(m) * pow10(n),
    decreases m,
{
    if m == 0 {
        assert(pow10(0) == 1);
    } else {
        lemma_pow10_adds((m - 1) as nat, n);
        assert(pow10((m - 1) as nat + n + 1) == 10 * pow10((m - 1) as nat + n));
        assert(10 * (pow10((m - 1) as nat) * pow10(n)) == (10 * pow10((m - 1) as nat)) * pow10(
            n,
        )) by {
            lemma_mul_is_associative(10, pow10((m - 1) as nat), pow10(n));
        }
    }
}

/// Composing two truncating divisions divides by the product.
pub proof fn lemma_div_trunc_compose(x: int, a: int, b: int)
    requires
        a >= 1,
        b >= 1,
    ensures
        div_trunc(div_trunc(x, a), b) == div_trunc(x, a * b),
{
    if x >= 0 {
        lemma_div_pos_is_pos(x, a);
        lemma_div_denominator(x, a, b);
    } else {
        lemma_div_pos_is_pos(-x, a);
        lemma_div_denominator(-x, a, b);
    }
}

/// A feed value `price * 10^expo` rescaled to the engine's `10^-6` precision:
/// divided (truncating toward zero) when the feed is finer, multiplied when
/// it is coarser.
pub open spec fn spec_scaled_price(price: int, expo: int) -> int {
    let delta = TARGET_EXPONENT as int - expo;
    if delta >= 0 {
        div_trunc(price, pow10(delta as nat))
    } else {
        price * pow10((-delta) as nat)
    }
}

/// Whether the rescaled value is representable as an engine price.
pub open spec fn spec_scaled_price_fits(price: int, expo: int) -> bool {
    let scaled = spec_scaled_price(price, expo);
    i128::MIN <= scaled <= i128::MAX && 0 <= scaled <= u64::MAX
}

/// Rescales a feed value from its native exponent to the engine's fixed
/// price precision, failing rather than wrapping where the value cannot be
/// represented.
pub fn scale_price_to_precision(price: i64, expo: i32) -> (r: Result<u64, ErrorCode>)
    ensures
        match r {
            Ok(v) => spec_scaled_price_fits(price as int, expo as int) && v == spec_scaled_price(
                price as int,
                expo as int,
            ),
            Err(e) => e == ErrorCode::ArithmeticOverflow && !spec_scaled_price_fits(
                price as int,
                expo as int,
            ),
        },
{
    let delta: i64 = (TARGET_EXPONENT as i64) - (expo as i64);
    let mut v: i128 = price as i128;
    if delta >= 0 {
        let k: u64 = delta as u64;
        let mut i: u64 = 0;
        proof {
            assert(pow10(0) == 1);
        }
        while i < k
            invariant
                i <= k,
                k as int == TARGET_EXPONENT as int - expo as int,
                v == div_trunc(price as int, pow10(i as nat)),
            decreases k - i,
        {
            proof {
                lemma_pow10_pos(i as nat);
                lemma_div_trunc_compose(price as int, pow10(i as nat), 10);
                assert(pow10(i as nat) * 10 == 10 * pow10(i as nat));
                assert(pow10(i as nat + 1) == 10 * pow10(i as nat));
            }
            v = div_trunc_i128(v, 10);
            i = i + 1;
        }
    } else {
        let k: u64 = (-delta) as u64;
        let mut i: u64 = 0;
        proof {
            assert(pow10(0) == 1);
        }
        while i < k
            invariant
                i <= k,
                k as int == -(TARGET_EXPONENT as int - expo as int),
                expo as int > TARGET_EXPONENT as int,
                v == (price as int) * pow10(i as nat),
            decreases k - i,
        {
            let next = match v.checked_mul(10) {
                Some(w) => w,
                None => {
                    proof {
                        lemma_overflow_propagates(price as int, v as int, i as nat, k as nat);
                        assert(spec_scaled_price(price as int, expo as int) == (price as int)
                            * pow10(k as nat));
                    }
                    return Err(ErrorCode::ArithmeticOverflow);
                },
            };
            proof {
                assert((price as int) * pow10(i as nat) * 10 == (price as int) * pow10(
                    i as nat + 1,
                )) by {
                    lemma_mul_is_associative(price as int, pow10(i as nat), 10);
                    assert(pow10(i as nat) * 10 == 10 * pow10(i as nat));
                }
            }
            v = next;
            i = i + 1;
        }
    }
    if v < 0 || v > u64::MAX as i128 {
        return Err(ErrorCode::ArithmeticOverflow);
    }
    Ok(v as u64)
}

/// Once one doubling-by-ten overflows `i128`, the full product is out of
/// range as well.
proof fn lemma_overflow_propagates(price: int, v: int, i: nat, k: nat)
    requires
        i < k,
        v == price * pow10(i),
        v * 10 > i128::MAX || v * 10 < i128::MIN,
    ensures
        price * pow10(k) > i128::MAX || price * pow10(k) < i128::MIN,
{
    let rest = (k - i) as nat;
    lemma_pow10_pos(rest);
    lemma_pow10_adds(i, rest);
    assert(price * (pow10(i) * pow10(rest)) == (price * pow10(i)) * pow10(rest)) by {
        lemma_mul_is_associative(price, pow10(i), pow10(rest));
    }
    assert(v * pow10(rest) > i128::MAX || v * pow10(rest) < i128::MIN) by (nonlinear_arith)
        requires
            pow10(rest) >= 10,
            v * 10 > i128::MAX || v * 10 < i128::MIN,
    ;
}

/// The oracle acceptance policy applied to one sample at time `now`:
/// reject stale samples, non-positive prices, and confidence intervals at or
/// above `price / max_conf_factor`; otherwise rescale, failing on overflow.
pub open spec fn spec_oracle_price(
    price: int,
    conf: int,
    expo: int,
    publish_time: int,
    now: int,
    cfg: OracleConfig,
) -> Result<u64, ErrorCode> {
    let age = if publish_time >= now {
        publish_time - now
    } else {
        now - publish_time
    };
    if age > cfg.max_staleness {
        Err(ErrorCode::StaleOraclePrice)
    } else if price <= 0 {
        Err(ErrorCode::InvalidOraclePrice)
    } else if conf >= div_trunc(price, cfg.max_conf_factor as int) {
        Err(ErrorCode::OracleConfidenceTooHigh)
    } else if spec_scaled_price_fits(price, expo) {
        Ok(spec_scaled_price(price, expo) as u64)
    } else {
        Err(ErrorCode::ArithmeticOverflow)
    }
}

/// Validates one price sample against the acceptance policy and rescales it
/// to the engine's fixed price precision.
pub fn oracle_price_from_sample(sample: &PriceSample, now: i64, cfg: &OracleConfig) -> (r: Result<
    u64,
    ErrorCode,
>)
    requires
        cfg.wf(),
    ensures
        r == spec_oracle_price(
            sample.price as int,
            sample.conf as int,
            sample.expo as int,
            sample.publish_time as int,
            now as int,
            *cfg,
        ),
{
    let diff: i128 = (sample.publish_time as i128) - (now as i128);
    let age: i128 = if diff >= 0 {
        diff
    } else {
        -diff
    };
    if age > cfg.max_staleness as i128 {
        return Err(ErrorCode::StaleOraclePrice);
    }
    if sample.price <= 0 {
        return Err(ErrorCode::InvalidOraclePrice);
    }
    let conf_bound: i128 = div_trunc_i128(sample.price as i128, cfg.max_conf_factor as i128);
    if sample.conf as i128 >= conf_bound {
        return Err(ErrorCode::OracleConfidenceTooHigh);
    }
    scale_price_to_precision(sample.price, sample.expo)
}

/// The price the adapter hands the engine for the given account bytes at
/// time `now`: the parsed sample run through the acceptance policy.
pub open spec fn spec_feed_price(data: Seq<u8>, now: int, cfg: OracleConfig) -> Result<
    u64,
    ErrorCode,
> {
    match pyth_feed_sample(data) {
        None => Err(ErrorCode::InvalidOracleAccount),
        Some((price, conf, expo, publish_time)) => spec_oracle_price(
            price as int,
            conf as int,
            expo as int,
            publish_time as int,
            now,
            cfg,
        ),
    }
}

/// Parses a Pyth price account and applies the oracle acceptance policy: the
/// one entry point through which external price data reaches the engine.
pub fn get_oracle_price(oracle_data: &[u8], now: i64, cfg: &OracleConfig) -> (r: Result<
    u64,
    ErrorCode,
>)
    requires
        cfg.wf(),
    ensures
        r == spec_feed_price(oracle_data@, now as int, *cfg),
{
    let sample = match load_price_sample(oracle_data) {
        Ok(s) => s,
        Err(e) => {
            return Err(e);
        },
    };
    oracle_price_from_sample(&sample, now, cfg)
}

} // verus!
