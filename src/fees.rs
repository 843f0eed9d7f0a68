use vstd::prelude::*;
use crate::error::WybeTokenError;

verus! {

/// The flat total fee rate, in percent of a trade's value.
pub const TOTAL_FEE_PERCENT: u64 = 5;

/// `a * b`, clamped to `u64::MAX`.
pub open spec fn saturating_product(a: u64, b: u64) -> u64 {
    if a * b > u64::MAX {
        u64::MAX
    } else {
        (a * b) as u64
    }
}

/// The total fee charged on a trade worth `amount`: five percent, rounded
/// down. Never more than `amount`, so it always fits.
pub open spec fn fee_amount(amount: u64) -> u64 {
    (amount * TOTAL_FEE_PERCENT / 100) as u64
}

/// Market cap: supply times unit price, saturating.
pub open spec fn market_cap_of(total_supply: u64, price_per_token: u64) -> u64 {
    saturating_product(total_supply, price_per_token)
}

/// The share of `total_fee` that belongs to a party with rate `bps`, when the
/// rates sum to `denominator`; computed in unbounded integers.
pub open spec fn share_of(total_fee: u64, bps: u16, denominator: u64) -> int {
    (total_fee * bps) / (denominator as int)
}

/// The creator's and the platform's fee on a trade worth `trade_value`, or
/// `MathOverflow` when the denominator is zero or a share does not fit.
pub open spec fn fee_split(
    trade_value: u64,
    creator_bps: u16,
    platform_bps: u16,
    denominator: u64,
) -> Result<(u64, u64), WybeTokenError> {
    let total = fee_amount(trade_value);
    if denominator == 0 {
        Err(WybeTokenError::MathOverflow)
    } else if share_of(total, creator_bps, denominator) > u64::MAX || share_of(
        total,
        platform_bps,
        denominator,
    ) > u64::MAX {
        Err(WybeTokenError::MathOverflow)
    } else {
        Ok(
            (
                share_of(total, creator_bps, denominator) as u64,
                share_of(total, platform_bps, denominator) as u64,
            ),
        )
    }
}

fn saturating_mul(a: u64, b: u64) -> (r: u64)
    ensures
        r == saturating_product(a, b),
{
    match a.checked_mul(b) {
        Some(p) => p,
        None => u64::MAX,
    }
}

pub fn calculate_fee_amount(amount: u64) -> (r: u64)
    ensures
        r == fee_amount(amount),
        r <= amount,
{
    // Widened so that the product cannot overflow for any amount.
    assert((amount as u128) * (TOTAL_FEE_PERCENT as u128) <= u64::MAX * 5) by (nonlinear_arith)
        requires
            amount <= u64::MAX,
            TOTAL_FEE_PERCENT == 5,
    ;
    let wide: u128 = (amount as u128) * (TOTAL_FEE_PERCENT as u128) / 100;
    assert(amount * TOTAL_FEE_PERCENT / 100 <= amount) by (nonlinear_arith)
        requires
            TOTAL_FEE_PERCENT == 5,
            amount >= 0,
    ;
    wide as u64
}

pub fn calculate_market_cap(total_supply: u64, price_per_token: u64) -> (r: u64)
    ensures
        r == market_cap_of(total_supply, price_per_token),
{
    saturating_mul(total_supply, price_per_token)
}

/// One party's share, widened to 128 bits before narrowing back.
fn share(total_fee: u64, bps: u16, denominator: u64) -> (r: Option<u64>)
    requires
        denominator > 0,
    ensures
        r == (if share_of(total_fee, bps, denominator) <= u64::MAX {
            Some(share_of(total_fee, bps, denominator) as u64)
        } else {
            None
        }),
{
    assert((total_fee as u128) * (bps as u128) <= u64::MAX * 0xffff) by (nonlinear_arith)
        requires
            total_fee <= u64::MAX,
            bps <= 0xffff,
    ;
    let wide: u128 = (total_fee as u128) * (bps as u128);
    let q: u128 = wide / (denominator as u128);
    if q <= u64::MAX as u128 {
        Some(q as u64)
    } else {
        None
    }
}

/// Splits the total fee on `trade_value` between creator and platform in the
/// ratio `creator_bps : platform_bps`, dividing by `total_bps_denominator`.
pub fn fee_shares(
    trade_value: u64,
    creator_bps: u16,
    platform_bps: u16,
    total_bps_denominator: u64,
) -> (r: Result<(u64, u64), WybeTokenError>)
    ensures
        r == fee_split(trade_value, creator_bps, platform_bps, total_bps_denominator),
{
    if total_bps_denominator == 0 {
        return Err(WybeTokenError::MathOverflow);
    }
    let total = calculate_fee_amount(trade_value);
    let creator_fee = match share(total, creator_bps, total_bps_denominator) {
        Some(f) => f,
        None => {
            return Err(WybeTokenError::MathOverflow);
        },
    };
    let platform_fee = match share(total, platform_bps, total_bps_denominator) {
        Some(f) => f,
        None => {
            return Err(WybeTokenError::MathOverflow);
        },
    };
    Ok((creator_fee, platform_fee))
}

/// When the two rates are within the ceiling and the denominator is their
/// sum, the split always succeeds and the two shares together never exceed
/// the total fee: rounding loss stays with the protocol.
pub proof fn lemma_fee_split_within_total(trade_value: u64, creator_bps: u16, platform_bps: u16)
    requires
        creator_bps <= crate::state::MAX_FEE_BASIS_POINTS,
        platform_bps <= crate::state::MAX_FEE_BASIS_POINTS,
        creator_bps + platform_bps > 0,
    ensures
        fee_split(trade_value, creator_bps, platform_bps, (creator_bps + platform_bps) as u64) is Ok,
        ({
            let (c, p) = fee_split(
                trade_value,
                creator_bps,
                platform_bps,
                (creator_bps + platform_bps) as u64,
            )->Ok_0;
            c + p <= fee_amount(trade_value)
        }),
{
    let t = fee_amount(trade_value) as int;
    let x = creator_bps as int;
    let y = platform_bps as int;
    let d = x + y;
    let c = (t * x) / d;
    let p = (t * y) / d;
    assert(c * d <= t * x) by (nonlinear_arith)
        requires
            d > 0,
            c == (t * x) / d,
    ;
    assert(p * d <= t * y) by (nonlinear_arith)
        requires
            d > 0,
            p == (t * y) / d,
    ;
    assert(c + p <= t) by (nonlinear_arith)
        requires
            d > 0,
            d == x + y,
            c * d <= t * x,
            p * d <= t * y,
    ;
    assert(c >= 0 && p >= 0) by (nonlinear_arith)
        requires
            d > 0,
            t >= 0,
            x >= 0,
            y >= 0,
            c == (t * x) / d,
            p == (t * y) / d,
    ;
}

} // verus!
