use vstd::prelude::*;
use crate::error::WybeTokenError;
use crate::fees::{calculate_market_cap, fee_shares, fee_split, market_cap_of};
use crate::pricing::{price_for, unit_price, Side};
use crate::state::{should_collect_fees, TokenData};

verus! {

/// What a validated trade does: the tokens and value that change hands, the
/// fees it raises, and the record's new derived values.
#[derive(Debug, Clone, Copy, PartialEq, Eq, Structural)]
pub struct TradeReceipt {
    pub side: Side,
    pub amount: u64,
    pub price_per_token: u64,
    /// Cost of a purchase, or proceeds of a sale.
    pub total_value: u64,
    /// Creator fee on this trade; zero when fees are not collected.
    pub creator_fee: u64,
    /// Platform fee on this trade; zero when fees are not collected.
    pub platform_fee: u64,
    /// The creator's accumulated fees once the trade is committed.
    pub collected_creator_fees: u64,
    /// The market cap once the trade is committed.
    pub market_cap: u64,
}

/// Whether a trade's total value violates the trader's slippage bound.
pub open spec fn outside_bound(side: Side, total_value: u64, limit: u64) -> bool {
    match side {
        Side::Buy => total_value > limit,
        Side::Sell => total_value < limit,
    }
}

pub open spec fn bound_error(side: Side) -> WybeTokenError {
    match side {
        Side::Buy => WybeTokenError::PriceExceedsMaximum,
        Side::Sell => WybeTokenError::ProceedsBelowMinimum,
    }
}

/// The result of trading `amount` tokens on `side` against `token_data`, with
/// `limit` the maximum cost of a purchase or the minimum proceeds of a sale.
/// Checks come in order: the total value must fit in 64 bits, then the bound
/// must hold; when the fee gate is open the split uses the sum of the two
/// rates as its denominator and the creator's share is added with a check.
pub open spec fn trade_plan(token_data: TokenData, side: Side, amount: u64, limit: u64) -> Result<
    TradeReceipt,
    WybeTokenError,
> {
    let price = price_for(token_data.total_supply, amount, side);
    let cap = market_cap_of(token_data.total_supply, price);
    if price * amount > u64::MAX {
        Err(WybeTokenError::MathOverflow)
    } else if outside_bound(side, (price * amount) as u64, limit) {
        Err(bound_error(side))
    } else if !token_data.fee_eligible() {
        Ok(
            TradeReceipt {
                side,
                amount,
                price_per_token: price,
                total_value: (price * amount) as u64,
                creator_fee: 0,
                platform_fee: 0,
                collected_creator_fees: token_data.collected_creator_fees,
                market_cap: cap,
            },
        )
    } else {
        match fee_split(
            (price * amount) as u64,
            token_data.creator_fee_basis_points,
            token_data.platform_fee_basis_points,
            (token_data.creator_fee_basis_points + token_data.platform_fee_basis_points) as u64,
        ) {
            Err(e) => Err(e),
            Ok((c, p)) => if token_data.collected_creator_fees + c > u64::MAX {
                Err(WybeTokenError::MathOverflow)
            } else {
                Ok(
                    TradeReceipt {
                        side,
                        amount,
                        price_per_token: price,
                        total_value: (price * amount) as u64,
                        creator_fee: c,
                        platform_fee: p,
                        collected_creator_fees: (token_data.collected_creator_fees + c) as u64,
                        market_cap: cap,
                    },
                )
            },
        }
    }
}

/// The record after a trade described by `receipt` is committed: only the
/// market cap and the creator's accumulated fees change.
pub open spec fn committed(token_data: TokenData, receipt: TradeReceipt) -> TokenData {
    TokenData {
        market_cap: receipt.market_cap,
        collected_creator_fees: receipt.collected_creator_fees,
        ..token_data
    }
}

/// Validates a trade and computes its effects without changing anything.
/// A host calls this before moving any asset.
pub fn plan_trade(token_data: &TokenData, side: Side, amount: u64, limit: u64) -> (r: Result<
    TradeReceipt,
    WybeTokenError,
>)
    ensures
        r == trade_plan(*token_data, side, amount, limit),
{
    let price = unit_price(token_data.total_supply, amount, side);
    let total_value = match price.checked_mul(amount) {
        Some(v) => v,
        None => {
            return Err(WybeTokenError::MathOverflow);
        },
    };
    let refused = match side {
        Side::Buy => total_value > limit,
        Side::Sell => total_value < limit,
    };
    if refused {
        return match side {
            Side::Buy => Err(WybeTokenError::PriceExceedsMaximum),
            Side::Sell => Err(WybeTokenError::ProceedsBelowMinimum),
        };
    }
    let market_cap = calculate_market_cap(token_data.total_supply, price);
    if !should_collect_fees(token_data) {
        return Ok(
            TradeReceipt {
                side,
                amount,
                price_per_token: price,
                total_value,
                creator_fee: 0,
                platform_fee: 0,
                collected_creator_fees: token_data.collected_creator_fees,
                market_cap,
            },
        );
    }
    let denominator: u64 = token_data.creator_fee_basis_points as u64
        + token_data.platform_fee_basis_points as u64;
    let (creator_fee, platform_fee) = match fee_shares(
        total_value,
        token_data.creator_fee_basis_points,
        token_data.platform_fee_basis_points,
        denominator,
    ) {
        Ok(split) => split,
        Err(e) => {
            return Err(e);
        },
    };
    let collected = match token_data.collected_creator_fees.checked_add(creator_fee) {
        Some(v) => v,
        None => {
            return Err(WybeTokenError::MathOverflow);
        },
    };
    Ok(
        TradeReceipt {
            side,
            amount,
            price_per_token: price,
            total_value,
            creator_fee,
            platform_fee,
            collected_creator_fees: collected,
            market_cap,
        },
    )
}

fn execute_trade(token_data: &mut TokenData, side: Side, amount: u64, limit: u64) -> (r: Result<
    TradeReceipt,
    WybeTokenError,
>)
    ensures
        r == trade_plan(*old(token_data), side, amount, limit),
        r matches Ok(receipt) ==> *final(token_data) == committed(*old(token_data), receipt),
        r is Err ==> *final(token_data) == *old(token_data),
{
    let receipt = match plan_trade(token_data, side, amount, limit) {
        Ok(receipt) => receipt,
        Err(e) => {
            return Err(e);
        },
    };
    token_data.market_cap = receipt.market_cap;
    token_data.collected_creator_fees = receipt.collected_creator_fees;
    Ok(receipt)
}

/// Buys `amount` tokens for at most `max_price` in total, committing the
/// fee bookkeeping and the new market cap. All or nothing.
pub fn buy_tokens(token_data: &mut TokenData, amount: u64, max_price: u64) -> (r: Result<
    TradeReceipt,
    WybeTokenError,
>)
    ensures
        r == trade_plan(*old(token_data), Side::Buy, amount, max_price),
        r matches Ok(receipt) ==> *final(token_data) == committed(*old(token_data), receipt),
        r is Err ==> *final(token_data) == *old(token_data),
        old(token_data).wf() ==> final(token_data).wf(),
{
    execute_trade(token_data, Side::Buy, amount, max_price)
}

/// Sells `amount` tokens for at least `min_proceeds` in total, committing the
/// fee bookkeeping and the new market cap. All or nothing.
pub fn sell_tokens(token_data: &mut TokenData, amount: u64, min_proceeds: u64) -> (r: Result<
    TradeReceipt,
    WybeTokenError,
>)
    ensures
        r == trade_plan(*old(token_data), Side::Sell, amount, min_proceeds),
        r matches Ok(receipt) ==> *final(token_data) == committed(*old(token_data), receipt),
        r is Err ==> *final(token_data) == *old(token_data),
        old(token_data).wf() ==> final(token_data).wf(),
{
    execute_trade(token_data, Side::Sell, amount, min_proceeds)
}

/// A purchase whose total cost (representable in 64 bits) exceeds the
/// buyer's maximum is refused with `PriceExceedsMaximum`; by the contract of
/// `buy_tokens` the record is then left unchanged.
pub proof fn lemma_buy_rejects_above_maximum(
    token_data: TokenData,
    amount: u64,
    max_total_cost: u64,
)
    requires
        amount * price_for(token_data.total_supply, amount, Side::Buy) > max_total_cost,
        amount * price_for(token_data.total_supply, amount, Side::Buy) <= u64::MAX,
    ensures
        trade_plan(token_data, Side::Buy, amount, max_total_cost) == Err::<
            TradeReceipt,
            WybeTokenError,
        >(WybeTokenError::PriceExceedsMaximum),
{    let price = price_for(token_data.total_supply, amount, Side::Buy);
    assert(amount * price == price * amount) by (nonlinear_arith);
}

/// A sale whose total proceeds (representable in 64 bits) fall below the
/// seller's minimum is refused with `ProceedsBelowMinimum`; by the contract of
/// `sell_tokens` the record is then left unchanged.
pub proof fn lemma_sell_rejects_below_minimum(
    token_data: TokenData,
    amount: u64,
    min_total_proceeds: u64,
)
    requires
        amount * price_for(token_data.total_supply, amount, Side::Sell) < min_total_proceeds,
        amount * price_for(token_data.total_supply, amount, Side::Sell) <= u64::MAX,
    ensures
        trade_plan(token_data, Side::Sell, amount, min_total_proceeds) == Err::<
            TradeReceipt,
            WybeTokenError,
        >(WybeTokenError::ProceedsBelowMinimum),
{    let price = price_for(token_data.total_supply, amount, Side::Sell);
    assert(amount * price == price * amount) by (nonlinear_arith);
}

/// A committed trade only ever raises the creator's accumulated fees, and
/// raises them only when the fee gate was open.
pub proof fn lemma_trade_fees_monotone(token_data: TokenData, side: Side, amount: u64, limit: u64)
    ensures
        trade_plan(token_data, side, amount, limit) matches Ok(receipt) ==> {
            &&& receipt.collected_creator_fees >= token_data.collected_creator_fees
            &&& !token_data.fee_eligible() ==> receipt.collected_creator_fees
                == token_data.collected_creator_fees
        },
{
}

} // verus!
