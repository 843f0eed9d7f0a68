use vstd::prelude::*;

verus! {

/// Price of one token when buying from the pool, in lamports.
pub const BUY_PRICE: u64 = 1_000_000;

/// Price of one token when selling to the pool, in lamports. Below the buy
/// price: the difference is the pool's spread.
pub const SELL_PRICE: u64 = 900_000;

/// Direction of a trade, seen from the trader.
#[derive(Debug, Clone, Copy, PartialEq, Eq, Structural)]
pub enum Side {
    Buy,
    Sell,
}

/// Unit price when buying `amount` tokens at `current_supply`. The curve is
/// flat for now; callers only rely on this function, never on the constant.
pub open spec fn buy_price(current_supply: u64, amount: u64) -> u64 {
    BUY_PRICE
}

/// Unit price when selling `amount` tokens at `current_supply`.
pub open spec fn sell_price(current_supply: u64, amount: u64) -> u64 {
    SELL_PRICE
}

pub open spec fn price_for(current_supply: u64, trade_amount: u64, side: Side) -> u64 {
    match side {
        Side::Buy => buy_price(current_supply, trade_amount),
        Side::Sell => sell_price(current_supply, trade_amount),
    }
}

pub fn calculate_buy_price(current_supply: u64, amount: u64) -> (r: u64)
    ensures
        r == buy_price(current_supply, amount),
{
    BUY_PRICE
}

pub fn calculate_sell_price(current_supply: u64, amount: u64) -> (r: u64)
    ensures
        r == sell_price(current_supply, amount),
{
    SELL_PRICE
}

/// The single pricing entry point: total for every input, never fails.
pub fn unit_price(current_supply: u64, trade_amount: u64, side: Side) -> (r: u64)
    ensures
        r == price_for(current_supply, trade_amount, side),
{
    match side {
        Side::Buy => calculate_buy_price(current_supply, trade_amount),
        Side::Sell => calculate_sell_price(current_supply, trade_amount),
    }
}

/// The spread: buying never costs less per token than selling yields.
pub proof fn lemma_buy_price_covers_sell_price(current_supply: u64, amount: u64)
    ensures
        buy_price(current_supply, amount) >= sell_price(current_supply, amount),
{
}

} // verus!
