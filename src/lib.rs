//! Token economics engine: fixed-price trading against a pooled reserve,
//! a creator/platform fee split, and a cooldown-gated reward claim.
//!
//! Every transition works on an exclusively owned [`TokenData`] record and
//! plain values (account keys, the current time); moving tokens or native
//! currency is left to the host, which performs it between the planning and
//! the committing steps that this crate exposes.

pub mod error;
pub mod key;
pub mod pricing;
pub mod fees;
pub mod state;
pub mod trade;
pub mod rewards;

pub use error::WybeTokenError;
pub use key::AccountKey;
pub use pricing::{calculate_buy_price, calculate_sell_price, unit_price, Side};
pub use fees::{calculate_fee_amount, calculate_market_cap, fee_shares};
pub use state::{initialize, mint_tokens, should_collect_fees, update_fee_settings, TokenData};
pub use trade::{buy_tokens, plan_trade, sell_tokens, TradeReceipt};
pub use rewards::{check_claim, claim_creator_rewards};



