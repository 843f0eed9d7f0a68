use vstd::prelude::*;

verus! {

/// Every way a transition can be refused. A refused transition leaves the
/// market record exactly as it was.
#[derive(Debug, Clone, Copy, PartialEq, Eq, Structural)]
pub enum WybeTokenError {
    /// The caller is not the account allowed to perform the action.
    Unauthorized,
    /// A fee rate above the per-party ceiling.
    FeeTooHigh,
    /// A checked arithmetic step overflowed or divided by zero.
    MathOverflow,
    /// A purchase would cost more than the buyer's bound.
    PriceExceedsMaximum,
    /// A sale would yield less than the seller's bound.
    ProceedsBelowMinimum,
    /// The creator has no accumulated fees.
    NoRewardsToCollect,
    /// Too little time has passed since the previous claim.
    RewardsOnCooldown,
    /// The market cap is below the threshold for paying out fees.
    MarketCapTooLow,
}

impl WybeTokenError {
    /// The human-readable message for each error.
    pub open spec fn message_text(&self) -> Seq<char> {
        match self {
            WybeTokenError::Unauthorized => "You are not authorized to perform this action"@,
            WybeTokenError::FeeTooHigh => "Fee is too high"@,
            WybeTokenError::MathOverflow => "Arithmetic overflow/underflow"@,
            WybeTokenError::PriceExceedsMaximum => "Price exceeds maximum acceptable price"@,
            WybeTokenError::ProceedsBelowMinimum => "Proceeds below minimum acceptable amount"@,
            WybeTokenError::NoRewardsToCollect => "No rewards to collect"@,
            WybeTokenError::RewardsOnCooldown => "Rewards are on cooldown"@,
            WybeTokenError::MarketCapTooLow => "Market cap is too low to collect rewards"@,
        }
    }

    /// The human-readable message for this error.
    pub fn message(&self) -> (r: String)
        ensures
            r@ == self.message_text(),
    {
        match self {
            WybeTokenError::Unauthorized => String::from_str(
                "You are not authorized to perform this action",
            ),
            WybeTokenError::FeeTooHigh => String::from_str("Fee is too high"),
            WybeTokenError::MathOverflow => String::from_str("Arithmetic overflow/underflow"),
            WybeTokenError::PriceExceedsMaximum => String::from_str(
                "Price exceeds maximum acceptable price",
            ),
            WybeTokenError::ProceedsBelowMinimum => String::from_str(
                "Proceeds below minimum acceptable amount",
            ),
            WybeTokenError::NoRewardsToCollect => String::from_str("No rewards to collect"),
            WybeTokenError::RewardsOnCooldown => String::from_str("Rewards are on cooldown"),
            WybeTokenError::MarketCapTooLow => String::from_str(
                "Market cap is too low to collect rewards",
            ),
        }
    }
}

} // verus!
