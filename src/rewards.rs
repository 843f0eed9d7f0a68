use vstd::prelude::*;
use crate::error::WybeTokenError;
use crate::key::AccountKey;
use crate::pricing::Side;
use crate::state::TokenData;
use crate::trade::{committed, trade_plan};

verus! {

/// Whether the cooldown since the previous claim has run out at `now`. The
/// elapsed time must be representable; a record never claimed has no cooldown.
pub open spec fn cooldown_over(token_data: TokenData, now: i64) -> bool {
    token_data.last_reward_claim > 0 ==> now - token_data.last_reward_claim
        >= token_data.rewards_cooldown
}

/// The outcome of a claim by `caller` at time `now`: the amount owed to the
/// creator, or the first guard that fails, in a fixed order.
pub open spec fn claim_outcome(token_data: TokenData, caller: AccountKey, now: i64) -> Result<
    u64,
    WybeTokenError,
> {
    if caller.bytes@ != token_data.creator.bytes@ {
        Err(WybeTokenError::Unauthorized)
    } else if token_data.collected_creator_fees == 0 {
        Err(WybeTokenError::NoRewardsToCollect)
    } else if token_data.last_reward_claim > 0 && now - token_data.last_reward_claim < i64::MIN {
        Err(WybeTokenError::MathOverflow)
    } else if !cooldown_over(token_data, now) {
        Err(WybeTokenError::RewardsOnCooldown)
    } else if token_data.market_cap < token_data.min_market_cap_for_fees {
        Err(WybeTokenError::MarketCapTooLow)
    } else {
        Ok(token_data.collected_creator_fees)
    }
}

/// The record after a successful claim at `now`: the claim time is stored
/// and the accumulated fees are reset.
pub open spec fn claimed(token_data: TokenData, now: i64) -> TokenData {
    TokenData { last_reward_claim: now, collected_creator_fees: 0, ..token_data }
}

/// Runs every guard of a claim without changing anything and returns the
/// amount owed. A host calls this before paying the creator.
pub fn check_claim(token_data: &TokenData, caller: &AccountKey, now: i64) -> (r: Result<
    u64,
    WybeTokenError,
>)
    ensures
        r == claim_outcome(*token_data, *caller, now),
{
    if !caller.same_as(&token_data.creator) {
        return Err(WybeTokenError::Unauthorized);
    }
    if token_data.collected_creator_fees == 0 {
        return Err(WybeTokenError::NoRewardsToCollect);
    }
    if token_data.last_reward_claim > 0 {
        let elapsed = match now.checked_sub(token_data.last_reward_claim) {
            Some(e) => e,
            None => {
                return Err(WybeTokenError::MathOverflow);
            },
        };
        if elapsed < token_data.rewards_cooldown {
            return Err(WybeTokenError::RewardsOnCooldown);
        }
    }
    if token_data.market_cap < token_data.min_market_cap_for_fees {
        return Err(WybeTokenError::MarketCapTooLow);
    }
    Ok(token_data.collected_creator_fees)
}

/// The creator claims the accumulated fees at time `now`. On success the
/// amount is returned for payout and the record starts a new cooldown; on
/// failure nothing changes. A host pays out only after this succeeds, inside
/// the same atomic transition.
pub fn claim_creator_rewards(token_data: &mut TokenData, caller: &AccountKey, now: i64) -> (r:
    Result<u64, WybeTokenError>)
    ensures
        r == claim_outcome(*old(token_data), *caller, now),
        r is Ok ==> *final(token_data) == claimed(*old(token_data), now),
        r is Err ==> *final(token_data) == *old(token_data),
        old(token_data).wf() ==> final(token_data).wf(),
{
    let reward_amount = match check_claim(token_data, caller, now) {
        Ok(amount) => amount,
        Err(e) => {
            return Err(e);
        },
    };
    token_data.last_reward_claim = now;
    token_data.collected_creator_fees = 0;
    Ok(reward_amount)
}

/// Claiming again right after a successful claim is refused: nothing is left
/// to collect.
pub proof fn lemma_immediate_repeat_claim_refused(
    token_data: TokenData,
    caller: AccountKey,
    now: i64,
)
    requires
        claim_outcome(token_data, caller, now) is Ok,
    ensures
        claim_outcome(claimed(token_data, now), caller, now) == Err::<u64, WybeTokenError>(
            WybeTokenError::NoRewardsToCollect,
        ),
{
}

/// After a successful claim at a positive time with a positive cooldown, a
/// second claim at the same time is refused with `RewardsOnCooldown`, even
/// when fees have accrued in between (`between` is any later record that
/// keeps the creator, the claim time and the cooldown, as trades do).
pub proof fn lemma_repeat_claim_on_cooldown(
    token_data: TokenData,
    between: TokenData,
    caller: AccountKey,
    now: i64,
)
    requires
        claim_outcome(token_data, caller, now) is Ok,
        now > 0,
        token_data.rewards_cooldown > 0,
        between.creator == token_data.creator,
        between.rewards_cooldown == token_data.rewards_cooldown,
        between.last_reward_claim == claimed(token_data, now).last_reward_claim,
        between.collected_creator_fees > 0,
    ensures
        claim_outcome(between, caller, now) == Err::<u64, WybeTokenError>(
            WybeTokenError::RewardsOnCooldown,
        ),
{
}

/// Claim, then a trade at the same instant that leaves fees to collect,
/// then a second claim at that instant: the second claim is refused with
/// `RewardsOnCooldown` when the time and the cooldown are positive.
pub proof fn lemma_claim_trade_claim_on_cooldown(
    token_data: TokenData,
    caller: AccountKey,
    now: i64,
    side: Side,
    amount: u64,
    limit: u64,
)
    requires
        claim_outcome(token_data, caller, now) is Ok,
        now > 0,
        token_data.rewards_cooldown > 0,
        trade_plan(claimed(token_data, now), side, amount, limit) is Ok,
        trade_plan(claimed(token_data, now), side, amount, limit)->Ok_0.collected_creator_fees > 0,
    ensures
        claim_outcome(
            committed(
                claimed(token_data, now),
                trade_plan(claimed(token_data, now), side, amount, limit)->Ok_0,
            ),
            caller,
            now,
        ) == Err::<u64, WybeTokenError>(WybeTokenError::RewardsOnCooldown),
{
    let receipt = trade_plan(claimed(token_data, now), side, amount, limit)->Ok_0;
    lemma_repeat_claim_on_cooldown(
        token_data,
        committed(claimed(token_data, now), receipt),
        caller,
        now,
    );
}

/// The creator's claim with nothing accumulated is refused with
/// `NoRewardsToCollect`, whatever the cooldown, time and market cap.
pub proof fn lemma_claim_without_rewards_refused(
    token_data: TokenData,
    caller: AccountKey,
    now: i64,
)
    requires
        caller.bytes@ == token_data.creator.bytes@,
        token_data.collected_creator_fees == 0,
    ensures
        claim_outcome(token_data, caller, now) == Err::<u64, WybeTokenError>(
            WybeTokenError::NoRewardsToCollect,
        ),
{
}

/// A claim by anyone but the stored creator is refused with `Unauthorized`,
/// whatever the other guards would say.
pub proof fn lemma_claim_by_stranger_refused(token_data: TokenData, caller: AccountKey, now: i64)
    requires
        caller.bytes@ != token_data.creator.bytes@,
    ensures
        claim_outcome(token_data, caller, now) == Err::<u64, WybeTokenError>(
            WybeTokenError::Unauthorized,
        ),
{
}

} // verus!
