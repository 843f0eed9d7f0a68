use vstd::prelude::*;
use crate::error::WybeTokenError;
use crate::key::AccountKey;

verus! {

/// Ceiling on each party's fee rate, in basis points.
pub const MAX_FEE_BASIS_POINTS: u16 = 500;

/// Creator fee rate of a new market, in basis points.
pub const DEFAULT_CREATOR_FEE_BASIS_POINTS: u16 = 200;

/// Platform fee rate of a new market, in basis points.
pub const DEFAULT_PLATFORM_FEE_BASIS_POINTS: u16 = 300;

/// Market cap from which trades pay fees and rewards can be claimed.
pub const DEFAULT_MIN_MARKET_CAP_FOR_FEES: u64 = 50000;

/// Age, in seconds, configured for fee collection (48 hours).
pub const DEFAULT_MIN_TIME_FOR_FEES: i64 = 172800;

/// Seconds between two reward claims (7 days).
pub const DEFAULT_REWARDS_COOLDOWN: i64 = 604800;

/// The persisted record of one token's market.
pub struct TokenData {
    pub mint: AccountKey,
    pub name: String,
    pub symbol: String,
    pub decimals: u8,
    pub creator: AccountKey,
    pub total_supply: u64,
    /// Derived: recomputed from supply and unit price after every trade.
    pub market_cap: u64,
    pub created_at: i64,
    pub creator_fee_basis_points: u16,
    pub platform_fee_basis_points: u16,
    pub creator_fee_account: AccountKey,
    pub platform_fee_account: AccountKey,
    pub min_market_cap_for_fees: u64,
    pub min_time_for_fees: i64,
    pub rewards_cooldown: i64,
    /// Unix time of the last successful claim; 0 means never claimed.
    pub last_reward_claim: i64,
    pub collected_creator_fees: u64,
}

impl TokenData {
    /// Bytes that the record takes in account storage, discriminator included.
    pub const SPACE: usize = 8 + 32 + 4 + 32 + 4 + 10 + 1 + 32 + 8 + 8 + 8 + 2 + 2 + 32 + 32 + 8
        + 8 + 8 + 8 + 8;

    /// Both fee rates within the ceiling.
    pub open spec fn wf(&self) -> bool {
        &&& self.creator_fee_basis_points <= MAX_FEE_BASIS_POINTS
        &&& self.platform_fee_basis_points <= MAX_FEE_BASIS_POINTS
    }

    /// The fee-eligibility gate: the market cap has reached the threshold.
    /// The configured age `min_time_for_fees` is deliberately not consulted.
    pub open spec fn fee_eligible(&self) -> bool {
        self.market_cap >= self.min_market_cap_for_fees
    }
}

/// A new market record: default fee configuration and thresholds, zeroed
/// reward bookkeeping, market cap 0, created at `now`.
pub fn initialize(
    mint: AccountKey,
    creator: AccountKey,
    creator_fee_account: AccountKey,
    platform_fee_account: AccountKey,
    name: String,
    symbol: String,
    decimals: u8,
    total_supply: u64,
    now: i64,
) -> (r: TokenData)
    ensures
        r.wf(),
        r.mint == mint,
        r.creator == creator,
        r.creator_fee_account == creator_fee_account,
        r.platform_fee_account == platform_fee_account,
        r.name@ == name@,
        r.symbol@ == symbol@,
        r.decimals == decimals,
        r.total_supply == total_supply,
        r.market_cap == 0,
        r.created_at == now,
        r.creator_fee_basis_points == DEFAULT_CREATOR_FEE_BASIS_POINTS,
        r.platform_fee_basis_points == DEFAULT_PLATFORM_FEE_BASIS_POINTS,
        r.min_market_cap_for_fees == DEFAULT_MIN_MARKET_CAP_FOR_FEES,
        r.min_time_for_fees == DEFAULT_MIN_TIME_FOR_FEES,
        r.rewards_cooldown == DEFAULT_REWARDS_COOLDOWN,
        r.last_reward_claim == 0,
        r.collected_creator_fees == 0,
{
    TokenData {
        mint,
        name,
        symbol,
        decimals,
        creator,
        total_supply,
        market_cap: 0,
        created_at: now,
        creator_fee_basis_points: DEFAULT_CREATOR_FEE_BASIS_POINTS,
        platform_fee_basis_points: DEFAULT_PLATFORM_FEE_BASIS_POINTS,
        creator_fee_account,
        platform_fee_account,
        min_market_cap_for_fees: DEFAULT_MIN_MARKET_CAP_FOR_FEES,
        min_time_for_fees: DEFAULT_MIN_TIME_FOR_FEES,
        rewards_cooldown: DEFAULT_REWARDS_COOLDOWN,
        last_reward_claim: 0,
        collected_creator_fees: 0,
    }
}

pub fn should_collect_fees(token_data: &TokenData) -> (r: bool)
    ensures
        r == token_data.fee_eligible(),
{
    token_data.market_cap >= token_data.min_market_cap_for_fees
}

/// Authorizes minting: only the creator may mint. The minting itself is done
/// by the host's token program.
pub fn mint_tokens(token_data: &TokenData, caller: &AccountKey, amount: u64) -> (r: Result<
    u64,
    WybeTokenError,
>)
    ensures
        caller.bytes@ == token_data.creator.bytes@ ==> r == Ok::<u64, WybeTokenError>(amount),
        caller.bytes@ != token_data.creator.bytes@ ==> r == Err::<u64, WybeTokenError>(
            WybeTokenError::Unauthorized,
        ),
{
    if !caller.same_as(&token_data.creator) {
        return Err(WybeTokenError::Unauthorized);
    }
    Ok(amount)
}

/// Whether an optional new fee rate passes the ceiling.
pub open spec fn rate_ok(rate: Option<u16>) -> bool {
    match rate {
        Some(bps) => bps <= MAX_FEE_BASIS_POINTS,
        None => true,
    }
}

pub open spec fn patched<T>(current: T, update: Option<T>) -> T {
    match update {
        Some(v) => v,
        None => current,
    }
}

/// The outcome of a fee-settings update on `before`, with `after` the record
/// that results: unauthorized callers and rates over the ceiling are refused
/// and change nothing; otherwise each present field replaces the stored one
/// and every other field is kept.
pub open spec fn fee_update(
    before: TokenData,
    after: TokenData,
    caller: AccountKey,
    creator_fee_basis_points: Option<u16>,
    platform_fee_basis_points: Option<u16>,
    min_market_cap: Option<u64>,
    min_time_for_fees: Option<i64>,
    rewards_cooldown: Option<i64>,
    r: Result<(), WybeTokenError>,
) -> bool {
    if caller.bytes@ != before.platform_fee_account.bytes@ {
        r == Err::<(), WybeTokenError>(WybeTokenError::Unauthorized) && after == before
    } else if !rate_ok(creator_fee_basis_points) || !rate_ok(platform_fee_basis_points) {
        r == Err::<(), WybeTokenError>(WybeTokenError::FeeTooHigh) && after == before
    } else {
        &&& r == Ok::<(), WybeTokenError>(())
        &&& after == TokenData {
            creator_fee_basis_points: patched(
                before.creator_fee_basis_points,
                creator_fee_basis_points,
            ),
            platform_fee_basis_points: patched(
                before.platform_fee_basis_points,
                platform_fee_basis_points,
            ),
            min_market_cap_for_fees: patched(before.min_market_cap_for_fees, min_market_cap),
            min_time_for_fees: patched(before.min_time_for_fees, min_time_for_fees),
            rewards_cooldown: patched(before.rewards_cooldown, rewards_cooldown),
            ..before
        }
    }
}

/// Sparse update of the fee configuration by the platform fee account.
/// All present fields are validated before any is written.
pub fn update_fee_settings(
    token_data: &mut TokenData,
    caller: &AccountKey,
    creator_fee_basis_points: Option<u16>,
    platform_fee_basis_points: Option<u16>,
    min_market_cap: Option<u64>,
    min_time_for_fees: Option<i64>,
    rewards_cooldown: Option<i64>,
) -> (r: Result<(), WybeTokenError>)
    ensures
        fee_update(
            *old(token_data),
            *final(token_data),
            *caller,
            creator_fee_basis_points,
            platform_fee_basis_points,
            min_market_cap,
            min_time_for_fees,
            rewards_cooldown,
            r,
        ),
        old(token_data).wf() ==> final(token_data).wf(),
{
    if !caller.same_as(&token_data.platform_fee_account) {
        return Err(WybeTokenError::Unauthorized);
    }
    if let Some(bps) = creator_fee_basis_points {
        if bps > MAX_FEE_BASIS_POINTS {
            return Err(WybeTokenError::FeeTooHigh);
        }
    }
    if let Some(bps) = platform_fee_basis_points {
        if bps > MAX_FEE_BASIS_POINTS {
            return Err(WybeTokenError::FeeTooHigh);
        }
    }
    if let Some(bps) = creator_fee_basis_points {
        token_data.creator_fee_basis_points = bps;
    }
    if let Some(bps) = platform_fee_basis_points {
        token_data.platform_fee_basis_points = bps;
    }
    if let Some(cap) = min_market_cap {
        token_data.min_market_cap_for_fees = cap;
    }
    if let Some(t) = min_time_for_fees {
        token_data.min_time_for_fees = t;
    }
    if let Some(c) = rewards_cooldown {
        token_data.rewards_cooldown = c;
    }
    Ok(())
}

} // verus!
