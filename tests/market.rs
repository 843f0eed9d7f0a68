use wybe_token::fees::{TOTAL_FEE_PERCENT};
use wybe_token::pricing::{BUY_PRICE, SELL_PRICE};
use wybe_token::state::{MAX_FEE_BASIS_POINTS};
use wybe_token::{
    buy_tokens, calculate_buy_price, calculate_fee_amount, calculate_market_cap,
    calculate_sell_price, check_claim, claim_creator_rewards, fee_shares, initialize, mint_tokens,
    plan_trade, sell_tokens, should_collect_fees, unit_price, update_fee_settings, AccountKey,
    Side, TokenData, WybeTokenError,
};

fn key(b: u8) -> AccountKey {
    AccountKey::new([b; 32])
}

const MINT: u8 = 1;
const CREATOR: u8 = 2;
const CREATOR_FEES: u8 = 3;
const PLATFORM: u8 = 4;
const STRANGER: u8 = 5;

fn market(total_supply: u64) -> TokenData {
    initialize(
        key(MINT),
        key(CREATOR),
        key(CREATOR_FEES),
        key(PLATFORM),
        "Wybe".to_string(),
        "WYBE".to_string(),
        9,
        total_supply,
        1_700_000_000,
    )
}

fn fee_fields(t: &TokenData) -> (u16, u16, u64, i64, i64) {
    (
        t.creator_fee_basis_points,
        t.platform_fee_basis_points,
        t.min_market_cap_for_fees,
        t.min_time_for_fees,
        t.rewards_cooldown,
    )
}

fn snapshot(t: &TokenData) -> (u64, u64, i64, (u16, u16, u64, i64, i64)) {
    (t.market_cap, t.collected_creator_fees, t.last_reward_claim, fee_fields(t))
}

#[test]
fn initialize_sets_defaults() {
    let t = market(1_000_000);
    assert_eq!(t.name, "Wybe");
    assert_eq!(t.symbol, "WYBE");
    assert_eq!(t.decimals, 9);
    assert!(t.creator == key(CREATOR));
    assert!(t.mint == key(MINT));
    assert_eq!(t.total_supply, 1_000_000);
    assert_eq!(t.market_cap, 0);
    assert_eq!(t.created_at, 1_700_000_000);
    assert_eq!(fee_fields(&t), (200, 300, 50000, 48 * 60 * 60, 7 * 24 * 60 * 60));
    assert_eq!(t.last_reward_claim, 0);
    assert_eq!(t.collected_creator_fees, 0);
    assert_eq!(TokenData::SPACE, 255);
}

#[test]
fn prices_are_fixed_per_side() {
    assert_eq!(calculate_buy_price(0, 0), 1_000_000);
    assert_eq!(calculate_sell_price(u64::MAX, 7), 900_000);
    assert_eq!(unit_price(5, 5, Side::Buy), BUY_PRICE);
    assert_eq!(unit_price(5, 5, Side::Sell), SELL_PRICE);
    assert!(unit_price(0, 1, Side::Buy) >= unit_price(0, 1, Side::Sell));
}

#[test]
fn fee_amount_is_five_percent() {
    assert_eq!(TOTAL_FEE_PERCENT, 5);
    assert_eq!(calculate_fee_amount(1_000_000_000), 50_000_000);
    assert_eq!(calculate_fee_amount(19), 0);
    assert_eq!(calculate_fee_amount(20), 1);
    assert_eq!(calculate_fee_amount(u64::MAX), u64::MAX / 20);
    assert_eq!(calculate_fee_amount(u64::MAX / 5 + 1), (u64::MAX / 5 + 1) / 20);
}

#[test]
fn market_cap_saturates() {
    assert_eq!(calculate_market_cap(1_000_000, 1_000_000), 1_000_000_000_000);
    assert_eq!(calculate_market_cap(u64::MAX, 2), u64::MAX);
    assert_eq!(calculate_market_cap(0, u64::MAX), 0);
}

#[test]
fn fee_shares_split_proportionally() {
    assert_eq!(fee_shares(1_000_000_000, 200, 300, 500), Ok((20_000_000, 30_000_000)));
    // 5% of 1000 is 50; 50 * 1 / 3 and 50 * 2 / 3 round down to 16 and 33.
    assert_eq!(fee_shares(1000, 1, 2, 3), Ok((16, 33)));
}

#[test]
fn fee_shares_zero_denominator_fails() {
    assert_eq!(fee_shares(1000, 0, 0, 0), Err(WybeTokenError::MathOverflow));
}

#[test]
fn fee_shares_unrepresentable_share_fails() {
    assert_eq!(fee_shares(u64::MAX, 65535, 0, 1), Err(WybeTokenError::MathOverflow));
}

#[test]
fn fee_split_never_exceeds_total() {
    let ceiling = MAX_FEE_BASIS_POINTS;
    for &value in &[0u64, 1, 999, 1_000_000_007, u64::MAX] {
        for &(c, p) in &[(1u16, 0u16), (0, 1), (200, 300), (7, 11), (ceiling, ceiling), (499, 3)] {
            let (cf, pf) = fee_shares(value, c, p, (c + p) as u64).unwrap();
            assert!(cf as u128 + pf as u128 <= calculate_fee_amount(value) as u128);
        }
    }
}

#[test]
fn gate_opens_at_threshold() {
    let mut t = market(10);
    assert!(!should_collect_fees(&t));
    t.market_cap = 50000;
    assert!(should_collect_fees(&t));
    t.market_cap = 49999;
    assert!(!should_collect_fees(&t));
}

#[test]
fn end_to_end_buy_scenario() {
    let mut t = market(1_000_000);
    let first = buy_tokens(&mut t, 1000, 1_000_000_000).unwrap();
    assert_eq!(first.total_value, 1_000_000_000);
    assert_eq!(first.creator_fee, 0);
    assert_eq!(t.collected_creator_fees, 0);
    assert_eq!(t.market_cap, 1_000_000 * 1_000_000);
    let second = buy_tokens(&mut t, 1000, 1_000_000_000).unwrap();
    let expected = calculate_fee_amount(1_000_000_000) * 200 / 500;
    assert_eq!(expected, 20_000_000);
    assert_eq!(second.creator_fee, expected);
    assert_eq!(second.platform_fee, 30_000_000);
    assert_eq!(t.collected_creator_fees, expected);
}

#[test]
fn buy_over_maximum_is_refused_without_change() {
    let mut t = market(1_000_000);
    t.market_cap = 60000;
    let before = snapshot(&t);
    assert_eq!(buy_tokens(&mut t, 1000, 999_999_999), Err(WybeTokenError::PriceExceedsMaximum));
    assert_eq!(snapshot(&t), before);
    assert!(buy_tokens(&mut t, 1000, 1_000_000_000).is_ok());
}

#[test]
fn sell_below_minimum_is_refused_without_change() {
    let mut t = market(1_000_000);
    let before = snapshot(&t);
    assert_eq!(sell_tokens(&mut t, 10, 9_000_001), Err(WybeTokenError::ProceedsBelowMinimum));
    assert_eq!(snapshot(&t), before);
    let r = sell_tokens(&mut t, 10, 9_000_000).unwrap();
    assert_eq!(r.total_value, 9_000_000);
    assert_eq!(t.market_cap, 900_000 * 1_000_000);
}

#[test]
fn sell_collects_fees_when_eligible() {
    let mut t = market(1_000_000);
    t.market_cap = 50000;
    let r = sell_tokens(&mut t, 1000, 0).unwrap();
    assert_eq!(r.total_value, 900_000_000);
    assert_eq!(r.creator_fee, 18_000_000);
    assert_eq!(r.platform_fee, 27_000_000);
    assert_eq!(t.collected_creator_fees, 18_000_000);
}

#[test]
fn trade_overflow_is_refused() {
    let mut t = market(1_000_000);
    let before = snapshot(&t);
    assert_eq!(buy_tokens(&mut t, u64::MAX, u64::MAX), Err(WybeTokenError::MathOverflow));
    assert_eq!(sell_tokens(&mut t, u64::MAX, 0), Err(WybeTokenError::MathOverflow));
    assert_eq!(snapshot(&t), before);
}

#[test]
fn collected_fee_overflow_is_refused() {
    let mut t = market(1_000_000);
    t.market_cap = 50000;
    t.collected_creator_fees = u64::MAX;
    let before = snapshot(&t);
    assert_eq!(buy_tokens(&mut t, 1000, u64::MAX), Err(WybeTokenError::MathOverflow));
    assert_eq!(snapshot(&t), before);
}

#[test]
fn zero_fee_rates_make_eligible_trade_fail() {
    let mut t = market(1_000_000);
    t.market_cap = 50000;
    t.creator_fee_basis_points = 0;
    t.platform_fee_basis_points = 0;
    assert_eq!(buy_tokens(&mut t, 1, u64::MAX), Err(WybeTokenError::MathOverflow));
}

#[test]
fn plan_trade_changes_nothing() {
    let t = market(1_000_000);
    let before = snapshot(&t);
    let r = plan_trade(&t, Side::Buy, 1000, 1_000_000_000).unwrap();
    assert_eq!(r.market_cap, 1_000_000_000_000);
    assert_eq!(snapshot(&t), before);
}

fn claimable() -> TokenData {
    let mut t = market(1_000_000);
    t.market_cap = 1_000_000_000_000;
    t.collected_creator_fees = 20_000_000;
    t
}

#[test]
fn claim_pays_and_resets() {
    let mut t = claimable();
    assert_eq!(check_claim(&t, &key(CREATOR), 1_700_000_100), Ok(20_000_000));
    assert_eq!(claim_creator_rewards(&mut t, &key(CREATOR), 1_700_000_100), Ok(20_000_000));
    assert_eq!(t.collected_creator_fees, 0);
    assert_eq!(t.last_reward_claim, 1_700_000_100);
}

#[test]
fn repeat_claim_is_refused() {
    let mut t = claimable();
    let now = 1_700_000_100;
    assert!(claim_creator_rewards(&mut t, &key(CREATOR), now).is_ok());
    let before = snapshot(&t);
    assert_eq!(
        claim_creator_rewards(&mut t, &key(CREATOR), now),
        Err(WybeTokenError::NoRewardsToCollect)
    );
    assert_eq!(snapshot(&t), before);
    // Fees raised by a trade in the same instant do not lift the cooldown.
    assert!(buy_tokens(&mut t, 1000, u64::MAX).is_ok());
    assert!(t.collected_creator_fees > 0);
    assert_eq!(
        claim_creator_rewards(&mut t, &key(CREATOR), now),
        Err(WybeTokenError::RewardsOnCooldown)
    );
    let cooldown = t.rewards_cooldown;
    assert_eq!(
        claim_creator_rewards(&mut t, &key(CREATOR), now + cooldown - 1),
        Err(WybeTokenError::RewardsOnCooldown)
    );
    assert_eq!(claim_creator_rewards(&mut t, &key(CREATOR), now + cooldown), Ok(20_000_000));
}

#[test]
fn claim_without_rewards_fails() {
    let mut t = market(1_000_000);
    t.last_reward_claim = 1_700_000_000;
    let before = snapshot(&t);
    assert_eq!(
        claim_creator_rewards(&mut t, &key(CREATOR), 1_700_000_001),
        Err(WybeTokenError::NoRewardsToCollect)
    );
    assert_eq!(snapshot(&t), before);
}

#[test]
fn claim_by_stranger_is_unauthorized() {
    let mut t = market(1_000_000);
    assert_eq!(
        claim_creator_rewards(&mut t, &key(STRANGER), 1_700_000_001),
        Err(WybeTokenError::Unauthorized)
    );
    let mut t = claimable();
    let before = snapshot(&t);
    assert_eq!(
        claim_creator_rewards(&mut t, &key(PLATFORM), 1_700_000_001),
        Err(WybeTokenError::Unauthorized)
    );
    assert_eq!(snapshot(&t), before);
}

#[test]
fn claim_below_market_cap_fails() {
    let mut t = claimable();
    t.market_cap = 49999;
    assert_eq!(
        claim_creator_rewards(&mut t, &key(CREATOR), 1_700_000_001),
        Err(WybeTokenError::MarketCapTooLow)
    );
}

#[test]
fn claim_elapsed_overflow_fails() {
    let mut t = claimable();
    t.last_reward_claim = i64::MAX;
    assert_eq!(
        claim_creator_rewards(&mut t, &key(CREATOR), i64::MIN),
        Err(WybeTokenError::MathOverflow)
    );
}

#[test]
fn mint_requires_creator() {
    let t = market(1);
    assert_eq!(mint_tokens(&t, &key(CREATOR), 42), Ok(42));
    assert_eq!(mint_tokens(&t, &key(STRANGER), 42), Err(WybeTokenError::Unauthorized));
}

#[test]
fn fee_update_too_high_changes_nothing() {
    let mut t = market(1_000_000);
    let before = fee_fields(&t);
    assert_eq!(
        update_fee_settings(&mut t, &key(PLATFORM), Some(600), None, None, None, None),
        Err(WybeTokenError::FeeTooHigh)
    );
    assert_eq!(fee_fields(&t), before);
    assert_eq!(
        update_fee_settings(&mut t, &key(PLATFORM), Some(100), Some(501), Some(1), None, None),
        Err(WybeTokenError::FeeTooHigh)
    );
    assert_eq!(fee_fields(&t), before);
}

#[test]
fn fee_update_is_a_sparse_patch() {
    let mut t = market(1_000_000);
    assert_eq!(
        update_fee_settings(&mut t, &key(PLATFORM), None, Some(500), Some(1), None, Some(60)),
        Ok(())
    );
    assert_eq!(fee_fields(&t), (200, 500, 1, 48 * 60 * 60, 60));
}

#[test]
fn fee_update_requires_platform_account() {
    let mut t = market(1_000_000);
    let before = fee_fields(&t);
    assert_eq!(
        update_fee_settings(&mut t, &key(CREATOR), Some(100), None, None, None, None),
        Err(WybeTokenError::Unauthorized)
    );
    assert_eq!(fee_fields(&t), before);
}

#[test]
fn error_messages() {
    assert_eq!(WybeTokenError::FeeTooHigh.message(), "Fee is too high");
    assert_eq!(WybeTokenError::RewardsOnCooldown.message(), "Rewards are on cooldown");
}
