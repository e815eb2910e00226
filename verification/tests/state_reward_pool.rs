use rewards_program::state::RewardPool;
use rewards_program::traits::{
    AccountParse, AccountSerialize, AccountSize, Discriminator, PdaAccount, PdaSeeds, Versioned,
};
use rewards_program::utils::BalanceSource;

fn create_test_pool() -> RewardPool {
    RewardPool::new(255, BalanceSource::OnChain, 0, 0, [1u8; 32], [2u8; 32], [3u8; 32], [4u8; 32])
}

#[test]
fn test_reward_pool_new() {
    let pool = create_test_pool();
    assert_eq!(pool.bump, 255);
    assert_eq!(pool.balance_source, BalanceSource::OnChain);
    assert_eq!(pool.revocable, 0);
    assert_eq!(pool.reward_per_token, 0);
    assert_eq!(pool.opted_in_supply, 0);
    assert_eq!(pool.total_distributed, 0);
    assert_eq!(pool.total_claimed, 0);
    assert_eq!(pool.clawback_ts, 0);
}

#[test]
fn test_reward_pool_to_bytes_inner() {
    let pool = create_test_pool();
    let bytes = pool.to_bytes_inner();
    assert_eq!(bytes.len(), RewardPool::DATA_LEN);
    assert_eq!(bytes[0], 255);
    assert_eq!(bytes[1], BalanceSource::OnChain.to_byte());
}

#[test]
fn test_reward_pool_to_bytes() {
    let pool = create_test_pool();
    let bytes = pool.to_bytes();
    assert_eq!(bytes.len(), RewardPool::LEN);
    assert_eq!(bytes[0], RewardPool::DISCRIMINATOR);
    assert_eq!(bytes[1], RewardPool::VERSION);
    assert_eq!(bytes[2], 255);
}

#[test]
fn reward_pool_test_roundtrip_serialization() {
    let pool = create_test_pool();
    let bytes = pool.to_bytes();
    let deserialized = RewardPool::parse_from_bytes(&bytes).unwrap();
    assert_eq!(deserialized.bump, pool.bump);
    assert_eq!(deserialized.balance_source, pool.balance_source);
    assert_eq!(deserialized.revocable, pool.revocable);
    assert_eq!(deserialized.authority, pool.authority);
    assert_eq!(deserialized.tracked_mint, pool.tracked_mint);
    assert_eq!(deserialized.reward_mint, pool.reward_mint);
    assert_eq!(deserialized.seed, pool.seed);
    assert_eq!(deserialized.reward_per_token, pool.reward_per_token);
    assert_eq!(deserialized.opted_in_supply, pool.opted_in_supply);
    assert_eq!(deserialized.total_distributed, pool.total_distributed);
    assert_eq!(deserialized.total_claimed, pool.total_claimed);
    assert_eq!(deserialized.clawback_ts, pool.clawback_ts);
}

#[test]
fn reward_pool_test_roundtrip_with_values() {
    let mut pool = create_test_pool();
    pool.reward_per_token = 1_000_000_000_000;
    pool.opted_in_supply = 500_000;
    pool.total_distributed = 1_000_000;
    pool.total_claimed = 250_000;
    pool.clawback_ts = 1700000000;
    let bytes = pool.to_bytes();
    let deserialized = RewardPool::parse_from_bytes(&bytes).unwrap();
    assert_eq!(deserialized.reward_per_token, 1_000_000_000_000);
    assert_eq!(deserialized.opted_in_supply, 500_000);
    assert_eq!(deserialized.total_distributed, 1_000_000);
    assert_eq!(deserialized.total_claimed, 250_000);
    assert_eq!(deserialized.clawback_ts, 1700000000);
}

#[test]
fn reward_pool_test_pda_seeds() {
    let pool = create_test_pool();
    let seeds = pool.seeds();
    assert_eq!(seeds.len(), 4);
    assert_eq!(seeds[0], &RewardPool::PREFIX[..]);
    assert_eq!(seeds[1], &pool.reward_mint[..]);
    assert_eq!(seeds[2], &pool.authority[..]);
    assert_eq!(seeds[3], &pool.seed[..]);
}

#[test]
fn reward_pool_test_validate_authority_success() {
    let pool = create_test_pool();
    assert!(pool.validate_authority(&[1u8; 32]).is_ok());
}

#[test]
fn reward_pool_test_validate_authority_fail() {
    let pool = create_test_pool();
    assert!(pool.validate_authority(&[99u8; 32]).is_err());
}

#[test]
fn test_validate_tracked_mint_success() {
    let pool = create_test_pool();
    assert!(pool.validate_tracked_mint(&[2u8; 32]).is_ok());
}

#[test]
fn test_validate_tracked_mint_fail() {
    let pool = create_test_pool();
    assert!(pool.validate_tracked_mint(&[99u8; 32]).is_err());
}

#[test]
fn test_validate_reward_mint_success() {
    let pool = create_test_pool();
    assert!(pool.validate_reward_mint(&[3u8; 32]).is_ok());
}

#[test]
fn test_validate_reward_mint_fail() {
    let pool = create_test_pool();
    assert!(pool.validate_reward_mint(&[99u8; 32]).is_err());
}

#[test]
fn reward_pool_test_bump() {
    let pool = create_test_pool();
    assert_eq!(PdaAccount::bump(&pool), 255);
}

#[test]
fn test_authority_set_balance_source() {
    let pool = RewardPool::new(200, BalanceSource::AuthoritySet, 0, 0, [1u8; 32], [2u8; 32], [3u8; 32], [4u8; 32]);
    let bytes = pool.to_bytes();
    let deserialized = RewardPool::parse_from_bytes(&bytes).unwrap();
    assert_eq!(deserialized.balance_source, BalanceSource::AuthoritySet);
}
