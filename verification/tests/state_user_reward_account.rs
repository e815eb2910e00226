use rewards_program::state::{UserRewardAccount, UserRewardAccountSeeds};
use rewards_program::traits::{
    AccountParse, AccountSerialize, AccountSize, Discriminator, PdaSeeds, Versioned,
};

fn create_test_account() -> UserRewardAccount {
    UserRewardAccount::new(255, 0, 1000)
}

#[test]
fn test_user_reward_account_new() {
    let account = create_test_account();
    assert_eq!(account.bump, 255);
    assert_eq!(account.reward_per_token_paid, 0);
    assert_eq!(account.accrued_rewards, 0);
    assert_eq!(account.last_known_balance, 1000);
}

#[test]
fn test_to_bytes_inner() {
    let account = create_test_account();
    let bytes = account.to_bytes_inner();
    assert_eq!(bytes.len(), UserRewardAccount::DATA_LEN);
    assert_eq!(bytes[0], 255);
}

#[test]
fn test_to_bytes() {
    let account = create_test_account();
    let bytes = account.to_bytes();
    assert_eq!(bytes.len(), UserRewardAccount::LEN);
    assert_eq!(bytes[0], UserRewardAccount::DISCRIMINATOR);
    assert_eq!(bytes[1], UserRewardAccount::VERSION);
    assert_eq!(bytes[2], 255);
}

#[test]
fn user_reward_account_test_roundtrip_serialization() {
    let account = create_test_account();
    let bytes = account.to_bytes();
    let deserialized = UserRewardAccount::parse_from_bytes(&bytes).unwrap();
    assert_eq!(deserialized.bump, account.bump);
    assert_eq!(deserialized.reward_per_token_paid, account.reward_per_token_paid);
    assert_eq!(deserialized.accrued_rewards, account.accrued_rewards);
    assert_eq!(deserialized.last_known_balance, account.last_known_balance);
}

#[test]
fn user_reward_account_test_roundtrip_with_values() {
    let mut account = create_test_account();
    account.reward_per_token_paid = 1_000_000_000_000;
    account.accrued_rewards = 500;
    account.last_known_balance = 2000;
    let bytes = account.to_bytes();
    let deserialized = UserRewardAccount::parse_from_bytes(&bytes).unwrap();
    assert_eq!(deserialized.reward_per_token_paid, 1_000_000_000_000);
    assert_eq!(deserialized.accrued_rewards, 500);
    assert_eq!(deserialized.last_known_balance, 2000);
}

#[test]
fn user_reward_account_test_pda_seeds() {
    let seeds = UserRewardAccountSeeds { reward_pool: [1u8; 32], user: [2u8; 32] };
    let pda_seeds = seeds.seeds();
    assert_eq!(pda_seeds.len(), 3);
    assert_eq!(pda_seeds[0], &UserRewardAccountSeeds::PREFIX[..]);
    assert_eq!(pda_seeds[1], &seeds.reward_pool[..]);
    assert_eq!(pda_seeds[2], &seeds.user[..]);
}

#[test]
fn user_reward_account_test_bump() {
    let account = create_test_account();
    assert_eq!(account.bump, 255);
}
