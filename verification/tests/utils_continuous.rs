use rewards_program::state::{RewardPool, UserRewardAccount};
use rewards_program::utils::{sync_user_balance, update_user_rewards, BalanceSource, REWARD_PRECISION};

fn create_test_pool(reward_per_token: u128, opted_in_supply: u64) -> RewardPool {
    let mut pool = RewardPool::new(
        255,
        BalanceSource::OnChain,
        0,
        0,
        [1u8; 32],
        [2u8; 32],
        [3u8; 32],
        [4u8; 32],
    );
    pool.reward_per_token = reward_per_token;
    pool.opted_in_supply = opted_in_supply;
    pool
}

fn create_test_user(reward_per_token_paid: u128, balance: u64, accrued: u64) -> UserRewardAccount {
    let mut user = UserRewardAccount::new(255, reward_per_token_paid, balance);
    user.accrued_rewards = accrued;
    user
}

#[test]
fn test_update_rewards_no_delta() {
    let pool = create_test_pool(1000, 100);
    let mut user = create_test_user(1000, 50, 0);

    update_user_rewards(&pool, &mut user).unwrap();

    assert_eq!(user.accrued_rewards, 0);
    assert_eq!(user.reward_per_token_paid, 1000);
}

#[test]
fn test_update_rewards_with_delta() {
    // Pool RPT = 2e12, user RPT = 1e12, user balance = 1000
    // delta = 1e12, earned = 1000 * 1e12 / 1e12 = 1000
    let pool = create_test_pool(2 * REWARD_PRECISION, 1000);
    let mut user = create_test_user(REWARD_PRECISION, 1000, 0);

    update_user_rewards(&pool, &mut user).unwrap();

    assert_eq!(user.accrued_rewards, 1000);
    assert_eq!(user.reward_per_token_paid, 2 * REWARD_PRECISION);
}

#[test]
fn test_update_rewards_accumulates() {
    let pool = create_test_pool(2 * REWARD_PRECISION, 1000);
    let mut user = create_test_user(REWARD_PRECISION, 500, 200);

    update_user_rewards(&pool, &mut user).unwrap();

    // earned = 500 * 1e12 / 1e12 = 500, plus existing 200 = 700
    assert_eq!(user.accrued_rewards, 700);
}

#[test]
fn test_update_rewards_zero_balance() {
    let pool = create_test_pool(2 * REWARD_PRECISION, 1000);
    let mut user = create_test_user(REWARD_PRECISION, 0, 0);

    update_user_rewards(&pool, &mut user).unwrap();

    assert_eq!(user.accrued_rewards, 0);
}

#[test]
fn test_update_rewards_fractional() {
    // Pool RPT = 1.5e12, user RPT = 0, user balance = 3
    // delta = 1.5e12, earned = 3 * 1.5e12 / 1e12 = 4 (truncated from 4.5)
    let pool = create_test_pool(REWARD_PRECISION * 3 / 2, 1000);
    let mut user = create_test_user(0, 3, 0);

    update_user_rewards(&pool, &mut user).unwrap();

    assert_eq!(user.accrued_rewards, 4);
}

#[test]
fn test_sync_balance_increase() {
    let mut pool = create_test_pool(0, 1000);
    let mut user = create_test_user(0, 500, 0);

    sync_user_balance(&mut pool, &mut user, 800).unwrap();

    assert_eq!(user.last_known_balance, 800);
    assert_eq!(pool.opted_in_supply, 1300); // 1000 + 300
}

#[test]
fn test_sync_balance_decrease() {
    let mut pool = create_test_pool(0, 1000);
    let mut user = create_test_user(0, 500, 0);

    sync_user_balance(&mut pool, &mut user, 200).unwrap();

    assert_eq!(user.last_known_balance, 200);
    assert_eq!(pool.opted_in_supply, 700); // 1000 - 300
}

#[test]
fn test_sync_balance_no_change() {
    let mut pool = create_test_pool(0, 1000);
    let mut user = create_test_user(0, 500, 0);

    sync_user_balance(&mut pool, &mut user, 500).unwrap();

    assert_eq!(user.last_known_balance, 500);
    assert_eq!(pool.opted_in_supply, 1000);
}

#[test]
fn test_sync_balance_to_zero() {
    let mut pool = create_test_pool(0, 500);
    let mut user = create_test_user(0, 500, 0);

    sync_user_balance(&mut pool, &mut user, 0).unwrap();

    assert_eq!(user.last_known_balance, 0);
    assert_eq!(pool.opted_in_supply, 0);
}

#[test]
fn test_sync_balance_overflow() {
    let mut pool = create_test_pool(0, u64::MAX);
    let mut user = create_test_user(0, 0, 0);

    let result = sync_user_balance(&mut pool, &mut user, 1);
    assert!(result.is_err());
}

#[test]
fn test_sync_balance_underflow() {
    let mut pool = create_test_pool(0, 0);
    let mut user = create_test_user(0, 100, 0);

    let result = sync_user_balance(&mut pool, &mut user, 0);
    assert!(result.is_err());
}

#[test]
fn test_full_flow_distribute_and_claim() {
    // Simulate: 2 users opt in, authority distributes, users claim

    // User A: 1000 tokens, User B: 500 tokens
    let mut pool = create_test_pool(0, 1500);
    let mut user_a = create_test_user(0, 1000, 0);
    let mut user_b = create_test_user(0, 500, 0);

    // Authority distributes 150 tokens
    // delta_rpt = 150 * 1e12 / 1500 = 1e11
    let amount: u128 = 150;
    let delta_rpt = amount * REWARD_PRECISION / 1500;
    pool.reward_per_token += delta_rpt;
    pool.total_distributed += 150;

    // User A claims
    update_user_rewards(&pool, &mut user_a).unwrap();
    // earned = 1000 * 1e11 / 1e12 = 100
    assert_eq!(user_a.accrued_rewards, 100);

    // User B claims
    update_user_rewards(&pool, &mut user_b).unwrap();
    // earned = 500 * 1e11 / 1e12 = 50
    assert_eq!(user_b.accrued_rewards, 50);
}
