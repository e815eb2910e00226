//! Reward-per-token accounting for continuous reward pools.
use vstd::prelude::*;
use crate::errors::{custom, ProgramError, RewardsProgramError};
use crate::state::{RewardPool, UserRewardAccount};

verus! {

/// Fixed-point scale of the reward-per-token accumulator.
pub const REWARD_PRECISION: u128 = 1_000_000_000_000;

/// Rewards earned by `balance` while the accumulator rose by `delta`, rounded down.
pub open spec fn spec_earned(balance: u64, delta: u128) -> int {
    (balance * delta) / (REWARD_PRECISION as int)
}

/// The user after accruing what it earned since its last snapshot of the pool's
/// reward per token, or the error when the snapshot is ahead of the pool or an
/// amount overflows.
pub open spec fn spec_update_user_rewards(pool_rpt: u128, user: UserRewardAccount) -> Result<
    UserRewardAccount,
    ProgramError,
> {
    if pool_rpt < user.reward_per_token_paid {
        Err(custom(RewardsProgramError::MathOverflow))
    } else {
        let delta = (pool_rpt - user.reward_per_token_paid) as u128;
        if user.last_known_balance * delta > u128::MAX {
            Err(custom(RewardsProgramError::MathOverflow))
        } else if user.accrued_rewards + spec_earned(user.last_known_balance, delta) > u64::MAX {
            Err(custom(RewardsProgramError::MathOverflow))
        } else {
            Ok(
                UserRewardAccount {
                    accrued_rewards: (user.accrued_rewards + spec_earned(
                        user.last_known_balance,
                        delta,
                    )) as u64,
                    reward_per_token_paid: pool_rpt,
                    ..user
                },
            )
        }
    }
}

/// The pool's opted-in supply after a user's tracked balance moves from `old`
/// to `new`, or the error when it would leave the `u64` range.
pub open spec fn spec_synced_supply(supply: u64, old: u64, new: u64) -> Result<u64, ProgramError> {
    let s = supply - old + new;
    if 0 <= s <= u64::MAX {
        Ok(s as u64)
    } else {
        Err(custom(RewardsProgramError::MathOverflow))
    }
}

/// Accrues the user's pending rewards: the rise of the pool's reward per token
/// since the user's snapshot, times the user's balance, over the precision.
/// Must run before any change of the user's balance and before a claim. On an
/// error the user is left as it was.
pub fn update_user_rewards(pool: &RewardPool, user: &mut UserRewardAccount) -> (r: Result<
    (),
    ProgramError,
>)
    ensures
        match spec_update_user_rewards(pool.reward_per_token, *old(user)) {
            Ok(u) => r == Ok::<(), ProgramError>(()) && *final(user) == u,
            Err(e) => r == Err::<(), ProgramError>(e) && *final(user) == *old(user),
        },
{
    if pool.reward_per_token < user.reward_per_token_paid {
        return Err(ProgramError::Custom(RewardsProgramError::MathOverflow.code()));
    }
    let delta = pool.reward_per_token - user.reward_per_token_paid;
    if delta > 0 {
        let balance = user.last_known_balance as u128;
        let product = match balance.checked_mul(delta) {
            Some(p) => p,
            None => {
                return Err(ProgramError::Custom(RewardsProgramError::MathOverflow.code()));
            },
        };
        let earned = product / REWARD_PRECISION;
        if earned > u64::MAX as u128 {
            return Err(ProgramError::Custom(RewardsProgramError::MathOverflow.code()));
        }
        let earned_u64 = earned as u64;
        match user.accrued_rewards.checked_add(earned_u64) {
            Some(total) => {
                user.accrued_rewards = total;
            },
            None => {
                return Err(ProgramError::Custom(RewardsProgramError::MathOverflow.code()));
            },
        }
    } else {
        assert(user.last_known_balance * delta == 0) by (nonlinear_arith)
            requires
                delta == 0,
        ;
    }
    user.reward_per_token_paid = pool.reward_per_token;
    Ok(())
}

/// Sets the user's tracked balance to `new_balance` and moves the pool's
/// opted-in supply by the same difference. On an error neither changes.
pub fn sync_user_balance(pool: &mut RewardPool, user: &mut UserRewardAccount, new_balance: u64) -> (r:
    Result<(), ProgramError>)
    ensures
        match spec_synced_supply(old(pool).opted_in_supply, old(user).last_known_balance, new_balance) {
            Ok(s) => {
                &&& r == Ok::<(), ProgramError>(())
                &&& *final(pool) == RewardPool { opted_in_supply: s, ..*old(pool) }
                &&& *final(user) == UserRewardAccount { last_known_balance: new_balance, ..*old(user) }
            },
            Err(e) => {
                &&& r == Err::<(), ProgramError>(e)
                &&& *final(pool) == *old(pool)
                &&& *final(user) == *old(user)
            },
        },
{
    let old_balance = user.last_known_balance;
    if new_balance >= old_balance {
        let increase = new_balance - old_balance;
        match pool.opted_in_supply.checked_add(increase) {
            Some(s) => {
                pool.opted_in_supply = s;
            },
            None => {
                return Err(ProgramError::Custom(RewardsProgramError::MathOverflow.code()));
            },
        }
    } else {
        let decrease = old_balance - new_balance;
        if pool.opted_in_supply < decrease {
            return Err(ProgramError::Custom(RewardsProgramError::MathOverflow.code()));
        }
        pool.opted_in_supply = pool.opted_in_supply - decrease;
    }
    user.last_known_balance = new_balance;
    Ok(())
}

/// Accruing twice against the same pool state changes nothing the second time.
pub proof fn lemma_update_user_rewards_idempotent(pool_rpt: u128, user: UserRewardAccount)
    requires
        spec_update_user_rewards(pool_rpt, user) is Ok,
    ensures
        spec_update_user_rewards(pool_rpt, spec_update_user_rewards(pool_rpt, user)->Ok_0)
            == spec_update_user_rewards(pool_rpt, user),
{
    let u = spec_update_user_rewards(pool_rpt, user)->Ok_0;
    assert(u.last_known_balance * 0u128 == 0) by (nonlinear_arith);
    assert(spec_earned(u.last_known_balance, 0) == 0);
}

/// A user whose snapshot is the pool's current reward per token earns nothing.
pub proof fn lemma_up_to_date_user_earns_nothing(pool_rpt: u128, user: UserRewardAccount)
    requires
        user.reward_per_token_paid == pool_rpt,
    ensures
        spec_update_user_rewards(pool_rpt, user) == Ok::<UserRewardAccount, ProgramError>(user),
{
    assert(user.last_known_balance * 0u128 == 0) by (nonlinear_arith);
    assert(spec_earned(user.last_known_balance, 0) == 0);
}

/// A larger balance never earns less over the same rise of the accumulator.
pub proof fn lemma_earned_monotonic_in_balance(b1: u64, b2: u64, delta: u128)
    requires
        b1 <= b2,
    ensures
        spec_earned(b1, delta) <= spec_earned(b2, delta),
{
    assert(b1 * delta <= b2 * delta) by (nonlinear_arith)
        requires
            b1 <= b2,
            0 <= delta,
    ;
    vstd::arithmetic::div_mod::lemma_div_is_ordered(
        b1 * delta,
        b2 * delta,
        REWARD_PRECISION as int,
    );
}

/// Syncing a balance keeps the pool's supply minus the user's balance unchanged.
pub proof fn lemma_sync_preserves_rest_of_supply(supply: u64, old: u64, new: u64)
    requires
        spec_synced_supply(supply, old, new) is Ok,
    ensures
        spec_synced_supply(supply, old, new)->Ok_0 - new == supply - old,
{
}

/// Where the user's balance is counted in the supply, a sync to a new balance
/// fails only if the supply would pass `u64::MAX`, and syncing back restores
/// the supply.
pub proof fn lemma_sync_roundtrip(supply: u64, old: u64, new: u64)
    requires
        old <= supply,
        supply - old + new <= u64::MAX,
    ensures
        spec_synced_supply(supply, old, new) is Ok,
        spec_synced_supply(spec_synced_supply(supply, old, new)->Ok_0, new, old) == Ok::<
            u64,
            ProgramError,
        >(supply),
{
}

/// The total of a list of balances.
pub open spec fn sum_balances(balances: Seq<u64>) -> int
    decreases balances.len(),
{
    if balances.len() == 0 {
        0
    } else {
        sum_balances(balances.drop_last()) + balances.last()
    }
}

/// What a list of holders earns in all while the accumulator rises by `delta`.
pub open spec fn sum_earned(balances: Seq<u64>, delta: u128) -> int
    decreases balances.len(),
{
    if balances.len() == 0 {
        0
    } else {
        sum_earned(balances.drop_last(), delta) + spec_earned(balances.last(), delta)
    }
}

/// Rounding down never pays more than the exact share.
proof fn lemma_sum_earned_scaled(balances: Seq<u64>, delta: u128)
    ensures
        sum_earned(balances, delta) * (REWARD_PRECISION as int) <= sum_balances(balances) * delta,
        sum_earned(balances, delta) >= 0,
        sum_balances(balances) >= 0,
    decreases balances.len(),
{
    if balances.len() > 0 {
        let rest = balances.drop_last();
        let b = balances.last();
        lemma_sum_earned_scaled(rest, delta);
        let p = REWARD_PRECISION as int;
        let e = spec_earned(b, delta);
        assert(e * p <= b * delta && e >= 0) by (nonlinear_arith)
            requires
                e == (b * delta) / p,
                p > 0,
                b >= 0,
                delta >= 0,
        ;
        let s1 = sum_earned(rest, delta);
        let b1 = sum_balances(rest);
        assert((s1 + e) * p <= (b1 + b) * delta) by (nonlinear_arith)
            requires
                s1 * p <= b1 * delta,
                e * p <= b * delta,
        ;
    }
}

/// When the reward per token rises by at most `amount` spread over `supply`
/// (`amount * REWARD_PRECISION / supply`, rounded down), holders whose balances
/// total at most `supply` earn at most `amount` between them: rewards never
/// exceed what was distributed. Each holder's share is what
/// `update_user_rewards` accrues for it.
pub proof fn lemma_rewards_within_distribution(
    balances: Seq<u64>,
    supply: u64,
    amount: u64,
    delta: u128,
)
    requires
        supply > 0,
        sum_balances(balances) <= supply,
        delta <= (amount * REWARD_PRECISION) / (supply as int),
    ensures
        sum_earned(balances, delta) <= amount,
{
    lemma_sum_earned_scaled(balances, delta);
    let p = REWARD_PRECISION as int;
    let total = sum_balances(balances);
    let earned = sum_earned(balances, delta);
    assert(earned <= amount) by (nonlinear_arith)
        requires
            earned * p <= total * delta,
            0 <= total <= supply,
            supply > 0,
            p > 0,
            delta >= 0,
            delta <= (amount * p) / (supply as int),
            amount >= 0,
    ;
}

/// A user's accrual is its balance's share of the rise: exactly what
/// `spec_earned` gives, added to what it had.
pub proof fn lemma_update_accrues_share(pool_rpt: u128, user: UserRewardAccount)
    requires
        spec_update_user_rewards(pool_rpt, user) is Ok,
    ensures
        spec_update_user_rewards(pool_rpt, user)->Ok_0.accrued_rewards == user.accrued_rewards
            + spec_earned(user.last_known_balance, (pool_rpt - user.reward_per_token_paid) as u128),
        spec_update_user_rewards(pool_rpt, user)->Ok_0.reward_per_token_paid == pool_rpt,
        spec_update_user_rewards(pool_rpt, user)->Ok_0.last_known_balance == user.last_known_balance,
{
}

/// Accruing succeeds whenever the user's snapshot is not ahead of the pool,
/// the balance times the rise of the reward per token fits a `u128`, and the
/// accrued rewards plus that product over the precision fit a `u64`; the user
/// then holds exactly that sum and the pool's reward per token as snapshot,
/// the rest unchanged.
pub proof fn lemma_update_user_rewards_succeeds(pool_rpt: u128, user: UserRewardAccount)
    requires
        pool_rpt >= user.reward_per_token_paid,
        (user.last_known_balance as int) * ((pool_rpt - user.reward_per_token_paid) as int)
            <= u128::MAX,
        (user.accrued_rewards as int) + (user.last_known_balance as int) * ((pool_rpt
            - user.reward_per_token_paid) as int) / 1_000_000_000_000int <= u64::MAX,
    ensures
        spec_update_user_rewards(pool_rpt, user) == Ok::<UserRewardAccount, ProgramError>(
            UserRewardAccount {
                accrued_rewards: ((user.accrued_rewards as int) + (user.last_known_balance as int) * ((
                pool_rpt - user.reward_per_token_paid) as int) / 1_000_000_000_000int) as u64,
                reward_per_token_paid: pool_rpt,
                ..user
            },
        ),
{
}

/// Accruing fails, leaving nothing to write, only when the snapshot is ahead
/// of the pool or an amount leaves its range.
pub proof fn lemma_update_user_rewards_fails_only_on_range(pool_rpt: u128, user: UserRewardAccount)
    requires
        spec_update_user_rewards(pool_rpt, user) is Err,
    ensures
        pool_rpt < user.reward_per_token_paid || (user.last_known_balance as int) * ((pool_rpt
            - user.reward_per_token_paid) as int) > u128::MAX || (user.accrued_rewards as int) + (
        user.last_known_balance as int) * ((pool_rpt - user.reward_per_token_paid) as int)
            / 1_000_000_000_000int > u64::MAX,
{
}

} // verus!
