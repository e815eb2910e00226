//! A user's participation in a continuous reward pool.
use vstd::prelude::*;
use crate::codec::{
    le_u128,
    le_u64,
    lemma_le_roundtrip,
    push_u128,
    push_u64,
    push_zeros,
    read_u128,
    read_u64,
    u128_of_le,
    u64_of_le,
    zeros,
    Address,
};
use crate::errors::ProgramError;
use crate::traits::account::{check_account_header, header_ok};
use crate::traits::pda::{seeds_view, spec_check_pda};
use crate::traits::{
    AccountParse,
    AccountSerialize,
    AccountSize,
    AccountValidation,
    Discriminator,
    PdaSeeds,
    Versioned,
};

verus! {

/// UserRewardAccount state: one user's participation in a continuous reward
/// pool, with its snapshot of the pool's reward per token and the rewards it
/// accrued but has not claimed.
///
/// PDA seeds: `[b"user_reward", reward_pool, user]`.
#[derive(Clone, Copy, Debug, PartialEq, Eq, Structural)]
pub struct UserRewardAccount {
    pub bump: u8,
    pub reward_per_token_paid: u128,
    pub accrued_rewards: u64,
    pub last_known_balance: u64,
}

impl Discriminator for UserRewardAccount {
    const DISCRIMINATOR: u8 = 9;
}

impl Versioned for UserRewardAccount {
    const VERSION: u8 = 1;
}

impl AccountSize for UserRewardAccount {
    const DATA_LEN: usize = 40;
}

impl AccountParse for UserRewardAccount {
    open spec fn spec_parses(data: Seq<u8>) -> bool {
        header_ok(data, 42, 9)
    }

    open spec fn spec_reads(data: Seq<u8>, value: UserRewardAccount) -> bool {
        &&& value.bump == data[2]
        &&& value.reward_per_token_paid == u128_of_le(data.subrange(10, 26))
        &&& value.accrued_rewards == u64_of_le(data.subrange(26, 34))
        &&& value.last_known_balance == u64_of_le(data.subrange(34, 42))
    }

    open spec fn spec_parse_error(data: Seq<u8>) -> ProgramError {
        ProgramError::InvalidAccountData
    }

    fn parse_from_bytes(data: &[u8]) -> (r: Result<UserRewardAccount, ProgramError>) {
        check_account_header(data, 42, 9)?;
        let bump = data[2];
        let reward_per_token_paid = read_u128(data, 10);
        let accrued_rewards = read_u64(data, 26);
        let last_known_balance = read_u64(data, 34);
        Ok(UserRewardAccount { bump, reward_per_token_paid, accrued_rewards, last_known_balance })
    }
}

impl AccountSerialize for UserRewardAccount {
    open spec fn spec_inner(&self) -> Seq<u8> {
        seq![self.bump]
            + zeros(7)
            + le_u128(self.reward_per_token_paid)
            + le_u64(self.accrued_rewards)
            + le_u64(self.last_known_balance)
    }

    fn to_bytes_inner(&self) -> (r: Vec<u8>) {
        let mut data: Vec<u8> = Vec::new();
        data.push(self.bump);
        push_zeros(&mut data, 7);
        push_u128(&mut data, self.reward_per_token_paid);
        push_u64(&mut data, self.accrued_rewards);
        push_u64(&mut data, self.last_known_balance);
        data
    }
}

impl AccountValidation for UserRewardAccount {}

/// Parsing the serialized account gives back exactly the account.
pub proof fn lemma_user_reward_account_roundtrip(a: UserRewardAccount)
    ensures
        UserRewardAccount::spec_parses(a.spec_bytes()),
        forall|v: UserRewardAccount| UserRewardAccount::spec_reads(a.spec_bytes(), v) <==> v == a,
        a.spec_bytes().len() == 42,
{
    lemma_le_roundtrip();
    let b = a.spec_bytes();
    assert(b.subrange(10, 26) =~= le_u128(a.reward_per_token_paid));
    assert(b.subrange(26, 34) =~= le_u64(a.accrued_rewards));
    assert(b.subrange(34, 42) =~= le_u64(a.last_known_balance));
}

/// The `user_reward` seed prefix.
pub const USER_REWARD_PREFIX: [u8; 11] = [117, 115, 101, 114, 95, 114, 101, 119, 97, 114, 100];

/// Seed helper for deriving the UserRewardAccount PDA without the full state.
pub struct UserRewardAccountSeeds {
    pub reward_pool: Address,
    pub user: Address,
}

impl UserRewardAccountSeeds {
    pub const PREFIX: [u8; 11] = USER_REWARD_PREFIX;
}

impl PdaSeeds for UserRewardAccountSeeds {
    open spec fn spec_seeds(&self) -> Seq<Seq<u8>> {
        seq![USER_REWARD_PREFIX@, self.reward_pool@, self.user@]
    }

    fn seeds(&self) -> (r: Vec<&[u8]>) {
        let r: Vec<&[u8]> = vec![
            USER_REWARD_PREFIX.as_slice(),
            self.reward_pool.as_slice(),
            self.user.as_slice(),
        ];
        assert(seeds_view(r@) =~= self.spec_seeds());
        r
    }
}

impl UserRewardAccount {
    pub fn new(bump: u8, reward_per_token_paid: u128, last_known_balance: u64) -> (r: UserRewardAccount)
        ensures
            r == (UserRewardAccount { bump, reward_per_token_paid, accrued_rewards: 0, last_known_balance }),
    {
        UserRewardAccount { bump, reward_per_token_paid, accrued_rewards: 0, last_known_balance }
    }

    /// Parses the account data and checks that `account` is the PDA of these
    /// seeds, found with the stored bump.
    pub fn from_account(
        data: &[u8],
        account: &Address,
        program_id: &Address,
        reward_pool: &Address,
        user: &Address,
    ) -> (r: Result<UserRewardAccount, ProgramError>)
        ensures
            !Self::spec_parses(data@) ==> r == Err::<UserRewardAccount, ProgramError>(
                ProgramError::InvalidAccountData,
            ),
            Self::spec_parses(data@) ==> {
                let seeds = UserRewardAccountSeeds { reward_pool: *reward_pool, user: *user };
                match spec_check_pda(seeds.spec_seeds(), account@, program_id@, Some(data@[2])) {
                    Ok(_) => r matches Ok(v) && Self::spec_reads(data@, v),
                    Err(e) => r == Err::<UserRewardAccount, ProgramError>(e),
                }
            },
    {
        let state = Self::parse_from_bytes(data)?;
        let seeds = UserRewardAccountSeeds { reward_pool: *reward_pool, user: *user };
        seeds.validate_pda(account, program_id, state.bump)?;
        Ok(state)
    }
}

} // verus!
