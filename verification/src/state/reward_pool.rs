//! Continuous reward pool: rewards accrue to opted-in holders of a tracked token.
use vstd::prelude::*;
use crate::codec::{
    i64_of_le, le_i64, le_u128, le_u64, lemma_address_view_eq, lemma_le_roundtrip, push_address,
    push_i64, push_u128, push_u64, push_zeros, read_address, read_i64, read_u128, read_u64,
    u128_of_le, u64_of_le, zeros, Address,
};
use crate::errors::{custom, ProgramError, RewardsProgramError};
use crate::traits::account::{check_account_header, header_ok};
use crate::traits::pda::{seeds_view, spec_check_pda};
use crate::traits::{
    AccountParse, AccountSerialize, AccountSize, AccountValidation, Discriminator, PdaAccount,
    PdaSeeds, Versioned,
};
use crate::utils::BalanceSource;

verus! {

/// RewardPool account state: a continuous pool in which users earn rewards in
/// proportion to the balance of a tracked token they hold over time, through a
/// reward-per-token accumulator.
///
/// PDA seeds: `[b"reward_pool", reward_mint, authority, seed]`.
#[derive(Clone, Copy, Debug, PartialEq, Eq)]
pub struct RewardPool {
    pub bump: u8,
    pub balance_source: BalanceSource,
    pub revocable: u8,
    pub authority: Address,
    pub tracked_mint: Address,
    pub reward_mint: Address,
    pub seed: Address,
    pub reward_per_token: u128,
    pub opted_in_supply: u64,
    pub total_distributed: u64,
    pub total_claimed: u64,
    pub clawback_ts: i64,
}

impl Discriminator for RewardPool {
    const DISCRIMINATOR: u8 = 8;
}

impl Versioned for RewardPool {
    const VERSION: u8 = 1;
}

impl AccountSize for RewardPool {
    const DATA_LEN: usize = 184;
}

impl AccountParse for RewardPool {
    open spec fn spec_parses(data: Seq<u8>) -> bool {
        header_ok(data, 186, 8) && BalanceSource::spec_try_from(data[3]) is Ok
    }

    open spec fn spec_reads(data: Seq<u8>, value: RewardPool) -> bool {
        &&& value.bump == data[2]
        &&& BalanceSource::spec_try_from(data[3]) == Ok::<BalanceSource, ProgramError>(
            value.balance_source,
        )
        &&& value.revocable == data[4]
        &&& value.authority@ == data.subrange(10, 42)
        &&& value.tracked_mint@ == data.subrange(42, 74)
        &&& value.reward_mint@ == data.subrange(74, 106)
        &&& value.seed@ == data.subrange(106, 138)
        &&& value.reward_per_token == u128_of_le(data.subrange(138, 154))
        &&& value.opted_in_supply == u64_of_le(data.subrange(154, 162))
        &&& value.total_distributed == u64_of_le(data.subrange(162, 170))
        &&& value.total_claimed == u64_of_le(data.subrange(170, 178))
        &&& value.clawback_ts == i64_of_le(data.subrange(178, 186))
    }

    open spec fn spec_parse_error(data: Seq<u8>) -> ProgramError {
        if !header_ok(data, 186, 8) {
            ProgramError::InvalidAccountData
        } else {
            custom(RewardsProgramError::InvalidBalanceSource)
        }
    }

    fn parse_from_bytes(data: &[u8]) -> (r: Result<RewardPool, ProgramError>) {
        check_account_header(data, 186, 8)?;
        let bump = data[2];
        let balance_source = match BalanceSource::try_from(data[3]) {
            Ok(s) => s,
            Err(_) => {
                return Err(ProgramError::Custom(RewardsProgramError::InvalidBalanceSource.code()));
            },
        };
        let revocable = data[4];
        let authority = read_address(data, 10);
        let tracked_mint = read_address(data, 42);
        let reward_mint = read_address(data, 74);
        let seed = read_address(data, 106);
        let reward_per_token = read_u128(data, 138);
        let opted_in_supply = read_u64(data, 154);
        let total_distributed = read_u64(data, 162);
        let total_claimed = read_u64(data, 170);
        let clawback_ts = read_i64(data, 178);
        Ok(RewardPool {
            bump,
            balance_source,
            revocable,
            authority,
            tracked_mint,
            reward_mint,
            seed,
            reward_per_token,
            opted_in_supply,
            total_distributed,
            total_claimed,
            clawback_ts,
        })
    }
}

impl AccountSerialize for RewardPool {
    open spec fn spec_inner(&self) -> Seq<u8> {
        seq![self.bump, self.balance_source.spec_to_byte(), self.revocable] + zeros(5)
            + self.authority@ + self.tracked_mint@ + self.reward_mint@ + self.seed@ + le_u128(
            self.reward_per_token,
        ) + le_u64(self.opted_in_supply) + le_u64(self.total_distributed) + le_u64(
            self.total_claimed,
        ) + le_i64(self.clawback_ts)
    }

    fn to_bytes_inner(&self) -> (r: Vec<u8>) {
        let mut data: Vec<u8> = Vec::new();
        data.push(self.bump);
        data.push(self.balance_source.to_byte());
        data.push(self.revocable);
        push_zeros(&mut data, 5);
        push_address(&mut data, &self.authority);
        push_address(&mut data, &self.tracked_mint);
        push_address(&mut data, &self.reward_mint);
        push_address(&mut data, &self.seed);
        push_u128(&mut data, self.reward_per_token);
        push_u64(&mut data, self.opted_in_supply);
        push_u64(&mut data, self.total_distributed);
        push_u64(&mut data, self.total_claimed);
        push_i64(&mut data, self.clawback_ts);
        proof {
            assert(data@ =~= self.spec_inner());
        }
        data
    }
}

impl AccountValidation for RewardPool {}

/// Parsing the serialized account gives back exactly the account.
pub proof fn lemma_reward_pool_roundtrip(a: RewardPool)
    ensures
        RewardPool::spec_parses(a.spec_bytes()),
        forall|v: RewardPool| RewardPool::spec_reads(a.spec_bytes(), v) <==> v == a,
        a.spec_bytes().len() == 186,
{
    lemma_le_roundtrip();
    let b = a.spec_bytes();
    assert(b[3] == a.balance_source.spec_to_byte());
    assert(b.subrange(10, 42) =~= a.authority@);
    assert(b.subrange(42, 74) =~= a.tracked_mint@);
    assert(b.subrange(74, 106) =~= a.reward_mint@);
    assert(b.subrange(106, 138) =~= a.seed@);
    assert(b.subrange(138, 154) =~= le_u128(a.reward_per_token));
    assert(b.subrange(154, 162) =~= le_u64(a.opted_in_supply));
    assert(b.subrange(162, 170) =~= le_u64(a.total_distributed));
    assert(b.subrange(170, 178) =~= le_u64(a.total_claimed));
    assert(b.subrange(178, 186) =~= le_i64(a.clawback_ts));
    assert forall|v: RewardPool| RewardPool::spec_reads(b, v) implies v == a by {
        lemma_address_view_eq(v.authority, a.authority);
        lemma_address_view_eq(v.tracked_mint, a.tracked_mint);
        lemma_address_view_eq(v.reward_mint, a.reward_mint);
        lemma_address_view_eq(v.seed, a.seed);
    }
}

/// Account data holds at most one value of this type.
proof fn lemma_reward_pool_reads_unique(data: Seq<u8>, v1: RewardPool, v2: RewardPool)
    requires
        RewardPool::spec_reads(data, v1),
        RewardPool::spec_reads(data, v2),
    ensures
        v1 == v2,
{
    lemma_address_view_eq(v1.authority, v2.authority);
    lemma_address_view_eq(v1.tracked_mint, v2.tracked_mint);
    lemma_address_view_eq(v1.reward_mint, v2.reward_mint);
    lemma_address_view_eq(v1.seed, v2.seed);
}

/// The `reward_pool` seed prefix.
pub const REWARD_POOL_PREFIX: [u8; 11] = [114, 101, 119, 97, 114, 100, 95, 112, 111, 111, 108];

impl RewardPool {
    pub const PREFIX: [u8; 11] = REWARD_POOL_PREFIX;
}

impl PdaSeeds for RewardPool {
    open spec fn spec_seeds(&self) -> Seq<Seq<u8>> {
        seq![REWARD_POOL_PREFIX@, self.reward_mint@, self.authority@, self.seed@]
    }

    fn seeds(&self) -> (r: Vec<&[u8]>) {
        let r: Vec<&[u8]> = vec![
            REWARD_POOL_PREFIX.as_slice(),
            self.reward_mint.as_slice(),
            self.authority.as_slice(),
            self.seed.as_slice(),
        ];
        assert(seeds_view(r@) =~= self.spec_seeds());
        r
    }
}

impl PdaAccount for RewardPool {
    open spec fn spec_bump(&self) -> u8 {
        self.bump
    }

    fn bump(&self) -> (r: u8) {
        self.bump
    }
}

impl RewardPool {
    /// A pool with nothing opted in, distributed or claimed yet.
    pub fn new(
        bump: u8,
        balance_source: BalanceSource,
        revocable: u8,
        clawback_ts: i64,
        authority: Address,
        tracked_mint: Address,
        reward_mint: Address,
        seed: Address,
    ) -> (r: RewardPool)
        ensures
            r == (RewardPool {
                bump,
                balance_source,
                revocable,
                authority,
                tracked_mint,
                reward_mint,
                seed,
                reward_per_token: 0,
                opted_in_supply: 0,
                total_distributed: 0,
                total_claimed: 0,
                clawback_ts,
            }),
    {
        RewardPool {
            bump,
            balance_source,
            revocable,
            authority,
            tracked_mint,
            reward_mint,
            seed,
            reward_per_token: 0,
            opted_in_supply: 0,
            total_distributed: 0,
            total_claimed: 0,
            clawback_ts,
        }
    }

    /// Parses the account data and checks that `account` is this pool's PDA,
    /// found with the stored bump.
    pub fn from_account(data: &[u8], account: &Address, program_id: &Address) -> (r: Result<
        RewardPool,
        ProgramError,
    >)
        ensures
            !Self::spec_parses(data@) ==> r == Err::<RewardPool, ProgramError>(
                Self::spec_parse_error(data@),
            ),
            Self::spec_parses(data@) ==> forall|v: RewardPool|
                #[trigger] Self::spec_reads(data@, v) ==> r == match spec_check_pda(
                    v.spec_seeds(),
                    account@,
                    program_id@,
                    Some(v.bump),
                ) {
                    Ok(_) => Ok::<RewardPool, ProgramError>(v),
                    Err(e) => Err(e),
                },
    {
        let state = Self::parse_from_bytes(data)?;
        proof {
            assert forall|v: RewardPool| #[trigger] Self::spec_reads(data@, v) implies v == state by {
                lemma_reward_pool_reads_unique(data@, v, state);
            }
        }
        state.validate_self(account, program_id)?;
        Ok(state)
    }

    pub fn validate_authority(&self, authority: &Address) -> (r: Result<(), ProgramError>)
        ensures
            r == if authority@ == self.authority@ {
                Ok::<(), ProgramError>(())
            } else {
                Err(custom(RewardsProgramError::UnauthorizedAuthority))
            },
    {
        if !crate::codec::address_eq(&self.authority, authority) {
            return Err(ProgramError::Custom(RewardsProgramError::UnauthorizedAuthority.code()));
        }
        Ok(())
    }

    pub fn validate_tracked_mint(&self, mint: &Address) -> (r: Result<(), ProgramError>)
        ensures
            r == if mint@ == self.tracked_mint@ {
                Ok::<(), ProgramError>(())
            } else {
                Err(custom(RewardsProgramError::TrackedMintMismatch))
            },
    {
        if !crate::codec::address_eq(&self.tracked_mint, mint) {
            return Err(ProgramError::Custom(RewardsProgramError::TrackedMintMismatch.code()));
        }
        Ok(())
    }

    pub fn validate_reward_mint(&self, mint: &Address) -> (r: Result<(), ProgramError>)
        ensures
            r == if mint@ == self.reward_mint@ {
                Ok::<(), ProgramError>(())
            } else {
                Err(custom(RewardsProgramError::RewardMintMismatch))
            },
    {
        if !crate::codec::address_eq(&self.reward_mint, mint) {
            return Err(ProgramError::Custom(RewardsProgramError::RewardMintMismatch.code()));
        }
        Ok(())
    }
}

} // verus!
