//! A direct distribution: tokens held for explicitly added recipients.
use vstd::prelude::*;
use crate::codec::{
    lemma_address_view_eq,
    i64_of_le,
    le_i64,
    le_u64,
    lemma_le_roundtrip,
    push_address,
    push_i64,
    push_u64,
    push_zeros,
    read_address,
    read_i64,
    read_u64,
    u64_of_le,
    zeros,
    Address,
};
use crate::errors::{ProgramError, RewardsProgramError};
use crate::traits::account::{check_account_header, header_ok};
use crate::traits::pda::{seeds_view, spec_check_pda};
use crate::traits::{
    AccountParse, AccountSerialize, AccountSize, AccountValidation, Discriminator, PdaAccount,
    PdaSeeds, Versioned,
};
use crate::traits::Distribution;

verus! {

/// DirectDistribution account state: tokens held for recipients the authority
/// adds one by one; each recipient's schedule lives in its own account.
/// `revocable` is the bitmask of allowed revoke modes; `clawback_ts` the
/// time from which the authority may close the distribution (0: no gate).
///
/// PDA seeds: `[b"direct_distribution", mint, authority, seed]`.
#[derive(Clone, Copy, Debug, PartialEq, Eq)]
pub struct DirectDistribution {
    pub bump: u8,
    pub revocable: u8,
    pub authority: Address,
    pub mint: Address,
    pub seed: Address,
    pub total_allocated: u64,
    pub total_claimed: u64,
    pub clawback_ts: i64,
}

impl Discriminator for DirectDistribution {
    const DISCRIMINATOR: u8 = 2;
}

impl Versioned for DirectDistribution {
    const VERSION: u8 = 1;
}

impl AccountSize for DirectDistribution {
    const DATA_LEN: usize = 128;
}

impl AccountParse for DirectDistribution {
    open spec fn spec_parses(data: Seq<u8>) -> bool {
        header_ok(data, 130, 2)
    }

    open spec fn spec_reads(data: Seq<u8>, value: DirectDistribution) -> bool {
        &&& value.bump == data[2]
        &&& value.revocable == data[3]
        &&& value.authority@ == data.subrange(10, 42)
        &&& value.mint@ == data.subrange(42, 74)
        &&& value.seed@ == data.subrange(74, 106)
        &&& value.total_allocated == u64_of_le(data.subrange(106, 114))
        &&& value.total_claimed == u64_of_le(data.subrange(114, 122))
        &&& value.clawback_ts == i64_of_le(data.subrange(122, 130))
    }

    open spec fn spec_parse_error(data: Seq<u8>) -> ProgramError {
        ProgramError::InvalidAccountData
    }

    fn parse_from_bytes(data: &[u8]) -> (r: Result<DirectDistribution, ProgramError>) {
        check_account_header(data, 130, 2)?;
        let bump = data[2];
        let revocable = data[3];
        let authority = read_address(data, 10);
        let mint = read_address(data, 42);
        let seed = read_address(data, 74);
        let total_allocated = read_u64(data, 106);
        let total_claimed = read_u64(data, 114);
        let clawback_ts = read_i64(data, 122);
        Ok(
            DirectDistribution {
                bump,
                revocable,
                authority,
                mint,
                seed,
                total_allocated,
                total_claimed,
                clawback_ts,
            },
        )
    }
}

impl AccountSerialize for DirectDistribution {
    open spec fn spec_inner(&self) -> Seq<u8> {
        seq![self.bump]
            + seq![self.revocable]
            + zeros(6)
            + self.authority@
            + self.mint@
            + self.seed@
            + le_u64(self.total_allocated)
            + le_u64(self.total_claimed)
            + le_i64(self.clawback_ts)
    }

    fn to_bytes_inner(&self) -> (r: Vec<u8>) {
        let mut data: Vec<u8> = Vec::new();
        data.push(self.bump);
        data.push(self.revocable);
        push_zeros(&mut data, 6);
        push_address(&mut data, &self.authority);
        push_address(&mut data, &self.mint);
        push_address(&mut data, &self.seed);
        push_u64(&mut data, self.total_allocated);
        push_u64(&mut data, self.total_claimed);
        push_i64(&mut data, self.clawback_ts);
        data
    }
}

impl AccountValidation for DirectDistribution {}

/// Parsing the serialized account gives back exactly the account.
pub proof fn lemma_direct_distribution_roundtrip(a: DirectDistribution)
    ensures
        DirectDistribution::spec_parses(a.spec_bytes()),
        forall|v: DirectDistribution| DirectDistribution::spec_reads(a.spec_bytes(), v) <==> v == a,
        a.spec_bytes().len() == 130,
{
    lemma_le_roundtrip();
    let b = a.spec_bytes();
    assert(b.subrange(10, 42) =~= a.authority@);
    assert(b.subrange(42, 74) =~= a.mint@);
    assert(b.subrange(74, 106) =~= a.seed@);
    assert(b.subrange(106, 114) =~= le_u64(a.total_allocated));
    assert(b.subrange(114, 122) =~= le_u64(a.total_claimed));
    assert(b.subrange(122, 130) =~= le_i64(a.clawback_ts));
    assert forall|v: DirectDistribution| DirectDistribution::spec_reads(b, v) implies v == a by {
        lemma_address_view_eq(v.authority, a.authority);
        lemma_address_view_eq(v.mint, a.mint);
        lemma_address_view_eq(v.seed, a.seed);
    }
}

/// Account data holds at most one value of this type.
proof fn lemma_direct_distribution_reads_unique(data: Seq<u8>, v1: DirectDistribution, v2: DirectDistribution)
    requires
        DirectDistribution::spec_reads(data, v1),
        DirectDistribution::spec_reads(data, v2),
    ensures
        v1 == v2,
{
    lemma_address_view_eq(v1.authority, v2.authority);
    lemma_address_view_eq(v1.mint, v2.mint);
    lemma_address_view_eq(v1.seed, v2.seed);
}

/// The `direct_distribution` seed prefix.
pub const DIRECT_DISTRIBUTION_PREFIX: [u8; 19] = [100, 105, 114, 101, 99, 116, 95, 100, 105, 115, 116, 114, 105, 98, 117, 116, 105, 111, 110];

impl DirectDistribution {
    pub const PREFIX: [u8; 19] = DIRECT_DISTRIBUTION_PREFIX;
}

impl PdaSeeds for DirectDistribution {
    open spec fn spec_seeds(&self) -> Seq<Seq<u8>> {
        seq![DIRECT_DISTRIBUTION_PREFIX@, self.mint@, self.authority@, self.seed@]
    }

    fn seeds(&self) -> (r: Vec<&[u8]>) {
        let r: Vec<&[u8]> = vec![
            DIRECT_DISTRIBUTION_PREFIX.as_slice(),
            self.mint.as_slice(),
            self.authority.as_slice(),
            self.seed.as_slice(),
        ];
        assert(seeds_view(r@) =~= self.spec_seeds());
        r
    }
}

impl PdaAccount for DirectDistribution {
    open spec fn spec_bump(&self) -> u8 {
        self.bump
    }

    fn bump(&self) -> (r: u8) {
        self.bump
    }
}

impl Distribution for DirectDistribution {
    open spec fn spec_mint(&self) -> Address {
        self.mint
    }

    open spec fn spec_authority(&self) -> Address {
        self.authority
    }

    open spec fn spec_seeds_key(&self) -> Address {
        self.seed
    }

    open spec fn spec_total_claimed(&self) -> u64 {
        self.total_claimed
    }

    open spec fn spec_with_total_claimed(&self, amount: u64) -> DirectDistribution {
        DirectDistribution { total_claimed: amount, ..*self }
    }

    fn mint(&self) -> (r: &Address) {
        &self.mint
    }

    fn authority(&self) -> (r: &Address) {
        &self.authority
    }

    fn seeds_key(&self) -> (r: &Address) {
        &self.seed
    }

    fn total_claimed(&self) -> (r: u64) {
        self.total_claimed
    }

    fn set_total_claimed(&mut self, amount: u64) -> (r: Result<(), ProgramError>) {
        if amount < self.total_claimed {
            return Err(ProgramError::Custom(RewardsProgramError::ClaimedAmountDecreased.code()));
        }
        self.total_claimed = amount;
        Ok(())
    }
}

impl DirectDistribution {
    /// A distribution with nothing allocated or claimed yet, not revocable,
    /// closable at any time.
    pub fn new(bump: u8, authority: Address, mint: Address, seeds: Address) -> (r: DirectDistribution)
        ensures
            r == (DirectDistribution {
                bump,
                revocable: 0,
                authority,
                mint,
                seed: seeds,
                total_allocated: 0,
                total_claimed: 0,
                clawback_ts: 0,
            }),
    {
        DirectDistribution {
            bump,
            revocable: 0,
            authority,
            mint,
            seed: seeds,
            total_allocated: 0,
            total_claimed: 0,
            clawback_ts: 0,
        }
    }

    /// Parses the account data and checks that `account` is this account's
    /// PDA, found with the stored bump.
    pub fn from_account(data: &[u8], account: &Address, program_id: &Address) -> (r: Result<
        DirectDistribution,
        ProgramError,
    >)
        ensures
            !Self::spec_parses(data@) ==> r == Err::<DirectDistribution, ProgramError>(
                ProgramError::InvalidAccountData,
            ),
            Self::spec_parses(data@) ==> forall|v: DirectDistribution|
                #[trigger] Self::spec_reads(data@, v) ==> r == match spec_check_pda(
                    v.spec_seeds(),
                    account@,
                    program_id@,
                    Some(v.bump),
                ) {
                    Ok(_) => Ok::<DirectDistribution, ProgramError>(v),
                    Err(e) => Err(e),
                },
    {
        let state = Self::parse_from_bytes(data)?;
        proof {
            assert forall|v: DirectDistribution| #[trigger] Self::spec_reads(data@, v) implies v == state by {
                lemma_direct_distribution_reads_unique(data@, v, state);
            }
        }
        state.validate_pda(account, program_id, state.bump)?;
        Ok(state)
    }

    /// Tokens in the vault that no recipient holds an allocation of: the vault
    /// balance minus what is allocated and not yet claimed.
    pub fn remaining_unallocated(&self, vault_balance: u64) -> (r: Result<u64, RewardsProgramError>)
        ensures
            r == if self.total_allocated < self.total_claimed || vault_balance < self.total_allocated
                - self.total_claimed {
                Err(RewardsProgramError::MathOverflow)
            } else {
                Ok((vault_balance - (self.total_allocated - self.total_claimed)) as u64)
            },
    {
        if self.total_allocated < self.total_claimed {
            return Err(RewardsProgramError::MathOverflow);
        }
        let outstanding = self.total_allocated - self.total_claimed;
        if vault_balance < outstanding {
            return Err(RewardsProgramError::MathOverflow);
        }
        Ok(vault_balance - outstanding)
    }
}

} // verus!
