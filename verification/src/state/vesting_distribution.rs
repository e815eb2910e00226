//! Legacy vesting distribution: tokens held for recipients with linear schedules.
use vstd::prelude::*;
use crate::codec::{
    lemma_address_view_eq,
    le_u64,
    lemma_le_roundtrip,
    push_address,
    push_u64,
    push_zeros,
    read_address,
    read_u64,
    u64_of_le,
    zeros,
    Address,
};
use crate::errors::{custom, ProgramError, RewardsProgramError};
use crate::traits::account::{check_account_header, header_ok};
use crate::traits::pda::{seeds_view, spec_check_pda};
use crate::traits::{
    AccountParse,
    AccountSerialize,
    AccountSize,
    AccountValidation,
    Discriminator,
    PdaSeeds,
    Versioned,
};

verus! {

/// VestingDistribution account state: tokens held for recipients that vest by
/// their own linear schedules.
///
/// PDA seeds: `[b"vesting_distribution", mint, authority, seeds]`.
#[derive(Clone, Copy, Debug, PartialEq, Eq)]
pub struct VestingDistribution {
    pub bump: u8,
    pub authority: Address,
    pub mint: Address,
    pub seeds: Address,
    pub total_allocated: u64,
    pub total_claimed: u64,
}

impl Discriminator for VestingDistribution {
    const DISCRIMINATOR: u8 = 0;
}

impl Versioned for VestingDistribution {
    const VERSION: u8 = 1;
}

impl AccountSize for VestingDistribution {
    const DATA_LEN: usize = 120;
}

impl AccountParse for VestingDistribution {
    open spec fn spec_parses(data: Seq<u8>) -> bool {
        header_ok(data, 122, 0)
    }

    open spec fn spec_reads(data: Seq<u8>, value: VestingDistribution) -> bool {
        &&& value.bump == data[2]
        &&& value.authority@ == data.subrange(10, 42)
        &&& value.mint@ == data.subrange(42, 74)
        &&& value.seeds@ == data.subrange(74, 106)
        &&& value.total_allocated == u64_of_le(data.subrange(106, 114))
        &&& value.total_claimed == u64_of_le(data.subrange(114, 122))
    }

    open spec fn spec_parse_error(data: Seq<u8>) -> ProgramError {
        ProgramError::InvalidAccountData
    }

    fn parse_from_bytes(data: &[u8]) -> (r: Result<VestingDistribution, ProgramError>) {
        check_account_header(data, 122, 0)?;
        let bump = data[2];
        let authority = read_address(data, 10);
        let mint = read_address(data, 42);
        let seeds = read_address(data, 74);
        let total_allocated = read_u64(data, 106);
        let total_claimed = read_u64(data, 114);
        Ok(VestingDistribution { bump, authority, mint, seeds, total_allocated, total_claimed })
    }
}

impl AccountSerialize for VestingDistribution {
    open spec fn spec_inner(&self) -> Seq<u8> {
        seq![self.bump]
            + zeros(7)
            + self.authority@
            + self.mint@
            + self.seeds@
            + le_u64(self.total_allocated)
            + le_u64(self.total_claimed)
    }

    fn to_bytes_inner(&self) -> (r: Vec<u8>) {
        let mut data: Vec<u8> = Vec::new();
        data.push(self.bump);
        push_zeros(&mut data, 7);
        push_address(&mut data, &self.authority);
        push_address(&mut data, &self.mint);
        push_address(&mut data, &self.seeds);
        push_u64(&mut data, self.total_allocated);
        push_u64(&mut data, self.total_claimed);
        data
    }
}

impl AccountValidation for VestingDistribution {}

/// Parsing the serialized account gives back exactly the account.
pub proof fn lemma_vesting_distribution_roundtrip(a: VestingDistribution)
    ensures
        VestingDistribution::spec_parses(a.spec_bytes()),
        forall|v: VestingDistribution| VestingDistribution::spec_reads(a.spec_bytes(), v) <==> v == a,
        a.spec_bytes().len() == 122,
{
    lemma_le_roundtrip();
    let b = a.spec_bytes();
    assert(b.subrange(10, 42) =~= a.authority@);
    assert(b.subrange(42, 74) =~= a.mint@);
    assert(b.subrange(74, 106) =~= a.seeds@);
    assert(b.subrange(106, 114) =~= le_u64(a.total_allocated));
    assert(b.subrange(114, 122) =~= le_u64(a.total_claimed));
    assert forall|v: VestingDistribution| VestingDistribution::spec_reads(b, v) implies v == a by {
        lemma_address_view_eq(v.authority, a.authority);
        lemma_address_view_eq(v.mint, a.mint);
        lemma_address_view_eq(v.seeds, a.seeds);
    }
}

/// Account data holds at most one value of this type.
proof fn lemma_vesting_distribution_reads_unique(data: Seq<u8>, v1: VestingDistribution, v2: VestingDistribution)
    requires
        VestingDistribution::spec_reads(data, v1),
        VestingDistribution::spec_reads(data, v2),
    ensures
        v1 == v2,
{
    lemma_address_view_eq(v1.authority, v2.authority);
    lemma_address_view_eq(v1.mint, v2.mint);
    lemma_address_view_eq(v1.seeds, v2.seeds);
}

/// The `vesting_distribution` seed prefix.
pub const VESTING_DISTRIBUTION_SEED: [u8; 20] = [118, 101, 115, 116, 105, 110, 103, 95, 100, 105, 115, 116, 114, 105, 98, 117, 116, 105, 111, 110];

impl VestingDistribution {
    pub const PREFIX: [u8; 20] = VESTING_DISTRIBUTION_SEED;
}

impl PdaSeeds for VestingDistribution {
    open spec fn spec_seeds(&self) -> Seq<Seq<u8>> {
        seq![VESTING_DISTRIBUTION_SEED@, self.mint@, self.authority@, self.seeds@]
    }

    fn seeds(&self) -> (r: Vec<&[u8]>) {
        let r: Vec<&[u8]> = vec![
            VESTING_DISTRIBUTION_SEED.as_slice(),
            self.mint.as_slice(),
            self.authority.as_slice(),
            self.seeds.as_slice(),
        ];
        assert(seeds_view(r@) =~= self.spec_seeds());
        r
    }
}

impl VestingDistribution {
    /// A distribution with nothing allocated or claimed yet.
    pub fn new(bump: u8, authority: Address, mint: Address, seeds: Address) -> (r: VestingDistribution)
        ensures
            r == (VestingDistribution { bump, authority, mint, seeds, total_allocated: 0, total_claimed: 0 }),
    {
        VestingDistribution { bump, authority, mint, seeds, total_allocated: 0, total_claimed: 0 }
    }

    /// Parses the account data and checks that `account` is this account's
    /// PDA, found with the stored bump.
    pub fn from_account(data: &[u8], account: &Address, program_id: &Address) -> (r: Result<
        VestingDistribution,
        ProgramError,
    >)
        ensures
            !Self::spec_parses(data@) ==> r == Err::<VestingDistribution, ProgramError>(
                ProgramError::InvalidAccountData,
            ),
            Self::spec_parses(data@) ==> forall|v: VestingDistribution|
                #[trigger] Self::spec_reads(data@, v) ==> r == match spec_check_pda(
                    v.spec_seeds(),
                    account@,
                    program_id@,
                    Some(v.bump),
                ) {
                    Ok(_) => Ok::<VestingDistribution, ProgramError>(v),
                    Err(e) => Err(e),
                },
    {
        let state = Self::parse_from_bytes(data)?;
        proof {
            assert forall|v: VestingDistribution| #[trigger] Self::spec_reads(data@, v) implies v == state by {
                lemma_vesting_distribution_reads_unique(data@, v, state);
            }
        }
        state.validate_pda(account, program_id, state.bump)?;
        Ok(state)
    }

    /// Tokens in the vault beyond what is allocated and not yet claimed, each
    /// subtraction stopping at zero.
    pub fn remaining_unallocated(&self, vault_balance: u64) -> (r: u64)
        ensures
            r == ({
                let outstanding = if self.total_allocated >= self.total_claimed {
                    self.total_allocated - self.total_claimed
                } else {
                    0
                };
                if vault_balance >= outstanding {
                    vault_balance - outstanding
                } else {
                    0
                }
            }),
    {
        vault_balance.saturating_sub(self.total_allocated.saturating_sub(self.total_claimed))
    }

    pub fn validate_authority(&self, authority: &Address) -> (r: Result<(), ProgramError>)
        ensures
            r == if authority@ == self.authority@ {
                Ok::<(), ProgramError>(())
            } else {
                Err(custom(RewardsProgramError::UnauthorizedAuthority))
            },
    {
        if !crate::codec::address_eq(&self.authority, authority) {
            return Err(ProgramError::Custom(RewardsProgramError::UnauthorizedAuthority.code()));
        }
        Ok(())
    }
}

} // verus!
