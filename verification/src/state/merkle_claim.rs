//! Per-claimant record of what was claimed from a merkle distribution.
use vstd::prelude::*;
use crate::codec::{le_u64, push_u64, push_zeros, read_u64, u64_of_le, zeros, Address, lemma_le_roundtrip};
use crate::errors::{ProgramError, RewardsProgramError};
use crate::traits::account::{check_account_header, header_ok};
use crate::traits::{
    AccountParse, AccountSerialize, AccountSize, AccountValidation, ClaimTracker, Discriminator,
    PdaSeeds, Versioned,
};
use crate::traits::pda::seeds_view;

verus! {

/// MerkleClaim account state: how much a claimant has claimed from a merkle
/// distribution.
///
/// PDA seeds: `[b"merkle_claim", distribution, claimant]`.
#[derive(Clone, Copy, Debug, PartialEq, Eq, Structural)]
pub struct MerkleClaim {
    pub bump: u8,
    pub claimed_amount: u64,
}

impl Discriminator for MerkleClaim {
    const DISCRIMINATOR: u8 = 5;
}

impl Versioned for MerkleClaim {
    const VERSION: u8 = 1;
}

impl AccountSize for MerkleClaim {
    const DATA_LEN: usize = 16;
}

impl AccountParse for MerkleClaim {
    open spec fn spec_parses(data: Seq<u8>) -> bool {
        header_ok(data, 18, 5)
    }

    open spec fn spec_reads(data: Seq<u8>, value: MerkleClaim) -> bool {
        &&& value.bump == data[2]
        &&& value.claimed_amount == u64_of_le(data.subrange(10, 18))
    }

    open spec fn spec_parse_error(data: Seq<u8>) -> ProgramError {
        ProgramError::InvalidAccountData
    }

    fn parse_from_bytes(data: &[u8]) -> (r: Result<MerkleClaim, ProgramError>) {
        check_account_header(data, 18, 5)?;
        let bump = data[2];
        let claimed_amount = read_u64(data, 10);
        Ok(MerkleClaim { bump, claimed_amount })
    }
}

impl AccountSerialize for MerkleClaim {
    open spec fn spec_inner(&self) -> Seq<u8> {
        seq![self.bump] + zeros(7) + le_u64(self.claimed_amount)
    }

    fn to_bytes_inner(&self) -> (r: Vec<u8>) {
        let mut data: Vec<u8> = Vec::new();
        data.push(self.bump);
        push_zeros(&mut data, 7);
        push_u64(&mut data, self.claimed_amount);
        data
    }
}

impl AccountValidation for MerkleClaim {}

impl ClaimTracker for MerkleClaim {
    open spec fn spec_claimed(&self) -> u64 {
        self.claimed_amount
    }

    open spec fn spec_with_claimed(&self, amount: u64) -> MerkleClaim {
        MerkleClaim { claimed_amount: amount, ..*self }
    }

    fn claimed_amount(&self) -> (r: u64) {
        self.claimed_amount
    }

    /// Any amount is accepted.
    open spec fn spec_set_claimed_result(&self, amount: u64) -> Result<(), ProgramError> {
        Ok(())
    }

    fn set_claimed_amount(&mut self, amount: u64) -> (r: Result<(), ProgramError>) {
        self.claimed_amount = amount;
        Ok(())
    }
}

/// The `merkle_claim` seed prefix.
pub const MERKLE_CLAIM_PREFIX: [u8; 12] = [109, 101, 114, 107, 108, 101, 95, 99, 108, 97, 105, 109];

/// Seed helper for deriving the MerkleClaim PDA without the full state.
pub struct MerkleClaimSeeds {
    pub distribution: Address,
    pub claimant: Address,
}

impl MerkleClaimSeeds {
    pub const PREFIX: [u8; 12] = MERKLE_CLAIM_PREFIX;
}

impl PdaSeeds for MerkleClaimSeeds {
    open spec fn spec_seeds(&self) -> Seq<Seq<u8>> {
        seq![MERKLE_CLAIM_PREFIX@, self.distribution@, self.claimant@]
    }

    fn seeds(&self) -> (r: Vec<&[u8]>) {
        let r: Vec<&[u8]> = vec![
            MERKLE_CLAIM_PREFIX.as_slice(),
            self.distribution.as_slice(),
            self.claimant.as_slice(),
        ];
        assert(seeds_view(r@) =~= self.spec_seeds());
        r
    }
}

impl MerkleClaim {
    pub fn new(bump: u8) -> (r: MerkleClaim)
        ensures
            r == (MerkleClaim { bump, claimed_amount: 0 }),
    {
        MerkleClaim { bump, claimed_amount: 0 }
    }

    /// Parses the account data and checks that `account` is the claim PDA of
    /// `claimant` in `distribution`, found with the stored bump.
    pub fn from_account(
        data: &[u8],
        account: &Address,
        program_id: &Address,
        distribution: &Address,
        claimant: &Address,
    ) -> (r: Result<MerkleClaim, ProgramError>)
        ensures
            !Self::spec_parses(data@) ==> r == Err::<MerkleClaim, ProgramError>(
                ProgramError::InvalidAccountData,
            ),
            Self::spec_parses(data@) ==> {
                let seeds = MerkleClaimSeeds { distribution: *distribution, claimant: *claimant };
                match crate::traits::pda::spec_check_pda(
                    seeds.spec_seeds(),
                    account@,
                    program_id@,
                    Some(data@[2]),
                ) {
                    Ok(_) => r matches Ok(v) && Self::spec_reads(data@, v),
                    Err(e) => r == Err::<MerkleClaim, ProgramError>(e),
                }
            },
    {
        let state = Self::parse_from_bytes(data)?;
        let seeds = MerkleClaimSeeds { distribution: *distribution, claimant: *claimant };
        seeds.validate_pda(account, program_id, state.bump)?;
        Ok(state)
    }

    /// What is left of `total_amount` once the claimed amount is paid out.
    pub fn remaining_amount(&self, total_amount: u64) -> (r: Result<u64, RewardsProgramError>)
        ensures
            r == if total_amount >= self.claimed_amount {
                Ok((total_amount - self.claimed_amount) as u64)
            } else {
                Err(RewardsProgramError::MathOverflow)
            },
    {
        if total_amount >= self.claimed_amount {
            Ok(total_amount - self.claimed_amount)
        } else {
            Err(RewardsProgramError::MathOverflow)
        }
    }
}

/// Parsing the serialized account gives back exactly the account.
pub proof fn lemma_merkle_claim_roundtrip(c: MerkleClaim)
    ensures
        MerkleClaim::spec_parses(c.spec_bytes()),
        forall|v: MerkleClaim| MerkleClaim::spec_reads(c.spec_bytes(), v) <==> v == c,
        c.spec_bytes().len() == 18,
{
    lemma_le_roundtrip();
    let b = c.spec_bytes();
    assert(b.subrange(10, 18) =~= le_u64(c.claimed_amount));
}

} // verus!
