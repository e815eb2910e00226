//! A merkle distribution: allocations are proved against a stored root.
use vstd::prelude::*;
use crate::codec::{
    lemma_address_view_eq,
    i64_of_le,
    le_i64,
    le_u64,
    lemma_le_roundtrip,
    push_address,
    push_i64,
    push_u64,
    push_zeros,
    read_address,
    read_i64,
    read_u64,
    u64_of_le,
    zeros,
    Address,
};
use crate::errors::{ProgramError, RewardsProgramError};
use crate::traits::account::{check_account_header, header_ok};
use crate::traits::pda::{seeds_view, spec_check_pda};
use crate::traits::{
    AccountParse, AccountSerialize, AccountSize, AccountValidation, Discriminator, PdaAccount,
    PdaSeeds, Versioned,
};
use crate::traits::Distribution;

verus! {

/// MerkleDistribution account state: a distribution whose allocations are the
/// leaves of a merkle tree; claimants prove their leaf, which carries their
/// own vesting parameters.
///
/// PDA seeds: `[b"merkle_distribution", mint, authority, seed]`.
#[derive(Clone, Copy, Debug, PartialEq, Eq)]
pub struct MerkleDistribution {
    pub bump: u8,
    pub revocable: u8,
    pub authority: Address,
    pub mint: Address,
    pub seed: Address,
    pub merkle_root: [u8; 32],
    pub total_amount: u64,
    pub total_claimed: u64,
    pub clawback_ts: i64,
}

impl Discriminator for MerkleDistribution {
    const DISCRIMINATOR: u8 = 4;
}

impl Versioned for MerkleDistribution {
    const VERSION: u8 = 1;
}

impl AccountSize for MerkleDistribution {
    const DATA_LEN: usize = 160;
}

impl AccountParse for MerkleDistribution {
    open spec fn spec_parses(data: Seq<u8>) -> bool {
        header_ok(data, 162, 4)
    }

    open spec fn spec_reads(data: Seq<u8>, value: MerkleDistribution) -> bool {
        &&& value.bump == data[2]
        &&& value.revocable == data[3]
        &&& value.authority@ == data.subrange(10, 42)
        &&& value.mint@ == data.subrange(42, 74)
        &&& value.seed@ == data.subrange(74, 106)
        &&& value.merkle_root@ == data.subrange(106, 138)
        &&& value.total_amount == u64_of_le(data.subrange(138, 146))
        &&& value.total_claimed == u64_of_le(data.subrange(146, 154))
        &&& value.clawback_ts == i64_of_le(data.subrange(154, 162))
    }

    open spec fn spec_parse_error(data: Seq<u8>) -> ProgramError {
        ProgramError::InvalidAccountData
    }

    fn parse_from_bytes(data: &[u8]) -> (r: Result<MerkleDistribution, ProgramError>) {
        check_account_header(data, 162, 4)?;
        let bump = data[2];
        let revocable = data[3];
        let authority = read_address(data, 10);
        let mint = read_address(data, 42);
        let seed = read_address(data, 74);
        let merkle_root = read_address(data, 106);
        let total_amount = read_u64(data, 138);
        let total_claimed = read_u64(data, 146);
        let clawback_ts = read_i64(data, 154);
        Ok(MerkleDistribution { bump, revocable, authority, mint, seed, merkle_root, total_amount, total_claimed, clawback_ts })
    }
}

impl AccountSerialize for MerkleDistribution {
    open spec fn spec_inner(&self) -> Seq<u8> {
        seq![self.bump]
            + seq![self.revocable]
            + zeros(6)
            + self.authority@
            + self.mint@
            + self.seed@
            + self.merkle_root@
            + le_u64(self.total_amount)
            + le_u64(self.total_claimed)
            + le_i64(self.clawback_ts)
    }

    fn to_bytes_inner(&self) -> (r: Vec<u8>) {
        let mut data: Vec<u8> = Vec::new();
        data.push(self.bump);
        data.push(self.revocable);
        push_zeros(&mut data, 6);
        push_address(&mut data, &self.authority);
        push_address(&mut data, &self.mint);
        push_address(&mut data, &self.seed);
        push_address(&mut data, &self.merkle_root);
        push_u64(&mut data, self.total_amount);
        push_u64(&mut data, self.total_claimed);
        push_i64(&mut data, self.clawback_ts);
        data
    }
}

impl AccountValidation for MerkleDistribution {}

/// Parsing the serialized account gives back exactly the account.
pub proof fn lemma_merkle_distribution_roundtrip(a: MerkleDistribution)
    ensures
        MerkleDistribution::spec_parses(a.spec_bytes()),
        forall|v: MerkleDistribution| MerkleDistribution::spec_reads(a.spec_bytes(), v) <==> v == a,
        a.spec_bytes().len() == 162,
{
    lemma_le_roundtrip();
    let b = a.spec_bytes();
    assert(b.subrange(10, 42) =~= a.authority@);
    assert(b.subrange(42, 74) =~= a.mint@);
    assert(b.subrange(74, 106) =~= a.seed@);
    assert(b.subrange(106, 138) =~= a.merkle_root@);
    assert(b.subrange(138, 146) =~= le_u64(a.total_amount));
    assert(b.subrange(146, 154) =~= le_u64(a.total_claimed));
    assert(b.subrange(154, 162) =~= le_i64(a.clawback_ts));
    assert forall|v: MerkleDistribution| MerkleDistribution::spec_reads(b, v) implies v == a by {
        lemma_address_view_eq(v.authority, a.authority);
        lemma_address_view_eq(v.mint, a.mint);
        lemma_address_view_eq(v.seed, a.seed);
        lemma_address_view_eq(v.merkle_root, a.merkle_root);
    }
}

/// Account data holds at most one value of this type.
proof fn lemma_merkle_distribution_reads_unique(data: Seq<u8>, v1: MerkleDistribution, v2: MerkleDistribution)
    requires
        MerkleDistribution::spec_reads(data, v1),
        MerkleDistribution::spec_reads(data, v2),
    ensures
        v1 == v2,
{
    lemma_address_view_eq(v1.authority, v2.authority);
    lemma_address_view_eq(v1.mint, v2.mint);
    lemma_address_view_eq(v1.seed, v2.seed);
    lemma_address_view_eq(v1.merkle_root, v2.merkle_root);
}

/// The `merkle_distribution` seed prefix.
pub const MERKLE_DISTRIBUTION_PREFIX: [u8; 19] = [109, 101, 114, 107, 108, 101, 95, 100, 105, 115, 116, 114, 105, 98, 117, 116, 105, 111, 110];

impl MerkleDistribution {
    pub const PREFIX: [u8; 19] = MERKLE_DISTRIBUTION_PREFIX;
}

impl PdaSeeds for MerkleDistribution {
    open spec fn spec_seeds(&self) -> Seq<Seq<u8>> {
        seq![MERKLE_DISTRIBUTION_PREFIX@, self.mint@, self.authority@, self.seed@]
    }

    fn seeds(&self) -> (r: Vec<&[u8]>) {
        let r: Vec<&[u8]> = vec![
            MERKLE_DISTRIBUTION_PREFIX.as_slice(),
            self.mint.as_slice(),
            self.authority.as_slice(),
            self.seed.as_slice(),
        ];
        assert(seeds_view(r@) =~= self.spec_seeds());
        r
    }
}

impl PdaAccount for MerkleDistribution {
    open spec fn spec_bump(&self) -> u8 {
        self.bump
    }

    fn bump(&self) -> (r: u8) {
        self.bump
    }
}

impl Distribution for MerkleDistribution {
    open spec fn spec_mint(&self) -> Address {
        self.mint
    }

    open spec fn spec_authority(&self) -> Address {
        self.authority
    }

    open spec fn spec_seeds_key(&self) -> Address {
        self.seed
    }

    open spec fn spec_total_claimed(&self) -> u64 {
        self.total_claimed
    }

    open spec fn spec_with_total_claimed(&self, amount: u64) -> MerkleDistribution {
        MerkleDistribution { total_claimed: amount, ..*self }
    }

    fn mint(&self) -> (r: &Address) {
        &self.mint
    }

    fn authority(&self) -> (r: &Address) {
        &self.authority
    }

    fn seeds_key(&self) -> (r: &Address) {
        &self.seed
    }

    fn total_claimed(&self) -> (r: u64) {
        self.total_claimed
    }

    fn set_total_claimed(&mut self, amount: u64) -> (r: Result<(), ProgramError>) {
        if amount < self.total_claimed {
            return Err(ProgramError::Custom(RewardsProgramError::ClaimedAmountDecreased.code()));
        }
        self.total_claimed = amount;
        Ok(())
    }
}

impl MerkleDistribution {
    /// A distribution with nothing claimed yet.
    pub fn new(
        bump: u8,
        revocable: u8,
        authority: Address,
        mint: Address,
        seeds: Address,
        merkle_root: [u8; 32],
        total_amount: u64,
        clawback_ts: i64,
    ) -> (r: MerkleDistribution)
        ensures
            r == (MerkleDistribution {
                bump,
                revocable,
                authority,
                mint,
                seed: seeds,
                merkle_root,
                total_amount,
                total_claimed: 0,
                clawback_ts,
            }),
    {
        MerkleDistribution {
            bump,
            revocable,
            authority,
            mint,
            seed: seeds,
            merkle_root,
            total_amount,
            total_claimed: 0,
            clawback_ts,
        }
    }

    /// Parses the account data and checks that `account` is this account's
    /// PDA, found with the stored bump.
    pub fn from_account(data: &[u8], account: &Address, program_id: &Address) -> (r: Result<
        MerkleDistribution,
        ProgramError,
    >)
        ensures
            !Self::spec_parses(data@) ==> r == Err::<MerkleDistribution, ProgramError>(
                ProgramError::InvalidAccountData,
            ),
            Self::spec_parses(data@) ==> forall|v: MerkleDistribution|
                #[trigger] Self::spec_reads(data@, v) ==> r == match spec_check_pda(
                    v.spec_seeds(),
                    account@,
                    program_id@,
                    Some(v.bump),
                ) {
                    Ok(_) => Ok::<MerkleDistribution, ProgramError>(v),
                    Err(e) => Err(e),
                },
    {
        let state = Self::parse_from_bytes(data)?;
        proof {
            assert forall|v: MerkleDistribution| #[trigger] Self::spec_reads(data@, v) implies v == state by {
                lemma_merkle_distribution_reads_unique(data@, v, state);
            }
        }
        state.validate_pda(account, program_id, state.bump)?;
        Ok(state)
    }
}

} // verus!
