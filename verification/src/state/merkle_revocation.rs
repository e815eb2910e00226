//! Marker recording that a claimant was revoked from a merkle distribution.
use vstd::prelude::*;
use crate::codec::{lemma_le_roundtrip, Address};
use crate::errors::ProgramError;
use crate::traits::account::{check_account_header, header_ok};
use crate::traits::pda::{seeds_view, spec_check_pda};
use crate::traits::{
    AccountParse,
    AccountSerialize,
    AccountSize,
    AccountValidation,
    Discriminator,
    PdaSeeds,
    Versioned,
};

verus! {

/// MerkleRevocation account state: records that a claimant was revoked from a
/// merkle distribution; its existence blocks further claims.
///
/// PDA seeds: `[b"merkle_revocation", distribution, claimant]`.
#[derive(Clone, Copy, Debug, PartialEq, Eq, Structural)]
pub struct MerkleRevocation {
    pub bump: u8,
}

impl Discriminator for MerkleRevocation {
    const DISCRIMINATOR: u8 = 6;
}

impl Versioned for MerkleRevocation {
    const VERSION: u8 = 1;
}

impl AccountSize for MerkleRevocation {
    const DATA_LEN: usize = 1;
}

impl AccountParse for MerkleRevocation {
    open spec fn spec_parses(data: Seq<u8>) -> bool {
        header_ok(data, 3, 6)
    }

    open spec fn spec_reads(data: Seq<u8>, value: MerkleRevocation) -> bool {
        &&& value.bump == data[2]
    }

    open spec fn spec_parse_error(data: Seq<u8>) -> ProgramError {
        ProgramError::InvalidAccountData
    }

    fn parse_from_bytes(data: &[u8]) -> (r: Result<MerkleRevocation, ProgramError>) {
        check_account_header(data, 3, 6)?;
        let bump = data[2];
        Ok(MerkleRevocation { bump })
    }
}

impl AccountSerialize for MerkleRevocation {
    open spec fn spec_inner(&self) -> Seq<u8> {
        seq![self.bump]
    }

    fn to_bytes_inner(&self) -> (r: Vec<u8>) {
        let mut data: Vec<u8> = Vec::new();
        data.push(self.bump);
        data
    }
}

impl AccountValidation for MerkleRevocation {}

/// Parsing the serialized account gives back exactly the account.
pub proof fn lemma_merkle_revocation_roundtrip(a: MerkleRevocation)
    ensures
        MerkleRevocation::spec_parses(a.spec_bytes()),
        forall|v: MerkleRevocation| MerkleRevocation::spec_reads(a.spec_bytes(), v) <==> v == a,
        a.spec_bytes().len() == 3,
{
    lemma_le_roundtrip();
    let b = a.spec_bytes();
}

/// The `merkle_revocation` seed prefix.
pub const MERKLE_REVOCATION_PREFIX: [u8; 17] = [109, 101, 114, 107, 108, 101, 95, 114, 101, 118, 111, 99, 97, 116, 105, 111, 110];

/// Seed helper for deriving the MerkleRevocation PDA without the full state.
pub struct MerkleRevocationSeeds {
    pub distribution: Address,
    pub claimant: Address,
}

impl MerkleRevocationSeeds {
    pub const PREFIX: [u8; 17] = MERKLE_REVOCATION_PREFIX;
}

impl PdaSeeds for MerkleRevocationSeeds {
    open spec fn spec_seeds(&self) -> Seq<Seq<u8>> {
        seq![MERKLE_REVOCATION_PREFIX@, self.distribution@, self.claimant@]
    }

    fn seeds(&self) -> (r: Vec<&[u8]>) {
        let r: Vec<&[u8]> = vec![
            MERKLE_REVOCATION_PREFIX.as_slice(),
            self.distribution.as_slice(),
            self.claimant.as_slice(),
        ];
        assert(seeds_view(r@) =~= self.spec_seeds());
        r
    }
}

impl MerkleRevocation {
    pub fn new(bump: u8) -> (r: MerkleRevocation)
        ensures
            r == (MerkleRevocation { bump }),
    {
        MerkleRevocation { bump }
    }

    /// Parses the account data and checks that `account` is the PDA of these
    /// seeds, found with the stored bump.
    pub fn from_account(
        data: &[u8],
        account: &Address,
        program_id: &Address,
        distribution: &Address,
        claimant: &Address,
    ) -> (r: Result<MerkleRevocation, ProgramError>)
        ensures
            !Self::spec_parses(data@) ==> r == Err::<MerkleRevocation, ProgramError>(
                ProgramError::InvalidAccountData,
            ),
            Self::spec_parses(data@) ==> {
                let seeds = MerkleRevocationSeeds { distribution: *distribution, claimant: *claimant };
                match spec_check_pda(seeds.spec_seeds(), account@, program_id@, Some(data@[2])) {
                    Ok(_) => r matches Ok(v) && Self::spec_reads(data@, v),
                    Err(e) => r == Err::<MerkleRevocation, ProgramError>(e),
                }
            },
    {
        let state = Self::parse_from_bytes(data)?;
        let seeds = MerkleRevocationSeeds { distribution: *distribution, claimant: *claimant };
        seeds.validate_pda(account, program_id, state.bump)?;
        Ok(state)
    }
}

} // verus!
