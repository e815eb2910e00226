//! Marker recording that a user was revoked from a distribution or reward pool.
use vstd::prelude::*;
use crate::codec::{lemma_le_roundtrip, Address};
use crate::errors::ProgramError;
use crate::traits::account::{check_account_header, header_ok};
use crate::traits::pda::{seeds_view, spec_check_pda};
use crate::traits::{
    AccountParse,
    AccountSerialize,
    AccountSize,
    AccountValidation,
    Discriminator,
    PdaSeeds,
    Versioned,
};

verus! {

/// Revocation account state: records that a user was revoked from a
/// distribution or reward pool; its existence blocks further claims or
/// opt-ins.
///
/// PDA seeds: `[b"revocation", parent, user]`.
#[derive(Clone, Copy, Debug, PartialEq, Eq, Structural)]
pub struct Revocation {
    pub bump: u8,
}

impl Discriminator for Revocation {
    const DISCRIMINATOR: u8 = 7;
}

impl Versioned for Revocation {
    const VERSION: u8 = 1;
}

impl AccountSize for Revocation {
    const DATA_LEN: usize = 1;
}

impl AccountParse for Revocation {
    open spec fn spec_parses(data: Seq<u8>) -> bool {
        header_ok(data, 3, 7)
    }

    open spec fn spec_reads(data: Seq<u8>, value: Revocation) -> bool {
        &&& value.bump == data[2]
    }

    open spec fn spec_parse_error(data: Seq<u8>) -> ProgramError {
        ProgramError::InvalidAccountData
    }

    fn parse_from_bytes(data: &[u8]) -> (r: Result<Revocation, ProgramError>) {
        check_account_header(data, 3, 7)?;
        let bump = data[2];
        Ok(Revocation { bump })
    }
}

impl AccountSerialize for Revocation {
    open spec fn spec_inner(&self) -> Seq<u8> {
        seq![self.bump]
    }

    fn to_bytes_inner(&self) -> (r: Vec<u8>) {
        let mut data: Vec<u8> = Vec::new();
        data.push(self.bump);
        data
    }
}

impl AccountValidation for Revocation {}

/// Parsing the serialized account gives back exactly the account.
pub proof fn lemma_revocation_roundtrip(a: Revocation)
    ensures
        Revocation::spec_parses(a.spec_bytes()),
        forall|v: Revocation| Revocation::spec_reads(a.spec_bytes(), v) <==> v == a,
        a.spec_bytes().len() == 3,
{
    lemma_le_roundtrip();
    let b = a.spec_bytes();
}

/// The `revocation` seed prefix.
pub const REVOCATION_PREFIX: [u8; 10] = [114, 101, 118, 111, 99, 97, 116, 105, 111, 110];

/// Seed helper for deriving the Revocation PDA: `parent` is the distribution or
/// reward pool, `user` the claimant or user.
pub struct RevocationSeeds {
    pub parent: Address,
    pub user: Address,
}

impl RevocationSeeds {
    pub const PREFIX: [u8; 10] = REVOCATION_PREFIX;
}

impl PdaSeeds for RevocationSeeds {
    open spec fn spec_seeds(&self) -> Seq<Seq<u8>> {
        seq![REVOCATION_PREFIX@, self.parent@, self.user@]
    }

    fn seeds(&self) -> (r: Vec<&[u8]>) {
        let r: Vec<&[u8]> = vec![
            REVOCATION_PREFIX.as_slice(),
            self.parent.as_slice(),
            self.user.as_slice(),
        ];
        assert(seeds_view(r@) =~= self.spec_seeds());
        r
    }
}

impl Revocation {
    pub fn new(bump: u8) -> (r: Revocation)
        ensures
            r == (Revocation { bump }),
    {
        Revocation { bump }
    }

    /// Parses the account data and checks that `account` is the PDA of these
    /// seeds, found with the stored bump.
    pub fn from_account(
        data: &[u8],
        account: &Address,
        program_id: &Address,
        parent: &Address,
        user: &Address,
    ) -> (r: Result<Revocation, ProgramError>)
        ensures
            !Self::spec_parses(data@) ==> r == Err::<Revocation, ProgramError>(
                ProgramError::InvalidAccountData,
            ),
            Self::spec_parses(data@) ==> {
                let seeds = RevocationSeeds { parent: *parent, user: *user };
                match spec_check_pda(seeds.spec_seeds(), account@, program_id@, Some(data@[2])) {
                    Ok(_) => r matches Ok(v) && Self::spec_reads(data@, v),
                    Err(e) => r == Err::<Revocation, ProgramError>(e),
                }
            },
    {
        let state = Self::parse_from_bytes(data)?;
        let seeds = RevocationSeeds { parent: *parent, user: *user };
        seeds.validate_pda(account, program_id, state.bump)?;
        Ok(state)
    }
}

} // verus!
