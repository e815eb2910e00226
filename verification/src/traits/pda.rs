//! Program-derived addresses of the program's accounts.
use vstd::prelude::*;
use crate::codec::{address_eq, Address};
use crate::errors::ProgramError;

verus! {

/// The address and bump that `solana_address::Address::try_find_program_address`
/// finds for `seeds` under `program_id`, or `None` where it finds none.
pub uninterp spec fn program_address_search(seeds: Seq<Seq<u8>>, program_id: Seq<u8>) -> Option<
    (Seq<u8>, u8),
>;

/// The views of a list of seeds.
pub open spec fn seeds_view(seeds: Seq<&[u8]>) -> Seq<Seq<u8>> {
    seeds.map_values(|s: &[u8]| s@)
}

/// Calls `solana_address::Address::try_find_program_address`. The contract claims
/// that the result is the one its name gives for these seeds and program id (the
/// search is a function of its arguments alone), and that it returns `None`
/// rather than panicking; which bump it finds is not stated.
#[verifier::external_body]
fn try_find_program_address(seeds: &[&[u8]], program_id: &Address) -> (r: Option<(Address, u8)>)
    ensures
        match r {
            Some((a, b)) => program_address_search(seeds_view(seeds@), program_id@) == Some(
                (a@, b),
            ),
            None => program_address_search(seeds_view(seeds@), program_id@) is None,
        },
{
    let id = solana_address::Address::new_from_array(*program_id);
    match solana_address::Address::try_find_program_address(seeds, &id) {
        Some((a, b)) => Some((a.to_bytes(), b)),
        None => None,
    }
}

/// The outcome of checking an account address against the address derived from
/// `seeds`, with the bump the derivation must have found (if any is expected).
pub open spec fn spec_check_pda(
    seeds: Seq<Seq<u8>>,
    account: Seq<u8>,
    program_id: Seq<u8>,
    expected_bump: Option<u8>,
) -> Result<u8, ProgramError> {
    match program_address_search(seeds, program_id) {
        None => Err(ProgramError::InvalidSeeds),
        Some((derived, bump)) => if (expected_bump matches Some(b) && b != bump) || account
            != derived {
            Err(ProgramError::InvalidSeeds)
        } else {
            Ok(bump)
        },
    }
}

/// PDA seed generation tied to state structs
pub trait PdaSeeds {
    /// The seeds, without bump.
    spec fn spec_seeds(&self) -> Seq<Seq<u8>>;

    /// Generate seeds for PDA derivation (without bump)
    fn seeds(&self) -> (r: Vec<&[u8]>)
        ensures
            seeds_view(r@) == self.spec_seeds(),
    ;

    /// Derive the PDA address and its canonical bump from the seeds.
    fn derive_address(&self, program_id: &Address) -> (r: Option<(Address, u8)>)
        ensures
            match r {
                Some((a, b)) => program_address_search(self.spec_seeds(), program_id@) == Some(
                    (a@, b),
                ),
                None => program_address_search(self.spec_seeds(), program_id@) is None,
            },
    {
        let seeds = self.seeds();
        try_find_program_address(seeds.as_slice(), program_id)
    }

    /// Validate that the account address is the derived PDA, found with `expected_bump`.
    fn validate_pda(&self, account: &Address, program_id: &Address, expected_bump: u8) -> (r:
        Result<(), ProgramError>)
        ensures
            r == match spec_check_pda(self.spec_seeds(), account@, program_id@, Some(expected_bump)) {
                Ok(_) => Ok::<(), ProgramError>(()),
                Err(e) => Err(e),
            },
    {
        match self.derive_address(program_id) {
            None => Err(ProgramError::InvalidSeeds),
            Some((derived, bump)) => {
                if bump != expected_bump {
                    return Err(ProgramError::InvalidSeeds);
                }
                if !address_eq(account, &derived) {
                    return Err(ProgramError::InvalidSeeds);
                }
                Ok(())
            },
        }
    }

    /// Validate that the account address is the derived PDA; returns the canonical bump.
    fn validate_pda_address(&self, account: &Address, program_id: &Address) -> (r: Result<
        u8,
        ProgramError,
    >)
        ensures
            r == spec_check_pda(self.spec_seeds(), account@, program_id@, None),
    {
        match self.derive_address(program_id) {
            None => Err(ProgramError::InvalidSeeds),
            Some((derived, bump)) => {
                if !address_eq(account, &derived) {
                    return Err(ProgramError::InvalidSeeds);
                }
                Ok(bump)
            },
        }
    }
}

/// Account types that store their PDA bump.
pub trait PdaAccount: PdaSeeds {
    spec fn spec_bump(&self) -> u8;

    /// Returns the stored bump seed for this account's PDA
    fn bump(&self) -> (r: u8)
        ensures
            r == self.spec_bump(),
    ;

    /// Validate that the account address is the PDA derived with the stored bump.
    fn validate_self(&self, account: &Address, program_id: &Address) -> (r: Result<
        (),
        ProgramError,
    >)
        ensures
            r == match spec_check_pda(
                self.spec_seeds(),
                account@,
                program_id@,
                Some(self.spec_bump()),
            ) {
                Ok(_) => Ok::<(), ProgramError>(()),
                Err(e) => Err(e),
            },
    {
        let b = self.bump();
        self.validate_pda(account, program_id, b)
    }
}

} // verus!
