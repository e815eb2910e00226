//! Checks of the accounts passed to an instruction: signers, writable and
//! read-only flags, and owners.
use vstd::prelude::*;
use crate::codec::{address_eq, Address};
use crate::errors::ProgramError;
use crate::traits::pda::{seeds_view, spec_check_pda};
use crate::traits::PdaSeeds;
use crate::utils::program_utils::ID;

verus! {

/// What the account checks read of an account passed to an instruction.
#[derive(Clone, Copy, Debug)]
pub struct AccountFacts {
    pub address: Address,
    pub owner: Address,
    pub is_signer: bool,
    pub is_writable: bool,
    pub data_len: usize,
}

/// The first failure of two checks made one after the other.
pub open spec fn then_check(first: Result<(), ProgramError>, next: Result<(), ProgramError>) -> Result<
    (),
    ProgramError,
> {
    if first is Err {
        first
    } else {
        next
    }
}

/// A signer, and writable too when `expect_writable`.
pub open spec fn spec_verify_signer(info: AccountFacts, expect_writable: bool) -> Result<(), ProgramError> {
    if !info.is_signer {
        Err(ProgramError::MissingRequiredSignature)
    } else if expect_writable && !info.is_writable {
        Err(ProgramError::Immutable)
    } else {
        Ok(())
    }
}

/// Writable when `expect_writable`.
pub open spec fn spec_verify_writable(info: AccountFacts, expect_writable: bool) -> Result<(), ProgramError> {
    if expect_writable && !info.is_writable {
        Err(ProgramError::Immutable)
    } else {
        Ok(())
    }
}

/// Not writable.
pub open spec fn spec_verify_readonly(info: AccountFacts) -> Result<(), ProgramError> {
    if info.is_writable {
        Err(ProgramError::InvalidArgument)
    } else {
        Ok(())
    }
}

/// Owned by `owner`.
pub open spec fn spec_verify_owned_by(info: AccountFacts, owner: Seq<u8>) -> Result<(), ProgramError> {
    if info.owner@ != owner {
        Err(ProgramError::InvalidAccountOwner)
    } else {
        Ok(())
    }
}

/// Fails with `MissingRequiredSignature` unless the account signed, and with
/// `Immutable` if it must be writable and is not.
pub fn verify_signer(info: &AccountFacts, expect_writable: bool) -> (r: Result<(), ProgramError>)
    ensures
        r == spec_verify_signer(*info, expect_writable),
{
    if !info.is_signer {
        return Err(ProgramError::MissingRequiredSignature);
    }
    if expect_writable && !info.is_writable {
        return Err(ProgramError::Immutable);
    }
    Ok(())
}

/// Fails with `Immutable` if the account must be writable and is not.
pub fn verify_writable(info: &AccountFacts, expect_writable: bool) -> (r: Result<(), ProgramError>)
    ensures
        r == spec_verify_writable(*info, expect_writable),
{
    if expect_writable && !info.is_writable {
        return Err(ProgramError::Immutable);
    }
    Ok(())
}

/// Fails with `InvalidArgument` if the account is writable.
pub fn verify_readonly(info: &AccountFacts) -> (r: Result<(), ProgramError>)
    ensures
        r == spec_verify_readonly(*info),
{
    if info.is_writable {
        return Err(ProgramError::InvalidArgument);
    }
    Ok(())
}

/// Fails with `InvalidAccountOwner` unless `owner` owns the account.
pub fn verify_owned_by(info: &AccountFacts, owner: &Address) -> (r: Result<(), ProgramError>)
    ensures
        r == spec_verify_owned_by(*info, owner@),
{
    if !address_eq(&info.owner, owner) {
        return Err(ProgramError::InvalidAccountOwner);
    }
    Ok(())
}

/// Fails with `InvalidAccountOwner` unless this program owns the account.
pub fn verify_current_program_account(info: &AccountFacts) -> (r: Result<(), ProgramError>)
    ensures
        r == spec_verify_owned_by(*info, ID@),
{
    verify_owned_by(info, &ID)
}

/// The `__event_authority` seed of the PDA that signs the program's event
/// self-invocations.
pub const EVENT_AUTHORITY_SEED: [u8; 17] = [
    95, 95, 101, 118, 101, 110, 116, 95, 97, 117, 116, 104, 111, 114, 105, 116, 121,
];

/// The seeds of the event authority PDA: `[b"__event_authority"]`.
pub struct EventAuthoritySeeds {}

impl PdaSeeds for EventAuthoritySeeds {
    open spec fn spec_seeds(&self) -> Seq<Seq<u8>> {
        seq![EVENT_AUTHORITY_SEED@]
    }

    fn seeds(&self) -> (r: Vec<&[u8]>) {
        let r: Vec<&[u8]> = vec![EVENT_AUTHORITY_SEED.as_slice()];
        assert(seeds_view(r@) =~= self.spec_seeds());
        r
    }
}

/// The account is this program's event authority PDA (`InvalidSeeds`
/// otherwise).
pub open spec fn spec_verify_event_authority(info: AccountFacts) -> Result<(), ProgramError> {
    match spec_check_pda(EventAuthoritySeeds {}.spec_seeds(), info.address@, ID@, None) {
        Ok(_) => Ok(()),
        Err(e) => Err(e),
    }
}

/// Fails with `InvalidSeeds` unless the account is this program's event
/// authority PDA.
pub fn verify_event_authority(info: &AccountFacts) -> (r: Result<(), ProgramError>)
    ensures
        r == spec_verify_event_authority(*info),
{
    let seeds = EventAuthoritySeeds {};
    seeds.validate_pda_address(&info.address, &ID)?;
    Ok(())
}

} // verus!
