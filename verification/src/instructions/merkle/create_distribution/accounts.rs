//! The accounts of CreateMerkleDistribution and their checks.
use vstd::prelude::*;
use crate::errors::ProgramError;
use crate::instructions::merkle::revoke_claim::accounts::spec_expect_token_program;
use crate::utils::account_utils::{
    spec_verify_event_authority, spec_verify_owned_by, spec_verify_signer, spec_verify_writable, then_check,
    verify_event_authority, verify_owned_by, verify_signer, verify_writable, AccountFacts,
};
use crate::utils::program_utils::{
    spec_expect_program, verify_associated_token_program, verify_current_program, verify_system_program,
    verify_token_program, ASSOCIATED_TOKEN_ACCOUNT_PROGRAM_ID, ID, SYSTEM_PROGRAM_ID,
};

verus! {

/// The number of accounts CreateMerkleDistribution takes.
pub const CREATE_MERKLE_DISTRIBUTION_ACCOUNTS: usize = 12;

/// The checks of the 12 accounts of CreateMerkleDistribution, in order:
/// payer, authority, seeds, distribution, mint, distribution vault,
/// authority token account, system program, token program, associated token
/// program, event authority, program. The first failing check decides the
/// error.
pub open spec fn spec_check_create_merkle_distribution_accounts(accounts: Seq<AccountFacts>) -> Result<
    (),
    ProgramError,
> {
    if accounts.len() != CREATE_MERKLE_DISTRIBUTION_ACCOUNTS {
        Err(ProgramError::NotEnoughAccountKeys)
    } else {
        let payer = accounts[0];
        let authority = accounts[1];
        let seeds = accounts[2];
        let distribution = accounts[3];
        let mint = accounts[4];
        let distribution_vault = accounts[5];
        let authority_token_account = accounts[6];
        let system_program = accounts[7];
        let token_program = accounts[8];
        let associated_token_program = accounts[9];
        let event_authority = accounts[10];
        let program = accounts[11];
        let signers = then_check(
            then_check(spec_verify_signer(payer, true), spec_verify_signer(authority, false)),
            spec_verify_signer(seeds, false),
        );
        let writable = then_check(
            then_check(
                spec_verify_writable(distribution, true),
                spec_verify_writable(distribution_vault, true),
            ),
            spec_verify_writable(authority_token_account, true),
        );
        let programs = then_check(
            then_check(
                then_check(
                    spec_expect_program(system_program.address, SYSTEM_PROGRAM_ID),
                    spec_expect_token_program(token_program),
                ),
                spec_expect_program(associated_token_program.address, ASSOCIATED_TOKEN_ACCOUNT_PROGRAM_ID),
            ),
            then_check(
                spec_expect_program(program.address, ID),
                spec_verify_event_authority(event_authority),
            ),
        );
        let owners = then_check(
            spec_verify_owned_by(mint, token_program.address@),
            spec_verify_owned_by(authority_token_account, token_program.address@),
        );
        then_check(
            then_check(signers, writable),
            then_check(programs, owners),
        )
    }
}

/// Checks the accounts of CreateMerkleDistribution: the payer signs and is
/// writable, the authority and the seeds account sign; the distribution, the
/// vault and the authority token account are writable; the system program, a
/// token program, the associated token account program, this program and its
/// event authority are where they must be; the token program owns the mint
/// and the authority token account.
pub fn check_create_merkle_distribution_accounts(accounts: &[AccountFacts]) -> (r: Result<(), ProgramError>)
    ensures
        r == spec_check_create_merkle_distribution_accounts(accounts@),
{
    if accounts.len() != CREATE_MERKLE_DISTRIBUTION_ACCOUNTS {
        return Err(ProgramError::NotEnoughAccountKeys);
    }
    let payer = &accounts[0];
    let authority = &accounts[1];
    let seeds = &accounts[2];
    let distribution = &accounts[3];
    let mint = &accounts[4];
    let distribution_vault = &accounts[5];
    let authority_token_account = &accounts[6];
    let system_program = &accounts[7];
    let token_program = &accounts[8];
    let associated_token_program = &accounts[9];
    let event_authority = &accounts[10];
    let program = &accounts[11];
    verify_signer(payer, true)?;
    verify_signer(authority, false)?;
    verify_signer(seeds, false)?;
    verify_writable(distribution, true)?;
    verify_writable(distribution_vault, true)?;
    verify_writable(authority_token_account, true)?;
    verify_system_program(&system_program.address)?;
    verify_token_program(&token_program.address)?;
    verify_associated_token_program(&associated_token_program.address)?;
    verify_current_program(&program.address)?;
    verify_event_authority(event_authority)?;
    verify_owned_by(mint, &token_program.address)?;
    verify_owned_by(authority_token_account, &token_program.address)
}

} // verus!
