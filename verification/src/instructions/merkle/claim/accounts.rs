//! The accounts of ClaimMerkle and their checks.
use vstd::prelude::*;
use crate::errors::ProgramError;
use crate::instructions::merkle::revoke_claim::accounts::spec_expect_token_program;
use crate::utils::account_utils::{
    spec_verify_event_authority, spec_verify_owned_by, spec_verify_signer, spec_verify_writable, then_check,
    verify_current_program_account, verify_event_authority, verify_owned_by, verify_signer, verify_writable,
    AccountFacts,
};
use crate::utils::program_utils::{
    spec_expect_program, verify_current_program, verify_system_program, verify_token_program, ID,
    SYSTEM_PROGRAM_ID,
};
use crate::utils::token_utils::{spec_validate_associated_token_account, validate_associated_token_account};

verus! {

/// The number of accounts ClaimMerkle takes.
pub const CLAIM_MERKLE_ACCOUNTS: usize = 12;

/// The checks of the 12 accounts of ClaimMerkle, in order: payer, claimant,
/// distribution, claim account, revocation marker, mint, distribution
/// vault, claimant token account, system program, token program, event
/// authority, program. The first failing check decides the error.
pub open spec fn spec_check_claim_merkle_accounts(accounts: Seq<AccountFacts>) -> Result<
    (),
    ProgramError,
> {
    if accounts.len() != CLAIM_MERKLE_ACCOUNTS {
        Err(ProgramError::NotEnoughAccountKeys)
    } else {
        let payer = accounts[0];
        let claimant = accounts[1];
        let distribution = accounts[2];
        let claim_account = accounts[3];
        let mint = accounts[5];
        let distribution_vault = accounts[6];
        let claimant_token_account = accounts[7];
        let system_program = accounts[8];
        let token_program = accounts[9];
        let event_authority = accounts[10];
        let program = accounts[11];
        let signers = then_check(spec_verify_signer(payer, true), spec_verify_signer(claimant, false));
        let writable = then_check(
            then_check(
                spec_verify_writable(distribution, true),
                spec_verify_writable(claim_account, true),
            ),
            then_check(
                spec_verify_writable(distribution_vault, true),
                spec_verify_writable(claimant_token_account, true),
            ),
        );
        let programs = then_check(
            then_check(
                spec_expect_program(system_program.address, SYSTEM_PROGRAM_ID),
                spec_expect_token_program(token_program),
            ),
            then_check(
                spec_expect_program(program.address, ID),
                spec_verify_event_authority(event_authority),
            ),
        );
        let owners = then_check(
            then_check(
                spec_verify_owned_by(distribution, ID@),
                spec_verify_owned_by(mint, token_program.address@),
            ),
            spec_verify_owned_by(claimant_token_account, token_program.address@),
        );
        let vault = spec_validate_associated_token_account(
            distribution_vault.address,
            distribution_vault.owner,
            distribution_vault.data_len,
            distribution.address,
            mint.address,
            token_program.address,
        );
        then_check(
            then_check(
                then_check(signers, writable),
                programs,
            ),
            then_check(owners, vault),
        )
    }
}

/// Checks the accounts of ClaimMerkle: the payer signs and is writable, the
/// claimant signs; the distribution, claim account, vault and claimant token
/// account are writable; the system program, a token program, this program
/// and its event authority are where they must be; this program owns the
/// distribution, the token program owns the mint and the claimant token
/// account; the vault is the distribution's associated token account.
pub fn check_claim_merkle_accounts(accounts: &[AccountFacts]) -> (r: Result<(), ProgramError>)
    ensures
        r == spec_check_claim_merkle_accounts(accounts@),
{
    if accounts.len() != CLAIM_MERKLE_ACCOUNTS {
        return Err(ProgramError::NotEnoughAccountKeys);
    }
    let payer = &accounts[0];
    let claimant = &accounts[1];
    let distribution = &accounts[2];
    let claim_account = &accounts[3];
    let mint = &accounts[5];
    let distribution_vault = &accounts[6];
    let claimant_token_account = &accounts[7];
    let system_program = &accounts[8];
    let token_program = &accounts[9];
    let event_authority = &accounts[10];
    let program = &accounts[11];
    verify_signer(payer, true)?;
    verify_signer(claimant, false)?;
    verify_writable(distribution, true)?;
    verify_writable(claim_account, true)?;
    verify_writable(distribution_vault, true)?;
    verify_writable(claimant_token_account, true)?;
    verify_system_program(&system_program.address)?;
    verify_token_program(&token_program.address)?;
    verify_current_program(&program.address)?;
    verify_event_authority(event_authority)?;
    verify_current_program_account(distribution)?;
    verify_owned_by(mint, &token_program.address)?;
    verify_owned_by(claimant_token_account, &token_program.address)?;
    validate_associated_token_account(
        &distribution_vault.address,
        &distribution_vault.owner,
        distribution_vault.data_len,
        &distribution.address,
        &mint.address,
        &token_program.address,
    )
}

} // verus!
