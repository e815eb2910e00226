//! The accounts of CloseDirectDistribution and their checks.
use vstd::prelude::*;
use crate::errors::ProgramError;
use crate::instructions::merkle::revoke_claim::accounts::spec_expect_token_program;
use crate::utils::account_utils::{
    spec_verify_event_authority, spec_verify_owned_by, spec_verify_signer, spec_verify_writable, then_check,
    verify_current_program_account, verify_event_authority, verify_owned_by, verify_signer, verify_writable,
    AccountFacts,
};
use crate::utils::program_utils::{spec_expect_program, verify_current_program, verify_token_program, ID};
use crate::utils::token_utils::{spec_validate_associated_token_account, validate_associated_token_account};

verus! {

/// The number of accounts CloseDirectDistribution takes.
pub const CLOSE_DIRECT_DISTRIBUTION_ACCOUNTS: usize = 8;

/// The checks of the 8 accounts of CloseDirectDistribution, in order:
/// authority, distribution, mint, distribution vault, authority token
/// account, token program, event authority, program. The first failing
/// check decides the error.
pub open spec fn spec_check_close_direct_distribution_accounts(accounts: Seq<AccountFacts>) -> Result<
    (),
    ProgramError,
> {
    if accounts.len() != CLOSE_DIRECT_DISTRIBUTION_ACCOUNTS {
        Err(ProgramError::NotEnoughAccountKeys)
    } else {
        let authority = accounts[0];
        let distribution = accounts[1];
        let mint = accounts[2];
        let distribution_vault = accounts[3];
        let authority_token_account = accounts[4];
        let token_program = accounts[5];
        let event_authority = accounts[6];
        let program = accounts[7];
        let signers = spec_verify_signer(authority, true);
        let writable = then_check(
            then_check(
                spec_verify_writable(distribution, true),
                spec_verify_writable(distribution_vault, true),
            ),
            spec_verify_writable(authority_token_account, true),
        );
        let programs = then_check(
            then_check(
                spec_expect_token_program(token_program),
                spec_expect_program(program.address, ID),
            ),
            spec_verify_event_authority(event_authority),
        );
        let owners = then_check(
            then_check(
                spec_verify_owned_by(distribution, ID@),
                spec_verify_owned_by(mint, token_program.address@),
            ),
            spec_verify_owned_by(authority_token_account, token_program.address@),
        );
        let vault = spec_validate_associated_token_account(
            distribution_vault.address,
            distribution_vault.owner,
            distribution_vault.data_len,
            distribution.address,
            mint.address,
            token_program.address,
        );
        then_check(
            then_check(
                then_check(signers, writable),
                programs,
            ),
            then_check(owners, vault),
        )
    }
}

/// Checks the accounts of CloseDirectDistribution: the authority signs and is
/// writable; the distribution, vault and authority token account are
/// writable; a token program, this program and its event authority are where
/// they must be; this program owns the distribution, the token program owns
/// the mint and the authority token account; the vault is the distribution's
/// associated token account.
pub fn check_close_direct_distribution_accounts(accounts: &[AccountFacts]) -> (r: Result<(), ProgramError>)
    ensures
        r == spec_check_close_direct_distribution_accounts(accounts@),
{
    if accounts.len() != CLOSE_DIRECT_DISTRIBUTION_ACCOUNTS {
        return Err(ProgramError::NotEnoughAccountKeys);
    }
    let authority = &accounts[0];
    let distribution = &accounts[1];
    let mint = &accounts[2];
    let distribution_vault = &accounts[3];
    let authority_token_account = &accounts[4];
    let token_program = &accounts[5];
    let event_authority = &accounts[6];
    let program = &accounts[7];
    verify_signer(authority, true)?;
    verify_writable(distribution, true)?;
    verify_writable(distribution_vault, true)?;
    verify_writable(authority_token_account, true)?;
    verify_token_program(&token_program.address)?;
    verify_current_program(&program.address)?;
    verify_event_authority(event_authority)?;
    verify_current_program_account(distribution)?;
    verify_owned_by(mint, &token_program.address)?;
    verify_owned_by(authority_token_account, &token_program.address)?;
    validate_associated_token_account(
        &distribution_vault.address,
        &distribution_vault.owner,
        distribution_vault.data_len,
        &distribution.address,
        &mint.address,
        &token_program.address,
    )
}

} // verus!
