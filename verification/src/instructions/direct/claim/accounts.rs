//! The accounts of ClaimDirect and their checks.
use vstd::prelude::*;
use crate::errors::ProgramError;
use crate::instructions::merkle::revoke_claim::accounts::spec_expect_token_program;
use crate::utils::account_utils::{
    spec_verify_event_authority, spec_verify_owned_by, spec_verify_readonly, spec_verify_signer,
    spec_verify_writable, then_check, verify_current_program_account, verify_event_authority, verify_owned_by,
    verify_readonly, verify_signer, verify_writable, AccountFacts,
};
use crate::utils::program_utils::{spec_expect_program, verify_current_program, verify_token_program, ID};
use crate::utils::token_utils::{spec_validate_associated_token_account, validate_associated_token_account};

verus! {

/// The number of accounts ClaimDirect takes.
pub const CLAIM_DIRECT_ACCOUNTS: usize = 9;

/// The checks of the nine accounts of ClaimDirect, in order: recipient,
/// distribution, recipient account, mint, distribution vault, recipient token
/// account, token program, event authority, this program. The first failing
/// check decides the error.
pub open spec fn spec_check_claim_direct_accounts(accounts: Seq<AccountFacts>) -> Result<(), ProgramError> {
    if accounts.len() != CLAIM_DIRECT_ACCOUNTS {
        Err(ProgramError::NotEnoughAccountKeys)
    } else {
        let recipient = accounts[0];
        let distribution = accounts[1];
        let recipient_account = accounts[2];
        let mint = accounts[3];
        let vault = accounts[4];
        let recipient_token_account = accounts[5];
        let token_program = accounts[6];
        let event_authority = accounts[7];
        let program = accounts[8];
        let writable = then_check(
            then_check(spec_verify_writable(distribution, true), spec_verify_writable(recipient_account, true)),
            then_check(spec_verify_writable(vault, true), spec_verify_writable(recipient_token_account, true)),
        );
        let programs = then_check(
            spec_expect_token_program(token_program),
            then_check(spec_expect_program(program.address, ID), spec_verify_event_authority(event_authority)),
        );
        let owners = then_check(
            then_check(spec_verify_owned_by(distribution, ID@), spec_verify_owned_by(recipient_account, ID@)),
            then_check(
                spec_verify_owned_by(mint, token_program.address@),
                spec_verify_owned_by(recipient_token_account, token_program.address@),
            ),
        );
        let vault_check = spec_validate_associated_token_account(
            vault.address,
            vault.owner,
            vault.data_len,
            distribution.address,
            mint.address,
            token_program.address,
        );
        then_check(
            then_check(spec_verify_signer(recipient, false), writable),
            then_check(
                then_check(spec_verify_readonly(mint), programs),
                then_check(owners, vault_check),
            ),
        )
    }
}

/// Checks the accounts of ClaimDirect: the recipient signs; the distribution,
/// recipient account, vault and recipient token account are writable and the
/// mint read-only; a token program, this program and its event authority are
/// where they must be;
/// this program owns the distribution and the recipient account, the token
/// program owns the mint and the recipient token account; the vault is the
/// distribution's associated token account for the mint.
pub fn check_claim_direct_accounts(accounts: &[AccountFacts]) -> (r: Result<(), ProgramError>)
    ensures
        r == spec_check_claim_direct_accounts(accounts@),
{
    if accounts.len() != CLAIM_DIRECT_ACCOUNTS {
        return Err(ProgramError::NotEnoughAccountKeys);
    }
    let recipient = &accounts[0];
    let distribution = &accounts[1];
    let recipient_account = &accounts[2];
    let mint = &accounts[3];
    let vault = &accounts[4];
    let recipient_token_account = &accounts[5];
    let token_program = &accounts[6];
    let event_authority = &accounts[7];
    let program = &accounts[8];
    verify_signer(recipient, false)?;
    verify_writable(distribution, true)?;
    verify_writable(recipient_account, true)?;
    verify_writable(vault, true)?;
    verify_writable(recipient_token_account, true)?;
    verify_readonly(mint)?;
    verify_token_program(&token_program.address)?;
    verify_current_program(&program.address)?;
    verify_event_authority(event_authority)?;
    verify_current_program_account(distribution)?;
    verify_current_program_account(recipient_account)?;
    verify_owned_by(mint, &token_program.address)?;
    verify_owned_by(recipient_token_account, &token_program.address)?;
    validate_associated_token_account(
        &vault.address,
        &vault.owner,
        vault.data_len,
        &distribution.address,
        &mint.address,
        &token_program.address,
    )
}

} // verus!
