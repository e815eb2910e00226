//! The accounts of RevokeMerkleClaim and their checks.
use vstd::prelude::*;
use crate::errors::ProgramError;
use crate::utils::account_utils::{
    spec_verify_event_authority, spec_verify_owned_by, spec_verify_readonly, spec_verify_signer,
    spec_verify_writable, then_check, verify_current_program_account, verify_event_authority, verify_owned_by,
    verify_readonly, verify_signer, verify_writable, AccountFacts,
};
use crate::utils::program_utils::{
    spec_expect_program, verify_current_program, verify_system_program, verify_token_program, ID,
    SYSTEM_PROGRAM_ID, TOKEN_2022_PROGRAM_ID, TOKEN_PROGRAM_ID,
};
use crate::utils::token_utils::{spec_validate_associated_token_account, validate_associated_token_account};

verus! {

/// The number of accounts RevokeMerkleClaim takes.
pub const REVOKE_MERKLE_CLAIM_ACCOUNTS: usize = 14;

/// Fails with `IncorrectProgramId` unless `account` is a token program.
pub open spec fn spec_expect_token_program(account: AccountFacts) -> Result<(), ProgramError> {
    if account.address@ == TOKEN_PROGRAM_ID@ || account.address@ == TOKEN_2022_PROGRAM_ID@ {
        Ok(())
    } else {
        Err(ProgramError::IncorrectProgramId)
    }
}

/// The checks of the fourteen accounts of RevokeMerkleClaim, in order:
/// authority, payer, distribution, claim account, revocation marker,
/// claimant, mint, distribution vault, claimant token account, authority
/// token account, system program, token program, event authority, this
/// program. The first failing check decides the error.
pub open spec fn spec_check_revoke_merkle_claim_accounts(accounts: Seq<AccountFacts>) -> Result<
    (),
    ProgramError,
> {
    if accounts.len() != REVOKE_MERKLE_CLAIM_ACCOUNTS {
        Err(ProgramError::NotEnoughAccountKeys)
    } else {
        let authority = accounts[0];
        let payer = accounts[1];
        let distribution = accounts[2];
        let claim_account = accounts[3];
        let revocation_marker = accounts[4];
        let claimant = accounts[5];
        let mint = accounts[6];
        let vault = accounts[7];
        let claimant_token_account = accounts[8];
        let authority_token_account = accounts[9];
        let system_program = accounts[10];
        let token_program = accounts[11];
        let event_authority = accounts[12];
        let program = accounts[13];
        let signers = then_check(spec_verify_signer(authority, false), spec_verify_signer(payer, true));
        let writable = then_check(
            then_check(spec_verify_writable(distribution, true), spec_verify_writable(revocation_marker, true)),
            then_check(
                spec_verify_writable(vault, true),
                then_check(
                    spec_verify_writable(claimant_token_account, true),
                    spec_verify_writable(authority_token_account, true),
                ),
            ),
        );
        let readonly = then_check(
            spec_verify_readonly(claim_account),
            then_check(spec_verify_readonly(claimant), spec_verify_readonly(mint)),
        );
        let programs = then_check(
            spec_expect_program(system_program.address, SYSTEM_PROGRAM_ID),
            then_check(
                spec_expect_token_program(token_program),
                then_check(
                    spec_expect_program(program.address, ID),
                    spec_verify_event_authority(event_authority),
                ),
            ),
        );
        let owners = then_check(
            spec_verify_owned_by(distribution, ID@),
            then_check(
                spec_verify_owned_by(mint, token_program.address@),
                then_check(
                    spec_verify_owned_by(claimant_token_account, token_program.address@),
                    spec_verify_owned_by(authority_token_account, token_program.address@),
                ),
            ),
        );
        let vault_check = spec_validate_associated_token_account(
            vault.address,
            vault.owner,
            vault.data_len,
            distribution.address,
            mint.address,
            token_program.address,
        );
        then_check(
            then_check(signers, writable),
            then_check(then_check(readonly, programs), then_check(owners, vault_check)),
        )
    }
}

/// Checks the accounts of RevokeMerkleClaim: the authority signs; the payer
/// signs and is writable; the distribution, revocation marker, vault and both
/// token accounts are writable; the claim account, claimant and mint are
/// read-only; the system program, a token program, this program and its event
/// authority are where they must be; this program owns the distribution and the token program owns
/// the mint and both token accounts; the vault is the distribution's
/// associated token account for the mint.
pub fn check_revoke_merkle_claim_accounts(accounts: &[AccountFacts]) -> (r: Result<(), ProgramError>)
    ensures
        r == spec_check_revoke_merkle_claim_accounts(accounts@),
{
    if accounts.len() != REVOKE_MERKLE_CLAIM_ACCOUNTS {
        return Err(ProgramError::NotEnoughAccountKeys);
    }
    let authority = &accounts[0];
    let payer = &accounts[1];
    let distribution = &accounts[2];
    let claim_account = &accounts[3];
    let revocation_marker = &accounts[4];
    let claimant = &accounts[5];
    let mint = &accounts[6];
    let vault = &accounts[7];
    let claimant_token_account = &accounts[8];
    let authority_token_account = &accounts[9];
    let system_program = &accounts[10];
    let token_program = &accounts[11];
    let event_authority = &accounts[12];
    let program = &accounts[13];
    verify_signer(authority, false)?;
    verify_signer(payer, true)?;
    verify_writable(distribution, true)?;
    verify_writable(revocation_marker, true)?;
    verify_writable(vault, true)?;
    verify_writable(claimant_token_account, true)?;
    verify_writable(authority_token_account, true)?;
    verify_readonly(claim_account)?;
    verify_readonly(claimant)?;
    verify_readonly(mint)?;
    verify_system_program(&system_program.address)?;
    verify_token_program(&token_program.address)?;
    verify_current_program(&program.address)?;
    verify_event_authority(event_authority)?;
    verify_current_program_account(distribution)?;
    verify_owned_by(mint, &token_program.address)?;
    verify_owned_by(claimant_token_account, &token_program.address)?;
    verify_owned_by(authority_token_account, &token_program.address)?;
    validate_associated_token_account(
        &vault.address,
        &vault.owner,
        vault.data_len,
        &distribution.address,
        &mint.address,
        &token_program.address,
    )
}

} // verus!
