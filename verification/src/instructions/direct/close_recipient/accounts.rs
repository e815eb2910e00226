//! The accounts of CloseDirectRecipient and their checks.
use vstd::prelude::*;
use crate::codec::address_eq;
use crate::errors::ProgramError;
use crate::utils::account_utils::{
    spec_verify_event_authority, spec_verify_owned_by, spec_verify_signer, spec_verify_writable, then_check,
    verify_current_program_account, verify_event_authority, verify_signer, verify_writable, AccountFacts,
};
use crate::utils::program_utils::{spec_expect_program, verify_current_program, ID, SYSTEM_PROGRAM_ID};

verus! {

/// The number of accounts CloseDirectRecipient takes.
pub const CLOSE_DIRECT_RECIPIENT_ACCOUNTS: usize = 6;

/// The distribution of a recipient being closed is either live (owned by this
/// program) or closed (back with the system program).
pub open spec fn spec_live_or_closed(distribution: AccountFacts) -> Result<(), ProgramError> {
    if distribution.owner@ == SYSTEM_PROGRAM_ID@ {
        Ok(())
    } else {
        spec_verify_owned_by(distribution, ID@)
    }
}

/// The checks of the six accounts of CloseDirectRecipient, in order:
/// recipient, original payer, distribution, recipient account, event
/// authority, this program. The first failing check decides the error.
pub open spec fn spec_check_close_direct_recipient_accounts(accounts: Seq<AccountFacts>) -> Result<
    (),
    ProgramError,
> {
    if accounts.len() != CLOSE_DIRECT_RECIPIENT_ACCOUNTS {
        Err(ProgramError::NotEnoughAccountKeys)
    } else {
        let recipient = accounts[0];
        let original_payer = accounts[1];
        let distribution = accounts[2];
        let recipient_account = accounts[3];
        let event_authority = accounts[4];
        let program = accounts[5];
        then_check(
            then_check(
                spec_verify_signer(recipient, false),
                then_check(
                    spec_verify_writable(original_payer, true),
                    spec_verify_writable(recipient_account, true),
                ),
            ),
            then_check(
                then_check(spec_expect_program(program.address, ID), spec_verify_event_authority(event_authority)),
                then_check(spec_live_or_closed(distribution), spec_verify_owned_by(recipient_account, ID@)),
            ),
        )
    }
}

/// Checks the accounts of CloseDirectRecipient: the recipient signs; the
/// original payer and the recipient account are writable; this program and
/// its event authority are where they must be; this program owns the recipient account and the
/// distribution, unless the distribution has been closed.
pub fn check_close_direct_recipient_accounts(accounts: &[AccountFacts]) -> (r: Result<(), ProgramError>)
    ensures
        r == spec_check_close_direct_recipient_accounts(accounts@),
{
    if accounts.len() != CLOSE_DIRECT_RECIPIENT_ACCOUNTS {
        return Err(ProgramError::NotEnoughAccountKeys);
    }
    let recipient = &accounts[0];
    let original_payer = &accounts[1];
    let distribution = &accounts[2];
    let recipient_account = &accounts[3];
    let event_authority = &accounts[4];
    let program = &accounts[5];
    verify_signer(recipient, false)?;
    verify_writable(original_payer, true)?;
    verify_writable(recipient_account, true)?;
    verify_current_program(&program.address)?;
    verify_event_authority(event_authority)?;
    if !address_eq(&distribution.owner, &SYSTEM_PROGRAM_ID) {
        verify_current_program_account(distribution)?;
    }
    verify_current_program_account(recipient_account)
}

} // verus!
