//! The decision of closing a direct recipient account.
use vstd::prelude::*;
use crate::codec::{address_eq, Address};
use crate::errors::{custom, ProgramError, RewardsProgramError};
use crate::state::DirectRecipient;

verus! {

/// Whether the recipient account may be closed, its rent returned to
/// `original_payer`: it must belong to the distribution and the recipient,
/// `original_payer` must be the payer that funded it, and either the
/// distribution is closed (its account is back with the system program) or
/// everything has been claimed.
pub open spec fn spec_check_close_direct_recipient(
    recipient: DirectRecipient,
    distribution_address: Seq<u8>,
    distribution_closed: bool,
    recipient_wallet: Seq<u8>,
    original_payer: Seq<u8>,
) -> Result<(), ProgramError> {
    if distribution_address != recipient.distribution@ {
        Err(ProgramError::InvalidAccountData)
    } else if recipient_wallet != recipient.recipient@ {
        Err(custom(RewardsProgramError::UnauthorizedRecipient))
    } else if original_payer != recipient.payer@ {
        Err(ProgramError::InvalidAccountData)
    } else if !distribution_closed && recipient.claimed_amount < recipient.total_amount {
        Err(custom(RewardsProgramError::ClaimNotFullyVested))
    } else {
        Ok(())
    }
}

/// Checks a request to close `recipient`'s account. `distribution_closed`
/// tells whether the distribution's account has been closed.
pub fn check_close_direct_recipient(
    recipient: &DirectRecipient,
    distribution_address: &Address,
    distribution_closed: bool,
    recipient_wallet: &Address,
    original_payer: &Address,
) -> (r: Result<(), ProgramError>)
    ensures
        r == spec_check_close_direct_recipient(
            *recipient,
            distribution_address@,
            distribution_closed,
            recipient_wallet@,
            original_payer@,
        ),
{
    recipient.validate_distribution(distribution_address)?;
    recipient.validate_recipient(recipient_wallet)?;
    if !address_eq(&recipient.payer, original_payer) {
        return Err(ProgramError::InvalidAccountData);
    }
    if !distribution_closed && recipient.claimed_amount < recipient.total_amount {
        return Err(ProgramError::Custom(RewardsProgramError::ClaimNotFullyVested.code()));
    }
    Ok(())
}

/// A recipient account can always be closed by its own recipient, with the
/// rent going back to its own payer, once the distribution is closed or the
/// recipient has claimed everything.
pub proof fn lemma_closable_when_closed_or_fully_claimed(recipient: DirectRecipient, distribution_closed: bool)
    requires
        distribution_closed || recipient.claimed_amount >= recipient.total_amount,
    ensures
        spec_check_close_direct_recipient(
            recipient,
            recipient.distribution@,
            distribution_closed,
            recipient.recipient@,
            recipient.payer@,
        ) == Ok::<(), ProgramError>(()),
{
}

/// While the distribution is open, a recipient that has not claimed its whole
/// allocation cannot close its account, even with every address right: the
/// request is refused with `ClaimNotFullyVested`.
pub proof fn lemma_open_distribution_needs_full_claim(recipient: DirectRecipient)
    requires
        recipient.claimed_amount < recipient.total_amount,
    ensures
        spec_check_close_direct_recipient(
            recipient,
            recipient.distribution@,
            false,
            recipient.recipient@,
            recipient.payer@,
        ) == Err::<(), ProgramError>(custom(RewardsProgramError::ClaimNotFullyVested)),
{
}

} // verus!
