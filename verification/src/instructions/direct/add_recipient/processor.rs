//! The decision of adding a recipient to a direct distribution.
use vstd::prelude::*;
use crate::codec::Address;
use crate::errors::{custom, ProgramError, RewardsProgramError};
use crate::state::{DirectDistribution, DirectRecipient};
use crate::traits::pda::spec_check_pda;
use crate::traits::{Distribution, PdaSeeds};
use super::data::AddDirectRecipientData;

verus! {

/// The outcome of adding a recipient: the distribution with the amount
/// allocated, and the new recipient account to create and write.
#[derive(Clone, Copy, Debug, PartialEq, Eq)]
pub struct NewDirectRecipient {
    pub distribution: DirectDistribution,
    pub recipient: DirectRecipient,
}

/// The recipient account that `data` describes for `recipient_wallet` in the
/// distribution at `distribution_address`, funded by `payer`.
pub open spec fn spec_new_recipient(
    data: AddDirectRecipientData,
    distribution_address: Address,
    recipient_wallet: Address,
    payer: Address,
) -> DirectRecipient {
    DirectRecipient {
        bump: data.bump,
        distribution: distribution_address,
        recipient: recipient_wallet,
        payer,
        total_amount: data.amount,
        claimed_amount: 0,
        schedule: data.schedule,
    }
}

/// Adding the recipient that `data` describes: the authority must match, the
/// allocation must not overflow, and `recipient_account` must be the
/// recipient's PDA found with the bump in `data`.
pub open spec fn spec_add_direct_recipient(
    distribution: DirectDistribution,
    data: AddDirectRecipientData,
    distribution_address: Address,
    authority: Seq<u8>,
    recipient_wallet: Address,
    payer: Address,
    recipient_account: Seq<u8>,
    program_id: Seq<u8>,
) -> Result<NewDirectRecipient, ProgramError> {
    let recipient = spec_new_recipient(data, distribution_address, recipient_wallet, payer);
    if authority != distribution.authority@ {
        Err(custom(RewardsProgramError::UnauthorizedAuthority))
    } else if distribution.total_allocated + data.amount > u64::MAX {
        Err(custom(RewardsProgramError::MathOverflow))
    } else {
        match spec_check_pda(recipient.spec_seeds(), recipient_account, program_id, Some(data.bump)) {
            Err(e) => Err(e),
            Ok(_) => Ok(
                NewDirectRecipient {
                    distribution: DirectDistribution {
                        total_allocated: (distribution.total_allocated + data.amount) as u64,
                        ..distribution
                    },
                    recipient,
                },
            ),
        }
    }
}

/// Checks the authority, allocates the amount, builds the recipient account
/// and checks that `recipient_account` is its PDA.
pub fn add_direct_recipient(
    distribution: &DirectDistribution,
    data: &AddDirectRecipientData,
    distribution_address: &Address,
    authority: &Address,
    recipient_wallet: &Address,
    payer: &Address,
    recipient_account: &Address,
    program_id: &Address,
) -> (r: Result<NewDirectRecipient, ProgramError>)
    ensures
        r == spec_add_direct_recipient(
            *distribution,
            *data,
            *distribution_address,
            authority@,
            *recipient_wallet,
            *payer,
            recipient_account@,
            program_id@,
        ),
{
    Distribution::validate_authority(distribution, authority)?;
    let new_total_allocated = match distribution.total_allocated.checked_add(data.amount) {
        Some(t) => t,
        None => {
            return Err(ProgramError::Custom(RewardsProgramError::MathOverflow.code()));
        },
    };
    let recipient = DirectRecipient::new(
        data.bump,
        *distribution_address,
        *recipient_wallet,
        *payer,
        data.amount,
        data.schedule,
    );
    recipient.validate_pda(recipient_account, program_id, data.bump)?;
    let mut distribution = *distribution;
    distribution.total_allocated = new_total_allocated;
    Ok(NewDirectRecipient { distribution, recipient })
}

} // verus!
