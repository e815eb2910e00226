//! The decision of a direct claim: what the recipient may take now, and the
//! two accounts after it.
use vstd::prelude::*;
use crate::codec::Address;
use crate::errors::{custom, ProgramError, RewardsProgramError};
use crate::state::{DirectDistribution, DirectRecipient};
use crate::traits::{ClaimTracker, Distribution, VestingParams};
use crate::utils::claim_utils::{lemma_claim_within_unlocked, spec_claim_amount};
use crate::utils::resolve_claim_amount;

verus! {

/// The outcome of a direct claim: the accounts to write back and the amount
/// to transfer from the vault to the recipient.
#[derive(Clone, Copy, Debug, PartialEq, Eq)]
pub struct DirectClaim {
    pub distribution: DirectDistribution,
    pub recipient: DirectRecipient,
    pub amount: u64,
}

/// A direct claim by `signer` of `requested` (0 for everything available) at
/// `now`, against the recipient account of the distribution at
/// `distribution_address`.
pub open spec fn spec_claim_direct(
    distribution: DirectDistribution,
    recipient: DirectRecipient,
    distribution_address: Seq<u8>,
    signer: Seq<u8>,
    requested: u64,
    now: i64,
) -> Result<DirectClaim, ProgramError> {
    if distribution_address != recipient.distribution@ {
        Err(ProgramError::InvalidAccountData)
    } else if signer != recipient.recipient@ {
        Err(custom(RewardsProgramError::UnauthorizedRecipient))
    } else {
        match spec_claim_amount(
            recipient.total_amount,
            recipient.schedule,
            recipient.claimed_amount,
            requested,
            now,
        ) {
            Err(e) => Err(e),
            Ok(a) => if distribution.total_claimed + a > u64::MAX {
                Err(custom(RewardsProgramError::MathOverflow))
            } else {
                Ok(
                    DirectClaim {
                        distribution: DirectDistribution {
                            total_claimed: (distribution.total_claimed + a) as u64,
                            ..distribution
                        },
                        recipient: DirectRecipient {
                            claimed_amount: (recipient.claimed_amount + a) as u64,
                            ..recipient
                        },
                        amount: a,
                    },
                )
            },
        }
    }
}

/// Checks the recipient account against the distribution and the signer,
/// works out what is claimable at `current_ts`, resolves the request against
/// it and records the claim on both accounts.
pub fn claim_direct(
    distribution: &DirectDistribution,
    recipient: &DirectRecipient,
    distribution_address: &Address,
    signer: &Address,
    requested: u64,
    current_ts: i64,
) -> (r: Result<DirectClaim, ProgramError>)
    ensures
        r == spec_claim_direct(
            *distribution,
            *recipient,
            distribution_address@,
            signer@,
            requested,
            current_ts,
        ),
{
    let mut distribution = *distribution;
    let mut recipient = *recipient;
    recipient.validate_distribution(distribution_address)?;
    recipient.validate_recipient(signer)?;
    let unlocked = VestingParams::calculate_unlocked(&recipient, current_ts)?;
    let claimable = match ClaimTracker::claimable_amount(&recipient, unlocked) {
        Ok(c) => c,
        Err(e) => {
            return Err(ProgramError::Custom(e.code()));
        },
    };
    let amount = resolve_claim_amount(requested, claimable)?;
    proof {
        lemma_claim_within_unlocked(
            recipient.total_amount,
            recipient.schedule,
            recipient.claimed_amount,
            requested,
            current_ts,
        );
    }
    ClaimTracker::add_claimed(&mut recipient, amount)?;
    Distribution::add_claimed(&mut distribution, amount)?;
    Ok(DirectClaim { distribution, recipient, amount })
}

/// A successful claim pays a positive amount, never takes the recipient past
/// what is unlocked (nor past its allocation), and adds the same amount to the
/// recipient's and to the distribution's claimed totals, changing nothing else.
pub proof fn lemma_claim_direct_accounting(
    distribution: DirectDistribution,
    recipient: DirectRecipient,
    distribution_address: Seq<u8>,
    signer: Seq<u8>,
    requested: u64,
    now: i64,
)
    requires
        spec_claim_direct(distribution, recipient, distribution_address, signer, requested, now) is Ok,
    ensures
        ({
            let c = spec_claim_direct(
                distribution,
                recipient,
                distribution_address,
                signer,
                requested,
                now,
            )->Ok_0;
            &&& c.amount > 0
            &&& c.recipient.claimed_amount == recipient.claimed_amount + c.amount
            &&& c.distribution.total_claimed == distribution.total_claimed + c.amount
            &&& recipient.schedule.spec_unlocked(recipient.total_amount, now) matches Ok(u)
                && c.recipient.claimed_amount <= u
            &&& c.recipient.claimed_amount <= recipient.total_amount
            &&& c.recipient == DirectRecipient { claimed_amount: c.recipient.claimed_amount, ..recipient }
            &&& c.distribution == DirectDistribution {
                total_claimed: c.distribution.total_claimed,
                ..distribution
            }
        }),
{
    lemma_claim_within_unlocked(
        recipient.total_amount,
        recipient.schedule,
        recipient.claimed_amount,
        requested,
        now,
    );
}

} // verus!
