//! The decisions of revoking a direct recipient: whether the authority may,
//! and how the recipient's allocation is settled.
use vstd::prelude::*;
use crate::codec::{address_eq, Address};
use crate::errors::{custom, ProgramError, RewardsProgramError};
use crate::state::{DirectDistribution, DirectRecipient};
use crate::traits::{Distribution, VestingParams};
use crate::utils::vesting_utils::lemma_unlocked_at_most_total;
use crate::utils::RevokeMode;

verus! {

/// The outcome of a revocation: the distribution to write back, the vested
/// but unclaimed amount to transfer from the vault to the recipient, the
/// unvested part of the allocation, and the amount to transfer from the vault
/// back to the authority (the unvested part in `NonVested` mode, everything
/// unclaimed in `Full` mode).
#[derive(Clone, Copy, Debug, PartialEq, Eq)]
pub struct DirectRevocation {
    pub distribution: DirectDistribution,
    pub vested_transferred: u64,
    pub unvested_returned: u64,
    pub returned_to_authority: u64,
}

/// Whether `authority` may revoke recipients of `distribution` in `mode`.
pub open spec fn spec_authorize_revoke_direct(
    distribution: DirectDistribution,
    authority: Seq<u8>,
    mode: RevokeMode,
) -> Result<(), ProgramError> {
    if authority != distribution.authority@ {
        Err(custom(RewardsProgramError::UnauthorizedAuthority))
    } else if mode.spec_is_disabled_by(distribution.revocable) {
        Err(custom(RewardsProgramError::DistributionNotRevocable))
    } else {
        Ok(())
    }
}

/// Checks the authority, then that the distribution's `revocable` bitmask
/// allows `mode`.
pub fn authorize_revoke_direct(distribution: &DirectDistribution, authority: &Address, mode: RevokeMode) -> (r:
    Result<(), ProgramError>)
    ensures
        r == spec_authorize_revoke_direct(*distribution, authority@, mode),
{
    Distribution::validate_authority(distribution, authority)?;
    if mode.is_disabled_by(distribution.revocable) {
        return Err(ProgramError::Custom(RewardsProgramError::DistributionNotRevocable.code()));
    }
    Ok(())
}

/// The settlement of revoking `recipient` at `now`.
pub open spec fn spec_revoke_direct_recipient(
    distribution: DirectDistribution,
    recipient: DirectRecipient,
    distribution_address: Seq<u8>,
    recipient_wallet: Seq<u8>,
    payer: Seq<u8>,
    mode: RevokeMode,
    now: i64,
) -> Result<DirectRevocation, ProgramError> {
    if distribution_address != recipient.distribution@ {
        Err(ProgramError::InvalidAccountData)
    } else if recipient_wallet != recipient.recipient@ {
        Err(custom(RewardsProgramError::UnauthorizedRecipient))
    } else if payer != recipient.payer@ {
        Err(ProgramError::InvalidAccountData)
    } else {
        match recipient.schedule.spec_unlocked(recipient.total_amount, now) {
            Err(e) => Err(e),
            Ok(vested) => if vested < recipient.claimed_amount {
                Err(custom(RewardsProgramError::MathOverflow))
            } else {
                let vested_unclaimed = vested - recipient.claimed_amount;
                let unvested = recipient.total_amount - vested;
                match mode {
                    RevokeMode::NonVested {} => if distribution.total_allocated < unvested
                        || distribution.total_claimed + vested_unclaimed > u64::MAX {
                        Err(custom(RewardsProgramError::MathOverflow))
                    } else {
                        Ok(
                            DirectRevocation {
                                distribution: DirectDistribution {
                                    total_allocated: (distribution.total_allocated - unvested) as u64,
                                    total_claimed: (distribution.total_claimed
                                        + vested_unclaimed) as u64,
                                    ..distribution
                                },
                                vested_transferred: vested_unclaimed as u64,
                                unvested_returned: unvested as u64,
                                returned_to_authority: unvested as u64,
                            },
                        )
                    },
                    RevokeMode::Full {} => if distribution.total_allocated < unvested
                        + vested_unclaimed {
                        Err(custom(RewardsProgramError::MathOverflow))
                    } else {
                        Ok(
                            DirectRevocation {
                                distribution: DirectDistribution {
                                    total_allocated: (distribution.total_allocated - unvested
                                        - vested_unclaimed) as u64,
                                    ..distribution
                                },
                                vested_transferred: 0,
                                unvested_returned: unvested as u64,
                                returned_to_authority: (unvested + vested_unclaimed) as u64,
                            },
                        )
                    },
                }
            },
        }
    }
}

/// Checks the recipient account against the distribution, the recipient's
/// wallet and the payer that funded it, then settles it: in `NonVested` mode
/// the vested but unclaimed part goes to the recipient and counts as claimed
/// while the unvested part goes back to the authority; in `Full` mode
/// everything unclaimed goes back to the authority. What goes back leaves the
/// distribution's allocation.
pub fn revoke_direct_recipient(
    distribution: &DirectDistribution,
    recipient: &DirectRecipient,
    distribution_address: &Address,
    recipient_wallet: &Address,
    payer: &Address,
    mode: RevokeMode,
    current_ts: i64,
) -> (r: Result<DirectRevocation, ProgramError>)
    ensures
        r == spec_revoke_direct_recipient(
            *distribution,
            *recipient,
            distribution_address@,
            recipient_wallet@,
            payer@,
            mode,
            current_ts,
        ),
{
    recipient.validate_distribution(distribution_address)?;
    recipient.validate_recipient(recipient_wallet)?;
    if !address_eq(&recipient.payer, payer) {
        return Err(ProgramError::InvalidAccountData);
    }
    let vested = VestingParams::calculate_unlocked(recipient, current_ts)?;
    proof {
        lemma_unlocked_at_most_total(recipient.schedule, recipient.total_amount, current_ts);
    }
    if vested < recipient.claimed_amount {
        return Err(ProgramError::Custom(RewardsProgramError::MathOverflow.code()));
    }
    let vested_unclaimed = vested - recipient.claimed_amount;
    let unvested = recipient.total_amount - vested;
    let mut distribution = *distribution;
    match mode {
        RevokeMode::NonVested {} => {
            if distribution.total_allocated < unvested {
                return Err(ProgramError::Custom(RewardsProgramError::MathOverflow.code()));
            }
            distribution.total_allocated = distribution.total_allocated - unvested;
            match distribution.total_claimed.checked_add(vested_unclaimed) {
                Some(c) => {
                    distribution.total_claimed = c;
                },
                None => {
                    return Err(ProgramError::Custom(RewardsProgramError::MathOverflow.code()));
                },
            }
            Ok(
                DirectRevocation {
                    distribution,
                    vested_transferred: vested_unclaimed,
                    unvested_returned: unvested,
                    returned_to_authority: unvested,
                },
            )
        },
        RevokeMode::Full {} => {
            let total_freed = unvested + vested_unclaimed;
            if distribution.total_allocated < total_freed {
                return Err(ProgramError::Custom(RewardsProgramError::MathOverflow.code()));
            }
            distribution.total_allocated = distribution.total_allocated - total_freed;
            Ok(
                DirectRevocation {
                    distribution,
                    vested_transferred: 0,
                    unvested_returned: unvested,
                    returned_to_authority: total_freed,
                },
            )
        },
    }
}

/// Whatever the mode, revoking takes exactly the recipient's unclaimed
/// remainder off what the distribution still owes (allocated less claimed)
/// and pays all of it out of the vault: what the recipient gets plus what
/// goes back to the authority is that remainder. Only `NonVested` pays the
/// vested part to the recipient, as claimed, and returns just the unvested
/// part; `Full` returns everything unclaimed to the authority.
pub proof fn lemma_revoke_direct_settles_remainder(
    distribution: DirectDistribution,
    recipient: DirectRecipient,
    distribution_address: Seq<u8>,
    recipient_wallet: Seq<u8>,
    payer: Seq<u8>,
    mode: RevokeMode,
    now: i64,
)
    requires
        spec_revoke_direct_recipient(
            distribution,
            recipient,
            distribution_address,
            recipient_wallet,
            payer,
            mode,
            now,
        ) is Ok,
    ensures
        ({
            let v = spec_revoke_direct_recipient(
                distribution,
                recipient,
                distribution_address,
                recipient_wallet,
                payer,
                mode,
                now,
            )->Ok_0;
            &&& v.distribution.total_allocated - v.distribution.total_claimed == (
            distribution.total_allocated - distribution.total_claimed) - (recipient.total_amount
                - recipient.claimed_amount)
            &&& v.distribution.total_claimed == distribution.total_claimed + v.vested_transferred
            &&& mode == (RevokeMode::Full {}) ==> v.vested_transferred == 0
            &&& recipient.claimed_amount + v.vested_transferred + v.unvested_returned <= recipient.total_amount
            &&& v.vested_transferred + v.returned_to_authority == recipient.total_amount - recipient.claimed_amount
            &&& v.distribution.total_allocated == distribution.total_allocated - v.returned_to_authority
            &&& mode == (RevokeMode::NonVested {}) ==> v.returned_to_authority == v.unvested_returned
        }),
{
    lemma_unlocked_at_most_total(recipient.schedule, recipient.total_amount, now);
}

/// The distribution's own authority may revoke in `NonVested` mode exactly
/// when bit 0 of the `revocable` bitmask is set, and in `Full` mode exactly
/// when bit 1 is set; otherwise it is refused with `DistributionNotRevocable`.
/// Anyone else is refused with `UnauthorizedAuthority`.
pub proof fn lemma_authorize_revoke_follows_bitmask(distribution: DirectDistribution, authority: Seq<u8>)
    ensures
        authority == distribution.authority@ ==> {
            &&& spec_authorize_revoke_direct(distribution, authority, RevokeMode::NonVested {}) == if (
            distribution.revocable & 1u8) == 1u8 {
                Ok::<(), ProgramError>(())
            } else {
                Err(custom(RewardsProgramError::DistributionNotRevocable))
            }
            &&& spec_authorize_revoke_direct(distribution, authority, RevokeMode::Full {}) == if (
            distribution.revocable & 2u8) == 2u8 {
                Ok::<(), ProgramError>(())
            } else {
                Err(custom(RewardsProgramError::DistributionNotRevocable))
            }
        },
        authority != distribution.authority@ ==> forall|m: RevokeMode|
            spec_authorize_revoke_direct(distribution, authority, m) == Err::<(), ProgramError>(
                custom(RewardsProgramError::UnauthorizedAuthority),
            ),
{
    crate::utils::revoke_utils::lemma_revocable_bitmask(distribution.revocable);
}

} // verus!
