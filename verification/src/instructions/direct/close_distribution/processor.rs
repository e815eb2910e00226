//! The decision of closing a direct distribution.
use vstd::prelude::*;
use crate::codec::Address;
use crate::errors::{custom, ProgramError, RewardsProgramError};
use crate::state::DirectDistribution;
use crate::instructions::direct::create_distribution::data::CreateDirectDistributionData;
use crate::instructions::direct::create_distribution::processor::spec_create_direct_distribution;
use crate::traits::Distribution;

verus! {

/// Whether a distribution with clawback timestamp `clawback_ts` may be closed
/// at `now`: always when there is no gate (0), else from that time on.
pub open spec fn spec_clawback_reached(clawback_ts: i64, now: i64) -> bool {
    clawback_ts == 0 || clawback_ts <= now
}

/// Whether `authority` may close `distribution` at `now`.
pub open spec fn spec_authorize_close_direct_distribution(
    distribution: DirectDistribution,
    authority: Seq<u8>,
    now: i64,
) -> Result<(), ProgramError> {
    if authority != distribution.authority@ {
        Err(custom(RewardsProgramError::UnauthorizedAuthority))
    } else if !spec_clawback_reached(distribution.clawback_ts, now) {
        Err(custom(RewardsProgramError::ClawbackNotReached))
    } else {
        Ok(())
    }
}

/// Checks that `authority` is the distribution's authority and that its
/// clawback timestamp, if it has one, has been reached at `current_ts`.
pub fn authorize_close_direct_distribution(
    distribution: &DirectDistribution,
    authority: &Address,
    current_ts: i64,
) -> (r: Result<(), ProgramError>)
    ensures
        r == spec_authorize_close_direct_distribution(*distribution, authority@, current_ts),
{
    Distribution::validate_authority(distribution, authority)?;
    if distribution.clawback_ts != 0 && current_ts < distribution.clawback_ts {
        return Err(ProgramError::Custom(RewardsProgramError::ClawbackNotReached.code()));
    }
    Ok(())
}

/// A distribution created with a clawback timestamp can be closed by its
/// authority exactly from that time on (at any time when it has none).
pub proof fn lemma_created_distribution_closes_from_clawback(
    data: CreateDirectDistributionData,
    authority: Address,
    mint: Address,
    seed: Address,
    distribution_account: Seq<u8>,
    program_id: Seq<u8>,
    now: i64,
)
    requires
        spec_create_direct_distribution(
            DirectDistribution {
                bump: data.bump,
                revocable: data.revocable,
                authority,
                mint,
                seed,
                total_allocated: 0,
                total_claimed: 0,
                clawback_ts: data.clawback_ts,
            },
            distribution_account,
            program_id,
        ) is Ok,
    ensures
        spec_authorize_close_direct_distribution(
            spec_create_direct_distribution(
                DirectDistribution {
                    bump: data.bump,
                    revocable: data.revocable,
                    authority,
                    mint,
                    seed,
                    total_allocated: 0,
                    total_claimed: 0,
                    clawback_ts: data.clawback_ts,
                },
                distribution_account,
                program_id,
            )->Ok_0,
            authority@,
            now,
        ) is Ok <==> spec_clawback_reached(data.clawback_ts, now),
{
}

} // verus!
