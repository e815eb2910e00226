//! The decision of creating a direct distribution.
use vstd::prelude::*;
use crate::codec::Address;
use crate::errors::ProgramError;
use crate::state::DirectDistribution;
use crate::traits::pda::spec_check_pda;
use crate::traits::PdaSeeds;
use super::data::CreateDirectDistributionData;

verus! {

/// The new distribution account, or the error when `distribution_account` is
/// not its PDA found with the requested bump.
pub open spec fn spec_create_direct_distribution(
    new_distribution: DirectDistribution,
    distribution_account: Seq<u8>,
    program_id: Seq<u8>,
) -> Result<DirectDistribution, ProgramError> {
    match spec_check_pda(
        new_distribution.spec_seeds(),
        distribution_account,
        program_id,
        Some(new_distribution.bump),
    ) {
        Err(e) => Err(e),
        Ok(_) => Ok(new_distribution),
    }
}

/// Builds the distribution account from the instruction's data (nothing
/// allocated or claimed yet, the revoke bitmask and clawback timestamp as
/// given) and checks that `distribution_account` is its PDA.
pub fn create_direct_distribution(
    data: &CreateDirectDistributionData,
    authority: &Address,
    mint: &Address,
    seed: &Address,
    distribution_account: &Address,
    program_id: &Address,
) -> (r: Result<DirectDistribution, ProgramError>)
    ensures
        r == spec_create_direct_distribution(
            DirectDistribution {
                bump: data.bump,
                revocable: data.revocable,
                authority: *authority,
                mint: *mint,
                seed: *seed,
                total_allocated: 0,
                total_claimed: 0,
                clawback_ts: data.clawback_ts,
            },
            distribution_account@,
            program_id@,
        ),
{
    let mut distribution = DirectDistribution::new(data.bump, *authority, *mint, *seed);
    distribution.revocable = data.revocable;
    distribution.clawback_ts = data.clawback_ts;
    distribution.validate_pda(distribution_account, program_id, data.bump)?;
    Ok(distribution)
}

} // verus!
