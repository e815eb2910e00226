//! The decision of creating a merkle distribution.
use vstd::prelude::*;
use crate::codec::Address;
use crate::errors::ProgramError;
use crate::state::MerkleDistribution;
use crate::traits::pda::spec_check_pda;
use crate::traits::PdaSeeds;

verus! {

/// The new distribution account, or the error when `distribution_account` is
/// not its PDA found with `bump`.
pub open spec fn spec_create_merkle_distribution(
    new_distribution: MerkleDistribution,
    distribution_account: Seq<u8>,
    program_id: Seq<u8>,
) -> Result<MerkleDistribution, ProgramError> {
    match spec_check_pda(
        new_distribution.spec_seeds(),
        distribution_account,
        program_id,
        Some(new_distribution.bump),
    ) {
        Err(e) => Err(e),
        Ok(_) => Ok(new_distribution),
    }
}

/// Builds the distribution account from the instruction's fields (nothing
/// claimed yet) and checks that `distribution_account` is its PDA.
pub fn create_merkle_distribution(
    bump: u8,
    revocable: u8,
    authority: &Address,
    mint: &Address,
    seed: &Address,
    merkle_root: &[u8; 32],
    total_amount: u64,
    clawback_ts: i64,
    distribution_account: &Address,
    program_id: &Address,
) -> (r: Result<MerkleDistribution, ProgramError>)
    ensures
        r == spec_create_merkle_distribution(
            MerkleDistribution {
                bump,
                revocable,
                authority: *authority,
                mint: *mint,
                seed: *seed,
                merkle_root: *merkle_root,
                total_amount,
                total_claimed: 0,
                clawback_ts,
            },
            distribution_account@,
            program_id@,
        ),
{
    let distribution = MerkleDistribution::new(
        bump,
        revocable,
        *authority,
        *mint,
        *seed,
        *merkle_root,
        total_amount,
        clawback_ts,
    );
    distribution.validate_pda(distribution_account, program_id, bump)?;
    Ok(distribution)
}

} // verus!
