//! The decision of revoking a merkle claimant.
use vstd::prelude::*;
use crate::codec::Address;
use crate::errors::{custom, ProgramError, RewardsProgramError};
use crate::instructions::merkle::claim::processor::{
    data_view, spec_claim_merkle, spec_read_merkle_claim, MerkleClaimRequest,
};
use crate::state::{MerkleClaim, MerkleClaimSeeds, MerkleDistribution, Revocation, RevocationSeeds};
use crate::traits::pda::spec_check_pda;
use crate::traits::{AccountParse, Distribution, PdaSeeds, VestingParams};
use crate::utils::merkle_utils::{compute_schedule_leaf_hash, proof_root, spec_schedule_leaf_hash};
use crate::utils::vesting_utils::lemma_unlocked_at_most_total;
use crate::utils::{verify_proof_or_error, RevokeMode};
use super::data::RevokeMerkleClaimData;

verus! {

/// The outcome of revoking a merkle claimant: the distribution to write back,
/// the vested but unclaimed amount to transfer to the claimant, the amount to
/// return to the authority, and the revocation marker to create.
#[derive(Clone, Copy, Debug, PartialEq, Eq)]
pub struct MerkleRevocationOutcome {
    pub distribution: MerkleDistribution,
    pub vested_transferred: u64,
    pub total_freed: u64,
    pub revocation: Revocation,
}

/// What the claimant has claimed: nothing when its claim account is
/// uninitialized, else what the account records.
pub open spec fn spec_claimed_so_far(claim_data: Option<Seq<u8>>) -> Result<u64, ProgramError> {
    match claim_data {
        None => Ok(0),
        Some(d) => if MerkleClaim::spec_parses(d) {
            Ok(spec_read_merkle_claim(d).claimed_amount)
        } else {
            Err(ProgramError::InvalidAccountData)
        },
    }
}

/// Revoking `claimant`, whose leaf the authority supplies in `data`.
pub open spec fn spec_revoke_merkle_claim(
    distribution: MerkleDistribution,
    distribution_address: Address,
    authority: Seq<u8>,
    claimant: Address,
    data: (RevokeMode, u64, crate::utils::VestingSchedule, Seq<[u8; 32]>),
    leaf: Seq<u8>,
    revocation_account: Seq<u8>,
    revocation_initialized: bool,
    claim_account: Seq<u8>,
    claim_data: Option<Seq<u8>>,
    now: i64,
    program_id: Seq<u8>,
) -> Result<MerkleRevocationOutcome, ProgramError> {
    let (mode, total, schedule, proof) = data;
    let revocation_seeds = RevocationSeeds { parent: distribution_address, user: claimant };
    let claim_seeds = MerkleClaimSeeds { distribution: distribution_address, claimant };
    let revocation_pda = spec_check_pda(revocation_seeds.spec_seeds(), revocation_account, program_id, None);
    let claim_pda = spec_check_pda(claim_seeds.spec_seeds(), claim_account, program_id, None);
    if authority != distribution.authority@ {
        Err(custom(RewardsProgramError::UnauthorizedAuthority))
    } else if mode.spec_is_disabled_by(distribution.revocable) {
        Err(custom(RewardsProgramError::DistributionNotRevocable))
    } else if proof_root(leaf, proof) != distribution.merkle_root@ {
        Err(custom(RewardsProgramError::InvalidMerkleProof))
    } else if revocation_pda is Err {
        Err(revocation_pda->Err_0)
    } else if revocation_initialized {
        Err(custom(RewardsProgramError::ClaimantAlreadyRevoked))
    } else if claim_pda is Err {
        Err(claim_pda->Err_0)
    } else {
        match spec_claimed_so_far(claim_data) {
            Err(e) => Err(e),
            Ok(claimed) => match schedule.spec_unlocked(total, now) {
                Err(e) => Err(e),
                Ok(vested) => if vested < claimed {
                    Err(custom(RewardsProgramError::MathOverflow))
                } else {
                    let vested_unclaimed = vested - claimed;
                    let unvested = total - vested;
                    let revocation = Revocation { bump: revocation_pda->Ok_0 };
                    match mode {
                        RevokeMode::NonVested {} => if distribution.total_claimed
                            + vested_unclaimed > u64::MAX {
                            Err(custom(RewardsProgramError::MathOverflow))
                        } else {
                            Ok(
                                MerkleRevocationOutcome {
                                    distribution: MerkleDistribution {
                                        total_claimed: (distribution.total_claimed
                                            + vested_unclaimed) as u64,
                                        ..distribution
                                    },
                                    vested_transferred: vested_unclaimed as u64,
                                    total_freed: unvested as u64,
                                    revocation,
                                },
                            )
                        },
                        RevokeMode::Full {} => Ok(
                            MerkleRevocationOutcome {
                                distribution,
                                vested_transferred: 0,
                                total_freed: (unvested + vested_unclaimed) as u64,
                                revocation,
                            },
                        ),
                    }
                },
            },
        }
    }
}

/// Revokes `claimant`: derives its leaf from its own address and the
/// allocation and schedule given in `data`, then decides the revocation as
/// `revoke_merkle_claim_with_leaf` does for that leaf. `claim_data` is `None`
/// when the claim account is not initialized.
pub fn revoke_merkle_claim(
    distribution: &MerkleDistribution,
    distribution_address: &Address,
    authority: &Address,
    claimant: &Address,
    data: &RevokeMerkleClaimData,
    revocation_account: &Address,
    revocation_initialized: bool,
    claim_account: &Address,
    claim_data: Option<&[u8]>,
    current_ts: i64,
    program_id: &Address,
) -> (r: Result<MerkleRevocationOutcome, ProgramError>)
    ensures
        r == spec_revoke_merkle_claim(
            *distribution,
            *distribution_address,
            authority@,
            *claimant,
            (data.revoke_mode, data.total_amount, data.schedule, data.proof@),
            spec_schedule_leaf_hash(claimant@, data.total_amount, data.schedule),
            revocation_account@,
            revocation_initialized,
            claim_account@,
            data_view(claim_data),
            current_ts,
            program_id@,
        ),
{
    let leaf = compute_schedule_leaf_hash(claimant, data.total_amount, &data.schedule);
    revoke_merkle_claim_with_leaf(
        distribution,
        distribution_address,
        authority,
        claimant,
        data,
        &leaf,
        revocation_account,
        revocation_initialized,
        claim_account,
        claim_data,
        current_ts,
        program_id,
    )
}

/// Checks the authority and that the distribution allows the mode, the
/// supplied leaf against the root, that the claimant was not revoked before,
/// and the claim account's address; then settles: in `NonVested` mode the
/// vested but unclaimed part goes to the claimant (and counts as claimed) and
/// the unvested part to the authority, in `Full` mode all the unclaimed rest
/// goes to the authority. `leaf` is the leaf hash the proof starts from;
/// `claim_data` is `None` when the claim account is not initialized.
pub fn revoke_merkle_claim_with_leaf(
    distribution: &MerkleDistribution,
    distribution_address: &Address,
    authority: &Address,
    claimant: &Address,
    data: &RevokeMerkleClaimData,
    leaf: &[u8; 32],
    revocation_account: &Address,
    revocation_initialized: bool,
    claim_account: &Address,
    claim_data: Option<&[u8]>,
    current_ts: i64,
    program_id: &Address,
) -> (r: Result<MerkleRevocationOutcome, ProgramError>)
    ensures
        r == spec_revoke_merkle_claim(
            *distribution,
            *distribution_address,
            authority@,
            *claimant,
            (data.revoke_mode, data.total_amount, data.schedule, data.proof@),
            leaf@,
            revocation_account@,
            revocation_initialized,
            claim_account@,
            data_view(claim_data),
            current_ts,
            program_id@,
        ),
{
    Distribution::validate_authority(distribution, authority)?;
    if data.revoke_mode.is_disabled_by(distribution.revocable) {
        return Err(ProgramError::Custom(RewardsProgramError::DistributionNotRevocable.code()));
    }
    verify_proof_or_error(data.proof.as_slice(), &distribution.merkle_root, leaf)?;
    let revocation_seeds = RevocationSeeds { parent: *distribution_address, user: *claimant };
    let revocation_bump = revocation_seeds.validate_pda_address(revocation_account, program_id)?;
    if revocation_initialized {
        return Err(ProgramError::Custom(RewardsProgramError::ClaimantAlreadyRevoked.code()));
    }
    let claim_seeds = MerkleClaimSeeds { distribution: *distribution_address, claimant: *claimant };
    claim_seeds.validate_pda_address(claim_account, program_id)?;
    let claimed_amount = match claim_data {
        None => 0u64,
        Some(d) => {
            let claim = MerkleClaim::parse_from_bytes(d)?;
            claim.claimed_amount
        },
    };
    let vested = VestingParams::calculate_unlocked(data, current_ts)?;
    proof {
        lemma_unlocked_at_most_total(data.schedule, data.total_amount, current_ts);
    }
    if vested < claimed_amount {
        return Err(ProgramError::Custom(RewardsProgramError::MathOverflow.code()));
    }
    let vested_unclaimed = vested - claimed_amount;
    let unvested = data.total_amount - vested;
    let revocation = Revocation::new(revocation_bump);
    let mut distribution = *distribution;
    match data.revoke_mode {
        RevokeMode::NonVested {} => {
            Distribution::add_claimed(&mut distribution, vested_unclaimed)?;
            Ok(
                MerkleRevocationOutcome {
                    distribution,
                    vested_transferred: vested_unclaimed,
                    total_freed: unvested,
                    revocation,
                },
            )
        },
        RevokeMode::Full {} => {
            Ok(
                MerkleRevocationOutcome {
                    distribution,
                    vested_transferred: 0,
                    total_freed: unvested + vested_unclaimed,
                    revocation,
                },
            )
        },
    }
}

/// Whatever the mode, a revocation pays out exactly the claimant's unclaimed
/// remainder, split between the claimant and the authority; only what goes to
/// the claimant counts as claimed, and `Full` sends it all to the authority.
pub proof fn lemma_revoke_merkle_pays_out_remainder(
    distribution: MerkleDistribution,
    distribution_address: Address,
    authority: Seq<u8>,
    claimant: Address,
    data: (RevokeMode, u64, crate::utils::VestingSchedule, Seq<[u8; 32]>),
    leaf: Seq<u8>,
    revocation_account: Seq<u8>,
    revocation_initialized: bool,
    claim_account: Seq<u8>,
    claim_data: Option<Seq<u8>>,
    now: i64,
    program_id: Seq<u8>,
)
    requires
        spec_revoke_merkle_claim(
            distribution,
            distribution_address,
            authority,
            claimant,
            data,
            leaf,
            revocation_account,
            revocation_initialized,
            claim_account,
            claim_data,
            now,
            program_id,
        ) is Ok,
    ensures
        ({
            let o = spec_revoke_merkle_claim(
                distribution,
                distribution_address,
                authority,
                claimant,
                data,
                leaf,
                revocation_account,
                revocation_initialized,
                claim_account,
                claim_data,
                now,
                program_id,
            )->Ok_0;
            let claimed = spec_claimed_so_far(claim_data)->Ok_0;
            &&& o.vested_transferred + o.total_freed == data.1 - claimed
            &&& o.distribution.total_claimed == distribution.total_claimed + o.vested_transferred
            &&& data.0 == (RevokeMode::Full {}) ==> o.vested_transferred == 0
            &&& !revocation_initialized
        }),
{
    lemma_unlocked_at_most_total(data.2, data.1, now);
}

/// A revoked claimant stays revoked: once its revocation marker exists, every
/// later claim and every later revocation of it is refused.
pub proof fn lemma_revocation_blocks_claimant(
    distribution: MerkleDistribution,
    distribution_address: Address,
    authority: Seq<u8>,
    claimant: Address,
    data: (RevokeMode, u64, crate::utils::VestingSchedule, Seq<[u8; 32]>),
    leaf: Seq<u8>,
    revocation_account: Seq<u8>,
    claim_account: Seq<u8>,
    claim_data: Option<Seq<u8>>,
    request: MerkleClaimRequest,
    now: i64,
    program_id: Seq<u8>,
)
    ensures
        spec_claim_merkle(
            distribution,
            distribution_address,
            claimant,
            leaf,
            data.3,
            revocation_account,
            true,
            claim_account,
            claim_data,
            request,
            now,
            program_id,
        ) is Err,
        spec_revoke_merkle_claim(
            distribution,
            distribution_address,
            authority,
            claimant,
            data,
            leaf,
            revocation_account,
            true,
            claim_account,
            claim_data,
            now,
            program_id,
        ) is Err,
{
}

/// A revocation settles only the claimant's own committed leaf: it succeeds
/// only when the supplied proof leads from the leaf of the claimant's address,
/// the total and the schedule it settles to the distribution's root.
pub proof fn lemma_revoke_bound_to_own_leaf(
    distribution: MerkleDistribution,
    distribution_address: Address,
    authority: Seq<u8>,
    claimant: Address,
    data: (RevokeMode, u64, crate::utils::VestingSchedule, Seq<[u8; 32]>),
    revocation_account: Seq<u8>,
    revocation_initialized: bool,
    claim_account: Seq<u8>,
    claim_data: Option<Seq<u8>>,
    now: i64,
    program_id: Seq<u8>,
)
    requires
        spec_revoke_merkle_claim(
            distribution,
            distribution_address,
            authority,
            claimant,
            data,
            spec_schedule_leaf_hash(claimant@, data.1, data.2),
            revocation_account,
            revocation_initialized,
            claim_account,
            claim_data,
            now,
            program_id,
        ) is Ok,
    ensures
        authority == distribution.authority@,
        proof_root(spec_schedule_leaf_hash(claimant@, data.1, data.2), data.3) == distribution.merkle_root@,
{
}

/// The distribution's own authority is refused with `DistributionNotRevocable`
/// whenever the `revocable` bitmask does not allow the requested mode: bit 0
/// for `NonVested`, bit 1 for `Full`.
pub proof fn lemma_revoke_merkle_follows_bitmask(
    distribution: MerkleDistribution,
    distribution_address: Address,
    claimant: Address,
    data: (RevokeMode, u64, crate::utils::VestingSchedule, Seq<[u8; 32]>),
    leaf: Seq<u8>,
    revocation_account: Seq<u8>,
    revocation_initialized: bool,
    claim_account: Seq<u8>,
    claim_data: Option<Seq<u8>>,
    now: i64,
    program_id: Seq<u8>,
)
    requires
        data.0 == (RevokeMode::NonVested {}) ==> (distribution.revocable & 1u8) != 1u8,
        data.0 == (RevokeMode::Full {}) ==> (distribution.revocable & 2u8) != 2u8,
    ensures
        spec_revoke_merkle_claim(
            distribution,
            distribution_address,
            distribution.authority@,
            claimant,
            data,
            leaf,
            revocation_account,
            revocation_initialized,
            claim_account,
            claim_data,
            now,
            program_id,
        ) == Err::<MerkleRevocationOutcome, ProgramError>(
            custom(RewardsProgramError::DistributionNotRevocable),
        ),
{
    crate::utils::revoke_utils::lemma_revocable_bitmask(distribution.revocable);
}

} // verus!
