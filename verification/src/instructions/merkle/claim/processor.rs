//! The decision of a merkle claim: proof, revocation and claim-account checks,
//! then what the claimant may take now.
use vstd::prelude::*;
use crate::codec::{u64_of_le, Address};
use crate::errors::{custom, ProgramError, RewardsProgramError};
use crate::state::{MerkleClaim, MerkleClaimSeeds, MerkleDistribution, RevocationSeeds};
use crate::traits::pda::spec_check_pda;
use crate::traits::{AccountParse, ClaimTracker, Distribution, PdaSeeds};
use crate::utils::claim_utils::{lemma_claim_within_unlocked, spec_claim_amount};
use crate::utils::merkle_utils::{compute_schedule_leaf_hash, proof_root, spec_schedule_leaf_hash};
use crate::utils::{resolve_claim_amount, verify_proof_or_error, VestingSchedule};

verus! {

/// The outcome of a merkle claim: the accounts to write back (the claim
/// account to create first when `is_new_claim`) and the amount to transfer
/// from the vault to the claimant.
#[derive(Clone, Copy, Debug, PartialEq, Eq)]
pub struct MerkleClaimOutcome {
    pub distribution: MerkleDistribution,
    pub claim: MerkleClaim,
    pub amount: u64,
    pub is_new_claim: bool,
}

/// What a claimant asks for: its leaf's allocation and schedule, the bump of
/// its claim account, and the amount (0 for everything available).
#[derive(Clone, Copy, Debug, PartialEq, Eq, Structural)]
pub struct MerkleClaimRequest {
    pub total_amount: u64,
    pub schedule: VestingSchedule,
    pub claim_bump: u8,
    pub amount: u64,
}

/// The claim record held by initialized claim account data.
pub open spec fn spec_read_merkle_claim(data: Seq<u8>) -> MerkleClaim {
    MerkleClaim { bump: data[2], claimed_amount: u64_of_le(data.subrange(10, 18)) }
}

/// The claim record the claimant starts from: a fresh one when the claim
/// account is uninitialized (`claim_data` is `None`), else the one its data
/// holds.
pub open spec fn spec_current_claim(claim_data: Option<Seq<u8>>, claim_bump: u8) -> Result<
    MerkleClaim,
    ProgramError,
> {
    match claim_data {
        None => Ok(MerkleClaim { bump: claim_bump, claimed_amount: 0 }),
        Some(d) => if MerkleClaim::spec_parses(d) {
            Ok(spec_read_merkle_claim(d))
        } else {
            Err(ProgramError::InvalidAccountData)
        },
    }
}

/// The view of optional account data.
pub open spec fn data_view(data: Option<&[u8]>) -> Option<Seq<u8>> {
    match data {
        Some(d) => Some(d@),
        None => None,
    }
}

/// A merkle claim by `claimant` in the distribution at `distribution_address`.
pub open spec fn spec_claim_merkle(
    distribution: MerkleDistribution,
    distribution_address: Address,
    claimant: Address,
    leaf: Seq<u8>,
    proof: Seq<[u8; 32]>,
    revocation_account: Seq<u8>,
    revocation_initialized: bool,
    claim_account: Seq<u8>,
    claim_data: Option<Seq<u8>>,
    request: MerkleClaimRequest,
    now: i64,
    program_id: Seq<u8>,
) -> Result<MerkleClaimOutcome, ProgramError> {
    let revocation_seeds = RevocationSeeds { parent: distribution_address, user: claimant };
    let claim_seeds = MerkleClaimSeeds { distribution: distribution_address, claimant };
    if proof_root(leaf, proof) != distribution.merkle_root@ {
        Err(custom(RewardsProgramError::InvalidMerkleProof))
    } else if spec_check_pda(revocation_seeds.spec_seeds(), revocation_account, program_id, None) is Err {
        Err(spec_check_pda(revocation_seeds.spec_seeds(), revocation_account, program_id, None)->Err_0)
    } else if revocation_initialized {
        Err(custom(RewardsProgramError::ClaimantAlreadyRevoked))
    } else if spec_check_pda(claim_seeds.spec_seeds(), claim_account, program_id, Some(request.claim_bump)) is Err {
        Err(
            spec_check_pda(
                claim_seeds.spec_seeds(),
                claim_account,
                program_id,
                Some(request.claim_bump),
            )->Err_0,
        )
    } else {
        match spec_current_claim(claim_data, request.claim_bump) {
            Err(e) => Err(e),
            Ok(claim) => match spec_claim_amount(
                request.total_amount,
                request.schedule,
                claim.claimed_amount,
                request.amount,
                now,
            ) {
                Err(e) => Err(e),
                Ok(a) => if distribution.total_claimed + a > u64::MAX {
                    Err(custom(RewardsProgramError::MathOverflow))
                } else {
                    Ok(
                        MerkleClaimOutcome {
                            distribution: MerkleDistribution {
                                total_claimed: (distribution.total_claimed + a) as u64,
                                ..distribution
                            },
                            claim: MerkleClaim {
                                claimed_amount: (claim.claimed_amount + a) as u64,
                                ..claim
                            },
                            amount: a,
                            is_new_claim: claim_data is None,
                        },
                    )
                },
            },
        }
    }
}

/// The leaf a claim request stands for: the claimant's allocation and
/// schedule as the request states them.
pub open spec fn spec_request_leaf(claimant: Seq<u8>, request: MerkleClaimRequest) -> Seq<u8> {
    spec_schedule_leaf_hash(claimant, request.total_amount, request.schedule)
}

/// A claim by `claimant`: derives the claimant's leaf from its own address and
/// the allocation and schedule of the request, then decides the claim as
/// `claim_merkle_with_leaf` does for that leaf. A proof for any other leaf
/// (another claimant's, or another total) does not reach the root.
/// `claim_data` is `None` when the claim account is not initialized yet.
pub fn claim_merkle(
    distribution: &MerkleDistribution,
    distribution_address: &Address,
    claimant: &Address,
    proof: &[[u8; 32]],
    revocation_account: &Address,
    revocation_initialized: bool,
    claim_account: &Address,
    claim_data: Option<&[u8]>,
    request: &MerkleClaimRequest,
    current_ts: i64,
    program_id: &Address,
) -> (r: Result<MerkleClaimOutcome, ProgramError>)
    ensures
        r == spec_claim_merkle(
            *distribution,
            *distribution_address,
            *claimant,
            spec_request_leaf(claimant@, *request),
            proof@,
            revocation_account@,
            revocation_initialized,
            claim_account@,
            data_view(claim_data),
            *request,
            current_ts,
            program_id@,
        ),
{
    let leaf = compute_schedule_leaf_hash(claimant, request.total_amount, &request.schedule);
    claim_merkle_with_leaf(
        distribution,
        distribution_address,
        claimant,
        &leaf,
        proof,
        revocation_account,
        revocation_initialized,
        claim_account,
        claim_data,
        request,
        current_ts,
        program_id,
    )
}

/// Checks `proof` from `leaf` against the distribution's root, that the
/// claimant was not revoked, that `claim_account` is the claimant's claim PDA
/// found with the requested bump, then resolves the claim against what is
/// unlocked at `current_ts` and records it on both records. `leaf` is the
/// leaf hash the proof starts from; `claim_data` is `None` when the claim
/// account is not initialized yet.
pub fn claim_merkle_with_leaf(
    distribution: &MerkleDistribution,
    distribution_address: &Address,
    claimant: &Address,
    leaf: &[u8; 32],
    proof: &[[u8; 32]],
    revocation_account: &Address,
    revocation_initialized: bool,
    claim_account: &Address,
    claim_data: Option<&[u8]>,
    request: &MerkleClaimRequest,
    current_ts: i64,
    program_id: &Address,
) -> (r: Result<MerkleClaimOutcome, ProgramError>)
    ensures
        r == spec_claim_merkle(
            *distribution,
            *distribution_address,
            *claimant,
            leaf@,
            proof@,
            revocation_account@,
            revocation_initialized,
            claim_account@,
            data_view(claim_data),
            *request,
            current_ts,
            program_id@,
        ),
{
    verify_proof_or_error(proof, &distribution.merkle_root, leaf)?;
    let revocation_seeds = RevocationSeeds { parent: *distribution_address, user: *claimant };
    revocation_seeds.validate_pda_address(revocation_account, program_id)?;
    if revocation_initialized {
        return Err(ProgramError::Custom(RewardsProgramError::ClaimantAlreadyRevoked.code()));
    }
    let claim_seeds = MerkleClaimSeeds { distribution: *distribution_address, claimant: *claimant };
    claim_seeds.validate_pda(claim_account, program_id, request.claim_bump)?;
    let is_new_claim = claim_data.is_none();
    let mut claim = match claim_data {
        None => MerkleClaim::new(request.claim_bump),
        Some(d) => MerkleClaim::parse_from_bytes(d)?,
    };
    let unlocked = request.schedule.calculate_unlocked(request.total_amount, current_ts)?;
    let claimable = match ClaimTracker::claimable_amount(&claim, unlocked) {
        Ok(c) => c,
        Err(e) => {
            return Err(ProgramError::Custom(e.code()));
        },
    };
    let amount = resolve_claim_amount(request.amount, claimable)?;
    proof {
        lemma_claim_within_unlocked(
            request.total_amount,
            request.schedule,
            claim.claimed_amount,
            request.amount,
            current_ts,
        );
    }
    ClaimTracker::add_claimed(&mut claim, amount)?;
    let mut distribution = *distribution;
    Distribution::add_claimed(&mut distribution, amount)?;
    Ok(MerkleClaimOutcome { distribution, claim, amount, is_new_claim })
}

/// A successful merkle claim pays a positive amount, never takes the claimant
/// past what its leaf unlocks, and adds the same amount to the claim record
/// and to the distribution's claimed total.
pub proof fn lemma_claim_merkle_accounting(
    distribution: MerkleDistribution,
    distribution_address: Address,
    claimant: Address,
    leaf: Seq<u8>,
    proof: Seq<[u8; 32]>,
    revocation_account: Seq<u8>,
    revocation_initialized: bool,
    claim_account: Seq<u8>,
    claim_data: Option<Seq<u8>>,
    request: MerkleClaimRequest,
    now: i64,
    program_id: Seq<u8>,
)
    requires
        spec_claim_merkle(
            distribution,
            distribution_address,
            claimant,
            leaf,
            proof,
            revocation_account,
            revocation_initialized,
            claim_account,
            claim_data,
            request,
            now,
            program_id,
        ) is Ok,
    ensures
        ({
            let o = spec_claim_merkle(
                distribution,
                distribution_address,
                claimant,
                leaf,
                proof,
                revocation_account,
                revocation_initialized,
                claim_account,
                claim_data,
                request,
                now,
                program_id,
            )->Ok_0;
            let before = spec_current_claim(claim_data, request.claim_bump)->Ok_0;
            &&& !revocation_initialized
            &&& proof_root(leaf, proof) == distribution.merkle_root@
            &&& o.amount > 0
            &&& o.claim.claimed_amount == before.claimed_amount + o.amount
            &&& o.distribution.total_claimed == distribution.total_claimed + o.amount
            &&& request.schedule.spec_unlocked(request.total_amount, now) matches Ok(u)
                && o.claim.claimed_amount <= u
            &&& o.claim.claimed_amount <= request.total_amount
        }),
{
    let before = spec_current_claim(claim_data, request.claim_bump)->Ok_0;
    lemma_claim_within_unlocked(
        request.total_amount,
        request.schedule,
        before.claimed_amount,
        request.amount,
        now,
    );
}

/// A claim is paid only against the claimant's own committed leaf: it
/// succeeds only when the proof leads from the leaf of the claimant's address,
/// total and schedule to the distribution's root, and then never takes the
/// claimant past that total.
pub proof fn lemma_claim_bound_to_own_leaf(
    distribution: MerkleDistribution,
    distribution_address: Address,
    claimant: Address,
    proof: Seq<[u8; 32]>,
    revocation_account: Seq<u8>,
    revocation_initialized: bool,
    claim_account: Seq<u8>,
    claim_data: Option<Seq<u8>>,
    request: MerkleClaimRequest,
    now: i64,
    program_id: Seq<u8>,
)
    requires
        spec_claim_merkle(
            distribution,
            distribution_address,
            claimant,
            spec_request_leaf(claimant@, request),
            proof,
            revocation_account,
            revocation_initialized,
            claim_account,
            claim_data,
            request,
            now,
            program_id,
        ) is Ok,
    ensures
        proof_root(
            spec_schedule_leaf_hash(claimant@, request.total_amount, request.schedule),
            proof,
        ) == distribution.merkle_root@,
        spec_claim_merkle(
            distribution,
            distribution_address,
            claimant,
            spec_request_leaf(claimant@, request),
            proof,
            revocation_account,
            revocation_initialized,
            claim_account,
            claim_data,
            request,
            now,
            program_id,
        )->Ok_0.claim.claimed_amount <= request.total_amount,
{
    lemma_claim_merkle_accounting(
        distribution,
        distribution_address,
        claimant,
        spec_request_leaf(claimant@, request),
        proof,
        revocation_account,
        revocation_initialized,
        claim_account,
        claim_data,
        request,
        now,
        program_id,
    );
}

} // verus!
