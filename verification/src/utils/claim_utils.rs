//! Resolution of a requested claim against what is claimable.
use vstd::prelude::*;
use crate::errors::{custom, ProgramError, RewardsProgramError};
use crate::utils::vesting_utils::{lemma_unlocked_at_most_total, lemma_unlocked_monotonic};
use crate::utils::VestingSchedule;

verus! {

/// The amount a claim pays out: all that is claimable when `requested` is 0,
/// else `requested` if it does not exceed what is claimable.
pub open spec fn spec_resolve_claim_amount(requested: u64, claimable: u64) -> Result<u64, ProgramError> {
    if claimable == 0 {
        Err(custom(RewardsProgramError::NothingToClaim))
    } else if requested == 0 {
        Ok(claimable)
    } else if requested > claimable {
        Err(custom(RewardsProgramError::ExceedsClaimableAmount))
    } else {
        Ok(requested)
    }
}

/// Resolves the actual claim amount based on request and available balance.
pub fn resolve_claim_amount(requested: u64, claimable: u64) -> (r: Result<u64, ProgramError>)
    ensures
        r == spec_resolve_claim_amount(requested, claimable),
{
    if claimable == 0 {
        return Err(ProgramError::Custom(RewardsProgramError::NothingToClaim.code()));
    }
    if requested == 0 {
        Ok(claimable)
    } else if requested > claimable {
        Err(ProgramError::Custom(RewardsProgramError::ExceedsClaimableAmount.code()))
    } else {
        Ok(requested)
    }
}

/// A resolved claim is never empty and never more than what is claimable.
pub proof fn lemma_resolved_claim_within_claimable(requested: u64, claimable: u64)
    ensures
        spec_resolve_claim_amount(requested, claimable) matches Ok(a) ==> 0 < a <= claimable,
        spec_resolve_claim_amount(requested, claimable) is Ok <==> (claimable > 0 && requested
            <= claimable),
{
}

/// What a claim pays out of an allocation of `total` unlocking by `schedule`,
/// of which `claimed` was already paid, at `now`: the unlocked amount, less
/// what was claimed, resolved against `requested`.
pub open spec fn spec_claim_amount(
    total: u64,
    schedule: VestingSchedule,
    claimed: u64,
    requested: u64,
    now: i64,
) -> Result<u64, ProgramError> {
    match schedule.spec_unlocked(total, now) {
        Err(e) => Err(e),
        Ok(unlocked) => if unlocked < claimed {
            Err(custom(RewardsProgramError::MathOverflow))
        } else {
            spec_resolve_claim_amount(requested, (unlocked - claimed) as u64)
        },
    }
}

/// A claim never takes the claimed total past what is unlocked, hence never
/// past the allocation.
pub proof fn lemma_claim_within_unlocked(
    total: u64,
    schedule: VestingSchedule,
    claimed: u64,
    requested: u64,
    now: i64,
)
    ensures
        spec_claim_amount(total, schedule, claimed, requested, now) matches Ok(a) ==> {
            &&& a > 0
            &&& schedule.spec_unlocked(total, now) matches Ok(u) && claimed + a <= u
            &&& claimed + a <= total
        },
{
    lemma_unlocked_at_most_total(schedule, total, now);
}

/// Once everything unlocked at `now` is claimed, a claim at `now` fails with
/// `NothingToClaim`, and a claim at an earlier time fails too.
pub proof fn lemma_nothing_left_after_claiming_all(
    total: u64,
    schedule: VestingSchedule,
    claimed: u64,
    now: i64,
    requested: u64,
    earlier: i64,
)
    requires
        spec_claim_amount(total, schedule, claimed, 0, now) is Ok,
        earlier <= now,
    ensures
        ({
            let after = (claimed + spec_claim_amount(total, schedule, claimed, 0, now)->Ok_0) as u64;
            &&& spec_claim_amount(total, schedule, after, requested, now) == Err::<u64, ProgramError>(
                custom(RewardsProgramError::NothingToClaim),
            )
            &&& spec_claim_amount(total, schedule, after, requested, earlier) is Err
        }),
{
    lemma_unlocked_monotonic(schedule, total, earlier, now);
}

/// Waiting never makes less claimable.
pub proof fn lemma_claimable_grows_over_time(
    total: u64,
    schedule: VestingSchedule,
    claimed: u64,
    t1: i64,
    t2: i64,
)
    requires
        t1 <= t2,
        spec_claim_amount(total, schedule, claimed, 0, t1) is Ok,
        schedule.spec_unlocked(total, t2) is Ok,
    ensures
        spec_claim_amount(total, schedule, claimed, 0, t2) is Ok,
        spec_claim_amount(total, schedule, claimed, 0, t1)->Ok_0 <= spec_claim_amount(
            total,
            schedule,
            claimed,
            0,
            t2,
        )->Ok_0,
{
    lemma_unlocked_monotonic(schedule, total, t1, t2);
}

} // verus!
