//! Allocations that unlock by a vesting schedule.
use vstd::prelude::*;
use crate::errors::ProgramError;
use crate::utils::VestingSchedule;

verus! {

/// Interface for types that provide vesting schedule parameters.
pub trait VestingParams {
    spec fn spec_total_amount(&self) -> u64;

    spec fn spec_vesting_schedule(&self) -> VestingSchedule;

    /// Total amount subject to vesting
    fn total_amount(&self) -> (r: u64)
        ensures
            r == self.spec_total_amount(),
    ;

    /// The vesting schedule for this allocation
    fn vesting_schedule(&self) -> (r: VestingSchedule)
        ensures
            r == self.spec_vesting_schedule(),
    ;

    /// Calculates the unlocked amount at the given timestamp based on schedule
    fn calculate_unlocked(&self, current_ts: i64) -> (r: Result<u64, ProgramError>)
        ensures
            r == self.spec_vesting_schedule().spec_unlocked(self.spec_total_amount(), current_ts),
    {
        let schedule = self.vesting_schedule();
        let total = self.total_amount();
        schedule.calculate_unlocked(total, current_ts)
    }
}

} // verus!
