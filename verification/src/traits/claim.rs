//! Claim tracking shared by merkle claims and direct recipients.
use vstd::prelude::*;
use crate::errors::{custom, ProgramError, RewardsProgramError};

verus! {

/// What remains claimable of `unlocked` once `claimed` has been paid out.
pub open spec fn spec_claimable(unlocked: u64, claimed: u64) -> Result<u64, RewardsProgramError> {
    if unlocked >= claimed {
        Ok((unlocked - claimed) as u64)
    } else {
        Err(RewardsProgramError::MathOverflow)
    }
}

/// Common interface for claim tracking accounts.
pub trait ClaimTracker: Sized {
    spec fn spec_claimed(&self) -> u64;

    /// This tracker with the claimed amount replaced by `amount`, nothing else changed.
    spec fn spec_with_claimed(&self, amount: u64) -> Self;

    /// Returns the amount already claimed by this recipient
    fn claimed_amount(&self) -> (r: u64)
        ensures
            r == self.spec_claimed(),
    ;

    /// Whether setting the claimed amount to `amount` is accepted, or why not.
    spec fn spec_set_claimed_result(&self, amount: u64) -> Result<(), ProgramError>;

    /// Sets the claimed amount; when refused, nothing changes.
    fn set_claimed_amount(&mut self, amount: u64) -> (r: Result<(), ProgramError>)
        ensures
            r == old(self).spec_set_claimed_result(amount),
            r is Ok ==> *final(self) == old(self).spec_with_claimed(amount),
            r is Err ==> *final(self) == *old(self),
    ;

    /// Calculates the claimable amount given the total unlocked amount
    fn claimable_amount(&self, unlocked: u64) -> (r: Result<u64, RewardsProgramError>)
        ensures
            r == spec_claimable(unlocked, self.spec_claimed()),
    {
        let claimed = self.claimed_amount();
        if unlocked >= claimed {
            Ok(unlocked - claimed)
        } else {
            Err(RewardsProgramError::MathOverflow)
        }
    }

    /// Adds to the claimed amount with overflow checking; on overflow nothing changes.
    fn add_claimed(&mut self, amount: u64) -> (r: Result<(), ProgramError>)
        ensures
            old(self).spec_claimed() + amount > u64::MAX ==> {
                &&& r == Err::<(), ProgramError>(custom(RewardsProgramError::MathOverflow))
                &&& *final(self) == *old(self)
            },
            old(self).spec_claimed() + amount <= u64::MAX ==> {
                let new_amount = (old(self).spec_claimed() + amount) as u64;
                &&& r == old(self).spec_set_claimed_result(new_amount)
                &&& r is Ok ==> *final(self) == old(self).spec_with_claimed(new_amount)
                &&& r is Err ==> *final(self) == *old(self)
            },
    {
        let claimed = self.claimed_amount();
        match claimed.checked_add(amount) {
            None => Err(ProgramError::Custom(RewardsProgramError::MathOverflow.code())),
            Some(new_amount) => self.set_claimed_amount(new_amount),
        }
    }
}

} // verus!
