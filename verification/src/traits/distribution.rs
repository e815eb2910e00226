//! Operations shared by merkle and direct distributions.
use vstd::prelude::*;
use crate::codec::{address_eq, Address};
use crate::errors::{custom, ProgramError, RewardsProgramError};
use super::{AccountParse, AccountSerialize, PdaAccount};

verus! {

/// Common interface for distribution account types (Merkle and Direct).
pub trait Distribution: AccountParse + AccountSerialize + PdaAccount {
    spec fn spec_mint(&self) -> Address;

    spec fn spec_authority(&self) -> Address;

    spec fn spec_seeds_key(&self) -> Address;

    spec fn spec_total_claimed(&self) -> u64;

    /// This distribution with the total claimed replaced by `amount`, nothing else changed.
    spec fn spec_with_total_claimed(&self, amount: u64) -> Self;

    /// Returns the mint address for this distribution
    fn mint(&self) -> (r: &Address)
        ensures
            *r == self.spec_mint(),
    ;

    /// Returns the authority address for this distribution
    fn authority(&self) -> (r: &Address)
        ensures
            *r == self.spec_authority(),
    ;

    /// Returns the seeds key used for PDA derivation
    fn seeds_key(&self) -> (r: &Address)
        ensures
            *r == self.spec_seeds_key(),
    ;

    /// Returns the total amount claimed from this distribution
    fn total_claimed(&self) -> (r: u64)
        ensures
            r == self.spec_total_claimed(),
    ;

    /// Sets the total claimed amount; it may never decrease.
    fn set_total_claimed(&mut self, amount: u64) -> (r: Result<(), ProgramError>)
        ensures
            amount < old(self).spec_total_claimed() ==> {
                &&& r == Err::<(), ProgramError>(custom(RewardsProgramError::ClaimedAmountDecreased))
                &&& *final(self) == *old(self)
            },
            amount >= old(self).spec_total_claimed() ==> {
                &&& r == Ok::<(), ProgramError>(())
                &&& *final(self) == old(self).spec_with_total_claimed(amount)
            },
    ;

    /// Validates that the provided authority matches the distribution's authority
    fn validate_authority(&self, authority: &Address) -> (r: Result<(), ProgramError>)
        ensures
            r == if authority@ == self.spec_authority()@ {
                Ok::<(), ProgramError>(())
            } else {
                Err(custom(RewardsProgramError::UnauthorizedAuthority))
            },
    {
        if !address_eq(self.authority(), authority) {
            return Err(ProgramError::Custom(RewardsProgramError::UnauthorizedAuthority.code()));
        }
        Ok(())
    }

    /// Adds to the total claimed amount with overflow checking; on overflow nothing changes.
    fn add_claimed(&mut self, amount: u64) -> (r: Result<(), ProgramError>)
        ensures
            old(self).spec_total_claimed() + amount > u64::MAX ==> {
                &&& r == Err::<(), ProgramError>(custom(RewardsProgramError::MathOverflow))
                &&& *final(self) == *old(self)
            },
            old(self).spec_total_claimed() + amount <= u64::MAX ==> {
                &&& r == Ok::<(), ProgramError>(())
                &&& *final(self) == old(self).spec_with_total_claimed(
                    (old(self).spec_total_claimed() + amount) as u64,
                )
            },
    {
        let total = self.total_claimed();
        match total.checked_add(amount) {
            None => Err(ProgramError::Custom(RewardsProgramError::MathOverflow.code())),
            Some(new_total) => self.set_total_claimed(new_total),
        }
    }
}

} // verus!
