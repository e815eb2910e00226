//! Instruction data of CreateVestingDistribution.
use vstd::prelude::*;
use crate::codec::{read_u64, u64_of_le};
use crate::errors::{custom, ProgramError, RewardsProgramError};
use crate::traits::account::require_len;
use crate::traits::InstructionData;

verus! {

/// Instruction data of CreateVestingDistribution: the PDA bump and the amount.
#[derive(Clone, Copy, Debug, PartialEq, Eq, Structural)]
pub struct CreateVestingDistributionData {
    pub bump: u8,
    pub amount: u64,
}

impl CreateVestingDistributionData {
    /// The data `bytes` hold: bump, then the amount (little-endian); the error
    /// when there are fewer than nine bytes.
    pub open spec fn spec_parse(bytes: Seq<u8>) -> Result<CreateVestingDistributionData, ProgramError> {
        if bytes.len() < 9 {
            Err(ProgramError::InvalidInstructionData)
        } else {
            Ok(CreateVestingDistributionData { bump: bytes[0], amount: u64_of_le(bytes.subrange(1, 9)) })
        }
    }
}

impl<'a> TryFrom<&'a [u8]> for CreateVestingDistributionData {
    type Error = ProgramError;

    fn try_from(data: &'a [u8]) -> (r: Result<CreateVestingDistributionData, ProgramError>) {
        require_len(data, 9)?;
        let bump = data[0];
        let amount = read_u64(data, 1);
        Ok(CreateVestingDistributionData { bump, amount })
    }
}

impl<'a> vstd::std_specs::convert::TryFromSpecImpl<&'a [u8]> for CreateVestingDistributionData {
    open spec fn obeys_try_from_spec() -> bool {
        true
    }

    open spec fn try_from_spec(data: &'a [u8]) -> Result<CreateVestingDistributionData, ProgramError> {
        CreateVestingDistributionData::spec_parse(data@)
    }
}

impl<'a> InstructionData<'a> for CreateVestingDistributionData {
    const LEN: usize = 9;

    open spec fn spec_validate(&self) -> Result<(), ProgramError> {
        if self.amount == 0 {
            Err(custom(RewardsProgramError::InvalidAmount))
        } else {
            Ok(())
        }
    }

    fn validate(&self) -> (r: Result<(), ProgramError>) {
        if self.amount == 0 {
            return Err(ProgramError::Custom(RewardsProgramError::InvalidAmount.code()));
        }
        Ok(())
    }
}

} // verus!
