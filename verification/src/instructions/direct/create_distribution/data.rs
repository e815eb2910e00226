//! Instruction data of CreateDirectDistribution.
use vstd::prelude::*;
use crate::codec::{i64_of_le, read_i64};
use crate::errors::ProgramError;
use crate::traits::account::require_len;
use crate::traits::InstructionData;

verus! {

/// Instruction data of CreateDirectDistribution: the PDA bump, the bitmask of
/// allowed revoke modes and the clawback timestamp.
#[derive(Clone, Copy, Debug, PartialEq, Eq, Structural)]
pub struct CreateDirectDistributionData {
    pub bump: u8,
    pub revocable: u8,
    pub clawback_ts: i64,
}

impl CreateDirectDistributionData {
    /// The data `bytes` hold: bump, revocable, then the clawback timestamp
    /// (little-endian); the error when there are fewer than ten bytes.
    pub open spec fn spec_parse(bytes: Seq<u8>) -> Result<CreateDirectDistributionData, ProgramError> {
        if bytes.len() < 10 {
            Err(ProgramError::InvalidInstructionData)
        } else {
            Ok(
                CreateDirectDistributionData {
                    bump: bytes[0],
                    revocable: bytes[1],
                    clawback_ts: i64_of_le(bytes.subrange(2, 10)),
                },
            )
        }
    }
}

impl<'a> TryFrom<&'a [u8]> for CreateDirectDistributionData {
    type Error = ProgramError;

    fn try_from(data: &'a [u8]) -> (r: Result<CreateDirectDistributionData, ProgramError>) {
        require_len(data, 10)?;
        let bump = data[0];
        let revocable = data[1];
        let clawback_ts = read_i64(data, 2);
        Ok(CreateDirectDistributionData { bump, revocable, clawback_ts })
    }
}

impl<'a> vstd::std_specs::convert::TryFromSpecImpl<&'a [u8]> for CreateDirectDistributionData {
    open spec fn obeys_try_from_spec() -> bool {
        true
    }

    open spec fn try_from_spec(data: &'a [u8]) -> Result<CreateDirectDistributionData, ProgramError> {
        CreateDirectDistributionData::spec_parse(data@)
    }
}

impl<'a> InstructionData<'a> for CreateDirectDistributionData {
    const LEN: usize = 10;

    /// Every bitmask of revoke modes is accepted.
    open spec fn spec_validate(&self) -> Result<(), ProgramError> {
        Ok(())
    }

    fn validate(&self) -> (r: Result<(), ProgramError>) {
        Ok(())
    }
}

} // verus!
