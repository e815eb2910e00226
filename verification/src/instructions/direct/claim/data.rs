//! Instruction data of ClaimDirect.
use vstd::prelude::*;
use crate::codec::{read_u64, u64_of_le};
use crate::errors::ProgramError;
use crate::traits::account::require_len;
use crate::traits::InstructionData;

verus! {

/// Instruction data of ClaimDirect: the amount to claim (0 claims everything
/// available).
#[derive(Clone, Copy, Debug, PartialEq, Eq, Structural)]
pub struct ClaimDirectData {
    pub amount: u64,
}

impl ClaimDirectData {
    /// The data `bytes` hold: the amount, little-endian; the error when it is
    /// shorter than eight bytes.
    pub open spec fn spec_parse(bytes: Seq<u8>) -> Result<ClaimDirectData, ProgramError> {
        if bytes.len() < 8 {
            Err(ProgramError::InvalidInstructionData)
        } else {
            Ok(ClaimDirectData { amount: u64_of_le(bytes.subrange(0, 8)) })
        }
    }
}

impl<'a> TryFrom<&'a [u8]> for ClaimDirectData {
    type Error = ProgramError;

    fn try_from(data: &'a [u8]) -> (r: Result<ClaimDirectData, ProgramError>) {
        require_len(data, 8)?;
        Ok(ClaimDirectData { amount: read_u64(data, 0) })
    }
}

impl<'a> vstd::std_specs::convert::TryFromSpecImpl<&'a [u8]> for ClaimDirectData {
    open spec fn obeys_try_from_spec() -> bool {
        true
    }

    open spec fn try_from_spec(data: &'a [u8]) -> Result<ClaimDirectData, ProgramError> {
        ClaimDirectData::spec_parse(data@)
    }
}

impl<'a> InstructionData<'a> for ClaimDirectData {
    const LEN: usize = 8;

    open spec fn spec_validate(&self) -> Result<(), ProgramError> {
        Ok(())
    }

    fn validate(&self) -> (r: Result<(), ProgramError>) {
        Ok(())
    }
}

} // verus!
