//! Instruction data of RevokeDirectRecipient.
use vstd::prelude::*;
use crate::errors::ProgramError;
use crate::traits::account::require_len;
use crate::traits::InstructionData;
use crate::utils::RevokeMode;

verus! {

/// Instruction data of RevokeDirectRecipient: how the revocation settles.
#[derive(Clone, Copy, Debug, PartialEq, Eq, Structural)]
pub struct RevokeDirectRecipientData {
    pub revoke_mode: RevokeMode,
}

impl RevokeDirectRecipientData {
    /// The data `bytes` hold: the revoke mode's byte; the error when it is
    /// missing or names no mode.
    pub open spec fn spec_parse(bytes: Seq<u8>) -> Result<RevokeDirectRecipientData, ProgramError> {
        if bytes.len() < 1 {
            Err(ProgramError::InvalidInstructionData)
        } else {
            match RevokeMode::spec_from_byte(bytes[0]) {
                Ok(m) => Ok(RevokeDirectRecipientData { revoke_mode: m }),
                Err(e) => Err(e),
            }
        }
    }
}

impl<'a> TryFrom<&'a [u8]> for RevokeDirectRecipientData {
    type Error = ProgramError;

    fn try_from(data: &'a [u8]) -> (r: Result<RevokeDirectRecipientData, ProgramError>) {
        require_len(data, 1)?;
        let revoke_mode = RevokeMode::from_byte(data[0])?;
        Ok(RevokeDirectRecipientData { revoke_mode })
    }
}

impl<'a> vstd::std_specs::convert::TryFromSpecImpl<&'a [u8]> for RevokeDirectRecipientData {
    open spec fn obeys_try_from_spec() -> bool {
        true
    }

    open spec fn try_from_spec(data: &'a [u8]) -> Result<RevokeDirectRecipientData, ProgramError> {
        RevokeDirectRecipientData::spec_parse(data@)
    }
}

impl<'a> InstructionData<'a> for RevokeDirectRecipientData {
    const LEN: usize = 1;

    open spec fn spec_validate(&self) -> Result<(), ProgramError> {
        Ok(())
    }

    fn validate(&self) -> (r: Result<(), ProgramError>) {
        Ok(())
    }
}

} // verus!
