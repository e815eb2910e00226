//! Instruction data of EmitEvent.
use vstd::prelude::*;
use crate::errors::ProgramError;
use crate::traits::InstructionData;

verus! {

/// Instruction data of EmitEvent: none; the event itself is the instruction's data.
#[derive(Clone, Copy, Debug, PartialEq, Eq, Structural)]
pub struct EmitEventData {}

impl<'a> TryFrom<&'a [u8]> for EmitEventData {
    type Error = ProgramError;

    /// Accepts any bytes.
    fn try_from(_data: &'a [u8]) -> (r: Result<EmitEventData, ProgramError>) {
        Ok(EmitEventData {})
    }
}

impl<'a> vstd::std_specs::convert::TryFromSpecImpl<&'a [u8]> for EmitEventData {
    open spec fn obeys_try_from_spec() -> bool {
        true
    }

    open spec fn try_from_spec(data: &'a [u8]) -> Result<EmitEventData, ProgramError> {
        Ok(EmitEventData {})
    }
}

impl<'a> InstructionData<'a> for EmitEventData {
    const LEN: usize = 0;

    open spec fn spec_validate(&self) -> Result<(), ProgramError> {
        Ok(())
    }

    fn validate(&self) -> (r: Result<(), ProgramError>) {
        Ok(())
    }
}

} // verus!
