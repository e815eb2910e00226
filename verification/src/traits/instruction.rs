//! Instruction discriminators and the interface of instruction data.
use vstd::prelude::*;
use crate::errors::ProgramError;

verus! {

/// Discriminators for the Rewards Program instructions.
#[derive(Clone, Copy, Debug, PartialEq, Eq, Structural)]
pub enum RewardsInstructionDiscriminators {
    // Direct distribution
    CreateDirectDistribution,
    AddDirectRecipient,
    ClaimDirect,
    CloseDirectDistribution,
    CloseDirectRecipient,
    // Merkle distribution
    CreateMerkleDistribution,
    ClaimMerkle,
    CloseMerkleClaim,
    CloseMerkleDistribution,
    // Revoke
    RevokeDirectRecipient,
    RevokeMerkleClaim,
    // Shared
    EmitEvent,
}

impl RewardsInstructionDiscriminators {
    /// The byte that selects this instruction.
    pub open spec fn spec_value(self) -> u8 {
        match self {
            RewardsInstructionDiscriminators::CreateDirectDistribution => 0,
            RewardsInstructionDiscriminators::AddDirectRecipient => 1,
            RewardsInstructionDiscriminators::ClaimDirect => 2,
            RewardsInstructionDiscriminators::CloseDirectDistribution => 3,
            RewardsInstructionDiscriminators::CloseDirectRecipient => 4,
            RewardsInstructionDiscriminators::CreateMerkleDistribution => 5,
            RewardsInstructionDiscriminators::ClaimMerkle => 6,
            RewardsInstructionDiscriminators::CloseMerkleClaim => 7,
            RewardsInstructionDiscriminators::CloseMerkleDistribution => 8,
            RewardsInstructionDiscriminators::RevokeDirectRecipient => 9,
            RewardsInstructionDiscriminators::RevokeMerkleClaim => 10,
            RewardsInstructionDiscriminators::EmitEvent => 228,
        }
    }

    /// The instruction a byte selects, if any.
    pub open spec fn spec_try_from(value: u8) -> Result<RewardsInstructionDiscriminators, ProgramError> {
        if value == 0 {
            Ok(RewardsInstructionDiscriminators::CreateDirectDistribution)
        } else if value == 1 {
            Ok(RewardsInstructionDiscriminators::AddDirectRecipient)
        } else if value == 2 {
            Ok(RewardsInstructionDiscriminators::ClaimDirect)
        } else if value == 3 {
            Ok(RewardsInstructionDiscriminators::CloseDirectDistribution)
        } else if value == 4 {
            Ok(RewardsInstructionDiscriminators::CloseDirectRecipient)
        } else if value == 5 {
            Ok(RewardsInstructionDiscriminators::CreateMerkleDistribution)
        } else if value == 6 {
            Ok(RewardsInstructionDiscriminators::ClaimMerkle)
        } else if value == 7 {
            Ok(RewardsInstructionDiscriminators::CloseMerkleClaim)
        } else if value == 8 {
            Ok(RewardsInstructionDiscriminators::CloseMerkleDistribution)
        } else if value == 9 {
            Ok(RewardsInstructionDiscriminators::RevokeDirectRecipient)
        } else if value == 10 {
            Ok(RewardsInstructionDiscriminators::RevokeMerkleClaim)
        } else if value == 228 {
            Ok(RewardsInstructionDiscriminators::EmitEvent)
        } else {
            Err(ProgramError::InvalidInstructionData)
        }
    }

    pub fn value(&self) -> (r: u8)
        ensures
            r == self.spec_value(),
    {
        match self {
            RewardsInstructionDiscriminators::CreateDirectDistribution => 0,
            RewardsInstructionDiscriminators::AddDirectRecipient => 1,
            RewardsInstructionDiscriminators::ClaimDirect => 2,
            RewardsInstructionDiscriminators::CloseDirectDistribution => 3,
            RewardsInstructionDiscriminators::CloseDirectRecipient => 4,
            RewardsInstructionDiscriminators::CreateMerkleDistribution => 5,
            RewardsInstructionDiscriminators::ClaimMerkle => 6,
            RewardsInstructionDiscriminators::CloseMerkleClaim => 7,
            RewardsInstructionDiscriminators::CloseMerkleDistribution => 8,
            RewardsInstructionDiscriminators::RevokeDirectRecipient => 9,
            RewardsInstructionDiscriminators::RevokeMerkleClaim => 10,
            RewardsInstructionDiscriminators::EmitEvent => 228,
        }
    }
}

impl TryFrom<u8> for RewardsInstructionDiscriminators {
    type Error = ProgramError;

    fn try_from(value: u8) -> (r: Result<RewardsInstructionDiscriminators, ProgramError>) {
        match value {
            0 => Ok(RewardsInstructionDiscriminators::CreateDirectDistribution),
            1 => Ok(RewardsInstructionDiscriminators::AddDirectRecipient),
            2 => Ok(RewardsInstructionDiscriminators::ClaimDirect),
            3 => Ok(RewardsInstructionDiscriminators::CloseDirectDistribution),
            4 => Ok(RewardsInstructionDiscriminators::CloseDirectRecipient),
            5 => Ok(RewardsInstructionDiscriminators::CreateMerkleDistribution),
            6 => Ok(RewardsInstructionDiscriminators::ClaimMerkle),
            7 => Ok(RewardsInstructionDiscriminators::CloseMerkleClaim),
            8 => Ok(RewardsInstructionDiscriminators::CloseMerkleDistribution),
            9 => Ok(RewardsInstructionDiscriminators::RevokeDirectRecipient),
            10 => Ok(RewardsInstructionDiscriminators::RevokeMerkleClaim),
            228 => Ok(RewardsInstructionDiscriminators::EmitEvent),
            _ => Err(ProgramError::InvalidInstructionData),
        }
    }
}

impl vstd::std_specs::convert::TryFromSpecImpl<u8> for RewardsInstructionDiscriminators {
    open spec fn obeys_try_from_spec() -> bool {
        true
    }

    open spec fn try_from_spec(value: u8) -> Result<RewardsInstructionDiscriminators, ProgramError> {
        RewardsInstructionDiscriminators::spec_try_from(value)
    }
}

/// Decoding an instruction's byte gives the instruction back, and every byte
/// that decodes is the byte of what it decodes to.
pub proof fn lemma_instruction_discriminator_roundtrip(d: RewardsInstructionDiscriminators, byte: u8)
    ensures
        RewardsInstructionDiscriminators::spec_try_from(d.spec_value()) == Ok::<
            RewardsInstructionDiscriminators,
            ProgramError,
        >(d),
        RewardsInstructionDiscriminators::spec_try_from(byte) matches Ok(t) ==> t.spec_value()
            == byte,
{
}

/// Instruction data: parsed from bytes of at least `LEN` bytes, then validated.
pub trait InstructionData<'a>: Sized + TryFrom<&'a [u8], Error = ProgramError> {
    /// Expected (minimum) length of instruction data
    const LEN: usize;

    /// Whether the parsed data is acceptable, or why not.
    spec fn spec_validate(&self) -> Result<(), ProgramError>;

    /// Validates the instruction data.
    fn validate(&self) -> (r: Result<(), ProgramError>)
        ensures
            r == self.spec_validate(),
    ;
}

} // verus!
