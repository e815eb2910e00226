//! Instruction data of CreateMerkleDistribution.
use vstd::prelude::*;
use crate::codec::{i64_of_le, read_address, read_i64, read_u64, u64_of_le, Address};
use crate::errors::ProgramError;
use crate::traits::account::require_len;
use crate::traits::InstructionData;

verus! {

/// Instruction data of CreateMerkleDistribution: the PDA bump, the bitmask of
/// allowed revoke modes, the amount deposited into the vault, the merkle root,
/// the total claimable by all recipients and the clawback timestamp.
#[derive(Clone, Copy, Debug, PartialEq, Eq)]
pub struct CreateMerkleDistributionData {
    pub bump: u8,
    pub revocable: u8,
    pub amount: u64,
    pub merkle_root: Address,
    pub total_amount: u64,
    pub clawback_ts: i64,
}

impl CreateMerkleDistributionData {
    /// What the data `bytes` hold, field after field (integers
    /// little-endian); the error when there are fewer than 58 bytes.
    pub open spec fn spec_parse_ok(bytes: Seq<u8>, d: CreateMerkleDistributionData) -> bool {
        &&& bytes.len() >= 58
        &&& d.bump == bytes[0]
        &&& d.revocable == bytes[1]
        &&& d.amount == u64_of_le(bytes.subrange(2, 10))
        &&& d.merkle_root@ == bytes.subrange(10, 42)
        &&& d.total_amount == u64_of_le(bytes.subrange(42, 50))
        &&& d.clawback_ts == i64_of_le(bytes.subrange(50, 58))
    }
}

impl<'a> TryFrom<&'a [u8]> for CreateMerkleDistributionData {
    type Error = ProgramError;

    fn try_from(data: &'a [u8]) -> (r: Result<CreateMerkleDistributionData, ProgramError>)
        ensures
            data@.len() < 58 ==> r == Err::<CreateMerkleDistributionData, ProgramError>(
                ProgramError::InvalidInstructionData,
            ),
            data@.len() >= 58 ==> (r matches Ok(d) && CreateMerkleDistributionData::spec_parse_ok(data@, d)),
    {
        require_len(data, 58)?;
        Ok(
            CreateMerkleDistributionData {
                bump: data[0],
                revocable: data[1],
                amount: read_u64(data, 2),
                merkle_root: read_address(data, 10),
                total_amount: read_u64(data, 42),
                clawback_ts: read_i64(data, 50),
            },
        )
    }
}

impl<'a> vstd::std_specs::convert::TryFromSpecImpl<&'a [u8]> for CreateMerkleDistributionData {
    /// The root is an array, which the parse describes through its view;
    /// `try_from` states its result in its own contract.
    open spec fn obeys_try_from_spec() -> bool {
        false
    }

    open spec fn try_from_spec(data: &'a [u8]) -> Result<CreateMerkleDistributionData, ProgramError> {
        Err(ProgramError::InvalidInstructionData)
    }
}

impl<'a> InstructionData<'a> for CreateMerkleDistributionData {
    const LEN: usize = 58;

    open spec fn spec_validate(&self) -> Result<(), ProgramError> {
        Ok(())
    }

    fn validate(&self) -> (r: Result<(), ProgramError>) {
        Ok(())
    }
}

} // verus!
