//! Instruction data of ClaimMerkle.
use vstd::prelude::*;
use crate::codec::{read_address, read_u32, read_u64, u32_of_le, u64_of_le, Address};
use crate::errors::ProgramError;
use crate::instructions::merkle::revoke_claim::data::proof_hash;
use crate::traits::account::require_len;
use crate::traits::InstructionData;
use crate::utils::VestingSchedule;
use super::processor::MerkleClaimRequest;

verus! {

/// Instruction data of ClaimMerkle: the bump of the claim account, the
/// claimant's leaf (total amount and schedule), the amount to claim (0 for
/// everything available) and the merkle proof of the leaf.
#[derive(Clone, Debug, PartialEq, Eq)]
pub struct ClaimMerkleData {
    pub claim_bump: u8,
    pub total_amount: u64,
    pub amount: u64,
    pub schedule: VestingSchedule,
    pub proof: Vec<Address>,
}

/// What the instruction data `bytes` hold: claim bump, total amount and
/// amount (little-endian), schedule, the number of proof hashes (`u32`,
/// little-endian), then the hashes; or the error the parse stops at.
pub open spec fn spec_claim_merkle_fields(bytes: Seq<u8>) -> Result<
    (u8, u64, u64, VestingSchedule, Seq<Seq<u8>>),
    ProgramError,
> {
    if bytes.len() < 22 {
        Err(ProgramError::InvalidInstructionData)
    } else {
        match VestingSchedule::spec_from_bytes(bytes.subrange(17, bytes.len() as int)) {
            Err(e) => Err(e),
            Ok((schedule, n)) => {
                let proof_offset = 17 + n;
                if bytes.len() < proof_offset + 4 {
                    Err(ProgramError::InvalidInstructionData)
                } else {
                    let count = u32_of_le(bytes.subrange(proof_offset, proof_offset + 4));
                    let start = proof_offset + 4;
                    if bytes.len() < start + 32 * count {
                        Err(ProgramError::InvalidInstructionData)
                    } else {
                        Ok(
                            (
                                bytes[0],
                                u64_of_le(bytes.subrange(1, 9)),
                                u64_of_le(bytes.subrange(9, 17)),
                                schedule,
                                Seq::new(count as nat, |k: int| proof_hash(bytes, start, k)),
                            ),
                        )
                    }
                }
            },
        }
    }
}

impl ClaimMerkleData {
    /// The fields, the proof taken as byte sequences.
    pub open spec fn spec_fields(&self) -> (u8, u64, u64, VestingSchedule, Seq<Seq<u8>>) {
        (
            self.claim_bump,
            self.total_amount,
            self.amount,
            self.schedule,
            self.proof@.map_values(|h: Address| h@),
        )
    }

    /// The claim request these data make.
    pub fn request(&self) -> (r: MerkleClaimRequest)
        ensures
            r == (MerkleClaimRequest {
                total_amount: self.total_amount,
                schedule: self.schedule,
                claim_bump: self.claim_bump,
                amount: self.amount,
            }),
    {
        MerkleClaimRequest {
            total_amount: self.total_amount,
            schedule: self.schedule,
            claim_bump: self.claim_bump,
            amount: self.amount,
        }
    }
}

impl<'a> TryFrom<&'a [u8]> for ClaimMerkleData {
    type Error = ProgramError;

    fn try_from(data: &'a [u8]) -> (r: Result<ClaimMerkleData, ProgramError>)
        ensures
            match spec_claim_merkle_fields(data@) {
                Ok(f) => r matches Ok(d) && d.spec_fields() == f,
                Err(e) => r == Err::<ClaimMerkleData, ProgramError>(e),
            },
    {
        require_len(data, 22)?;
        let claim_bump = data[0];
        let total_amount = read_u64(data, 1);
        let amount = read_u64(data, 9);
        let (_, rest) = data.split_at(17);
        let (schedule, schedule_len) = VestingSchedule::from_bytes(rest)?;
        let proof_offset = 17 + schedule_len;
        if data.len() - proof_offset < 4 {
            return Err(ProgramError::InvalidInstructionData);
        }
        let count = read_u32(data, proof_offset);
        let proof_len = count as usize;
        let start = proof_offset + 4;
        let available = data.len() - start;
        if proof_len > available / 32 {
            assert(data@.len() < start + 32 * count) by (nonlinear_arith)
                requires
                    proof_len > available / 32,
                    available == data@.len() - start,
                    proof_len == count,
            ;
            return Err(ProgramError::InvalidInstructionData);
        }
        assert(start + 32 * count <= data@.len()) by (nonlinear_arith)
            requires
                proof_len <= available / 32,
                available == data@.len() - start,
                proof_len == count,
        ;
        let n = data.len();
        let mut proof: Vec<Address> = Vec::new();
        let mut i: usize = 0;
        while i < proof_len
            invariant
                i <= proof_len,
                proof_len == count,
                n == data@.len(),
                start + 32 * count <= data@.len(),
                proof@.len() == i,
                forall|k: int| 0 <= k < i ==> (#[trigger] proof@[k])@ == proof_hash(data@, start as int, k),
            decreases proof_len - i,
        {
            assert(start + 32 * i + 32 <= data@.len()) by (nonlinear_arith)
                requires
                    i < count,
                    start + 32 * count <= data@.len(),
            ;
            assert(start + 32 * i <= n);
            let hash = read_address(data, start + 32 * i);
            proof.push(hash);
            i = i + 1;
        }
        let r = ClaimMerkleData { claim_bump, total_amount, amount, schedule, proof };
        assert(r.spec_fields().4 =~= Seq::new(count as nat, |k: int| proof_hash(data@, start as int, k)));
        Ok(r)
    }
}

impl<'a> vstd::std_specs::convert::TryFromSpecImpl<&'a [u8]> for ClaimMerkleData {
    /// The data holds a `Vec`, which no spec function builds; `try_from`
    /// states its result over `spec_fields` in its own contract.
    open spec fn obeys_try_from_spec() -> bool {
        false
    }

    open spec fn try_from_spec(data: &'a [u8]) -> Result<ClaimMerkleData, ProgramError> {
        Err(ProgramError::InvalidInstructionData)
    }
}

impl<'a> InstructionData<'a> for ClaimMerkleData {
    /// Bump, total, amount, the smallest schedule and the proof length.
    const LEN: usize = 22;

    open spec fn spec_validate(&self) -> Result<(), ProgramError> {
        Ok(())
    }

    fn validate(&self) -> (r: Result<(), ProgramError>) {
        Ok(())
    }
}

} // verus!
