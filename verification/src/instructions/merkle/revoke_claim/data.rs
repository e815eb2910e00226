//! Instruction data of RevokeMerkleClaim.
use vstd::prelude::*;
use crate::codec::{read_address, read_u32, read_u64, u32_of_le, u64_of_le, Address};
use crate::errors::ProgramError;
use crate::traits::account::require_len;
use crate::traits::{InstructionData, VestingParams};
use crate::utils::{RevokeMode, VestingSchedule};

verus! {

/// Instruction data of RevokeMerkleClaim. The authority supplies the
/// claimant's leaf (total amount and schedule) and its proof, so that the
/// program can check them against the stored root.
#[derive(Clone, Debug, PartialEq, Eq)]
pub struct RevokeMerkleClaimData {
    /// How the revocation settles the vested part.
    pub revoke_mode: RevokeMode,
    /// Total amount allocated to this claimant (from the leaf)
    pub total_amount: u64,
    /// Vesting schedule (from the leaf, variable length)
    pub schedule: VestingSchedule,
    /// Merkle proof (variable length)
    pub proof: Vec<Address>,
}

/// The `k`-th 32-byte hash of a proof that starts at `start`.
pub open spec fn proof_hash(bytes: Seq<u8>, start: int, k: int) -> Seq<u8> {
    bytes.subrange(start + 32 * k, start + 32 * k + 32)
}

/// What the instruction data `bytes` hold: mode byte, total amount
/// (little-endian), schedule, the number of proof hashes (`u32`,
/// little-endian), then the hashes; or the error the parse stops at.
pub open spec fn spec_revoke_merkle_claim_fields(bytes: Seq<u8>) -> Result<
    (RevokeMode, u64, VestingSchedule, Seq<Seq<u8>>),
    ProgramError,
> {
    if bytes.len() < 14 {
        Err(ProgramError::InvalidInstructionData)
    } else {
        match RevokeMode::spec_from_byte(bytes[0]) {
            Err(e) => Err(e),
            Ok(mode) => match VestingSchedule::spec_from_bytes(bytes.subrange(9, bytes.len() as int)) {
                Err(e) => Err(e),
                Ok((schedule, n)) => {
                    let proof_offset = 9 + n;
                    if bytes.len() < proof_offset + 4 {
                        Err(ProgramError::InvalidInstructionData)
                    } else {
                        let count = u32_of_le(bytes.subrange(proof_offset, proof_offset + 4));
                        let start = proof_offset + 4;
                        if bytes.len() < start + 32 * count {
                            Err(ProgramError::InvalidInstructionData)
                        } else {
                            Ok(
                                (
                                    mode,
                                    u64_of_le(bytes.subrange(1, 9)),
                                    schedule,
                                    Seq::new(count as nat, |k: int| proof_hash(bytes, start, k)),
                                ),
                            )
                        }
                    }
                },
            },
        }
    }
}

impl RevokeMerkleClaimData {
    /// The fields, the proof taken as byte sequences.
    pub open spec fn spec_fields(&self) -> (RevokeMode, u64, VestingSchedule, Seq<Seq<u8>>) {
        (
            self.revoke_mode,
            self.total_amount,
            self.schedule,
            self.proof@.map_values(|h: Address| h@),
        )
    }
}

impl<'a> TryFrom<&'a [u8]> for RevokeMerkleClaimData {
    type Error = ProgramError;

    fn try_from(data: &'a [u8]) -> (r: Result<RevokeMerkleClaimData, ProgramError>)
        ensures
            match spec_revoke_merkle_claim_fields(data@) {
                Ok(f) => r matches Ok(d) && d.spec_fields() == f,
                Err(e) => r == Err::<RevokeMerkleClaimData, ProgramError>(e),
            },
    {
        require_len(data, 14)?;
        let revoke_mode = RevokeMode::from_byte(data[0])?;
        let total_amount = read_u64(data, 1);
        let (_, rest) = data.split_at(9);
        let (schedule, schedule_len) = VestingSchedule::from_bytes(rest)?;
        let proof_offset = 9 + schedule_len;
        if data.len() - proof_offset < 4 {
            return Err(ProgramError::InvalidInstructionData);
        }
        let count = read_u32(data, proof_offset);
        let proof_len = count as usize;
        let start = proof_offset + 4;
        let available = data.len() - start;
        if proof_len > available / 32 {
            assert(data@.len() < start + 32 * count) by (nonlinear_arith)
                requires
                    proof_len > available / 32,
                    available == data@.len() - start,
                    proof_len == count,
            ;
            return Err(ProgramError::InvalidInstructionData);
        }
        assert(start + 32 * count <= data@.len()) by (nonlinear_arith)
            requires
                proof_len <= available / 32,
                available == data@.len() - start,
                proof_len == count,
        ;
        let n = data.len();
        let mut proof: Vec<Address> = Vec::new();
        let mut i: usize = 0;
        while i < proof_len
            invariant
                i <= proof_len,
                proof_len == count,
                n == data@.len(),
                start + 32 * count <= data@.len(),
                proof@.len() == i,
                forall|k: int| 0 <= k < i ==> (#[trigger] proof@[k])@ == proof_hash(data@, start as int, k),
            decreases proof_len - i,
        {
            assert(start + 32 * i + 32 <= data@.len()) by (nonlinear_arith)
                requires
                    i < count,
                    start + 32 * count <= data@.len(),
            ;
            assert(start + 32 * i <= n);
            let hash = read_address(data, start + 32 * i);
            proof.push(hash);
            i = i + 1;
        }
        let r = RevokeMerkleClaimData { revoke_mode, total_amount, schedule, proof };
        assert(r.spec_fields().3 =~= Seq::new(count as nat, |k: int| proof_hash(data@, start as int, k)));
        Ok(r)
    }
}

impl<'a> vstd::std_specs::convert::TryFromSpecImpl<&'a [u8]> for RevokeMerkleClaimData {
    /// The data holds a `Vec`, which no spec function builds; `try_from`
    /// states its result over `spec_fields` in its own contract.
    open spec fn obeys_try_from_spec() -> bool {
        false
    }

    open spec fn try_from_spec(data: &'a [u8]) -> Result<RevokeMerkleClaimData, ProgramError> {
        Err(ProgramError::InvalidInstructionData)
    }
}

impl<'a> InstructionData<'a> for RevokeMerkleClaimData {
    /// Mode, amount, the smallest schedule and the proof length.
    const LEN: usize = 14;

    open spec fn spec_validate(&self) -> Result<(), ProgramError> {
        Ok(())
    }

    fn validate(&self) -> (r: Result<(), ProgramError>) {
        Ok(())
    }
}

impl VestingParams for RevokeMerkleClaimData {
    open spec fn spec_total_amount(&self) -> u64 {
        self.total_amount
    }

    open spec fn spec_vesting_schedule(&self) -> VestingSchedule {
        self.schedule
    }

    fn total_amount(&self) -> (r: u64) {
        self.total_amount
    }

    fn vesting_schedule(&self) -> (r: VestingSchedule) {
        self.schedule
    }
}

} // verus!
