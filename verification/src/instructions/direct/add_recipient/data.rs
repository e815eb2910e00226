//! Instruction data of AddDirectRecipient.
use vstd::prelude::*;
use crate::codec::{read_u64, u64_of_le};
use crate::errors::{custom, ProgramError, RewardsProgramError};
use crate::traits::account::require_len;
use crate::traits::InstructionData;
use crate::utils::VestingSchedule;

verus! {

/// Instruction data of AddDirectRecipient; its length depends on the schedule.
#[derive(Clone, Copy, Debug, PartialEq, Eq, Structural)]
pub struct AddDirectRecipientData {
    /// Bump for the recipient PDA
    pub bump: u8,
    /// Token amount allocated to this recipient
    pub amount: u64,
    /// Vesting schedule for this recipient's allocation
    pub schedule: VestingSchedule,
}

impl AddDirectRecipientData {
    /// The data `bytes` hold: bump, amount (little-endian), then the schedule;
    /// the error when there are fewer than ten bytes or the schedule does not
    /// decode.
    pub open spec fn spec_parse(bytes: Seq<u8>) -> Result<AddDirectRecipientData, ProgramError> {
        if bytes.len() < 10 {
            Err(ProgramError::InvalidInstructionData)
        } else {
            match VestingSchedule::spec_from_bytes(bytes.subrange(9, bytes.len() as int)) {
                Ok((s, _)) => Ok(
                    AddDirectRecipientData {
                        bump: bytes[0],
                        amount: u64_of_le(bytes.subrange(1, 9)),
                        schedule: s,
                    },
                ),
                Err(e) => Err(e),
            }
        }
    }
}

impl<'a> TryFrom<&'a [u8]> for AddDirectRecipientData {
    type Error = ProgramError;

    fn try_from(data: &'a [u8]) -> (r: Result<AddDirectRecipientData, ProgramError>) {
        require_len(data, 10)?;
        let bump = data[0];
        let amount = read_u64(data, 1);
        let (_, rest) = data.split_at(9);
        let (schedule, _) = VestingSchedule::from_bytes(rest)?;
        Ok(AddDirectRecipientData { bump, amount, schedule })
    }
}

impl<'a> vstd::std_specs::convert::TryFromSpecImpl<&'a [u8]> for AddDirectRecipientData {
    open spec fn obeys_try_from_spec() -> bool {
        true
    }

    open spec fn try_from_spec(data: &'a [u8]) -> Result<AddDirectRecipientData, ProgramError> {
        AddDirectRecipientData::spec_parse(data@)
    }
}

impl<'a> InstructionData<'a> for AddDirectRecipientData {
    /// Bump, amount and the smallest schedule.
    const LEN: usize = 10;

    /// The amount must be positive and the schedule valid.
    open spec fn spec_validate(&self) -> Result<(), ProgramError> {
        if self.amount == 0 {
            Err(custom(RewardsProgramError::InvalidAmount))
        } else {
            self.schedule.spec_validate()
        }
    }

    fn validate(&self) -> (r: Result<(), ProgramError>) {
        if self.amount == 0 {
            return Err(ProgramError::Custom(RewardsProgramError::InvalidAmount.code()));
        }
        self.schedule.validate()
    }
}

/// A recipient with a positive amount on a linear schedule whose window is not
/// empty is accepted, however long the window.
pub proof fn lemma_add_linear_recipient_valid(bump: u8, amount: u64, start: i64, end: i64)
    requires
        amount > 0,
        start < end,
    ensures
        (AddDirectRecipientData {
            bump,
            amount,
            schedule: VestingSchedule::Linear { start_ts: start, end_ts: end },
        }).spec_validate() == Ok::<(), ProgramError>(()),
{
}

} // verus!
