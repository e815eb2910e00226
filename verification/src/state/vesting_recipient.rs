//! Legacy vesting recipient: one recipient's linear allocation.
use vstd::prelude::*;
use crate::codec::{
    lemma_address_view_eq,
    i64_of_le,
    le_i64,
    le_u64,
    lemma_le_roundtrip,
    push_address,
    push_i64,
    push_u64,
    push_zeros,
    read_address,
    read_i64,
    read_u64,
    u64_of_le,
    zeros,
    Address,
};
use crate::errors::{custom, ProgramError, RewardsProgramError};
use crate::traits::account::{check_account_header, header_ok};
use crate::traits::pda::{seeds_view, spec_check_pda};
use crate::traits::{
    AccountParse,
    AccountSerialize,
    AccountSize,
    AccountValidation,
    Discriminator,
    PdaSeeds,
    Versioned,
};
use crate::utils::vesting_utils::{calculate_linear_unlock, spec_linear_unlock, VestingScheduleType};

verus! {

/// VestingRecipient account state: one recipient's allocation within a vesting
/// distribution, with its schedule (type, start, end).
///
/// PDA seeds: `[b"vesting_recipient", distribution, recipient]`.
#[derive(Clone, Copy, Debug, PartialEq, Eq)]
pub struct VestingRecipient {
    pub bump: u8,
    pub schedule_type: u8,
    pub distribution: Address,
    pub recipient: Address,
    pub total_amount: u64,
    pub claimed_amount: u64,
    pub start_ts: i64,
    pub end_ts: i64,
}

impl Discriminator for VestingRecipient {
    const DISCRIMINATOR: u8 = 1;
}

impl Versioned for VestingRecipient {
    const VERSION: u8 = 1;
}

impl AccountSize for VestingRecipient {
    const DATA_LEN: usize = 104;
}

impl AccountParse for VestingRecipient {
    open spec fn spec_parses(data: Seq<u8>) -> bool {
        header_ok(data, 106, 1)
    }

    open spec fn spec_reads(data: Seq<u8>, value: VestingRecipient) -> bool {
        &&& value.bump == data[2]
        &&& value.schedule_type == data[3]
        &&& value.distribution@ == data.subrange(10, 42)
        &&& value.recipient@ == data.subrange(42, 74)
        &&& value.total_amount == u64_of_le(data.subrange(74, 82))
        &&& value.claimed_amount == u64_of_le(data.subrange(82, 90))
        &&& value.start_ts == i64_of_le(data.subrange(90, 98))
        &&& value.end_ts == i64_of_le(data.subrange(98, 106))
    }

    open spec fn spec_parse_error(data: Seq<u8>) -> ProgramError {
        ProgramError::InvalidAccountData
    }

    fn parse_from_bytes(data: &[u8]) -> (r: Result<VestingRecipient, ProgramError>) {
        check_account_header(data, 106, 1)?;
        let bump = data[2];
        let schedule_type = data[3];
        let distribution = read_address(data, 10);
        let recipient = read_address(data, 42);
        let total_amount = read_u64(data, 74);
        let claimed_amount = read_u64(data, 82);
        let start_ts = read_i64(data, 90);
        let end_ts = read_i64(data, 98);
        Ok(VestingRecipient { bump, schedule_type, distribution, recipient, total_amount, claimed_amount, start_ts, end_ts })
    }
}

impl AccountSerialize for VestingRecipient {
    open spec fn spec_inner(&self) -> Seq<u8> {
        seq![self.bump]
            + seq![self.schedule_type]
            + zeros(6)
            + self.distribution@
            + self.recipient@
            + le_u64(self.total_amount)
            + le_u64(self.claimed_amount)
            + le_i64(self.start_ts)
            + le_i64(self.end_ts)
    }

    fn to_bytes_inner(&self) -> (r: Vec<u8>) {
        let mut data: Vec<u8> = Vec::new();
        data.push(self.bump);
        data.push(self.schedule_type);
        push_zeros(&mut data, 6);
        push_address(&mut data, &self.distribution);
        push_address(&mut data, &self.recipient);
        push_u64(&mut data, self.total_amount);
        push_u64(&mut data, self.claimed_amount);
        push_i64(&mut data, self.start_ts);
        push_i64(&mut data, self.end_ts);
        data
    }
}

impl AccountValidation for VestingRecipient {}

/// Parsing the serialized account gives back exactly the account.
pub proof fn lemma_vesting_recipient_roundtrip(a: VestingRecipient)
    ensures
        VestingRecipient::spec_parses(a.spec_bytes()),
        forall|v: VestingRecipient| VestingRecipient::spec_reads(a.spec_bytes(), v) <==> v == a,
        a.spec_bytes().len() == 106,
{
    lemma_le_roundtrip();
    let b = a.spec_bytes();
    assert(b.subrange(10, 42) =~= a.distribution@);
    assert(b.subrange(42, 74) =~= a.recipient@);
    assert(b.subrange(74, 82) =~= le_u64(a.total_amount));
    assert(b.subrange(82, 90) =~= le_u64(a.claimed_amount));
    assert(b.subrange(90, 98) =~= le_i64(a.start_ts));
    assert(b.subrange(98, 106) =~= le_i64(a.end_ts));
    assert forall|v: VestingRecipient| VestingRecipient::spec_reads(b, v) implies v == a by {
        lemma_address_view_eq(v.distribution, a.distribution);
        lemma_address_view_eq(v.recipient, a.recipient);
    }
}

/// Account data holds at most one value of this type.
proof fn lemma_vesting_recipient_reads_unique(data: Seq<u8>, v1: VestingRecipient, v2: VestingRecipient)
    requires
        VestingRecipient::spec_reads(data, v1),
        VestingRecipient::spec_reads(data, v2),
    ensures
        v1 == v2,
{
    lemma_address_view_eq(v1.distribution, v2.distribution);
    lemma_address_view_eq(v1.recipient, v2.recipient);
}

/// The `vesting_recipient` seed prefix.
pub const VESTING_RECIPIENT_PREFIX: [u8; 17] = [118, 101, 115, 116, 105, 110, 103, 95, 114, 101, 99, 105, 112, 105, 101, 110, 116];

impl VestingRecipient {
    pub const PREFIX: [u8; 17] = VESTING_RECIPIENT_PREFIX;
}

impl PdaSeeds for VestingRecipient {
    open spec fn spec_seeds(&self) -> Seq<Seq<u8>> {
        seq![VESTING_RECIPIENT_PREFIX@, self.distribution@, self.recipient@]
    }

    fn seeds(&self) -> (r: Vec<&[u8]>) {
        let r: Vec<&[u8]> = vec![
            VESTING_RECIPIENT_PREFIX.as_slice(),
            self.distribution.as_slice(),
            self.recipient.as_slice(),
        ];
        assert(seeds_view(r@) =~= self.spec_seeds());
        r
    }
}

impl VestingRecipient {
    pub fn new(
        bump: u8,
        distribution: Address,
        recipient: Address,
        total_amount: u64,
        schedule_type: VestingScheduleType,
        start_ts: i64,
        end_ts: i64,
    ) -> (r: VestingRecipient)
        ensures
            r == (VestingRecipient {
                bump,
                schedule_type: schedule_type.spec_to_u8(),
                distribution,
                recipient,
                total_amount,
                claimed_amount: 0,
                start_ts,
                end_ts,
            }),
    {
        VestingRecipient {
            bump,
            schedule_type: schedule_type.to_u8(),
            distribution,
            recipient,
            total_amount,
            claimed_amount: 0,
            start_ts,
            end_ts,
        }
    }

    /// Parses the account data and checks that `account` is this account's
    /// PDA, found with the stored bump.
    pub fn from_account(data: &[u8], account: &Address, program_id: &Address) -> (r: Result<
        VestingRecipient,
        ProgramError,
    >)
        ensures
            !Self::spec_parses(data@) ==> r == Err::<VestingRecipient, ProgramError>(
                ProgramError::InvalidAccountData,
            ),
            Self::spec_parses(data@) ==> forall|v: VestingRecipient|
                #[trigger] Self::spec_reads(data@, v) ==> r == match spec_check_pda(
                    v.spec_seeds(),
                    account@,
                    program_id@,
                    Some(v.bump),
                ) {
                    Ok(_) => Ok::<VestingRecipient, ProgramError>(v),
                    Err(e) => Err(e),
                },
    {
        let state = Self::parse_from_bytes(data)?;
        proof {
            assert forall|v: VestingRecipient| #[trigger] Self::spec_reads(data@, v) implies v == state by {
                lemma_vesting_recipient_reads_unique(data@, v, state);
            }
        }
        state.validate_pda(account, program_id, state.bump)?;
        Ok(state)
    }

    /// What of `unlocked` is not yet claimed, zero if more was claimed.
    pub fn claimable_amount(&self, unlocked: u64) -> (r: u64)
        ensures
            r == if unlocked >= self.claimed_amount {
                (unlocked - self.claimed_amount) as u64
            } else {
                0
            },
    {
        unlocked.saturating_sub(self.claimed_amount)
    }

    /// What of the allocation is not yet claimed, zero if more was claimed.
    pub fn remaining_amount(&self) -> (r: u64)
        ensures
            r == if self.total_amount >= self.claimed_amount {
                (self.total_amount - self.claimed_amount) as u64
            } else {
                0
            },
    {
        self.total_amount.saturating_sub(self.claimed_amount)
    }

    /// The stored schedule kind, if it is a known one.
    pub fn schedule_type(&self) -> (r: Option<VestingScheduleType>)
        ensures
            r == VestingScheduleType::spec_from_u8(self.schedule_type),
    {
        VestingScheduleType::from_u8(self.schedule_type)
    }

    /// Unlocked amount at `current_ts`: linear over the stored window for a
    /// known schedule kind, nothing for an unknown one.
    pub fn calculate_unlocked_amount(&self, current_ts: i64) -> (r: Result<u64, ProgramError>)
        ensures
            r == match VestingScheduleType::spec_from_u8(self.schedule_type) {
                Some(VestingScheduleType::Linear) => spec_linear_unlock(
                    self.total_amount,
                    self.start_ts,
                    self.end_ts,
                    current_ts,
                ),
                None => Ok(0),
            },
    {
        match self.schedule_type() {
            Some(VestingScheduleType::Linear) => {
                calculate_linear_unlock(self.total_amount, self.start_ts, self.end_ts, current_ts)
            },
            None => Ok(0),
        }
    }

    pub fn validate_distribution(&self, distribution: &Address) -> (r: Result<(), ProgramError>)
        ensures
            r == if distribution@ == self.distribution@ {
                Ok::<(), ProgramError>(())
            } else {
                Err(ProgramError::InvalidAccountData)
            },
    {
        if !crate::codec::address_eq(&self.distribution, distribution) {
            return Err(ProgramError::InvalidAccountData);
        }
        Ok(())
    }

    pub fn validate_recipient(&self, recipient: &Address) -> (r: Result<(), ProgramError>)
        ensures
            r == if recipient@ == self.recipient@ {
                Ok::<(), ProgramError>(())
            } else {
                Err(custom(RewardsProgramError::UnauthorizedRecipient))
            },
    {
        if !crate::codec::address_eq(&self.recipient, recipient) {
            return Err(ProgramError::Custom(RewardsProgramError::UnauthorizedRecipient.code()));
        }
        Ok(())
    }
}

} // verus!
