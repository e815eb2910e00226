//! A recipient's allocation within a direct distribution, with its own schedule.
use vstd::prelude::*;
use crate::codec::{
    lemma_address_view_eq, lemma_le_roundtrip, le_u64, push_address, push_slice, push_u64,
    read_address, read_u64, u64_of_le, Address,
};
use crate::errors::{custom, ProgramError, RewardsProgramError};
use crate::traits::account::{check_account_header, header_ok};
use crate::traits::pda::{seeds_view, spec_check_pda};
use crate::traits::{
    AccountParse, AccountSerialize, AccountSize, AccountValidation, ClaimTracker, Discriminator,
    PdaAccount, PdaSeeds, Versioned, VestingParams,
};
use crate::utils::vesting_utils::lemma_schedule_bytes_roundtrip;
use crate::utils::VestingSchedule;

verus! {

/// DirectRecipient account state: one recipient's allocation within a direct
/// distribution, with its own vesting schedule.
///
/// Fixed fields come first and the schedule last, so the account size depends
/// on the schedule variant.
///
/// PDA seeds: `[b"direct_recipient", distribution, recipient]`.
#[derive(Clone, Copy, Debug, PartialEq, Eq)]
pub struct DirectRecipient {
    pub bump: u8,
    pub distribution: Address,
    pub recipient: Address,
    pub payer: Address,
    pub total_amount: u64,
    pub claimed_amount: u64,
    pub schedule: VestingSchedule,
}

/// Size of the fixed fields: bump, three keys and two amounts.
pub const FIXED_DATA_LEN: usize = 113;

/// Where the schedule starts in the account data.
pub const SCHEDULE_OFFSET: usize = 115;

impl Discriminator for DirectRecipient {
    const DISCRIMINATOR: u8 = 3;
}

impl Versioned for DirectRecipient {
    const VERSION: u8 = 1;
}

impl AccountSize for DirectRecipient {
    /// The fixed fields and the smallest schedule (one byte).
    const DATA_LEN: usize = 114;
}

/// The schedule decoded from what follows the fixed fields.
pub open spec fn recipient_schedule(data: Seq<u8>) -> Result<(VestingSchedule, usize), ProgramError> {
    VestingSchedule::spec_from_bytes(data.subrange(115, data.len() as int))
}

impl AccountParse for DirectRecipient {
    open spec fn spec_parses(data: Seq<u8>) -> bool {
        header_ok(data, 116, 3) && recipient_schedule(data) is Ok
    }

    open spec fn spec_reads(data: Seq<u8>, value: DirectRecipient) -> bool {
        &&& value.bump == data[2]
        &&& value.distribution@ == data.subrange(3, 35)
        &&& value.recipient@ == data.subrange(35, 67)
        &&& value.payer@ == data.subrange(67, 99)
        &&& value.total_amount == u64_of_le(data.subrange(99, 107))
        &&& value.claimed_amount == u64_of_le(data.subrange(107, 115))
        &&& recipient_schedule(data) matches Ok((s, _)) && s == value.schedule
    }

    open spec fn spec_parse_error(data: Seq<u8>) -> ProgramError {
        if !header_ok(data, 116, 3) {
            ProgramError::InvalidAccountData
        } else {
            match recipient_schedule(data) {
                Err(e) => e,
                Ok(_) => ProgramError::InvalidAccountData,
            }
        }
    }

    fn parse_from_bytes(data: &[u8]) -> (r: Result<DirectRecipient, ProgramError>) {
        check_account_header(data, 116, 3)?;
        let bump = data[2];
        let distribution = read_address(data, 3);
        let recipient = read_address(data, 35);
        let payer = read_address(data, 67);
        let total_amount = read_u64(data, 99);
        let claimed_amount = read_u64(data, 107);
        let (_, rest) = data.split_at(SCHEDULE_OFFSET);
        let (schedule, _) = VestingSchedule::from_bytes(rest)?;
        Ok(DirectRecipient { bump, distribution, recipient, payer, total_amount, claimed_amount, schedule })
    }
}

impl AccountSerialize for DirectRecipient {
    open spec fn spec_inner(&self) -> Seq<u8> {
        seq![self.bump] + self.distribution@ + self.recipient@ + self.payer@ + le_u64(
            self.total_amount,
        ) + le_u64(self.claimed_amount) + self.schedule.spec_bytes()
    }

    fn to_bytes_inner(&self) -> (r: Vec<u8>) {
        let mut data: Vec<u8> = Vec::new();
        data.push(self.bump);
        push_address(&mut data, &self.distribution);
        push_address(&mut data, &self.recipient);
        push_address(&mut data, &self.payer);
        push_u64(&mut data, self.total_amount);
        push_u64(&mut data, self.claimed_amount);
        let schedule = self.schedule.to_bytes();
        push_slice(&mut data, schedule.as_slice());
        data
    }
}

impl AccountValidation for DirectRecipient {}

/// Parsing the serialized account gives back exactly the account.
pub proof fn lemma_direct_recipient_roundtrip(a: DirectRecipient)
    ensures
        DirectRecipient::spec_parses(a.spec_bytes()),
        forall|v: DirectRecipient| DirectRecipient::spec_reads(a.spec_bytes(), v) <==> v == a,
        a.spec_bytes().len() == 115 + a.schedule.spec_byte_len(),
{
    lemma_le_roundtrip();
    lemma_schedule_bytes_roundtrip(a.schedule, Seq::empty());
    let b = a.spec_bytes();
    assert(b.subrange(3, 35) =~= a.distribution@);
    assert(b.subrange(35, 67) =~= a.recipient@);
    assert(b.subrange(67, 99) =~= a.payer@);
    assert(b.subrange(99, 107) =~= le_u64(a.total_amount));
    assert(b.subrange(107, 115) =~= le_u64(a.claimed_amount));
    assert(b.subrange(115, b.len() as int) =~= a.schedule.spec_bytes() + Seq::empty());
    assert forall|v: DirectRecipient| DirectRecipient::spec_reads(b, v) implies v == a by {
        lemma_address_view_eq(v.distribution, a.distribution);
        lemma_address_view_eq(v.recipient, a.recipient);
        lemma_address_view_eq(v.payer, a.payer);
    }
}

/// Account data holds at most one value of this type.
proof fn lemma_direct_recipient_reads_unique(data: Seq<u8>, v1: DirectRecipient, v2: DirectRecipient)
    requires
        DirectRecipient::spec_reads(data, v1),
        DirectRecipient::spec_reads(data, v2),
    ensures
        v1 == v2,
{
    lemma_address_view_eq(v1.distribution, v2.distribution);
    lemma_address_view_eq(v1.recipient, v2.recipient);
    lemma_address_view_eq(v1.payer, v2.payer);
}

/// The `direct_recipient` seed prefix.
pub const DIRECT_RECIPIENT_PREFIX: [u8; 16] = [100, 105, 114, 101, 99, 116, 95, 114, 101, 99, 105, 112, 105, 101, 110, 116];

impl DirectRecipient {
    pub const PREFIX: [u8; 16] = DIRECT_RECIPIENT_PREFIX;
}

impl PdaSeeds for DirectRecipient {
    open spec fn spec_seeds(&self) -> Seq<Seq<u8>> {
        seq![DIRECT_RECIPIENT_PREFIX@, self.distribution@, self.recipient@]
    }

    fn seeds(&self) -> (r: Vec<&[u8]>) {
        let r: Vec<&[u8]> = vec![
            DIRECT_RECIPIENT_PREFIX.as_slice(),
            self.distribution.as_slice(),
            self.recipient.as_slice(),
        ];
        assert(seeds_view(r@) =~= self.spec_seeds());
        r
    }
}

impl PdaAccount for DirectRecipient {
    open spec fn spec_bump(&self) -> u8 {
        self.bump
    }

    fn bump(&self) -> (r: u8) {
        self.bump
    }
}

impl ClaimTracker for DirectRecipient {
    open spec fn spec_claimed(&self) -> u64 {
        self.claimed_amount
    }

    open spec fn spec_with_claimed(&self, amount: u64) -> DirectRecipient {
        DirectRecipient { claimed_amount: amount, ..*self }
    }

    fn claimed_amount(&self) -> (r: u64) {
        self.claimed_amount
    }

    /// Any amount is accepted.
    open spec fn spec_set_claimed_result(&self, amount: u64) -> Result<(), ProgramError> {
        Ok(())
    }

    fn set_claimed_amount(&mut self, amount: u64) -> (r: Result<(), ProgramError>) {
        self.claimed_amount = amount;
        Ok(())
    }
}

impl VestingParams for DirectRecipient {
    open spec fn spec_total_amount(&self) -> u64 {
        self.total_amount
    }

    open spec fn spec_vesting_schedule(&self) -> VestingSchedule {
        self.schedule
    }

    fn total_amount(&self) -> (r: u64) {
        self.total_amount
    }

    fn vesting_schedule(&self) -> (r: VestingSchedule) {
        self.schedule
    }
}

impl DirectRecipient {
    /// Account size for a recipient with this schedule: header, fixed fields,
    /// schedule.
    pub fn calculate_account_size(schedule: &VestingSchedule) -> (r: usize)
        ensures
            r == 115 + schedule.spec_byte_len(),
    {
        2 + FIXED_DATA_LEN + schedule.byte_len()
    }

    /// A recipient with nothing claimed yet.
    pub fn new(
        bump: u8,
        distribution: Address,
        recipient: Address,
        payer: Address,
        total_amount: u64,
        schedule: VestingSchedule,
    ) -> (r: DirectRecipient)
        ensures
            r == (DirectRecipient {
                bump,
                distribution,
                recipient,
                payer,
                total_amount,
                claimed_amount: 0,
                schedule,
            }),
    {
        DirectRecipient { bump, distribution, recipient, payer, total_amount, claimed_amount: 0, schedule }
    }

    /// Parses the account data and checks that `account` is this recipient's
    /// PDA, found with the stored bump.
    pub fn from_account(data: &[u8], account: &Address, program_id: &Address) -> (r: Result<
        DirectRecipient,
        ProgramError,
    >)
        ensures
            !Self::spec_parses(data@) ==> r == Err::<DirectRecipient, ProgramError>(
                Self::spec_parse_error(data@),
            ),
            Self::spec_parses(data@) ==> forall|v: DirectRecipient|
                #[trigger] Self::spec_reads(data@, v) ==> r == match spec_check_pda(
                    v.spec_seeds(),
                    account@,
                    program_id@,
                    Some(v.bump),
                ) {
                    Ok(_) => Ok::<DirectRecipient, ProgramError>(v),
                    Err(e) => Err(e),
                },
    {
        let state = Self::parse_from_bytes(data)?;
        proof {
            assert forall|v: DirectRecipient| #[trigger] Self::spec_reads(data@, v) implies v == state by {
                lemma_direct_recipient_reads_unique(data@, v, state);
            }
        }
        state.validate_self(account, program_id)?;
        Ok(state)
    }

    /// What is left of the allocation once the claimed amount is paid out.
    pub fn remaining_amount(&self) -> (r: Result<u64, RewardsProgramError>)
        ensures
            r == if self.total_amount >= self.claimed_amount {
                Ok((self.total_amount - self.claimed_amount) as u64)
            } else {
                Err(RewardsProgramError::MathOverflow)
            },
    {
        if self.total_amount >= self.claimed_amount {
            Ok(self.total_amount - self.claimed_amount)
        } else {
            Err(RewardsProgramError::MathOverflow)
        }
    }

    pub fn validate_distribution(&self, distribution: &Address) -> (r: Result<(), ProgramError>)
        ensures
            r == if distribution@ == self.distribution@ {
                Ok::<(), ProgramError>(())
            } else {
                Err(ProgramError::InvalidAccountData)
            },
    {
        if !crate::codec::address_eq(&self.distribution, distribution) {
            return Err(ProgramError::InvalidAccountData);
        }
        Ok(())
    }

    pub fn validate_recipient(&self, recipient: &Address) -> (r: Result<(), ProgramError>)
        ensures
            r == if recipient@ == self.recipient@ {
                Ok::<(), ProgramError>(())
            } else {
                Err(custom(RewardsProgramError::UnauthorizedRecipient))
            },
    {
        if !crate::codec::address_eq(&self.recipient, recipient) {
            return Err(ProgramError::Custom(RewardsProgramError::UnauthorizedRecipient.code()));
        }
        Ok(())
    }
}

} // verus!
