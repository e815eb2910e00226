//! Error values produced by the rewards program logic.
use vstd::prelude::*;

verus! {

/// Program-specific failure reasons, reported to the runtime as a custom
/// error code (the variant's position in this list).
#[derive(Clone, Copy, Debug, PartialEq, Eq, Structural)]
pub enum RewardsProgramError {
    InvalidAccountData,
    InvalidAmount,
    InvalidTimeWindow,
    InvalidCliffTimestamp,
    InvalidScheduleType,
    MathOverflow,
    InvalidMerkleProof,
    NothingToClaim,
    ExceedsClaimableAmount,
    ClaimedAmountDecreased,
    UnauthorizedAuthority,
    UnauthorizedRecipient,
    ClaimNotFullyVested,
    DistributionNotRevocable,
    InvalidRevokeMode,
    ClaimantAlreadyRevoked,
    InvalidBalanceSource,
    TrackedMintMismatch,
    RewardMintMismatch,
    PermanentDelegateNotAllowed,
    NonTransferableNotAllowed,
    PausableNotAllowed,
    RentCalculationFailed,
    ClawbackNotReached,
}

impl RewardsProgramError {
    /// The custom error code of this failure.
    pub open spec fn spec_code(self) -> u32 {
        match self {
            RewardsProgramError::InvalidAccountData => 0,
            RewardsProgramError::InvalidAmount => 1,
            RewardsProgramError::InvalidTimeWindow => 2,
            RewardsProgramError::InvalidCliffTimestamp => 3,
            RewardsProgramError::InvalidScheduleType => 4,
            RewardsProgramError::MathOverflow => 5,
            RewardsProgramError::InvalidMerkleProof => 6,
            RewardsProgramError::NothingToClaim => 7,
            RewardsProgramError::ExceedsClaimableAmount => 8,
            RewardsProgramError::ClaimedAmountDecreased => 9,
            RewardsProgramError::UnauthorizedAuthority => 10,
            RewardsProgramError::UnauthorizedRecipient => 11,
            RewardsProgramError::ClaimNotFullyVested => 12,
            RewardsProgramError::DistributionNotRevocable => 13,
            RewardsProgramError::InvalidRevokeMode => 14,
            RewardsProgramError::ClaimantAlreadyRevoked => 15,
            RewardsProgramError::InvalidBalanceSource => 16,
            RewardsProgramError::TrackedMintMismatch => 17,
            RewardsProgramError::RewardMintMismatch => 18,
            RewardsProgramError::PermanentDelegateNotAllowed => 19,
            RewardsProgramError::NonTransferableNotAllowed => 20,
            RewardsProgramError::PausableNotAllowed => 21,
            RewardsProgramError::RentCalculationFailed => 22,
            RewardsProgramError::ClawbackNotReached => 23,
        }
    }

    pub fn code(&self) -> (r: u32)
        ensures
            r == self.spec_code(),
    {
        match self {
            RewardsProgramError::InvalidAccountData => 0,
            RewardsProgramError::InvalidAmount => 1,
            RewardsProgramError::InvalidTimeWindow => 2,
            RewardsProgramError::InvalidCliffTimestamp => 3,
            RewardsProgramError::InvalidScheduleType => 4,
            RewardsProgramError::MathOverflow => 5,
            RewardsProgramError::InvalidMerkleProof => 6,
            RewardsProgramError::NothingToClaim => 7,
            RewardsProgramError::ExceedsClaimableAmount => 8,
            RewardsProgramError::ClaimedAmountDecreased => 9,
            RewardsProgramError::UnauthorizedAuthority => 10,
            RewardsProgramError::UnauthorizedRecipient => 11,
            RewardsProgramError::ClaimNotFullyVested => 12,
            RewardsProgramError::DistributionNotRevocable => 13,
            RewardsProgramError::InvalidRevokeMode => 14,
            RewardsProgramError::ClaimantAlreadyRevoked => 15,
            RewardsProgramError::InvalidBalanceSource => 16,
            RewardsProgramError::TrackedMintMismatch => 17,
            RewardsProgramError::RewardMintMismatch => 18,
            RewardsProgramError::PermanentDelegateNotAllowed => 19,
            RewardsProgramError::NonTransferableNotAllowed => 20,
            RewardsProgramError::PausableNotAllowed => 21,
            RewardsProgramError::RentCalculationFailed => 22,
            RewardsProgramError::ClawbackNotReached => 23,
        }
    }
}

/// The failure reported by an instruction: one of the runtime's generic
/// reasons (the variants of the runtime's program error, in its order), or a
/// program-specific code.
#[derive(Clone, Copy, Debug, PartialEq, Eq, Structural)]
pub enum ProgramError {
    Custom(u32),
    InvalidArgument,
    InvalidInstructionData,
    InvalidAccountData,
    AccountDataTooSmall,
    InsufficientFunds,
    IncorrectProgramId,
    MissingRequiredSignature,
    AccountAlreadyInitialized,
    UninitializedAccount,
    NotEnoughAccountKeys,
    AccountBorrowFailed,
    MaxSeedLengthExceeded,
    InvalidSeeds,
    BorshIoError,
    AccountNotRentExempt,
    UnsupportedSysvar,
    IllegalOwner,
    MaxAccountsDataAllocationsExceeded,
    InvalidRealloc,
    MaxInstructionTraceLengthExceeded,
    BuiltinProgramsMustConsumeComputeUnits,
    InvalidAccountOwner,
    ArithmeticOverflow,
    Immutable,
    IncorrectAuthority,
}

/// The runtime error that carries a program-specific failure.
pub open spec fn custom(e: RewardsProgramError) -> ProgramError {
    ProgramError::Custom(e.spec_code())
}

impl From<RewardsProgramError> for ProgramError {
    fn from(e: RewardsProgramError) -> (r: ProgramError) {
        let code = e.code();
        assert(ProgramError::Custom(code) == custom(e));
        ProgramError::Custom(code)
    }
}

impl vstd::std_specs::convert::FromSpecImpl<RewardsProgramError> for ProgramError {
    open spec fn obeys_from_spec() -> bool {
        true
    }

    open spec fn from_spec(e: RewardsProgramError) -> ProgramError {
        custom(e)
    }
}

} // verus!
