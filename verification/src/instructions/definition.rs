//! The program's instructions and their data fields.
use vstd::prelude::*;
use crate::utils::{BalanceSource, RevokeMode, VestingSchedule};

verus! {

/// Instructions for the Rewards Program; the first byte of an instruction's
/// data selects the variant (see `discriminator`).
#[derive(Clone, Debug, PartialEq)]
pub enum RewardsProgramInstruction {
    /// Create a new direct distribution.
    CreateDirectDistribution { bump: u8, revocable: u8, clawback_ts: i64 },
    /// Add a recipient, with its own vesting schedule, to a direct distribution; its allocation moves into the vault.
    AddDirectRecipient { bump: u8, amount: u64, schedule: VestingSchedule },
    /// Claim from a direct distribution (0 claims everything available).
    ClaimDirect { amount: u64 },
    /// Close a direct distribution once its clawback timestamp is reached, returning what is left in the vault to the authority.
    CloseDirectDistribution {},
    /// Close a recipient account once its distribution is closed or it has claimed everything, returning its rent to the payer.
    CloseDirectRecipient {},
    /// Create a merkle distribution from its root.
    CreateMerkleDistribution { bump: u8, revocable: u8, amount: u64, merkle_root: [u8; 32], total_amount: u64, clawback_ts: i64 },
    /// Claim from a merkle distribution with a proof of the claimant's leaf.
    ClaimMerkle { claim_bump: u8, total_amount: u64, amount: u64, schedule: VestingSchedule, proof: Vec<[u8; 32]> },
    /// Close a merkle claim account.
    CloseMerkleClaim {},
    /// Close a merkle distribution.
    CloseMerkleDistribution {},
    /// Revoke a direct recipient.
    RevokeDirectRecipient { revoke_mode: RevokeMode },
    /// Revoke a merkle claimant, given its leaf and proof.
    RevokeMerkleClaim { revoke_mode: RevokeMode, total_amount: u64, schedule: VestingSchedule, proof: Vec<[u8; 32]> },
    /// Create a continuous reward pool.
    CreateContinuousPool { bump: u8, balance_source: BalanceSource, revocable: u8, clawback_ts: i64 },
    /// Opt a user into a continuous pool.
    ContinuousOptIn { bump: u8 },
    /// Opt a user out of a continuous pool.
    ContinuousOptOut {},
    /// Distribute rewards to a continuous pool's opted-in holders.
    DistributeContinuousReward { amount: u64 },
    /// Claim accrued rewards from a continuous pool.
    ClaimContinuous { amount: u64 },
    /// Sync a user's tracked balance from its token account.
    SyncContinuousBalance {},
    /// Set a user's tracked balance (authority-set pools).
    SetContinuousBalance { balance: u64 },
    /// Close a continuous pool.
    CloseContinuousPool {},
    /// Revoke a user of a continuous pool.
    RevokeContinuousUser { revoke_mode: RevokeMode },
    /// Emit an event through a self-invocation.
    EmitEvent {},
}

impl RewardsProgramInstruction {
    /// The byte that selects the instruction.
    pub open spec fn spec_discriminator(&self) -> u8 {
        match self {
            RewardsProgramInstruction::CreateDirectDistribution { .. } => 0,
            RewardsProgramInstruction::AddDirectRecipient { .. } => 1,
            RewardsProgramInstruction::ClaimDirect { .. } => 2,
            RewardsProgramInstruction::CloseDirectDistribution { .. } => 3,
            RewardsProgramInstruction::CloseDirectRecipient { .. } => 4,
            RewardsProgramInstruction::CreateMerkleDistribution { .. } => 5,
            RewardsProgramInstruction::ClaimMerkle { .. } => 6,
            RewardsProgramInstruction::CloseMerkleClaim { .. } => 7,
            RewardsProgramInstruction::CloseMerkleDistribution { .. } => 8,
            RewardsProgramInstruction::RevokeDirectRecipient { .. } => 9,
            RewardsProgramInstruction::RevokeMerkleClaim { .. } => 10,
            RewardsProgramInstruction::CreateContinuousPool { .. } => 11,
            RewardsProgramInstruction::ContinuousOptIn { .. } => 12,
            RewardsProgramInstruction::ContinuousOptOut { .. } => 13,
            RewardsProgramInstruction::DistributeContinuousReward { .. } => 14,
            RewardsProgramInstruction::ClaimContinuous { .. } => 15,
            RewardsProgramInstruction::SyncContinuousBalance { .. } => 16,
            RewardsProgramInstruction::SetContinuousBalance { .. } => 17,
            RewardsProgramInstruction::CloseContinuousPool { .. } => 18,
            RewardsProgramInstruction::RevokeContinuousUser { .. } => 19,
            RewardsProgramInstruction::EmitEvent { .. } => 228,
        }
    }

    pub fn discriminator(&self) -> (r: u8)
        ensures
            r == self.spec_discriminator(),
    {
        match self {
            RewardsProgramInstruction::CreateDirectDistribution { .. } => 0,
            RewardsProgramInstruction::AddDirectRecipient { .. } => 1,
            RewardsProgramInstruction::ClaimDirect { .. } => 2,
            RewardsProgramInstruction::CloseDirectDistribution { .. } => 3,
            RewardsProgramInstruction::CloseDirectRecipient { .. } => 4,
            RewardsProgramInstruction::CreateMerkleDistribution { .. } => 5,
            RewardsProgramInstruction::ClaimMerkle { .. } => 6,
            RewardsProgramInstruction::CloseMerkleClaim { .. } => 7,
            RewardsProgramInstruction::CloseMerkleDistribution { .. } => 8,
            RewardsProgramInstruction::RevokeDirectRecipient { .. } => 9,
            RewardsProgramInstruction::RevokeMerkleClaim { .. } => 10,
            RewardsProgramInstruction::CreateContinuousPool { .. } => 11,
            RewardsProgramInstruction::ContinuousOptIn { .. } => 12,
            RewardsProgramInstruction::ContinuousOptOut { .. } => 13,
            RewardsProgramInstruction::DistributeContinuousReward { .. } => 14,
            RewardsProgramInstruction::ClaimContinuous { .. } => 15,
            RewardsProgramInstruction::SyncContinuousBalance { .. } => 16,
            RewardsProgramInstruction::SetContinuousBalance { .. } => 17,
            RewardsProgramInstruction::CloseContinuousPool { .. } => 18,
            RewardsProgramInstruction::RevokeContinuousUser { .. } => 19,
            RewardsProgramInstruction::EmitEvent { .. } => 228,
        }
    }
}

} // verus!
