use rewards_program::errors::{ProgramError, RewardsProgramError};
use rewards_program::instructions::create_vesting_distribution::CreateVestingDistributionData;
use rewards_program::instructions::direct::add_recipient::AddDirectRecipientData;
use rewards_program::instructions::direct::create_distribution::CreateDirectDistributionData;
use rewards_program::instructions::direct::revoke_recipient::RevokeDirectRecipientData;
use rewards_program::instructions::emit_event::EmitEventData;
use rewards_program::instructions::merkle::revoke_claim::RevokeMerkleClaimData;
use rewards_program::traits::{InstructionData, VestingParams};
use rewards_program::utils::{RevokeMode, VestingSchedule};

// CreateVestingDistribution

fn create_vesting_data() -> [u8; 9] {
    let mut data = [0u8; 9];
    data[0] = 255;
    data[1..9].copy_from_slice(&1000u64.to_le_bytes());
    data
}

#[test]
fn test_try_from_valid_data() {
    let data = create_vesting_data();
    let result = CreateVestingDistributionData::try_from(&data[..]);
    assert!(result.is_ok());
    let parsed = result.unwrap();
    assert_eq!(parsed.bump, 255);
    assert_eq!(parsed.amount, 1000);
}

#[test]
fn test_try_from_data_too_short() {
    let data = [0u8; 5];
    let result = CreateVestingDistributionData::try_from(&data[..]);
    assert_eq!(result.err(), Some(ProgramError::InvalidInstructionData));
}

#[test]
fn test_validate_success() {
    let data = create_vesting_data();
    let parsed = CreateVestingDistributionData::try_from(&data[..]).unwrap();
    assert!(parsed.validate().is_ok());
}

#[test]
fn test_validate_zero_amount() {
    let mut data = create_vesting_data();
    data[1..9].copy_from_slice(&0u64.to_le_bytes());
    let parsed = CreateVestingDistributionData::try_from(&data[..]).unwrap();
    assert_eq!(parsed.validate().err(), Some(RewardsProgramError::InvalidAmount.into()));
}

// AddDirectRecipient

fn create_linear_data() -> Vec<u8> {
    let schedule = VestingSchedule::Linear { start_ts: 100, end_ts: 200 };
    let schedule_bytes = schedule.to_bytes();
    let mut data = Vec::with_capacity(9 + schedule_bytes.len());
    data.push(255);
    data.extend_from_slice(&1000u64.to_le_bytes());
    data.extend_from_slice(&schedule_bytes);
    data
}

#[test]
fn test_try_from_valid_linear() {
    let data = create_linear_data();
    let parsed = AddDirectRecipientData::try_from(&data[..]).unwrap();
    assert_eq!(parsed.bump, 255);
    assert_eq!(parsed.amount, 1000);
    assert_eq!(parsed.schedule, VestingSchedule::Linear { start_ts: 100, end_ts: 200 });
}

#[test]
fn test_try_from_valid_immediate() {
    let mut data = Vec::new();
    data.push(1);
    data.extend_from_slice(&500u64.to_le_bytes());
    data.extend_from_slice(&VestingSchedule::Immediate {}.to_bytes());
    let parsed = AddDirectRecipientData::try_from(&data[..]).unwrap();
    assert_eq!(parsed.bump, 1);
    assert_eq!(parsed.amount, 500);
    assert_eq!(parsed.schedule, VestingSchedule::Immediate {});
}

#[test]
fn test_try_from_valid_cliff_linear() {
    let schedule = VestingSchedule::CliffLinear { start_ts: 0, cliff_ts: 100, end_ts: 400 };
    let mut data = Vec::new();
    data.push(200);
    data.extend_from_slice(&5000u64.to_le_bytes());
    data.extend_from_slice(&schedule.to_bytes());
    let parsed = AddDirectRecipientData::try_from(&data[..]).unwrap();
    assert_eq!(parsed.schedule, schedule);
}

#[test]
fn data_test_try_from_data_too_short() {
    let data = [0u8; 5];
    let result = AddDirectRecipientData::try_from(&data[..]);
    assert_eq!(result.err(), Some(ProgramError::InvalidInstructionData));
}

#[test]
fn test_try_from_invalid_schedule_discriminant() {
    let mut data = Vec::new();
    data.push(1);
    data.extend_from_slice(&1000u64.to_le_bytes());
    data.push(255);
    let result = AddDirectRecipientData::try_from(&data[..]);
    assert!(result.is_err());
}

#[test]
fn data_test_validate_success() {
    let data = create_linear_data();
    let parsed = AddDirectRecipientData::try_from(&data[..]).unwrap();
    assert!(parsed.validate().is_ok());
}

#[test]
fn data_test_validate_zero_amount() {
    let mut data = Vec::new();
    data.push(1);
    data.extend_from_slice(&0u64.to_le_bytes());
    data.extend_from_slice(&VestingSchedule::Immediate {}.to_bytes());
    let parsed = AddDirectRecipientData::try_from(&data[..]).unwrap();
    assert_eq!(parsed.validate().err(), Some(RewardsProgramError::InvalidAmount.into()));
}

#[test]
fn test_validate_invalid_time_window() {
    let schedule = VestingSchedule::Linear { start_ts: 200, end_ts: 100 };
    let mut data = Vec::new();
    data.push(1);
    data.extend_from_slice(&1000u64.to_le_bytes());
    data.extend_from_slice(&schedule.to_bytes());
    let parsed = AddDirectRecipientData::try_from(&data[..]).unwrap();
    assert_eq!(parsed.validate().err(), Some(RewardsProgramError::InvalidTimeWindow.into()));
}

#[test]
fn test_validate_cliff_linear() {
    let schedule = VestingSchedule::CliffLinear { start_ts: 0, cliff_ts: 100, end_ts: 400 };
    let mut data = Vec::new();
    data.push(1);
    data.extend_from_slice(&1000u64.to_le_bytes());
    data.extend_from_slice(&schedule.to_bytes());
    let parsed = AddDirectRecipientData::try_from(&data[..]).unwrap();
    assert!(parsed.validate().is_ok());
}

#[test]
fn test_validate_cliff_linear_invalid_cliff() {
    let schedule = VestingSchedule::CliffLinear { start_ts: 100, cliff_ts: 50, end_ts: 400 };
    let mut data = Vec::new();
    data.push(1);
    data.extend_from_slice(&1000u64.to_le_bytes());
    data.extend_from_slice(&schedule.to_bytes());
    let parsed = AddDirectRecipientData::try_from(&data[..]).unwrap();
    assert!(parsed.validate().is_err());
}

// CreateDirectDistribution

fn make_data(bump: u8, revocable: u8, clawback_ts: i64) -> [u8; 10] {
    let mut data = [0u8; 10];
    data[0] = bump;
    data[1] = revocable;
    data[2..10].copy_from_slice(&clawback_ts.to_le_bytes());
    data
}

#[test]
fn data_test_try_from_valid_data() {
    let data = make_data(255, 0, 0);
    let result = CreateDirectDistributionData::try_from(&data[..]);
    assert!(result.is_ok());
    let parsed = result.unwrap();
    assert_eq!(parsed.bump, 255);
    assert_eq!(parsed.revocable, 0);
    assert_eq!(parsed.clawback_ts, 0);
}

#[test]
fn test_try_from_valid_data_revocable() {
    let data = make_data(255, 1, 0);
    let parsed = CreateDirectDistributionData::try_from(&data[..]).unwrap();
    assert_eq!(parsed.revocable, 1);
}

#[test]
fn test_try_from_valid_data_with_clawback_ts() {
    let data = make_data(255, 0, 1700000000);
    let parsed = CreateDirectDistributionData::try_from(&data[..]).unwrap();
    assert_eq!(parsed.clawback_ts, 1700000000);
}

#[test]
fn create_distribution_test_try_from_data_too_short() {
    let data = [0u8; 9];
    let result = CreateDirectDistributionData::try_from(&data[..]);
    assert_eq!(result.err(), Some(ProgramError::InvalidInstructionData));
}

#[test]
fn create_distribution_test_validate_success() {
    let data = make_data(255, 0, 0);
    let parsed = CreateDirectDistributionData::try_from(&data[..]).unwrap();
    assert!(parsed.validate().is_ok());
}

#[test]
fn test_validate_revocable_bitmask_values() {
    for revocable in [0, 1, 2, 3, 255] {
        let data = make_data(255, revocable, 0);
        let parsed = CreateDirectDistributionData::try_from(&data[..]).unwrap();
        assert!(parsed.validate().is_ok());
        assert_eq!(parsed.revocable, revocable);
    }
}

// RevokeDirectRecipient

#[test]
fn test_try_from_valid_non_vested() {
    let data = [0u8];
    let result = RevokeDirectRecipientData::try_from(&data[..]);
    assert!(result.is_ok());
    assert_eq!(result.unwrap().revoke_mode, RevokeMode::NonVested {});
}

#[test]
fn test_try_from_valid_full() {
    let data = [1u8];
    let result = RevokeDirectRecipientData::try_from(&data[..]);
    assert!(result.is_ok());
    assert_eq!(result.unwrap().revoke_mode, RevokeMode::Full {});
}

#[test]
fn revoke_recipient_test_try_from_data_too_short() {
    let data: [u8; 0] = [];
    let result = RevokeDirectRecipientData::try_from(&data[..]);
    assert_eq!(result.err(), Some(ProgramError::InvalidInstructionData));
}

#[test]
fn test_try_from_invalid_mode() {
    let data = [2u8];
    let result = RevokeDirectRecipientData::try_from(&data[..]);
    assert_eq!(result.err(), Some(ProgramError::Custom(RewardsProgramError::InvalidRevokeMode as u32)));
}

#[test]
fn test_validate_always_ok() {
    let data = [0u8];
    let parsed = RevokeDirectRecipientData::try_from(&data[..]).unwrap();
    assert!(parsed.validate().is_ok());
}

// EmitEvent

#[test]
fn test_try_from_empty_data() {
    let data: [u8; 0] = [];
    let result = EmitEventData::try_from(&data[..]);
    assert!(result.is_ok());
}

#[test]
fn test_try_from_with_data() {
    let data = [1, 2, 3, 4];
    let result = EmitEventData::try_from(&data[..]);
    assert!(result.is_ok());
}

// RevokeMerkleClaim

fn build_data(revoke_mode: u8, schedule: VestingSchedule, proof: &[[u8; 32]]) -> Vec<u8> {
    let schedule_bytes = schedule.to_bytes();
    let mut data = Vec::new();
    data.push(revoke_mode);
    data.extend_from_slice(&1000u64.to_le_bytes());
    data.extend_from_slice(&schedule_bytes);
    data.extend_from_slice(&(proof.len() as u32).to_le_bytes());
    for p in proof {
        data.extend_from_slice(p);
    }
    data
}

#[test]
fn test_try_from_non_vested_immediate_no_proof() {
    let data = build_data(0, VestingSchedule::Immediate {}, &[]);
    let parsed = RevokeMerkleClaimData::try_from(&data[..]).unwrap();
    assert_eq!(parsed.revoke_mode, RevokeMode::NonVested {});
    assert_eq!(parsed.total_amount, 1000);
    assert_eq!(parsed.schedule, VestingSchedule::Immediate {});
    assert!(parsed.proof.is_empty());
}

#[test]
fn test_try_from_full_linear_with_proof() {
    let schedule = VestingSchedule::Linear { start_ts: 100, end_ts: 200 };
    let proof = [[1u8; 32], [2u8; 32]];
    let data = build_data(1, schedule, &proof);
    let parsed = RevokeMerkleClaimData::try_from(&data[..]).unwrap();
    assert_eq!(parsed.revoke_mode, RevokeMode::Full {});
    assert_eq!(parsed.schedule, schedule);
    assert_eq!(parsed.proof.len(), 2);
    assert_eq!(parsed.proof[0], [1u8; 32]);
    assert_eq!(parsed.proof[1], [2u8; 32]);
}

#[test]
fn test_try_from_cliff_linear() {
    let schedule = VestingSchedule::CliffLinear { start_ts: 0, cliff_ts: 100, end_ts: 400 };
    let data = build_data(0, schedule, &[]);
    let parsed = RevokeMerkleClaimData::try_from(&data[..]).unwrap();
    assert_eq!(parsed.schedule, schedule);
}

#[test]
fn revoke_claim_test_try_from_data_too_short() {
    let data = [0u8; 10];
    let result = RevokeMerkleClaimData::try_from(&data[..]);
    assert_eq!(result.err(), Some(ProgramError::InvalidInstructionData));
}

#[test]
fn data_test_try_from_invalid_mode() {
    let data = build_data(2, VestingSchedule::Immediate {}, &[]);
    let result = RevokeMerkleClaimData::try_from(&data[..]);
    assert_eq!(result.err(), Some(ProgramError::Custom(RewardsProgramError::InvalidRevokeMode as u32)));
}

#[test]
fn test_try_from_proof_too_short() {
    let schedule = VestingSchedule::Immediate {};
    let schedule_bytes = schedule.to_bytes();
    let mut data = Vec::new();
    data.push(0);
    data.extend_from_slice(&1000u64.to_le_bytes());
    data.extend_from_slice(&schedule_bytes);
    data.extend_from_slice(&2u32.to_le_bytes());
    let result = RevokeMerkleClaimData::try_from(&data[..]);
    assert_eq!(result.err(), Some(ProgramError::InvalidInstructionData));
}

#[test]
fn revoke_claim_test_validate_success() {
    let data = build_data(0, VestingSchedule::Linear { start_ts: 100, end_ts: 200 }, &[]);
    let parsed = RevokeMerkleClaimData::try_from(&data[..]).unwrap();
    assert!(parsed.validate().is_ok());
}

#[test]
fn test_vesting_params() {
    let data = build_data(0, VestingSchedule::Linear { start_ts: 100, end_ts: 200 }, &[]);
    let parsed = RevokeMerkleClaimData::try_from(&data[..]).unwrap();
    assert_eq!(parsed.total_amount(), 1000);
    assert_eq!(parsed.vesting_schedule(), VestingSchedule::Linear { start_ts: 100, end_ts: 200 });
}
