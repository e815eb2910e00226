use rewards_program::state::DirectRecipient;
use rewards_program::traits::{
    AccountParse, AccountSerialize, ClaimTracker, Discriminator, PdaSeeds, Versioned, VestingParams,
};
use rewards_program::utils::VestingSchedule;

const FIXED_DATA_LEN: usize = 113;

fn create_test_recipient() -> DirectRecipient {
    DirectRecipient::new(
        255,
        [1u8; 32],
        [2u8; 32],
        [3u8; 32],
        1000,
        VestingSchedule::Linear { start_ts: 100, end_ts: 200 },
    )
}

#[test]
fn test_direct_recipient_new() {
    let recipient = create_test_recipient();
    assert_eq!(recipient.bump, 255);
    assert_eq!(recipient.distribution, [1u8; 32]);
    assert_eq!(recipient.recipient, [2u8; 32]);
    assert_eq!(recipient.payer, [3u8; 32]);
    assert_eq!(recipient.total_amount, 1000);
    assert_eq!(recipient.claimed_amount, 0);
    assert_eq!(recipient.schedule, VestingSchedule::Linear { start_ts: 100, end_ts: 200 });
}

#[test]
fn test_direct_recipient_new_cliff_linear() {
    let schedule = VestingSchedule::CliffLinear { start_ts: 0, cliff_ts: 100, end_ts: 400 };
    let recipient = DirectRecipient::new(255, [1u8; 32], [2u8; 32], [3u8; 32], 1000, schedule);
    assert_eq!(recipient.schedule, schedule);
}

#[test]
fn test_direct_recipient_to_bytes_inner() {
    let recipient = create_test_recipient();
    let bytes = recipient.to_bytes_inner();
    assert_eq!(bytes.len(), FIXED_DATA_LEN + recipient.schedule.byte_len());
    assert_eq!(bytes[0], 255);
    assert_eq!(&bytes[1..33], &[1u8; 32]);
    assert_eq!(&bytes[33..65], &[2u8; 32]);
    assert_eq!(&bytes[65..97], &[3u8; 32]);
}

#[test]
fn test_direct_recipient_to_bytes() {
    let recipient = create_test_recipient();
    let bytes = recipient.to_bytes();
    assert_eq!(bytes.len(), DirectRecipient::calculate_account_size(&recipient.schedule));
    assert_eq!(bytes[0], DirectRecipient::DISCRIMINATOR);
    assert_eq!(bytes[1], DirectRecipient::VERSION);
    assert_eq!(bytes[2], 255);
}

#[test]
fn test_direct_recipient_pda_seeds() {
    let recipient = create_test_recipient();
    let seeds = recipient.seeds();
    assert_eq!(seeds.len(), 3);
    assert_eq!(seeds[0], &DirectRecipient::PREFIX[..]);
    assert_eq!(seeds[1], &recipient.distribution[..]);
    assert_eq!(seeds[2], &recipient.recipient[..]);
}

#[test]
fn direct_recipient_test_claimable_amount() {
    let recipient = create_test_recipient();
    assert_eq!(ClaimTracker::claimable_amount(&recipient, 500).unwrap(), 500);
}

#[test]
fn direct_recipient_test_claimable_amount_with_prior_claims() {
    let mut recipient = create_test_recipient();
    recipient.claimed_amount = 200;
    assert_eq!(ClaimTracker::claimable_amount(&recipient, 500).unwrap(), 300);
}

#[test]
fn direct_recipient_test_remaining_amount() {
    let mut recipient = create_test_recipient();
    recipient.claimed_amount = 300;
    assert_eq!(recipient.remaining_amount().unwrap(), 700);
}

#[test]
fn test_calculate_unlocked() {
    let recipient = create_test_recipient();
    assert_eq!(VestingParams::calculate_unlocked(&recipient, 150).unwrap(), 500);
}

#[test]
fn direct_recipient_test_calculate_unlocked_before_start() {
    let recipient = create_test_recipient();
    assert_eq!(VestingParams::calculate_unlocked(&recipient, 50).unwrap(), 0);
}

#[test]
fn direct_recipient_test_calculate_unlocked_after_end() {
    let recipient = create_test_recipient();
    assert_eq!(VestingParams::calculate_unlocked(&recipient, 250).unwrap(), 1000);
}

#[test]
fn direct_recipient_test_roundtrip_serialization() {
    let mut recipient = create_test_recipient();
    recipient.claimed_amount = 500;
    let bytes = recipient.to_bytes();
    let deserialized = DirectRecipient::parse_from_bytes(&bytes).unwrap();
    assert_eq!(deserialized.bump, recipient.bump);
    assert_eq!(deserialized.distribution, recipient.distribution);
    assert_eq!(deserialized.recipient, recipient.recipient);
    assert_eq!(deserialized.payer, recipient.payer);
    assert_eq!(deserialized.total_amount, recipient.total_amount);
    assert_eq!(deserialized.claimed_amount, recipient.claimed_amount);
    assert_eq!(deserialized.schedule, recipient.schedule);
}

#[test]
fn test_roundtrip_serialization_cliff_linear() {
    let schedule = VestingSchedule::CliffLinear { start_ts: 0, cliff_ts: 100, end_ts: 400 };
    let recipient = DirectRecipient::new(200, [1u8; 32], [2u8; 32], [3u8; 32], 5000, schedule);
    let bytes = recipient.to_bytes();
    let deserialized = DirectRecipient::parse_from_bytes(&bytes).unwrap();
    assert_eq!(deserialized.schedule, schedule);
}

#[test]
fn direct_recipient_test_validate_distribution_success() {
    let recipient = create_test_recipient();
    assert!(recipient.validate_distribution(&[1u8; 32]).is_ok());
}

#[test]
fn direct_recipient_test_validate_distribution_fail() {
    let recipient = create_test_recipient();
    assert!(recipient.validate_distribution(&[99u8; 32]).is_err());
}

#[test]
fn direct_recipient_test_validate_recipient_success() {
    let recipient = create_test_recipient();
    assert!(recipient.validate_recipient(&[2u8; 32]).is_ok());
}

#[test]
fn direct_recipient_test_validate_recipient_fail() {
    let recipient = create_test_recipient();
    assert!(recipient.validate_recipient(&[99u8; 32]).is_err());
}

#[test]
fn direct_recipient_test_remaining_amount_full() {
    let recipient = create_test_recipient();
    assert_eq!(recipient.remaining_amount().unwrap(), 1000);
}

#[test]
fn direct_recipient_test_claimable_amount_exceeds_unlocked() {
    let mut recipient = create_test_recipient();
    recipient.claimed_amount = 600;
    assert!(ClaimTracker::claimable_amount(&recipient, 500).is_err());
}

#[test]
fn direct_recipient_test_remaining_amount_overflow() {
    let mut recipient = create_test_recipient();
    recipient.claimed_amount = 1500;
    assert!(recipient.remaining_amount().is_err());
}

#[test]
fn direct_recipient_test_claim_tracker_trait() {
    let mut recipient = create_test_recipient();
    assert_eq!(ClaimTracker::claimed_amount(&recipient), 0);
    ClaimTracker::set_claimed_amount(&mut recipient, 500).unwrap();
    assert_eq!(ClaimTracker::claimed_amount(&recipient), 500);
}

#[test]
fn test_vesting_params_trait() {
    let recipient = create_test_recipient();
    assert_eq!(VestingParams::total_amount(&recipient), 1000);
    assert_eq!(
        VestingParams::vesting_schedule(&recipient),
        VestingSchedule::Linear { start_ts: 100, end_ts: 200 }
    );
}

#[test]
fn test_vesting_params_calculate_unlocked() {
    let recipient = create_test_recipient();
    assert_eq!(VestingParams::calculate_unlocked(&recipient, 150).unwrap(), 500);
}

#[test]
fn test_cliff_linear_unlocked_amount() {
    let recipient = DirectRecipient::new(
        255,
        [1u8; 32],
        [2u8; 32],
        [3u8; 32],
        1000,
        VestingSchedule::CliffLinear { start_ts: 0, cliff_ts: 100, end_ts: 400 },
    );
    assert_eq!(VestingParams::calculate_unlocked(&recipient, 50).unwrap(), 0);
    assert_eq!(VestingParams::calculate_unlocked(&recipient, 100).unwrap(), 250);
    assert_eq!(VestingParams::calculate_unlocked(&recipient, 200).unwrap(), 500);
    assert_eq!(VestingParams::calculate_unlocked(&recipient, 400).unwrap(), 1000);
}
