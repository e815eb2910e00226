use rewards_program::errors::{ProgramError, RewardsProgramError};
use rewards_program::instructions::RewardsProgramInstruction;
use rewards_program::state::{DirectRecipient, MerkleClaim, RevocationSeeds, RewardPool, UserRewardAccount};
use rewards_program::traits::{
    AccountParse, AccountSerialize, AccountValidation, ClaimTracker, EventDiscriminators, PdaSeeds, RewardsAccountDiscriminators,
    RewardsInstructionDiscriminators,
};
use rewards_program::utils::pda_utils::{
    close_pda_lamports, plan_create_pda_account, plan_create_pda_account_idempotent, required_lamports, PdaCreation,
};
use rewards_program::utils::program_utils::{TOKEN_2022_PROGRAM_ID, TOKEN_PROGRAM_ID};
use rewards_program::utils::{
    check_mint_extensions, hash_pair, requires_extension_check, sync_user_balance, update_user_rewards,
    validate_associated_token_account, validate_associated_token_account_address, verify_associated_token_program,
    verify_current_program, verify_system_program, verify_token_program,
    BalanceSource, RevokeMode, VestingSchedule, REWARD_PRECISION,
};
use rewards_program::ID;

#[test]
fn error_codes_are_positions() {
    assert_eq!(RewardsProgramError::InvalidAccountData.code(), 0);
    assert_eq!(RewardsProgramError::MathOverflow.code(), 5);
    assert_eq!(RewardsProgramError::RentCalculationFailed.code(), 22);
    assert_eq!(ProgramError::from(RewardsProgramError::NothingToClaim), ProgramError::Custom(7));
}

#[test]
fn discriminator_values() {
    assert_eq!(RewardsAccountDiscriminators::RewardPool.value(), 8);
    assert_eq!(RewardsAccountDiscriminators::UserRewardAccount.value(), 9);
    assert_eq!(EventDiscriminators::VestingRecipientAdded.value(), 3);
    assert_eq!(RewardsInstructionDiscriminators::EmitEvent.value(), 228);
    for b in 0u8..=255 {
        if let Ok(d) = RewardsInstructionDiscriminators::try_from(b) {
            assert_eq!(d.value(), b);
        }
    }
    assert_eq!(RewardsProgramInstruction::ClaimDirect { amount: 5 }.discriminator(), 2);
    assert_eq!(RewardsProgramInstruction::RevokeContinuousUser { revoke_mode: RevokeMode::Full {} }.discriminator(), 19);
    assert_eq!(RewardsProgramInstruction::EmitEvent {}.discriminator(), 228);
}

#[test]
fn schedule_unlocks_never_exceed_total_and_never_go_back() {
    let schedules = [
        VestingSchedule::Immediate {},
        VestingSchedule::Linear { start_ts: 100, end_ts: 200 },
        VestingSchedule::Cliff { cliff_ts: 150 },
        VestingSchedule::CliffLinear { start_ts: 100, cliff_ts: 150, end_ts: 300 },
    ];
    for s in schedules {
        let mut last = 0u64;
        for t in (0..400).step_by(7) {
            let u = s.calculate_unlocked(12345, t).unwrap();
            assert!(u <= 12345);
            assert!(u >= last);
            last = u;
        }
        assert_eq!(s.calculate_unlocked(12345, 1000).unwrap(), 12345);
    }
}

#[test]
fn revoke_mode_bitmask() {
    assert!(RevokeMode::NonVested {}.is_disabled_by(0));
    assert!(!RevokeMode::NonVested {}.is_disabled_by(1));
    assert!(RevokeMode::Full {}.is_disabled_by(1));
    assert!(!RevokeMode::Full {}.is_disabled_by(2));
    assert!(!RevokeMode::Full {}.is_disabled_by(3));
}

#[test]
fn account_parse_errors() {
    let pool = RewardPool::new(1, BalanceSource::OnChain, 0, 0, [1u8; 32], [2u8; 32], [3u8; 32], [4u8; 32]);
    let mut bytes = pool.to_bytes();
    bytes[3] = 7;
    assert_eq!(
        RewardPool::parse_from_bytes(&bytes),
        Err(ProgramError::from(RewardsProgramError::InvalidBalanceSource))
    );
    assert_eq!(RewardPool::parse_from_bytes(&bytes[..100]), Err(ProgramError::InvalidAccountData));
    let recipient = DirectRecipient::new(1, [1u8; 32], [2u8; 32], [3u8; 32], 10, VestingSchedule::Immediate {});
    let mut bytes = recipient.to_bytes();
    bytes[115] = 9;
    assert_eq!(
        DirectRecipient::parse_from_bytes(&bytes),
        Err(ProgramError::from(RewardsProgramError::InvalidScheduleType))
    );
    let mut wrong = recipient.to_bytes();
    wrong[0] = 2;
    assert_eq!(DirectRecipient::parse_from_bytes(&wrong), Err(ProgramError::InvalidAccountData));
}

#[test]
fn write_to_slice_keeps_the_rest() {
    let claim = MerkleClaim::new(9);
    let mut dest = [0xAAu8; 20];
    claim.write_to_slice(&mut dest).unwrap();
    assert_eq!(&dest[..18], &claim.to_bytes()[..]);
    assert_eq!(&dest[18..], &[0xAA, 0xAA]);
    let mut small = [0u8; 5];
    assert_eq!(claim.write_to_slice(&mut small), Err(ProgramError::AccountDataTooSmall));
}

#[test]
fn add_claimed_overflow_changes_nothing() {
    let mut claim = MerkleClaim::new(9);
    claim.claimed_amount = u64::MAX - 1;
    assert_eq!(claim.add_claimed(2), Err(ProgramError::from(RewardsProgramError::MathOverflow)));
    assert_eq!(claim.claimed_amount, u64::MAX - 1);
}

fn pool_with(rpt: u128, supply: u64) -> RewardPool {
    let mut pool = RewardPool::new(1, BalanceSource::OnChain, 0, 0, [1u8; 32], [2u8; 32], [3u8; 32], [4u8; 32]);
    pool.reward_per_token = rpt;
    pool.opted_in_supply = supply;
    pool
}

#[test]
fn update_rewards_twice_accrues_once() {
    let pool = pool_with(3 * REWARD_PRECISION, 100);
    let mut user = UserRewardAccount::new(1, REWARD_PRECISION, 40);
    update_user_rewards(&pool, &mut user).unwrap();
    assert_eq!(user.accrued_rewards, 80);
    let once = user;
    update_user_rewards(&pool, &mut user).unwrap();
    assert_eq!(user, once);
}

#[test]
fn update_rewards_errors_leave_user_unchanged() {
    let pool = pool_with(1, 100);
    let mut user = UserRewardAccount::new(1, 5, 40);
    let before = user;
    assert_eq!(update_user_rewards(&pool, &mut user), Err(ProgramError::from(RewardsProgramError::MathOverflow)));
    assert_eq!(user, before);
    let pool = pool_with(u128::MAX, 100);
    let mut user = UserRewardAccount::new(1, 0, u64::MAX);
    assert!(update_user_rewards(&pool, &mut user).is_err());
    assert_eq!(user.reward_per_token_paid, 0);
}

#[test]
fn sync_keeps_the_rest_of_the_supply() {
    let mut pool = pool_with(0, 1000);
    let mut user = UserRewardAccount::new(1, 0, 300);
    sync_user_balance(&mut pool, &mut user, 900).unwrap();
    assert_eq!(pool.opted_in_supply - user.last_known_balance, 700);
    sync_user_balance(&mut pool, &mut user, 300).unwrap();
    assert_eq!(pool.opted_in_supply, 1000);
    let mut pool = pool_with(0, 10);
    let mut user = UserRewardAccount::new(1, 0, 300);
    assert!(sync_user_balance(&mut pool, &mut user, 0).is_err());
    assert_eq!(pool.opted_in_supply, 10);
    assert_eq!(user.last_known_balance, 300);
}

#[test]
fn pda_creation_plans() {
    assert_eq!(required_lamports(Some(0)), Ok(1));
    assert_eq!(required_lamports(None), Err(ProgramError::from(RewardsProgramError::RentCalculationFailed)));
    assert_eq!(plan_create_pda_account(Some(500), 0), Ok(PdaCreation::CreateAccount { lamports: 500 }));
    assert_eq!(plan_create_pda_account(Some(500), 1), Err(ProgramError::AccountAlreadyInitialized));
    assert_eq!(plan_create_pda_account_idempotent(Some(500), 0, 0, 18), Ok(PdaCreation::CreateAccount { lamports: 500 }));
    assert_eq!(plan_create_pda_account_idempotent(Some(500), 200, 10, 18), Ok(PdaCreation::Grow { top_up: Some(300) }));
    assert_eq!(plan_create_pda_account_idempotent(Some(500), 600, 10, 18), Ok(PdaCreation::Grow { top_up: None }));
    assert_eq!(plan_create_pda_account_idempotent(Some(500), 200, 18, 18), Ok(PdaCreation::Keep));
    assert_eq!(plan_create_pda_account_idempotent(Some(500), 200, 0, 18), Ok(PdaCreation::Initialize { top_up: Some(300) }));
    assert_eq!(close_pda_lamports(5, 7), Ok(12));
    assert_eq!(close_pda_lamports(u64::MAX, 1), Err(ProgramError::from(RewardsProgramError::MathOverflow)));
}

#[test]
fn mint_extension_checks() {
    assert!(requires_extension_check(&TOKEN_2022_PROGRAM_ID));
    assert!(!requires_extension_check(&TOKEN_PROGRAM_ID));
    assert_eq!(check_mint_extensions(&[]), Ok(()));
    assert_eq!(check_mint_extensions(&[1, 3, 18, 19]), Ok(()));
    assert_eq!(
        check_mint_extensions(&[1, 12]),
        Err(ProgramError::from(RewardsProgramError::PermanentDelegateNotAllowed))
    );
    assert_eq!(check_mint_extensions(&[9]), Err(ProgramError::from(RewardsProgramError::NonTransferableNotAllowed)));
    assert_eq!(check_mint_extensions(&[26, 9]), Err(ProgramError::from(RewardsProgramError::PausableNotAllowed)));
}

#[test]
fn program_ids_match_the_outside_crates() {
    assert_eq!(verify_system_program(&pinocchio_system::ID.to_bytes()), Ok(()));
    assert_eq!(verify_token_program(&pinocchio_token::ID.to_bytes()), Ok(()));
    assert_eq!(verify_token_program(&pinocchio_token_2022::ID.to_bytes()), Ok(()));
    assert_eq!(verify_associated_token_program(&pinocchio_associated_token_account::ID.to_bytes()), Ok(()));
    assert_eq!(verify_current_program(&ID), Ok(()));
    assert_eq!(verify_system_program(&[1u8; 32]), Err(ProgramError::IncorrectProgramId));
    assert_eq!(verify_token_program(&ID), Err(ProgramError::IncorrectProgramId));
    assert_eq!(verify_current_program(&[0u8; 32]), Err(ProgramError::IncorrectProgramId));
}

#[test]
fn hash_pair_is_keccak_of_the_sorted_pair() {
    let a = [1u8; 32];
    let b = [2u8; 32];
    let mut joined = [0u8; 64];
    joined[..32].copy_from_slice(&a);
    joined[32..].copy_from_slice(&b);
    let expected = const_crypto::sha3::Keccak256::new().update(&joined).finalize();
    assert_eq!(hash_pair(&b, &a), expected);
    assert_ne!(hash_pair(&a, &b)[..], joined[..32]);
}

#[test]
fn derived_address_is_off_the_seeds() {
    let seeds = RevocationSeeds { parent: [1u8; 32], user: [2u8; 32] };
    let (address, bump) = seeds.derive_address(&ID).unwrap();
    let expected = solana_address::Address::find_program_address(
        &[&RevocationSeeds::PREFIX[..], &[1u8; 32][..], &[2u8; 32][..]],
        &solana_address::Address::new_from_array(ID),
    );
    assert_eq!(address, expected.0.to_bytes());
    assert_eq!(bump, expected.1);
    assert_ne!(address, [1u8; 32]);
}

#[test]
fn associated_token_account_address_is_the_ata_program_pda() {
    let wallet = [11u8; 32];
    let mint = [12u8; 32];
    let (expected, _) = solana_address::Address::find_program_address(
        &[&wallet[..], &TOKEN_PROGRAM_ID[..], &mint[..]],
        &pinocchio_associated_token_account::ID,
    );
    let ata = expected.to_bytes();
    assert_eq!(validate_associated_token_account_address(&ata, &wallet, &mint, &TOKEN_PROGRAM_ID), Ok(()));
    assert_eq!(
        validate_associated_token_account_address(&wallet, &wallet, &mint, &TOKEN_PROGRAM_ID),
        Err(ProgramError::InvalidAccountData)
    );
    assert_eq!(validate_associated_token_account(&ata, &TOKEN_PROGRAM_ID, 165, &wallet, &mint, &TOKEN_PROGRAM_ID), Ok(()));
    assert_eq!(
        validate_associated_token_account(&ata, &TOKEN_PROGRAM_ID, 0, &wallet, &mint, &TOKEN_PROGRAM_ID),
        Err(ProgramError::InvalidAccountData)
    );
    assert_eq!(
        validate_associated_token_account(&ata, &wallet, 165, &wallet, &mint, &TOKEN_PROGRAM_ID),
        Err(ProgramError::IncorrectProgramId)
    );
}

#[test]
fn rewards_accrued_never_exceed_the_distributed_amount() {
    let supply = 9u64;
    let amount = 10u64;
    let delta = (amount as u128) * REWARD_PRECISION / (supply as u128);
    let pool = pool_with(delta, supply);
    let mut total = 0u64;
    for _ in 0..3 {
        let mut user = UserRewardAccount::new(1, 0, 3);
        update_user_rewards(&pool, &mut user).unwrap();
        assert_eq!(user.accrued_rewards, 3);
        total += user.accrued_rewards;
    }
    assert!(total <= amount);
}

#[test]
fn owner_check() {
    assert_eq!(MerkleClaim::validate_owner(&ID, &ID), Ok(()));
    assert_eq!(MerkleClaim::validate_owner(&[3u8; 32], &ID), Err(ProgramError::IllegalOwner));
}
