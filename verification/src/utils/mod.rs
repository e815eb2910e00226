pub mod account_utils;
pub mod balance_source;
pub mod claim_utils;
pub mod continuous_utils;
pub mod merkle_utils;
pub mod pda_utils;
pub mod program_utils;
pub mod revoke_utils;
pub mod token2022_utils;
pub mod token_utils;
pub mod vesting_utils;

pub use balance_source::BalanceSource;
pub use claim_utils::resolve_claim_amount;
pub use continuous_utils::{sync_user_balance, update_user_rewards, REWARD_PRECISION};
pub use merkle_utils::{compute_leaf_hash, hash_pair, verify_proof, verify_proof_or_error, LEAF_PREFIX};
pub use revoke_utils::RevokeMode;
pub use vesting_utils::{calculate_linear_unlock, VestingSchedule, VestingScheduleType};
pub use program_utils::{
    verify_associated_token_program, verify_current_program, verify_system_program, verify_token_program,
};
pub use token2022_utils::{check_mint_extensions, requires_extension_check, validate_mint_extensions};
pub use token_utils::{validate_associated_token_account, validate_associated_token_account_address};
