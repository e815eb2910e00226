pub mod direct_distribution;
pub mod direct_recipient;
pub mod merkle_claim;
pub mod merkle_distribution;
pub mod merkle_revocation;
pub mod revocation;
pub mod reward_pool;
pub mod user_reward_account;
pub mod vesting_distribution;
pub mod vesting_recipient;

pub use direct_distribution::DirectDistribution;
pub use direct_recipient::DirectRecipient;
pub use merkle_claim::{MerkleClaim, MerkleClaimSeeds};
pub use merkle_distribution::MerkleDistribution;
pub use merkle_revocation::{MerkleRevocation, MerkleRevocationSeeds};
pub use reward_pool::RewardPool;
pub use revocation::{Revocation, RevocationSeeds};
pub use user_reward_account::{UserRewardAccount, UserRewardAccountSeeds};
pub use vesting_distribution::{VestingDistribution, VESTING_DISTRIBUTION_SEED};
pub use vesting_recipient::VestingRecipient;
