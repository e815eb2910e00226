pub mod account;

pub use account::{
    AccountParse, AccountSerialize, AccountSize, AccountValidation, Discriminator,
    RewardsAccountDiscriminators, Versioned, ACCOUNT_DISCRIMINATOR_SIZE, ACCOUNT_HEADER_SIZE,
    ACCOUNT_VERSION_SIZE,
};
pub mod pda;

pub use pda::{PdaAccount, PdaSeeds};
pub mod claim;
pub mod distribution;
pub mod vesting;

pub use claim::ClaimTracker;
pub use distribution::Distribution;
pub use vesting::VestingParams;
pub mod event;
pub mod instruction;

pub use event::{EventDiscriminator, EventDiscriminators, EventSerialize, EVENT_DISCRIMINATOR_LEN, EVENT_IX_TAG_LE};
pub use instruction::{InstructionData, RewardsInstructionDiscriminators};
