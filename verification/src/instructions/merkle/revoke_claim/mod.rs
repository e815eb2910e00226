pub mod accounts;
pub mod data;
pub mod processor;

pub use accounts::check_revoke_merkle_claim_accounts;
pub use data::RevokeMerkleClaimData;
pub use processor::{revoke_merkle_claim, revoke_merkle_claim_with_leaf, MerkleRevocationOutcome};
