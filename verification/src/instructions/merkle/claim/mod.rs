pub mod accounts;
pub mod data;
pub mod processor;

pub use data::ClaimMerkleData;
pub use processor::{claim_merkle, claim_merkle_with_leaf, MerkleClaimOutcome, MerkleClaimRequest};
pub use accounts::check_claim_merkle_accounts;
