//! Merkle distributions store only a root on-chain; claims carry proofs, so
//! the on-chain state stays the same size however many recipients there are.
pub mod claim;
pub mod create_distribution;
pub mod revoke_claim;
