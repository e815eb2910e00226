pub mod accounts;
pub mod data;
pub mod processor;

pub use data::CreateMerkleDistributionData;
pub use processor::create_merkle_distribution;
pub use accounts::check_create_merkle_distribution_accounts;
