pub mod accounts;
pub mod data;
pub mod processor;

pub use data::CreateDirectDistributionData;
pub use processor::create_direct_distribution;
pub use accounts::check_create_direct_distribution_accounts;
