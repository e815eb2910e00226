pub mod data;

pub use data::CreateVestingDistributionData;
