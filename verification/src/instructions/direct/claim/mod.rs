pub mod accounts;
pub mod data;
pub mod processor;

pub use processor::{claim_direct, DirectClaim};
pub use accounts::check_claim_direct_accounts;
pub use data::ClaimDirectData;
