pub mod accounts;
pub mod processor;

pub use accounts::check_close_direct_distribution_accounts;
pub use processor::authorize_close_direct_distribution;
