pub mod accounts;
pub mod processor;

pub use processor::check_close_direct_recipient;
pub use accounts::check_close_direct_recipient_accounts;
