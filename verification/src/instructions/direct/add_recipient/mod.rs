pub mod accounts;
pub mod data;
pub mod processor;

pub use data::AddDirectRecipientData;
pub use processor::{add_direct_recipient, NewDirectRecipient};
pub use accounts::check_add_direct_recipient_accounts;
