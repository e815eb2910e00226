pub mod accounts;
pub mod data;
pub mod processor;

pub use data::RevokeDirectRecipientData;
pub use processor::{authorize_revoke_direct, revoke_direct_recipient, DirectRevocation};
pub use accounts::check_revoke_direct_recipient_accounts;
