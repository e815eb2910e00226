//! Direct distributions keep each recipient's allocation on-chain; the
//! authority adds recipients after creating the distribution.
pub mod add_recipient;
pub mod claim;
pub mod close_distribution;
pub mod close_recipient;
pub mod create_distribution;
pub mod revoke_recipient;
