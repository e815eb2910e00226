pub mod create_vesting_distribution;
pub mod direct;
pub mod emit_event;
pub mod merkle;
pub mod definition;

pub use definition::RewardsProgramInstruction;
