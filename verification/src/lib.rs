//! Rewards program: token distributions with vesting schedules, merkle
//! claims and continuous reward pools.
pub mod codec;
pub mod errors;
pub mod utils;
pub mod traits;
pub mod state;
pub mod instructions;
pub use utils::program_utils::ID;
