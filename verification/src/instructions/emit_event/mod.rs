pub mod instruction;

pub use instruction::EmitEventData;
