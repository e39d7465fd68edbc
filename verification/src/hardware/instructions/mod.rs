//! Instruction decoding and execution.

pub mod addressing;
pub mod arithmetic;
pub mod control;
pub mod decode;
pub mod load;
pub mod opcode;
pub mod store;
pub mod trap;
