//! The machine state and the instructions that act on it.

pub mod instructions;
pub mod memory;
pub mod register;
