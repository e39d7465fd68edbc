//! An emulator core for a sixteen-bit teaching computer: sixteen opcodes, eight
//! general-purpose registers, a program counter, a condition flag and a flat
//! memory of 65536 words.
//!
//! The crate decodes one instruction word at a time and applies its effect to
//! the register file and the memory. Everything that touches a console or a
//! file is left to the embedding program: an instruction that needs the
//! console returns an [`hardware::instructions::trap::Outcome`] that says
//! what the embedding program has to do.

pub mod hardware;
