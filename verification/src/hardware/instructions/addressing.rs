//! The three ways in which a load or a store finds its address. Addresses are
//! 16-bit numbers, and adding to one wraps round: every address that can be
//! computed names a word of the memory.

use vstd::prelude::*;
use crate::hardware::instructions::decode::{
    offset, register_at, register_field, signed_field, BASE,
};
use crate::hardware::memory::Memory;
use crate::hardware::register::{Registers, RegistersView};

verus! {

/// The program counter moved by the nine-bit signed offset of `instr`.
pub open spec fn relative_address(instr: u16, r: RegistersView) -> u16 {
    r.pc.wrapping_add(signed_field(instr, 9))
}

/// The address that the memory holds at the program counter moved by the
/// nine-bit signed offset of `instr`.
pub open spec fn indirect_address(instr: u16, r: RegistersView, m: Seq<u16>) -> u16 {
    m[relative_address(instr, r) as int]
}

/// The value of the base register moved by the six-bit signed offset of
/// `instr`.
pub open spec fn based_address(instr: u16, r: RegistersView) -> u16 {
    r.general[register_field(instr, BASE) as int].wrapping_add(signed_field(instr, 6))
}

/// Computes the address relative to the program counter.
pub fn relative(instr: u16, registers: &Registers) -> (address: u16)
    ensures
        address == relative_address(instr, registers@),
{
    registers.pc.wrapping_add(offset(instr, 9))
}

/// Reads the address that the memory holds at the address relative to the
/// program counter.
pub fn indirect(instr: u16, registers: &Registers, memory: &Memory) -> (address: u16)
    ensures
        address == indirect_address(instr, registers@, memory@),
{
    memory.read(relative(instr, registers))
}

/// Computes the address relative to the base register.
pub fn based(instr: u16, registers: &Registers) -> (address: u16)
    ensures
        address == based_address(instr, registers@),
{
    registers.get(register_at(instr, BASE)).wrapping_add(offset(instr, 6))
}

} // verus!
