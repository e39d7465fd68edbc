//! The instructions that write to the memory: St, Sti and Str. Each writes
//! the value of the source register to one word. None of them changes a
//! register or the condition flag.

use vstd::prelude::*;
use crate::hardware::instructions::addressing::{
    based, based_address, indirect, indirect_address, relative, relative_address,
};
use crate::hardware::instructions::decode::{register_at, register_field, DEST};
use crate::hardware::memory::Memory;
use crate::hardware::register::{Registers, RegistersView};

verus! {

/// The value that a store writes: that of the register which bits 11 to 9
/// name.
pub open spec fn stored_value(instr: u16, r: RegistersView) -> u16 {
    r.general[register_field(instr, DEST) as int]
}

/// The memory after St: the word at the address relative to the program
/// counter holds the value of the source register.
pub open spec fn memory_after_st(instr: u16, r: RegistersView, m: Seq<u16>) -> Seq<u16> {
    m.update(relative_address(instr, r) as int, stored_value(instr, r))
}

/// The memory after Sti: the word at the address that the memory held at the
/// address relative to the program counter holds the value of the source
/// register.
pub open spec fn memory_after_sti(instr: u16, r: RegistersView, m: Seq<u16>) -> Seq<u16> {
    m.update(indirect_address(instr, r, m) as int, stored_value(instr, r))
}

/// The memory after Str: the word at the address relative to the base
/// register holds the value of the source register.
pub open spec fn memory_after_str(instr: u16, r: RegistersView, m: Seq<u16>) -> Seq<u16> {
    m.update(based_address(instr, r) as int, stored_value(instr, r))
}

/// Executes St.
pub fn st(instr: u16, registers: &Registers, memory: &mut Memory)
    ensures
        final(memory)@ == memory_after_st(instr, registers@, old(memory)@),
{
    memory.write(relative(instr, registers), registers.get(register_at(instr, DEST)));
}

/// Executes Sti.
pub fn sti(instr: u16, registers: &Registers, memory: &mut Memory)
    ensures
        final(memory)@ == memory_after_sti(instr, registers@, old(memory)@),
{
    let address = indirect(instr, registers, memory);
    memory.write(address, registers.get(register_at(instr, DEST)));
}

/// Executes Str.
pub fn str(instr: u16, registers: &Registers, memory: &mut Memory)
    ensures
        final(memory)@ == memory_after_str(instr, registers@, old(memory)@),
{
    memory.write(based(instr, registers), registers.get(register_at(instr, DEST)));
}

} // verus!
