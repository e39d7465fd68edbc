//! The instructions that fill a register: Ld, Ldi, Ldr and Lea. Each writes
//! to the destination register and sets the condition flag from what it
//! wrote. None of them changes the memory.

use vstd::prelude::*;
use crate::hardware::instructions::addressing::{
    based, based_address, indirect, indirect_address, relative, relative_address,
};
use crate::hardware::instructions::decode::{register_at, register_field, DEST};
use crate::hardware::memory::Memory;
use crate::hardware::register::{Registers, RegistersView};

verus! {

/// The registers after Ld: the destination holds the word at the address
/// relative to the program counter.
pub open spec fn after_ld(instr: u16, r: RegistersView, m: Seq<u16>) -> RegistersView {
    r.with_result(register_field(instr, DEST) as int, m[relative_address(instr, r) as int])
}

/// The registers after Ldi: the destination holds the word at the address
/// that the memory holds at the address relative to the program counter.
pub open spec fn after_ldi(instr: u16, r: RegistersView, m: Seq<u16>) -> RegistersView {
    r.with_result(register_field(instr, DEST) as int, m[indirect_address(instr, r, m) as int])
}

/// The registers after Ldr: the destination holds the word at the address
/// relative to the base register.
pub open spec fn after_ldr(instr: u16, r: RegistersView, m: Seq<u16>) -> RegistersView {
    r.with_result(register_field(instr, DEST) as int, m[based_address(instr, r) as int])
}

/// The registers after Lea: the destination holds the address relative to
/// the program counter itself, not the word there.
pub open spec fn after_lea(instr: u16, r: RegistersView) -> RegistersView {
    r.with_result(register_field(instr, DEST) as int, relative_address(instr, r))
}

fn load(instr: u16, registers: &mut Registers, value: u16)
    ensures
        final(registers)@ == old(registers)@.with_result(
            register_field(instr, DEST) as int,
            value,
        ),
{
    let dest = register_at(instr, DEST);
    registers.update(dest, value);
    registers.update_r_cond_register(dest);
}

/// Executes Ld.
pub fn ld(instr: u16, registers: &mut Registers, memory: &Memory)
    ensures
        final(registers)@ == after_ld(instr, old(registers)@, memory@),
{
    let value = memory.read(relative(instr, registers));
    load(instr, registers, value);
}

/// Executes Ldi.
pub fn ldi(instr: u16, registers: &mut Registers, memory: &Memory)
    ensures
        final(registers)@ == after_ldi(instr, old(registers)@, memory@),
{
    let value = memory.read(indirect(instr, registers, memory));
    load(instr, registers, value);
}

/// Executes Ldr.
pub fn ldr(instr: u16, registers: &mut Registers, memory: &Memory)
    ensures
        final(registers)@ == after_ldr(instr, old(registers)@, memory@),
{
    let value = memory.read(based(instr, registers));
    load(instr, registers, value);
}

/// Executes Lea.
pub fn lea(instr: u16, registers: &mut Registers)
    ensures
        final(registers)@ == after_lea(instr, old(registers)@),
{
    let value = relative(instr, registers);
    load(instr, registers, value);
}

} // verus!
