//! The instructions that compute: Add, And and Not. Each writes its result
//! to the destination register and sets the condition flag from it.

use vstd::prelude::*;
use crate::hardware::instructions::decode::{
    bit_at, bit_set, offset, register_at, register_field, signed_field, BASE, DEST,
    IMMEDIATE_BIT, SECOND,
};
use crate::hardware::register::{Registers, RegistersView};

verus! {

/// The second operand of Add and And: the five-bit signed number in the
/// instruction word where bit 5 is set, else the value of the register that
/// bits 2 to 0 name.
pub open spec fn second_operand(instr: u16, r: RegistersView) -> u16 {
    if bit_set(instr, IMMEDIATE_BIT) {
        signed_field(instr, 5)
    } else {
        r.general[register_field(instr, SECOND) as int]
    }
}

/// The registers after Add: the destination holds the sum of the first and
/// the second operand, cut to 16 bits, and the flag describes it.
pub open spec fn after_add(instr: u16, r: RegistersView) -> RegistersView {
    r.with_result(
        register_field(instr, DEST) as int,
        r.general[register_field(instr, BASE) as int].wrapping_add(second_operand(instr, r)),
    )
}

/// The registers after And: the destination holds the bits that are set in
/// both operands, and the flag describes it.
pub open spec fn after_and(instr: u16, r: RegistersView) -> RegistersView {
    r.with_result(
        register_field(instr, DEST) as int,
        r.general[register_field(instr, BASE) as int] & second_operand(instr, r),
    )
}

/// The registers after Not: the destination holds the source with every bit
/// inverted, and the flag describes it.
pub open spec fn after_not(instr: u16, r: RegistersView) -> RegistersView {
    r.with_result(
        register_field(instr, DEST) as int,
        !r.general[register_field(instr, BASE) as int],
    )
}

fn operand(instr: u16, registers: &Registers) -> (value: u16)
    ensures
        value == second_operand(instr, registers@),
{
    if bit_at(instr, IMMEDIATE_BIT) {
        offset(instr, 5)
    } else {
        registers.get(register_at(instr, SECOND))
    }
}

/// Executes Add.
pub fn add(instr: u16, registers: &mut Registers)
    ensures
        final(registers)@ == after_add(instr, old(registers)@),
{
    let dest = register_at(instr, DEST);
    let first = registers.get(register_at(instr, BASE));
    let second = operand(instr, registers);
    registers.update(dest, first.wrapping_add(second));
    registers.update_r_cond_register(dest);
}

/// Executes And.
pub fn and(instr: u16, registers: &mut Registers)
    ensures
        final(registers)@ == after_and(instr, old(registers)@),
{
    let dest = register_at(instr, DEST);
    let first = registers.get(register_at(instr, BASE));
    let second = operand(instr, registers);
    registers.update(dest, first & second);
    registers.update_r_cond_register(dest);
}

/// Executes Not.
pub fn not(instr: u16, registers: &mut Registers)
    ensures
        final(registers)@ == after_not(instr, old(registers)@),
{
    let dest = register_at(instr, DEST);
    let source = registers.get(register_at(instr, BASE));
    registers.update(dest, !source);
    registers.update_r_cond_register(dest);
}

/// Add treats its operands as signed numbers: the sum that it writes, read
/// as a signed number, is the sum of the operands read as signed numbers,
/// and where that sum does not fit in 16 bits it has wrapped round.
pub proof fn lemma_add_is_signed(first: u16, second: u16)
    ensures
        first.wrapping_add(second) as i16 == (first as i16).wrapping_add(second as i16),
{
    let sum = first.wrapping_add(second);
    assert(first as i16 == (if first >= 0x8000 {
        first - 0x10000
    } else {
        first as int
    })) by (bit_vector);
    assert(second as i16 == (if second >= 0x8000 {
        second - 0x10000
    } else {
        second as int
    })) by (bit_vector);
    assert(sum as i16 == (if sum >= 0x8000 {
        sum - 0x10000
    } else {
        sum as int
    })) by (bit_vector);
}

} // verus!
