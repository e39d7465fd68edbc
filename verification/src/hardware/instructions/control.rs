//! The instructions that move the program counter: Br, Jmp and Jsr. None of
//! them touches the condition flag.
//!
//! The program counter that these instructions see is the address of the
//! instruction after them: the embedding program advances it before it hands
//! the instruction word over.

use vstd::prelude::*;
use crate::hardware::instructions::addressing::{relative, relative_address};
use crate::hardware::instructions::decode::{
    bit_at, bit_set, lemma_offset_moves_address, low_bits, offset, register_at, register_field,
    signed_field, signed_value, BASE,
};
use crate::hardware::register::{ConditionFlag, Registers, RegistersView, LINK_REGISTER};

verus! {

/// The bit of a branch instruction that asks for the branch while the flag
/// is `Negative`.
pub const BRANCH_NEGATIVE_BIT: u16 = 11;

/// The bit of a branch instruction that asks for the branch while the flag
/// is `Zero`.
pub const BRANCH_ZERO_BIT: u16 = 10;

/// The bit of a branch instruction that asks for the branch while the flag
/// is `Positive`.
pub const BRANCH_POSITIVE_BIT: u16 = 9;

/// The bit of Jsr that selects the target: set, the target is relative to
/// the program counter; clear, it is the value of the base register.
pub const RELATIVE_BIT: u16 = 11;

/// Whether the branch `instr` is taken under `flag`: it is where the
/// instruction's bit for that flag is set.
pub open spec fn branch_taken(instr: u16, flag: ConditionFlag) -> bool {
    match flag {
        ConditionFlag::Negative => bit_set(instr, BRANCH_NEGATIVE_BIT),
        ConditionFlag::Zero => bit_set(instr, BRANCH_ZERO_BIT),
        ConditionFlag::Positive => bit_set(instr, BRANCH_POSITIVE_BIT),
    }
}

/// The registers after Br: where the branch is taken, the program counter
/// has moved by the nine-bit signed offset; where it is not, nothing has
/// changed.
pub open spec fn after_br(instr: u16, r: RegistersView) -> RegistersView {
    if branch_taken(instr, r.cond) {
        r.with_pc(relative_address(instr, r))
    } else {
        r
    }
}

/// The registers after Jmp: the program counter holds the value of the base
/// register.
pub open spec fn after_jmp(instr: u16, r: RegistersView) -> RegistersView {
    r.with_pc(r.general[register_field(instr, BASE) as int])
}

/// The registers after Jsr. First the link register receives the program
/// counter. Then the program counter becomes the target: where bit 11 is
/// set, the old program counter moved by the eleven-bit signed offset; where
/// it is clear, the value of the base register, read after the link register
/// was written.
pub open spec fn after_jsr(instr: u16, r: RegistersView) -> RegistersView {
    let linked = r.with_register(LINK_REGISTER as int, r.pc);
    if bit_set(instr, RELATIVE_BIT) {
        linked.with_pc(r.pc.wrapping_add(signed_field(instr, 11)))
    } else {
        linked.with_pc(linked.general[register_field(instr, BASE) as int])
    }
}

/// Executes Br.
pub fn br(instr: u16, registers: &mut Registers)
    ensures
        final(registers)@ == after_br(instr, old(registers)@),
        branch_taken(instr, old(registers)@.cond) ==> final(registers)@.pc == (old(registers)@.pc
            + signed_value(low_bits(instr, 9), 9)) % 0x10000,
        !branch_taken(instr, old(registers)@.cond) ==> final(registers)@ == old(registers)@,
{
    proof {
        lemma_offset_moves_address(registers.pc, instr, 9);
    }
    let requested = (instr >> 9) & 0x7;
    let flag = registers.cond.bits();
    assert((((instr >> 9) & 0x7) & 4 != 0) == ((instr >> 11) & 0x1 == 1)) by (bit_vector);
    assert((((instr >> 9) & 0x7) & 2 != 0) == ((instr >> 10) & 0x1 == 1)) by (bit_vector);
    assert((((instr >> 9) & 0x7) & 1 != 0) == ((instr >> 9) & 0x1 == 1)) by (bit_vector);
    if requested & flag != 0 {
        registers.pc = relative(instr, registers);
    }
}

/// Executes Jmp.
pub fn jmp(instr: u16, registers: &mut Registers)
    ensures
        final(registers)@ == after_jmp(instr, old(registers)@),
{
    registers.pc = registers.get(register_at(instr, BASE));
}

/// Executes Jsr.
pub fn jsr(instr: u16, registers: &mut Registers)
    ensures
        final(registers)@ == after_jsr(instr, old(registers)@),
        final(registers)@.general[LINK_REGISTER as int] == old(registers)@.pc,
{
    let next = registers.pc;
    registers.update(LINK_REGISTER, next);
    if bit_at(instr, RELATIVE_BIT) {
        registers.pc = next.wrapping_add(offset(instr, 11));
    } else {
        registers.pc = registers.get(register_at(instr, BASE));
    }
}

/// A branch that asks for `Zero` alone: under the flag `Zero` the program
/// counter moves by the number that the nine-bit offset stands for and
/// nothing else changes; under any other flag nothing changes at all.
pub proof fn lemma_branch_on_zero_alone(instr: u16, r: RegistersView)
    requires
        bit_set(instr, BRANCH_ZERO_BIT),
        !bit_set(instr, BRANCH_NEGATIVE_BIT),
        !bit_set(instr, BRANCH_POSITIVE_BIT),
    ensures
        r.cond == ConditionFlag::Zero ==> after_br(instr, r) == r.with_pc(
            ((r.pc + signed_value(low_bits(instr, 9), 9)) % 0x10000) as u16,
        ),
        r.cond != ConditionFlag::Zero ==> after_br(instr, r) == r,
{
    lemma_offset_moves_address(r.pc, instr, 9);
}

/// The two forms of Jsr differ in bit 11 alone. With the bit set, the
/// program counter moves by the eleven-bit offset; with the bit clear, it
/// becomes the value of the base register, and where the base register is
/// the link register, that is the return address. In both forms the link
/// register receives the program counter as it was, and no other register
/// and not the flag changes.
pub proof fn lemma_jsr_modes(instr: u16, r: RegistersView)
    requires
        r.wf(),
    ensures
        ({
            let relative = after_jsr(instr | 0x0800, r);
            let register = after_jsr(instr & 0xF7FF, r);
            let base = register_field(instr, BASE) as int;
            &&& relative.pc == ((r.pc + signed_value(low_bits(instr, 11), 11)) % 0x10000) as u16
            &&& register.pc == if base == LINK_REGISTER {
                r.pc
            } else {
                r.general[base]
            }
            &&& relative.general == r.general.update(LINK_REGISTER as int, r.pc)
            &&& register.general == r.general.update(LINK_REGISTER as int, r.pc)
            &&& relative.cond == r.cond
            &&& register.cond == r.cond
        }),
{
    assert(((instr | 0x0800) >> 11) & 0x1 == 1) by (bit_vector);
    assert(((instr & 0xF7FF) >> 11) & 0x1 != 1) by (bit_vector);
    assert(signed_field(instr | 0x0800, 11) == signed_field(instr, 11)) by (bit_vector);
    assert(register_field(instr & 0xF7FF, 6) == register_field(instr, 6) && register_field(
        instr,
        6,
    ) < 8) by (bit_vector);
    lemma_offset_moves_address(r.pc, instr, 11);
}

} // verus!
