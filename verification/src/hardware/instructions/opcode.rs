//! The opcode of an instruction word and the dispatch on it.

use vstd::prelude::*;
use crate::hardware::instructions::arithmetic::{after_add, after_and, after_not, and, not};
use crate::hardware::instructions::control::{after_br, after_jmp, after_jsr, br, jmp, jsr};
use crate::hardware::instructions::decode::{register_field, DEST};
use crate::hardware::instructions::load::{
    after_ld, after_ldi, after_ldr, after_lea, ld, ldi, ldr, lea,
};
use crate::hardware::instructions::store::{
    memory_after_st, memory_after_sti, memory_after_str, st, sti, str,
};
use crate::hardware::instructions::trap::{
    after_trap, trap, trap_outcome, trap_vector, Outcome, OutcomeView, HALT,
};
use crate::hardware::memory::Memory;
use crate::hardware::register::{lemma_flag_is_sign, ConditionFlag, Registers, RegistersView};

verus! {

/// The sixteen operations of the machine. An instruction word carries its
/// opcode in its four highest bits.
#[derive(PartialEq, Eq, Structural, Debug, Clone, Copy)]
pub enum OpCode {
    /// Branch on the condition flag.
    Br,
    /// Add.
    Add,
    /// Load, relative to the program counter.
    Ld,
    /// Store, relative to the program counter.
    St,
    /// Jump to a subroutine.
    Jsr,
    /// Bitwise and.
    And,
    /// Load, base register plus offset.
    Ldr,
    /// Store, base register plus offset.
    Str,
    /// Reserved; executing it changes nothing.
    Rti,
    /// Bitwise complement.
    Not,
    /// Load through a pointer in memory.
    Ldi,
    /// Store through a pointer in memory.
    Sti,
    /// Jump to the address in a register.
    Jmp,
    /// Reserved; executing it changes nothing.
    Res,
    /// Load an address.
    Lea,
    /// Call a service routine.
    Trap,
}

impl OpCode {
    /// The four-bit number that stands for this opcode in an instruction word.
    pub open spec fn code(self) -> int {
        match self {
            OpCode::Br => 0,
            OpCode::Add => 1,
            OpCode::Ld => 2,
            OpCode::St => 3,
            OpCode::Jsr => 4,
            OpCode::And => 5,
            OpCode::Ldr => 6,
            OpCode::Str => 7,
            OpCode::Rti => 8,
            OpCode::Not => 9,
            OpCode::Ldi => 10,
            OpCode::Sti => 11,
            OpCode::Jmp => 12,
            OpCode::Res => 13,
            OpCode::Lea => 14,
            OpCode::Trap => 15,
        }
    }

    /// The opcode with the given number, if there is one.
    pub fn get(op_code: u16) -> (found: Option<OpCode>)
        ensures
            found is Some <==> op_code < 16,
            found matches Some(op) ==> op.code() == op_code,
    {
        match op_code {
            0 => Some(OpCode::Br),
            1 => Some(OpCode::Add),
            2 => Some(OpCode::Ld),
            3 => Some(OpCode::St),
            4 => Some(OpCode::Jsr),
            5 => Some(OpCode::And),
            6 => Some(OpCode::Ldr),
            7 => Some(OpCode::Str),
            8 => Some(OpCode::Rti),
            9 => Some(OpCode::Not),
            10 => Some(OpCode::Ldi),
            11 => Some(OpCode::Sti),
            12 => Some(OpCode::Jmp),
            13 => Some(OpCode::Res),
            14 => Some(OpCode::Lea),
            15 => Some(OpCode::Trap),
            _ => None,
        }
    }
}

/// The opcode of an instruction word: the one whose number stands in the
/// word's four highest bits.
pub open spec fn opcode_of(instr: u16) -> OpCode {
    choose|op: OpCode| op.code() == instr >> 12
}

/// Whether an instruction with this opcode sets the condition flag.
pub open spec fn sets_flags(op: OpCode) -> bool {
    op == OpCode::Add || op == OpCode::And || op == OpCode::Not || op == OpCode::Ld || op
        == OpCode::Ldi || op == OpCode::Ldr || op == OpCode::Lea
}

/// The registers after the instruction `instr` ran on registers `r` and
/// memory `m`. The stores and the two reserved opcodes leave them as they
/// are.
pub open spec fn registers_after(instr: u16, r: RegistersView, m: Seq<u16>) -> RegistersView {
    match opcode_of(instr) {
        OpCode::Add => after_add(instr, r),
        OpCode::And => after_and(instr, r),
        OpCode::Not => after_not(instr, r),
        OpCode::Br => after_br(instr, r),
        OpCode::Jmp => after_jmp(instr, r),
        OpCode::Jsr => after_jsr(instr, r),
        OpCode::Ld => after_ld(instr, r, m),
        OpCode::Ldi => after_ldi(instr, r, m),
        OpCode::Ldr => after_ldr(instr, r, m),
        OpCode::Lea => after_lea(instr, r),
        OpCode::Trap => after_trap(instr, r),
        OpCode::St | OpCode::Sti | OpCode::Str | OpCode::Rti | OpCode::Res => r,
    }
}

/// The memory after the instruction `instr` ran on registers `r` and memory
/// `m`. Only the three stores change it.
pub open spec fn memory_after(instr: u16, r: RegistersView, m: Seq<u16>) -> Seq<u16> {
    match opcode_of(instr) {
        OpCode::St => memory_after_st(instr, r, m),
        OpCode::Sti => memory_after_sti(instr, r, m),
        OpCode::Str => memory_after_str(instr, r, m),
        _ => m,
    }
}

/// What the instruction `instr`, run on registers `r` and memory `m`, asks
/// of the embedding program. Only Trap asks for anything.
pub open spec fn outcome_of(instr: u16, r: RegistersView, m: Seq<u16>) -> OutcomeView {
    match opcode_of(instr) {
        OpCode::Trap => trap_outcome(instr, r, m),
        _ => OutcomeView::Continue,
    }
}

/// Every instruction word has an opcode, and only one: the sixteen opcodes
/// have the sixteen numbers from 0 to 15, each its own.
pub proof fn lemma_decoding_is_total(instr: u16)
    ensures
        opcode_of(instr).code() == instr >> 12,
        forall|op: OpCode| op.code() == instr >> 12 ==> op == opcode_of(instr),
        forall|op: OpCode| 0 <= #[trigger] op.code() < 16,
{
    assert(instr >> 12 < 16) by (bit_vector);
    let code = instr >> 12;
    let witness = if code == 0 {
        OpCode::Br
    } else if code == 1 {
        OpCode::Add
    } else if code == 2 {
        OpCode::Ld
    } else if code == 3 {
        OpCode::St
    } else if code == 4 {
        OpCode::Jsr
    } else if code == 5 {
        OpCode::And
    } else if code == 6 {
        OpCode::Ldr
    } else if code == 7 {
        OpCode::Str
    } else if code == 8 {
        OpCode::Rti
    } else if code == 9 {
        OpCode::Not
    } else if code == 10 {
        OpCode::Ldi
    } else if code == 11 {
        OpCode::Sti
    } else if code == 12 {
        OpCode::Jmp
    } else if code == 13 {
        OpCode::Res
    } else if code == 14 {
        OpCode::Lea
    } else {
        OpCode::Trap
    };
    assert(witness.code() == instr >> 12);
}

/// Reads the opcode of an instruction word. There is one for every word.
pub fn extract_op_code(instruction: &u16) -> (found: Option<OpCode>)
    ensures
        found == Some(opcode_of(*instruction)),
        found matches Some(op) && op.code() == *instruction >> 12,
{
    proof {
        lemma_decoding_is_total(*instruction);
    }
    assert(*instruction >> 12 < 16) by (bit_vector);
    OpCode::get(*instruction >> 12)
}

/// Executes one instruction: decodes its opcode and runs the one routine
/// that belongs to it. The two reserved opcodes change nothing.
///
/// `registers.pc` is expected to be the address after that of the
/// instruction. The result says what the embedding program has to do before
/// the next instruction; it is `Halt` for the trap that stops the machine
/// and for nothing else.
pub fn execute_instruction(instr: u16, registers: &mut Registers, memory: &mut Memory) -> (outcome:
    Outcome)
    ensures
        final(registers)@ == registers_after(instr, old(registers)@, old(memory)@),
        final(memory)@ == memory_after(instr, old(registers)@, old(memory)@),
        outcome@ == outcome_of(instr, old(registers)@, old(memory)@),
        sets_flags(opcode_of(instr)) ==> final(registers)@.cond == ConditionFlag::of(
            final(registers)@.general[register_field(instr, DEST) as int],
        ),
        !sets_flags(opcode_of(instr)) ==> final(registers)@.cond == old(registers)@.cond,
        outcome@ is Halt <==> opcode_of(instr) == OpCode::Trap && trap_vector(instr) == HALT,
{
    proof {
        lemma_flag_follows_result(instr, old(registers)@, old(memory)@);
        lemma_only_halt_stops(instr, old(registers)@, old(memory)@);
    }
    let op_code = extract_op_code(&instr);
    match op_code {
        Some(OpCode::Add) => {
            // Written with its path: the bare name `add` is a function of Verus.
            crate::hardware::instructions::arithmetic::add(instr, registers);
            Outcome::Continue
        },
        Some(OpCode::And) => {
            and(instr, registers);
            Outcome::Continue
        },
        Some(OpCode::Not) => {
            not(instr, registers);
            Outcome::Continue
        },
        Some(OpCode::Br) => {
            br(instr, registers);
            Outcome::Continue
        },
        Some(OpCode::Jmp) => {
            jmp(instr, registers);
            Outcome::Continue
        },
        Some(OpCode::Jsr) => {
            jsr(instr, registers);
            Outcome::Continue
        },
        Some(OpCode::Ld) => {
            ld(instr, registers, memory);
            Outcome::Continue
        },
        Some(OpCode::Ldi) => {
            ldi(instr, registers, memory);
            Outcome::Continue
        },
        Some(OpCode::Ldr) => {
            ldr(instr, registers, memory);
            Outcome::Continue
        },
        Some(OpCode::Lea) => {
            lea(instr, registers);
            Outcome::Continue
        },
        Some(OpCode::St) => {
            st(instr, registers, memory);
            Outcome::Continue
        },
        Some(OpCode::Sti) => {
            sti(instr, registers, memory);
            Outcome::Continue
        },
        Some(OpCode::Str) => {
            str(instr, registers, memory);
            Outcome::Continue
        },
        Some(OpCode::Trap) => trap(instr, registers, memory),
        _ => Outcome::Continue,
    }
}

/// The registers as an instruction finds them when it was fetched from the
/// address in the program counter: the program counter has moved on to the
/// next address.
pub open spec fn advanced(r: RegistersView) -> RegistersView {
    r.with_pc(r.pc.wrapping_add(1))
}

/// Fetches the instruction at the program counter, advances the program
/// counter to the next address and executes the instruction.
pub fn step(registers: &mut Registers, memory: &mut Memory) -> (outcome: Outcome)
    ensures
        final(registers)@ == registers_after(
            old(memory)@[old(registers)@.pc as int],
            advanced(old(registers)@),
            old(memory)@,
        ),
        final(memory)@ == memory_after(
            old(memory)@[old(registers)@.pc as int],
            advanced(old(registers)@),
            old(memory)@,
        ),
        outcome@ == outcome_of(
            old(memory)@[old(registers)@.pc as int],
            advanced(old(registers)@),
            old(memory)@,
        ),
{
    let instr = memory.read(registers.pc);
    registers.pc = registers.pc.wrapping_add(1);
    execute_instruction(instr, registers, memory)
}

/// After an instruction that sets the condition flag (Add, And, Not, Ld,
/// Ldi, Ldr, Lea), the flag describes the value that the destination
/// register now holds: it is `Negative` exactly where that value, read as a
/// signed number, is below zero, `Zero` exactly where it is zero, and
/// `Positive` exactly where it is above zero. After any other instruction
/// the flag is what it was.
pub proof fn lemma_flag_follows_result(instr: u16, r: RegistersView, m: Seq<u16>)
    requires
        r.wf(),
    ensures
        sets_flags(opcode_of(instr)) ==> ({
            let after = registers_after(instr, r, m);
            let result = after.general[register_field(instr, DEST) as int];
            &&& after.cond == ConditionFlag::of(result)
            &&& after.cond == ConditionFlag::Negative <==> (result as i16) < 0
            &&& after.cond == ConditionFlag::Zero <==> result == 0
            &&& after.cond == ConditionFlag::Positive <==> (result as i16) > 0
        }),
        !sets_flags(opcode_of(instr)) ==> registers_after(instr, r, m).cond == r.cond,
{
    assert((instr >> DEST) & 0x7 < 8) by (bit_vector);
    lemma_flag_is_sign(registers_after(instr, r, m).general[register_field(instr, DEST) as int]);
}

/// The outcome of an instruction is `Halt` for Trap with the vector of the
/// routine that stops the machine, and for no other instruction word.
pub proof fn lemma_only_halt_stops(instr: u16, r: RegistersView, m: Seq<u16>)
    ensures
        outcome_of(instr, r, m) is Halt <==> opcode_of(instr) == OpCode::Trap && trap_vector(instr)
            == HALT,
{
}

} // verus!
