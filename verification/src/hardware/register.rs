//! The register file: eight general-purpose registers, the program counter
//! and the condition flag.

use vstd::prelude::*;

verus! {

/// The sign of the value that a flag-setting instruction wrote last.
/// Exactly one of the three holds at any time.
#[derive(PartialEq, Eq, Structural, Debug, Clone, Copy)]
pub enum ConditionFlag {
    /// The value was greater than zero.
    Positive,
    /// The value was zero.
    Zero,
    /// The value, read as a signed number, was less than zero.
    Negative,
}

impl ConditionFlag {
    /// The flag that describes `value`: `Negative` where its sign bit is set,
    /// `Zero` where it is zero, `Positive` otherwise.
    pub open spec fn of(value: u16) -> ConditionFlag {
        if value >= 0x8000 {
            ConditionFlag::Negative
        } else if value == 0 {
            ConditionFlag::Zero
        } else {
            ConditionFlag::Positive
        }
    }

    /// The flag as the three-bit pattern that a branch instruction tests:
    /// 1 for positive, 2 for zero, 4 for negative.
    pub open spec fn mask(self) -> u16 {
        match self {
            ConditionFlag::Positive => 1,
            ConditionFlag::Zero => 2,
            ConditionFlag::Negative => 4,
        }
    }

    /// Computes the flag that describes `value`.
    pub fn from_value(value: u16) -> (flag: ConditionFlag)
        ensures
            flag == ConditionFlag::of(value),
    {
        if value >= 0x8000 {
            ConditionFlag::Negative
        } else if value == 0 {
            ConditionFlag::Zero
        } else {
            ConditionFlag::Positive
        }
    }

    /// Computes the three-bit pattern of the flag.
    pub fn bits(self) -> (bits: u16)
        ensures
            bits == self.mask(),
    {
        match self {
            ConditionFlag::Positive => 1,
            ConditionFlag::Zero => 2,
            ConditionFlag::Negative => 4,
        }
    }
}

/// The number of the register that receives the return address of a
/// subroutine call.
pub const LINK_REGISTER: u16 = 7;

/// The registers of the machine.
pub struct Registers {
    /// The general-purpose registers, numbered 0 to 7.
    pub general: [u16; 8],
    /// The program counter: the address of the next instruction.
    pub pc: u16,
    /// The condition flag.
    pub cond: ConditionFlag,
}

/// The register file as a mathematical value.
pub struct RegistersView {
    /// The eight general-purpose registers.
    pub general: Seq<u16>,
    /// The program counter.
    pub pc: u16,
    /// The condition flag.
    pub cond: ConditionFlag,
}

impl RegistersView {
    /// A register file has exactly eight general-purpose registers.
    pub open spec fn wf(self) -> bool {
        self.general.len() == 8
    }

    /// The register file after `value` went into register `index`.
    pub open spec fn with_register(self, index: int, value: u16) -> RegistersView {
        RegistersView { general: self.general.update(index, value), ..self }
    }

    /// The register file after the program counter became `pc`.
    pub open spec fn with_pc(self, pc: u16) -> RegistersView {
        RegistersView { pc, ..self }
    }

    /// The register file after the condition flag was set from the value of
    /// register `index`.
    pub open spec fn with_flag_of(self, index: int) -> RegistersView {
        RegistersView { cond: ConditionFlag::of(self.general[index]), ..self }
    }

    /// The register file after a flag-setting instruction wrote `value` to
    /// register `index`.
    pub open spec fn with_result(self, index: int, value: u16) -> RegistersView {
        self.with_register(index, value).with_flag_of(index)
    }
}

impl View for Registers {
    type V = RegistersView;

    open spec fn view(&self) -> RegistersView {
        RegistersView { general: self.general@, pc: self.pc, cond: self.cond }
    }
}

impl Registers {
    /// A register file whose general-purpose registers are all zero, with the
    /// program counter at `pc` and the flag `Zero`.
    pub fn new(pc: u16) -> (registers: Registers)
        ensures
            registers@.wf(),
            registers@.pc == pc,
            registers@.cond == ConditionFlag::Zero,
            forall|i: int| 0 <= i < 8 ==> registers@.general[i] == 0,
    {
        Registers { general: [0u16; 8], pc, cond: ConditionFlag::Zero }
    }

    /// The value of general-purpose register `index`.
    pub fn get(&self, index: u16) -> (value: u16)
        requires
            index < 8,
        ensures
            value == self@.general[index as int],
    {
        self.general[index as usize]
    }

    /// Writes `value` to general-purpose register `index`. The flag is left
    /// as it is.
    pub fn update(&mut self, index: u16, value: u16)
        requires
            index < 8,
        ensures
            final(self)@ == old(self)@.with_register(index as int, value),
    {
        self.general[index as usize] = value;
    }

    /// Sets the condition flag from the value of general-purpose register
    /// `index`.
    pub fn update_r_cond_register(&mut self, index: u16)
        requires
            index < 8,
        ensures
            final(self)@ == old(self)@.with_flag_of(index as int),
    {
        self.cond = ConditionFlag::from_value(self.general[index as usize]);
    }
}

/// Every 16-bit value has exactly one flag: `Negative` exactly where the
/// value read as a signed number is below zero, `Zero` exactly where it is
/// zero, and `Positive` exactly where it is above zero.
pub proof fn lemma_flag_is_sign(value: u16)
    ensures
        ConditionFlag::of(value) == ConditionFlag::Negative <==> (value as i16) < 0,
        ConditionFlag::of(value) == ConditionFlag::Zero <==> (value as i16) == 0,
        ConditionFlag::of(value) == ConditionFlag::Positive <==> (value as i16) > 0,
        ConditionFlag::of(value) == ConditionFlag::Negative <==> value >> 15 == 1,
{
    assert((value >= 0x8000) == ((value as i16) < 0)) by (bit_vector);
    assert((value == 0) == ((value as i16) == 0)) by (bit_vector);
    assert((value >= 0x8000) == (value >> 15 == 1)) by (bit_vector);
}

} // verus!
