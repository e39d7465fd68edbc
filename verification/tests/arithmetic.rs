use lc3_vm::hardware::instructions::arithmetic::{add, and, not};
use lc3_vm::hardware::register::{ConditionFlag, Registers};

#[test]
fn add_immediate_minus_three() {
    let mut registers = Registers::new(0x3000);
    registers.update(1, 5);
    // ADD R2, R1, #-3
    add(0b0001_010_001_1_11101, &mut registers);
    assert_eq!(2, registers.get(2));
    assert_eq!(5, registers.get(1));
    assert_eq!(ConditionFlag::Positive, registers.cond);
    assert_eq!(0x3000, registers.pc);
}

#[test]
fn add_register_mode() {
    let mut registers = Registers::new(0x3000);
    registers.update(3, 1000);
    registers.update(4, 234);
    // ADD R0, R3, R4
    add(0b0001_000_011_0_00_100, &mut registers);
    assert_eq!(1234, registers.get(0));
    assert_eq!(ConditionFlag::Positive, registers.cond);
}

#[test]
fn add_negative_result_sets_negative() {
    let mut registers = Registers::new(0x3000);
    registers.update(1, 2);
    // ADD R2, R1, #-3
    add(0b0001_010_001_1_11101, &mut registers);
    assert_eq!(0xFFFF, registers.get(2));
    assert_eq!(-1, registers.get(2) as i16);
    assert_eq!(ConditionFlag::Negative, registers.cond);
}

#[test]
fn add_zero_result_sets_zero() {
    let mut registers = Registers::new(0x3000);
    registers.update(1, 3);
    registers.cond = ConditionFlag::Positive;
    // ADD R2, R1, #-3
    add(0b0001_010_001_1_11101, &mut registers);
    assert_eq!(0, registers.get(2));
    assert_eq!(ConditionFlag::Zero, registers.cond);
}

#[test]
fn add_wraps_round() {
    let mut registers = Registers::new(0x3000);
    registers.update(1, 0x7FFF);
    // ADD R1, R1, #1: the largest positive number plus one is the smallest negative one
    add(0b0001_001_001_1_00001, &mut registers);
    assert_eq!(0x8000, registers.get(1));
    assert_eq!(ConditionFlag::Negative, registers.cond);

    registers.update(2, 0xFFFF);
    registers.update(3, 0x0002);
    // ADD R4, R2, R3
    add(0b0001_100_010_0_00_011, &mut registers);
    assert_eq!(1, registers.get(4));
    assert_eq!(ConditionFlag::Positive, registers.cond);

    registers.update(5, 0x8000);
    // ADD R5, R5, R5
    add(0b0001_101_101_0_00_101, &mut registers);
    assert_eq!(0, registers.get(5));
    assert_eq!(ConditionFlag::Zero, registers.cond);
}

#[test]
fn add_same_register_as_source_and_destination() {
    let mut registers = Registers::new(0x3000);
    registers.update(6, 20);
    // ADD R6, R6, R6
    add(0b0001_110_110_0_00_110, &mut registers);
    assert_eq!(40, registers.get(6));
}

#[test]
fn and_register_mode() {
    let mut registers = Registers::new(0x3000);
    registers.update(1, 0b1100_1100_1111_0000);
    registers.update(2, 0b1010_1010_0101_0101);
    // AND R3, R1, R2
    and(0b0101_011_001_0_00_010, &mut registers);
    assert_eq!(0b1000_1000_0101_0000, registers.get(3));
    assert_eq!(ConditionFlag::Negative, registers.cond);
}

#[test]
fn and_immediate_is_sign_extended() {
    let mut registers = Registers::new(0x3000);
    registers.update(1, 0xABCD);
    // AND R2, R1, #-1 keeps every bit
    and(0b0101_010_001_1_11111, &mut registers);
    assert_eq!(0xABCD, registers.get(2));
    assert_eq!(ConditionFlag::Negative, registers.cond);
    // AND R2, R1, #15 keeps the lowest four
    and(0b0101_010_001_1_01111, &mut registers);
    assert_eq!(0x000D, registers.get(2));
    assert_eq!(ConditionFlag::Positive, registers.cond);
    // AND R2, R1, #0 clears
    and(0b0101_010_001_1_00000, &mut registers);
    assert_eq!(0, registers.get(2));
    assert_eq!(ConditionFlag::Zero, registers.cond);
}

#[test]
fn not_inverts_every_bit() {
    let mut registers = Registers::new(0x3000);
    registers.update(1, 0x00FF);
    // NOT R2, R1
    not(0b1001_010_001_111111, &mut registers);
    assert_eq!(0xFF00, registers.get(2));
    assert_eq!(0x00FF, registers.get(1));
    assert_eq!(ConditionFlag::Negative, registers.cond);

    registers.update(3, 0xFFFF);
    // NOT R3, R3
    not(0b1001_011_011_111111, &mut registers);
    assert_eq!(0, registers.get(3));
    assert_eq!(ConditionFlag::Zero, registers.cond);

    registers.update(4, 0x8000);
    // NOT R5, R4
    not(0b1001_101_100_111111, &mut registers);
    assert_eq!(0x7FFF, registers.get(5));
    assert_eq!(ConditionFlag::Positive, registers.cond);
}
