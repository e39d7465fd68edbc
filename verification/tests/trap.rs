use lc3_vm::hardware::instructions::opcode::execute_instruction;
use lc3_vm::hardware::instructions::trap::{
    high, low, read_string, receive_char, trap, unpack_packed, unpack_plain, Outcome,
};
use lc3_vm::hardware::memory::Memory;
use lc3_vm::hardware::register::{ConditionFlag, Registers};

fn write_words(memory: &mut Memory, start: u16, words: &[u16]) {
    let mut address = start;
    for word in words {
        memory.write(address, *word);
        address = address.wrapping_add(1);
    }
}

#[test]
fn halt_stops() {
    let mut registers = Registers::new(0x3001);
    let memory = Memory::new();
    assert_eq!(Outcome::Halt, trap(0xF025, &mut registers, &memory));
}

#[test]
fn halt_is_unlike_every_other_trap() {
    let memory = Memory::new();
    for vector in 0..=0xFFu16 {
        let mut registers = Registers::new(0x3001);
        let outcome = trap(0xF000 | vector, &mut registers, &memory);
        assert_eq!(vector == 0x25, outcome == Outcome::Halt, "vector {:#04x}", vector);
    }
}

#[test]
fn trap_saves_return_address() {
    let memory = Memory::new();
    for vector in [0x20u16, 0x21, 0x22, 0x23, 0x24, 0x25, 0x00, 0xFF] {
        let mut registers = Registers::new(0x3456);
        registers.update(7, 0x1111);
        registers.cond = ConditionFlag::Negative;
        trap(0xF000 | vector, &mut registers, &memory);
        assert_eq!(0x3456, registers.get(7));
        assert_eq!(0x3456, registers.pc);
        assert_eq!(ConditionFlag::Negative, registers.cond);
        for index in 0..7u16 {
            assert_eq!(0, registers.get(index));
        }
    }
}

#[test]
fn getc_asks_for_a_character() {
    let mut registers = Registers::new(0x3001);
    let memory = Memory::new();
    assert_eq!(Outcome::ReadChar, trap(0xF020, &mut registers, &memory));
}

#[test]
fn in_asks_for_a_character_with_prompt() {
    let mut registers = Registers::new(0x3001);
    let memory = Memory::new();
    assert_eq!(Outcome::PromptChar, trap(0xF023, &mut registers, &memory));
}

#[test]
fn received_character_goes_to_register_zero() {
    let mut registers = Registers::new(0x3001);
    registers.update(0, 0xFFFF);
    registers.update(1, 0x0101);
    registers.cond = ConditionFlag::Negative;
    receive_char(&mut registers, b'a');
    assert_eq!(0x0061, registers.get(0));
    assert_eq!(0x0101, registers.get(1));
    assert_eq!(ConditionFlag::Negative, registers.cond);
    assert_eq!(0x3001, registers.pc);
    receive_char(&mut registers, 0xFF);
    assert_eq!(0x00FF, registers.get(0));
    receive_char(&mut registers, 0);
    assert_eq!(0, registers.get(0));
    assert_eq!(ConditionFlag::Negative, registers.cond);
}

#[test]
fn out_writes_low_byte_of_register_zero() {
    let mut registers = Registers::new(0x3001);
    let memory = Memory::new();
    registers.update(0, 0x1241);
    assert_eq!(Outcome::Write(vec![0x41]), trap(0xF021, &mut registers, &memory));
    assert_eq!(0x1241, registers.get(0));
}

#[test]
fn puts_writes_up_to_the_zero_word() {
    let mut registers = Registers::new(0x3001);
    let mut memory = Memory::new();
    write_words(&mut memory, 0x4000, &[0x0048, 0x0069, 0x0121, 0x0000, 0x0058]);
    registers.update(0, 0x4000);
    assert_eq!(Outcome::Write(vec![b'H', b'i', b'!']), trap(0xF022, &mut registers, &memory));
    assert_eq!(0x4000, registers.get(0));
}

#[test]
fn puts_of_an_empty_string() {
    let mut registers = Registers::new(0x3001);
    let memory = Memory::new();
    registers.update(0, 0x4000);
    assert_eq!(Outcome::Write(vec![]), trap(0xF022, &mut registers, &memory));
}

#[test]
fn puts_runs_over_the_end_of_memory() {
    let mut registers = Registers::new(0x3001);
    let mut memory = Memory::new();
    write_words(&mut memory, 0xFFFE, &[0x0041, 0x0042, 0x0043, 0x0000]);
    registers.update(0, 0xFFFE);
    assert_eq!(Outcome::Write(vec![b'A', b'B', b'C']), trap(0xF022, &mut registers, &memory));
}

#[test]
fn putsp_writes_two_characters_per_word() {
    let mut registers = Registers::new(0x3001);
    let mut memory = Memory::new();
    // "Hello" packed: "He", "ll", "o\0"
    write_words(&mut memory, 0x5000, &[0x6548, 0x6C6C, 0x006F, 0x0000, 0x4141]);
    registers.update(0, 0x5000);
    assert_eq!(
        Outcome::Write(vec![b'H', b'e', b'l', b'l', b'o']),
        trap(0xF024, &mut registers, &memory)
    );
}

#[test]
fn putsp_word_with_zero_low_byte() {
    let mut registers = Registers::new(0x3001);
    let mut memory = Memory::new();
    write_words(&mut memory, 0x5000, &[0x4100, 0x0000]);
    registers.update(0, 0x5000);
    assert_eq!(Outcome::Write(vec![0x00, b'A']), trap(0xF024, &mut registers, &memory));
}

#[test]
fn unknown_vector_asks_for_nothing() {
    let mut registers = Registers::new(0x3001);
    let memory = Memory::new();
    assert_eq!(Outcome::Continue, trap(0xF000, &mut registers, &memory));
    assert_eq!(Outcome::Continue, trap(0xF01F, &mut registers, &memory));
    assert_eq!(Outcome::Continue, trap(0xF026, &mut registers, &memory));
    assert_eq!(Outcome::Continue, trap(0xF0FF, &mut registers, &memory));
}

#[test]
fn trap_vector_is_the_low_eight_bits() {
    let mut registers = Registers::new(0x3001);
    let memory = Memory::new();
    assert_eq!(Outcome::Halt, trap(0xFF25, &mut registers, &memory));
    assert_eq!(Outcome::ReadChar, trap(0xF120, &mut registers, &memory));
}

#[test]
fn trap_does_not_touch_memory() {
    let mut registers = Registers::new(0x3001);
    let mut memory = Memory::new();
    write_words(&mut memory, 0x4000, &[0x0041, 0x0000]);
    registers.update(0, 0x4000);
    for vector in 0x20..=0x25u16 {
        execute_instruction(0xF000 | vector, &mut registers, &mut memory);
        assert_eq!(0x0041, memory.read(0x4000));
        assert_eq!(0, memory.read(0x4001));
        assert_eq!(0, memory.read(0x3001));
    }
}

#[test]
fn string_of_a_memory_without_zero_is_the_whole_memory_once() {
    let mut memory = Memory::new();
    for address in 0..=0xFFFFu16 {
        memory.write(address, address | 0x8000);
    }
    let words = read_string(&memory, 0x1234);
    assert_eq!(65536, words.len());
    assert_eq!(0x1234 | 0x8000, words[0]);
    assert_eq!(0xFFFF, words[0xFFFF - 0x1234]);
    assert_eq!(0x8000, words[0x10000 - 0x1234]);
    assert_eq!(0x1233 | 0x8000, words[65535]);
}

#[test]
fn string_stops_at_first_zero() {
    let mut memory = Memory::new();
    write_words(&mut memory, 0x0010, &[3, 2, 1, 0, 7, 0]);
    assert_eq!(vec![3, 2, 1], read_string(&memory, 0x0010));
    assert_eq!(vec![1], read_string(&memory, 0x0012));
    assert_eq!(Vec::<u16>::new(), read_string(&memory, 0x0013));
    assert_eq!(vec![7], read_string(&memory, 0x0014));
}

#[test]
fn bytes_of_a_word() {
    assert_eq!(0x34, low(0x1234));
    assert_eq!(0x12, high(0x1234));
    assert_eq!(0xFF, low(0x00FF));
    assert_eq!(0x00, high(0x00FF));
    assert_eq!(0x00, low(0xFF00));
    assert_eq!(0xFF, high(0xFF00));
}

#[test]
fn unpacking() {
    let words = vec![0x6548, 0x006C, 0x6F00, 0x0141];
    assert_eq!(vec![0x48, 0x6C, 0x00, 0x41], unpack_plain(&words));
    assert_eq!(vec![0x48, 0x65, 0x6C, 0x00, 0x6F, 0x41, 0x01], unpack_packed(&words));
    assert_eq!(Vec::<u8>::new(), unpack_plain(&Vec::new()));
    assert_eq!(Vec::<u8>::new(), unpack_packed(&Vec::new()));
}
