//! Trap: the instruction that calls a service routine of the console.
//!
//! The console itself is not part of this crate. Trap works out what has to
//! reach the console, or that a character has to come from it, and says so in
//! the [`Outcome`] it returns. The embedding program does the reading and the
//! writing, and hands a character that it has read to [`receive_char`].

use vstd::prelude::*;
use crate::hardware::memory::{Memory, MEMORY_SIZE};
use crate::hardware::register::{Registers, RegistersView, LINK_REGISTER};

verus! {

/// The trap vector of the routine that reads one character without showing
/// it.
pub const GETC: u16 = 0x20;

/// The trap vector of the routine that writes one character.
pub const OUT: u16 = 0x21;

/// The trap vector of the routine that writes a string of one character per
/// word.
pub const PUTS: u16 = 0x22;

/// The trap vector of the routine that asks for one character and shows it.
pub const IN: u16 = 0x23;

/// The trap vector of the routine that writes a string of two characters per
/// word.
pub const PUTSP: u16 = 0x24;

/// The trap vector of the routine that stops the machine.
pub const HALT: u16 = 0x25;

/// What the embedding program has to do after an instruction.
#[derive(PartialEq, Eq, Debug)]
pub enum Outcome {
    /// Nothing: go on with the next instruction.
    Continue,
    /// Wait for one character from the console, do not show it, and hand it
    /// to [`receive_char`].
    ReadChar,
    /// Ask for a character, wait for one from the console, show it, and hand
    /// it to [`receive_char`].
    PromptChar,
    /// Write these bytes to the console, in this order.
    Write(Vec<u8>),
    /// Stop: the program has ended.
    Halt,
}

/// An [`Outcome`] as a mathematical value.
pub enum OutcomeView {
    /// Nothing is asked for.
    Continue,
    /// One character is to be read and not shown.
    ReadChar,
    /// One character is to be asked for, read and shown.
    PromptChar,
    /// These bytes are to be written.
    Write(Seq<u8>),
    /// The machine is to stop.
    Halt,
}

impl View for Outcome {
    type V = OutcomeView;

    open spec fn view(&self) -> OutcomeView {
        match self {
            Outcome::Continue => OutcomeView::Continue,
            Outcome::ReadChar => OutcomeView::ReadChar,
            Outcome::PromptChar => OutcomeView::PromptChar,
            Outcome::Write(bytes) => OutcomeView::Write(bytes@),
            Outcome::Halt => OutcomeView::Halt,
        }
    }
}

/// The trap vector of `instr`: its eight lowest bits.
pub open spec fn trap_vector(instr: u16) -> u16 {
    instr & 0xFF
}

/// The eight lowest bits of `word`.
pub open spec fn low_byte(word: u16) -> u8 {
    (word % 256) as u8
}

/// The eight highest bits of `word`.
pub open spec fn high_byte(word: u16) -> u8 {
    (word / 256) as u8
}

/// The words of `m` from `address` on, up to the first word that is zero and
/// without it, but `limit` words at most. After the last address comes
/// address 0.
pub open spec fn string_from(m: Seq<u16>, address: u16, limit: nat) -> Seq<u16>
    decreases limit,
{
    if limit == 0 || m[address as int] == 0 {
        Seq::empty()
    } else {
        seq![m[address as int]] + string_from(m, address.wrapping_add(1), (limit - 1) as nat)
    }
}

/// The string that starts at `address`: the words from there up to the first
/// word that is zero. Where no word of the memory is zero, it is the whole
/// memory, once round.
pub open spec fn string_at(m: Seq<u16>, address: u16) -> Seq<u16> {
    string_from(m, address, MEMORY_SIZE as nat)
}

/// The characters of a string that holds one character in each word: the low
/// byte of each word.
pub open spec fn plain_bytes(words: Seq<u16>) -> Seq<u8> {
    Seq::new(words.len(), |i: int| low_byte(words[i]))
}

/// The characters that one word of a packed string holds: its low byte, and
/// after it its high byte unless that is zero.
pub open spec fn word_bytes(word: u16) -> Seq<u8> {
    if high_byte(word) == 0 {
        seq![low_byte(word)]
    } else {
        seq![low_byte(word), high_byte(word)]
    }
}

/// The characters of a string that holds two characters in each word: those
/// of the first word, then those of the second, and so on.
pub open spec fn packed_bytes(words: Seq<u16>) -> Seq<u8>
    decreases words.len(),
{
    if words.len() == 0 {
        Seq::empty()
    } else {
        packed_bytes(words.drop_last()) + word_bytes(words.last())
    }
}

/// What [`string_from`] collects: `limit` words at most, none of them zero,
/// word `i` from `i` addresses after `address`, counted round the memory;
/// and where it ends before `limit` words, the next word is zero.
pub proof fn lemma_string_from(m: Seq<u16>, address: u16, limit: nat)
    ensures
        string_from(m, address, limit).len() <= limit,
        forall|i: int|
            0 <= i < string_from(m, address, limit).len() ==> {
                &&& #[trigger] string_from(m, address, limit)[i] == m[(address + i) % 0x10000]
                &&& string_from(m, address, limit)[i] != 0
            },
        string_from(m, address, limit).len() < limit ==> m[(address + string_from(
            m,
            address,
            limit,
        ).len()) % 0x10000] == 0,
    decreases limit,
{
    if limit == 0 || m[address as int] == 0 {
    } else {
        let next = address.wrapping_add(1);
        let rest = string_from(m, next, (limit - 1) as nat);
        lemma_string_from(m, next, (limit - 1) as nat);
        let all = string_from(m, address, limit);
        assert(all == seq![m[address as int]] + rest);
        assert forall|i: int| 0 <= i < all.len() implies {
            &&& #[trigger] all[i] == m[(address + i) % 0x10000]
            &&& all[i] != 0
        } by {
            if i > 0 {
                assert(all[i] == rest[i - 1]);
                assert((next + (i - 1)) % 0x10000 == (address + i) % 0x10000);
            }
        }
        if all.len() < limit {
            assert((next + rest.len()) % 0x10000 == (address + all.len()) % 0x10000);
        }
    }
}

/// The string at `address` is the longest run of words from `address` on,
/// counted round the memory, that holds no zero; it is never longer than the
/// memory.
pub proof fn lemma_string_at(m: Seq<u16>, address: u16)
    ensures
        string_at(m, address).len() <= MEMORY_SIZE,
        forall|i: int|
            0 <= i < string_at(m, address).len() ==> {
                &&& #[trigger] string_at(m, address)[i] == m[(address + i) % 0x10000]
                &&& string_at(m, address)[i] != 0
            },
        string_at(m, address).len() < MEMORY_SIZE ==> m[(address + string_at(m, address).len())
            % 0x10000] == 0,
{
    lemma_string_from(m, address, MEMORY_SIZE as nat);
}

/// The registers after Trap: the link register holds the program counter,
/// whatever the trap vector is. Nothing else changes.
pub open spec fn after_trap(instr: u16, r: RegistersView) -> RegistersView {
    r.with_register(LINK_REGISTER as int, r.pc)
}

/// What Trap asks of the embedding program, by trap vector. A vector that
/// names no routine asks for nothing.
pub open spec fn trap_outcome(instr: u16, r: RegistersView, m: Seq<u16>) -> OutcomeView {
    let vector = trap_vector(instr);
    if vector == GETC {
        OutcomeView::ReadChar
    } else if vector == OUT {
        OutcomeView::Write(seq![low_byte(r.general[0])])
    } else if vector == PUTS {
        OutcomeView::Write(plain_bytes(string_at(m, r.general[0])))
    } else if vector == IN {
        OutcomeView::PromptChar
    } else if vector == PUTSP {
        OutcomeView::Write(packed_bytes(string_at(m, r.general[0])))
    } else if vector == HALT {
        OutcomeView::Halt
    } else {
        OutcomeView::Continue
    }
}

/// Cuts `word` down to its eight lowest bits.
pub fn low(word: u16) -> (byte: u8)
    ensures
        byte == low_byte(word),
{
    assert(word & 0xFF == word % 256) by (bit_vector);
    (word & 0xFF) as u8
}

/// Moves the eight highest bits of `word` down.
pub fn high(word: u16) -> (byte: u8)
    ensures
        byte == high_byte(word),
{
    assert(word >> 8 == word / 256) by (bit_vector);
    (word >> 8) as u8
}

/// Collects the string that starts at `address`.
pub fn read_string(memory: &Memory, address: u16) -> (words: Vec<u16>)
    ensures
        words@ == string_at(memory@, address),
{
    let mut words: Vec<u16> = Vec::new();
    let mut next: u16 = address;
    let mut limit: usize = MEMORY_SIZE;
    let mut word: u16 = memory.read(next);
    while limit > 0 && word != 0
        invariant
            limit <= MEMORY_SIZE,
            word == memory@[next as int],
            string_at(memory@, address) == words@ + string_from(memory@, next, limit as nat),
        decreases limit,
    {
        proof {
            let rest = string_from(memory@, next.wrapping_add(1), (limit - 1) as nat);
            assert(words@ + (seq![word] + rest) == words@.push(word) + rest);
        }
        words.push(word);
        next = next.wrapping_add(1);
        limit = limit - 1;
        word = memory.read(next);
    }
    assert(words@ + Seq::<u16>::empty() == words@);
    words
}

/// Takes the low byte of each word.
pub fn unpack_plain(words: &Vec<u16>) -> (bytes: Vec<u8>)
    ensures
        bytes@ == plain_bytes(words@),
{
    let mut bytes: Vec<u8> = Vec::new();
    let mut i: usize = 0;
    while i < words.len()
        invariant
            i <= words.len(),
            bytes@.len() == i,
            forall|k: int| 0 <= k < i ==> bytes@[k] == low_byte(words@[k]),
        decreases words.len() - i,
    {
        bytes.push(low(words[i]));
        i = i + 1;
    }
    bytes
}

/// Takes the low byte of each word and, unless it is zero, the high byte
/// after it.
pub fn unpack_packed(words: &Vec<u16>) -> (bytes: Vec<u8>)
    ensures
        bytes@ == packed_bytes(words@),
{
    let mut bytes: Vec<u8> = Vec::new();
    let mut i: usize = 0;
    while i < words.len()
        invariant
            i <= words.len(),
            bytes@ == packed_bytes(words@.take(i as int)),
        decreases words.len() - i,
    {
        let word = words[i];
        proof {
            let done = words@.take(i + 1);
            assert(done.drop_last() == words@.take(i as int));
            assert(done.last() == word);
        }
        bytes.push(low(word));
        let second = high(word);
        if second != 0 {
            bytes.push(second);
        }
        i = i + 1;
    }
    assert(words@.take(words.len() as int) == words@);
    bytes
}

/// Executes Trap.
pub fn trap(instr: u16, registers: &mut Registers, memory: &Memory) -> (outcome: Outcome)
    ensures
        final(registers)@ == after_trap(instr, old(registers)@),
        outcome@ == trap_outcome(instr, old(registers)@, memory@),
{
    let next = registers.pc;
    registers.update(LINK_REGISTER, next);
    let vector = instr & 0xFF;
    if vector == GETC {
        Outcome::ReadChar
    } else if vector == OUT {
        let mut bytes: Vec<u8> = Vec::new();
        bytes.push(low(registers.get(0)));
        assert(bytes@ == seq![low_byte(registers@.general[0])]);
        Outcome::Write(bytes)
    } else if vector == PUTS {
        let words = read_string(memory, registers.get(0));
        Outcome::Write(unpack_plain(&words))
    } else if vector == IN {
        Outcome::PromptChar
    } else if vector == PUTSP {
        let words = read_string(memory, registers.get(0));
        Outcome::Write(unpack_packed(&words))
    } else if vector == HALT {
        Outcome::Halt
    } else {
        Outcome::Continue
    }
}

/// Puts a character that the console delivered into register 0, with the
/// eight highest bits zero. The condition flag is left as it is.
pub fn receive_char(registers: &mut Registers, ch: u8)
    ensures
        final(registers)@ == old(registers)@.with_register(0, ch as u16),
{
    registers.update(0, ch as u16);
}

} // verus!
