//! The memory of the machine: 65536 words, each addressed by a 16-bit number.

use vstd::prelude::*;

verus! {

/// The number of words in the memory. Every 16-bit address names one of them.
pub const MEMORY_SIZE: usize = 65536;

/// The address reserved for the keyboard status word. It is a word like any
/// other: the embedding program writes the state of the keyboard there, and
/// the program on the machine reads it.
pub const KEYBOARD_STATUS: u16 = 0xFE00;

/// The address reserved for the keyboard data word. It is a word like any
/// other: the embedding program writes the key there, and the program on the
/// machine reads it.
pub const KEYBOARD_DATA: u16 = 0xFE02;

/// The memory of the machine.
pub struct Memory {
    /// The words, indexed by address.
    pub cells: [u16; MEMORY_SIZE],
}

impl View for Memory {
    type V = Seq<u16>;

    open spec fn view(&self) -> Seq<u16> {
        self.cells@
    }
}

/// The word that two bytes of an image stand for, the high byte first.
pub open spec fn word_of(high: u8, low: u8) -> u16 {
    (high * 256 + low) as u16
}

/// Word `index` of an image: the image holds two bytes for each word, the
/// high byte first.
pub open spec fn image_word(image: Seq<u8>, index: int) -> u16 {
    word_of(image[2 * index], image[2 * index + 1])
}

/// The memory `m` after the image was copied into it. Word 0 of the image is
/// the origin: the address that receives word 1. Word 2 goes to the address
/// after it, and so on. Words that would lie beyond the last address are left
/// out, and so is a single byte at the end of the image. An image of fewer
/// than two bytes has no origin and changes nothing.
pub open spec fn with_image(m: Seq<u16>, image: Seq<u8>) -> Seq<u16> {
    let origin = image_word(image, 0) as int;
    let words = (image.len() - 2) / 2;
    Seq::new(
        m.len(),
        |address: int|
            if image.len() >= 2 && origin <= address < origin + words {
                image_word(image, address - origin + 1)
            } else {
                m[address]
            },
    )
}

fn word(high: u8, low: u8) -> (value: u16)
    ensures
        value == word_of(high, low),
{
    high as u16 * 256 + low as u16
}

impl Memory {
    /// A memory in which every word is zero.
    pub fn new() -> (memory: Memory)
        ensures
            memory@.len() == MEMORY_SIZE,
            forall|address: int| 0 <= address < MEMORY_SIZE ==> memory@[address] == 0,
    {
        Memory { cells: [0u16; MEMORY_SIZE] }
    }

    /// The word at `address`.
    pub fn read(&self, address: u16) -> (value: u16)
        ensures
            value == self@[address as int],
    {
        self.cells[address as usize]
    }

    /// Puts `value` into the word at `address`; every other word stays as it
    /// is.
    pub fn write(&mut self, address: u16, value: u16)
        ensures
            final(self)@ == old(self)@.update(address as int, value),
    {
        self.cells[address as usize] = value;
    }

    /// Copies a program image into the memory and returns its origin, the
    /// address of its first instruction. An image of fewer than two bytes is
    /// refused: the memory stays as it is and the result is `None`.
    pub fn load_image(&mut self, image: &[u8]) -> (origin: Option<u16>)
        ensures
            final(self)@ == with_image(old(self)@, image@),
            image@.len() < 2 ==> origin is None,
            image@.len() >= 2 ==> origin == Some(image_word(image@, 0)),
    {
        if image.len() < 2 {
            assert(self@ == with_image(self@, image@));
            return None;
        }
        let origin = word(image[0], image[1]);
        let words: usize = (image.len() - 2) / 2;
        let mut count: usize = 0;
        while count < words && origin as usize + count < MEMORY_SIZE
            invariant
                image@.len() >= 2,
                words == (image@.len() - 2) / 2,
                origin == image_word(image@, 0),
                count <= words,
                origin + count <= MEMORY_SIZE,
                self@.len() == MEMORY_SIZE,
                forall|address: int|
                    0 <= address < MEMORY_SIZE ==> self@[address] == (if origin <= address
                        < origin + count {
                        image_word(image@, address - origin + 1)
                    } else {
                        old(self)@[address]
                    }),
            decreases words - count,
        {
            let value = word(image[2 * count + 2], image[2 * count + 3]);
            self.cells[origin as usize + count] = value;
            count = count + 1;
        }
        assert(self@ == with_image(old(self)@, image@));
        Some(origin)
    }
}

} // verus!
