//! The bit fields of an instruction word.
//!
//! Bits are numbered from 0, the lowest, to 15, the highest. Bits 15 to 12
//! hold the opcode; what the other twelve hold depends on the opcode.

use vstd::prelude::*;
use vstd::arithmetic::power2::pow2;

verus! {

/// The lowest bit of the register field that names the destination of a
/// load or a computation, or the source of a store.
pub const DEST: u16 = 9;

/// The lowest bit of the register field that names the first operand or the
/// base address.
pub const BASE: u16 = 6;

/// The lowest bit of the register field that names the second operand.
pub const SECOND: u16 = 0;

/// The bit that makes Add and And take their second operand from the
/// instruction word itself.
pub const IMMEDIATE_BIT: u16 = 5;

/// The three-bit register number whose lowest bit is bit `low` of `instr`.
pub open spec fn register_field(instr: u16, low: u16) -> u16 {
    (instr >> low) & 0x7
}

/// Whether bit `bit` of `instr` is 1.
pub open spec fn bit_set(instr: u16, bit: u16) -> bool {
    (instr >> bit) & 0x1 == 1
}

/// The lowest `width` bits of `instr`, as an unsigned number.
pub open spec fn low_bits(instr: u16, width: u16) -> u16 {
    instr & !(0xFFFFu16 << width)
}

/// `x` with its bit `bit_count - 1` copied into every higher bit: where that
/// bit is 1, all bits from `bit_count` upwards become 1; where it is 0, `x`
/// stays as it is.
pub open spec fn sign_extended(x: u16, bit_count: u16) -> u16 {
    if (x >> ((bit_count - 1) as u16)) & 0x1 == 1 {
        x | (0xFFFFu16 << bit_count)
    } else {
        x
    }
}

/// The lowest `width` bits of `instr`, read as a two's-complement number of
/// `width` bits and widened to 16 bits.
pub open spec fn signed_field(instr: u16, width: u16) -> u16 {
    sign_extended(low_bits(instr, width), width)
}

/// The number that a field of `width` bits stands for when it is read as a
/// two's-complement number.
pub open spec fn signed_value(field: u16, width: u16) -> int {
    if field >= pow2((width - 1) as nat) {
        field - pow2(width as nat)
    } else {
        field as int
    }
}

/// Reads a three-bit register number from `instr`, starting at bit `low`.
pub fn register_at(instr: u16, low: u16) -> (index: u16)
    requires
        low < 16,
    ensures
        index == register_field(instr, low),
        index < 8,
{
    assert((instr >> low) & 0x7 < 8) by (bit_vector);
    (instr >> low) & 0x7
}

/// Tests bit `bit` of `instr`.
pub fn bit_at(instr: u16, bit: u16) -> (set: bool)
    requires
        bit < 16,
    ensures
        set == bit_set(instr, bit),
{
    (instr >> bit) & 0x1 == 1
}

/// Widens a two's-complement number of `bit_count` bits to 16 bits. Where
/// `x` fits in `bit_count` bits, the result read as a signed number is the
/// number that `x` stood for.
pub fn sign_extend(x: u16, bit_count: u16) -> (extended: u16)
    requires
        1 <= bit_count <= 15,
    ensures
        extended == sign_extended(x, bit_count),
        x < pow2(bit_count as nat) ==> extended as i16 == signed_value(x, bit_count),
{
    proof {
        if x < pow2(bit_count as nat) {
            lemma_sign_extend_value(x, bit_count);
        }
    }
    if (x >> (bit_count - 1)) & 0x1 == 1 {
        x | (0xFFFF << bit_count)
    } else {
        x
    }
}

/// Reads the lowest `width` bits of `instr` as a signed number and widens
/// it to 16 bits.
pub fn offset(instr: u16, width: u16) -> (extended: u16)
    requires
        1 <= width <= 15,
    ensures
        extended == signed_field(instr, width),
        extended as i16 == signed_value(low_bits(instr, width), width),
{
    proof {
        lemma_low_bits_is_remainder(instr, width);
    }
    sign_extend(instr & !(0xFFFF << width), width)
}

/// A field that fits in `bit_count` bits and is widened to 16 bits stands,
/// read as a signed 16-bit number, for the same number as the field did.
pub proof fn lemma_sign_extend_value(field: u16, bit_count: u16)
    requires
        1 <= bit_count <= 15,
        field < pow2(bit_count as nat),
    ensures
        sign_extended(field, bit_count) as i16 == signed_value(field, bit_count),
        -pow2((bit_count - 1) as nat) <= signed_value(field, bit_count) < pow2(
            (bit_count - 1) as nat,
        ),
{
    let half = 1u16 << ((bit_count - 1) as u16);
    let full = 1u16 << bit_count;
    assert(half == pow2((bit_count - 1) as nat) && full == pow2(bit_count as nat)) by {
        vstd::bits::lemma_u16_pow2_no_overflow((bit_count - 1) as nat);
        vstd::bits::lemma_u16_pow2_no_overflow(bit_count as nat);
        vstd::bits::lemma_u16_shl_is_mul(1u16, (bit_count - 1) as u16);
        vstd::bits::lemma_u16_shl_is_mul(1u16, bit_count);
    }
    assert(full == 2 * half) by (bit_vector)
        requires
            1 <= bit_count <= 15,
            half == 1u16 << ((bit_count - 1) as u16),
            full == 1u16 << bit_count,
    ;
    assert(sign_extended(field, bit_count) as i16 == (if field >= half {
        field - full
    } else {
        field as int
    })) by (bit_vector)
        requires
            1 <= bit_count <= 15,
            half == 1u16 << ((bit_count - 1) as u16),
            full == 1u16 << bit_count,
            field < full,
    ;
}

/// A field whose highest bit is clear is widened to itself.
pub proof fn lemma_sign_extend_nonnegative(x: u16, bit_count: u16)
    requires
        1 <= bit_count <= 15,
        !bit_set(x, (bit_count - 1) as u16),
    ensures
        sign_extended(x, bit_count) == x,
{
}

/// The lowest `width` bits of a word are the remainder of the word on
/// division by two to the power of `width`.
pub proof fn lemma_low_bits_is_remainder(instr: u16, width: u16)
    requires
        1 <= width <= 15,
    ensures
        low_bits(instr, width) == instr as int % pow2(width as nat) as int,
        low_bits(instr, width) < pow2(width as nat),
{
    let full = 1u16 << width;
    assert(full == pow2(width as nat)) by {
        vstd::bits::lemma_u16_pow2_no_overflow(width as nat);
        vstd::bits::lemma_u16_shl_is_mul(1u16, width);
    }
    assert(low_bits(instr, width) == instr % full && full > 0) by (bit_vector)
        requires
            1 <= width <= 15,
            full == 1u16 << width,
    ;
}

/// Adding the signed field of `width` bits of `instr` to an address moves
/// the address by the number that the field stands for, forwards or
/// backwards, and round the ends of the address space.
pub proof fn lemma_offset_moves_address(address: u16, instr: u16, width: u16)
    requires
        1 <= width <= 15,
    ensures
        address.wrapping_add(signed_field(instr, width)) == (address + signed_value(
            low_bits(instr, width),
            width,
        )) % 0x10000,
{
    let field = low_bits(instr, width);
    let extended = signed_field(instr, width);
    lemma_low_bits_is_remainder(instr, width);
    lemma_sign_extend_value(field, width);
    assert(extended as i16 == (if extended >= 0x8000 {
        extended - 0x10000
    } else {
        extended as int
    })) by (bit_vector);
}

} // verus!
