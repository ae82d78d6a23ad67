//! Facts about bytes and words that relate the shifts and masks of the
//! executable code to the arithmetic of the contracts.

use vstd::prelude::*;

verus! {

/// The 16-bit value whose high byte is `high` and whose low byte is `low`.
pub open spec fn word(high: u8, low: u8) -> u16 {
    (high as int * 256 + low as int) as u16
}

/// The high byte of a 16-bit value.
pub open spec fn high_byte(value: u16) -> u8 {
    (value / 256) as u8
}

/// The low byte of a 16-bit value.
pub open spec fn low_byte(value: u16) -> u8 {
    (value % 256) as u8
}

/// Shifting the high byte up and or-ing the low byte in builds the word.
pub proof fn lemma_join(high: u8, low: u8)
    ensures
        (high as u16) << 8 | (low as u16) == word(high, low),
        (low as u16) | ((high as u16) << 8) == word(high, low),
        high_byte(word(high, low)) == high,
        low_byte(word(high, low)) == low,
{
    assert(((high as u16) << 8 | (low as u16)) == (high as u16) * 256 + (low as u16) && ((low as u16)
        | ((high as u16) << 8)) == (high as u16) * 256 + (low as u16)) by (bit_vector);
}

/// A shift by eight and a mask with `0xFF` take a word apart.
pub proof fn lemma_split(value: u16)
    ensures
        value >> 8 == value / 256,
        value & 0xFF == value % 256,
        (value >> 8) as u8 == high_byte(value),
        (value & 0xFF) as u8 == low_byte(value),
        word(high_byte(value), low_byte(value)) == value,
{
    assert(value >> 8 == value / 256 && value & 0xFF == value % 256) by (bit_vector);
}

/// Masks of a byte with its nibbles, as arithmetic.
pub proof fn lemma_nibbles(x: u8)
    ensures
        x & 0x0F == x % 16,
        x & 0xF0 == x - x % 16,
        (x & 0xF0) & 0x0F == 0,
        (x & 0xF0) & 0xF0 == x & 0xF0,
        (x & 0x0F == 0) ==> x & 0xF0 == x,
{
    assert(x & 0x0F == x % 16 && x & 0xF0 == x - x % 16 && (x & 0xF0) & 0x0F == 0 && (x & 0xF0)
        & 0xF0 == x & 0xF0 && ((x & 0x0F == 0) ==> x & 0xF0 == x)) by (bit_vector);
}

/// Bounds of a byte under the masks of the bank registers.
pub proof fn lemma_masks(x: u8)
    ensures
        x & 0x03 <= 0x03,
        x & 0x1F <= 0x1F,
{
    assert(x & 0x03 <= 0x03 && x & 0x1F <= 0x1F) by (bit_vector);
}

/// Masks of a word with its low twelve, eight and four bits, as arithmetic.
pub proof fn lemma_word_masks(x: u16)
    ensures
        x & 0x0FFF == x % 0x1000,
        x & 0x00FF == x % 0x100,
        x & 0x000F == x % 0x10,
{
    assert(x & 0x0FFF == x % 0x1000 && x & 0x00FF == x % 0x100 && x & 0x000F == x % 0x10)
        by (bit_vector);
}

} // verus!
