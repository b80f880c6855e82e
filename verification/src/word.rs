//! Splitting sixteen-bit words into bytes and joining them again.

use vstd::prelude::*;

verus! {

/// The word whose upper byte is `high` and whose lower byte is `low`.
pub open spec fn word(high: u8, low: u8) -> u16 {
    (high as int * 256 + low as int) as u16
}

/// The upper eight bits of a word.
pub open spec fn high_byte(value: u16) -> u8 {
    (value as int / 256) as u8
}

/// The lower eight bits of a word.
pub open spec fn low_byte(value: u16) -> u8 {
    (value as int % 256) as u8
}

/// Joins two bytes into a word.
pub fn join(high: u8, low: u8) -> (value: u16)
    ensures
        value == word(high, low),
{
    assert(((high as u16) << 8 | (low as u16)) == (high as u16) * 256 + (low as u16))
        by (bit_vector);
    (high as u16) << 8 | (low as u16)
}

/// Takes the upper byte of a word.
pub fn upper(value: u16) -> (byte: u8)
    ensures
        byte == high_byte(value),
{
    assert(((value & 0xFF00) >> 8) == value / 256) by (bit_vector);
    ((value & 0xFF00) >> 8) as u8
}

/// Takes the lower byte of a word.
pub fn lower(value: u16) -> (byte: u8)
    ensures
        byte == low_byte(value),
{
    assert((value & 0xFF) == value % 256) by (bit_vector);
    (value & 0xFF) as u8
}

/// Splitting a word and joining the halves gives the word back, and joining
/// two bytes and splitting the word gives the bytes back.
pub proof fn lemma_word_round_trip(value: u16, high: u8, low: u8)
    ensures
        word(high_byte(value), low_byte(value)) == value,
        high_byte(word(high, low)) == high,
        low_byte(word(high, low)) == low,
{
}

} // verus!
