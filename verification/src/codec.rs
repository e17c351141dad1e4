//! Composition of raw payload bytes into 16-bit words and signed bytes.

use vstd::prelude::*;

verus! {

/// The unsigned 16-bit word with `low` as its low byte and `high` as its high
/// byte (little-endian composition).
pub open spec fn combine_unsigned(low: u8, high: u8) -> int {
    high as int * 256 + low as int
}

/// The two's-complement reading of a 16-bit pattern given as an unsigned value.
pub open spec fn twos_complement_16(word: int) -> int {
    if word >= 0x8000 {
        word - 0x1_0000
    } else {
        word
    }
}

/// The signed 16-bit word with `low` as its low byte and `high` as its high
/// byte: the pattern of `combine_unsigned`, read as two's complement.
pub open spec fn combine_signed(low: u8, high: u8) -> int {
    twos_complement_16(combine_unsigned(low, high))
}

/// The two's-complement reading of a single byte.
pub open spec fn signed_byte(byte: u8) -> int {
    if byte >= 0x80 {
        byte as int - 0x100
    } else {
        byte as int
    }
}

/// Combines two bytes into an unsigned word, `a` being the low byte.
pub fn bytes_to_word_unsigned(a: u8, b: u8) -> (c: u16)
    ensures
        c == combine_unsigned(a, b),
{
    let low: u16 = a as u16;
    let high: u16 = b as u16;
    let c: u16 = (high << 8) | low;
    assert(((high << 8) | low) == high * 256 + low) by (bit_vector)
        requires
            low < 256,
            high < 256,
    ;
    c
}

/// Combines two bytes into a signed word, `a` being the low byte.
pub fn bytes_to_word_signed(a: u8, b: u8) -> (c: i16)
    ensures
        c == combine_signed(a, b),
{
    let word: u16 = bytes_to_word_unsigned(a, b);
    let c: i16 = word as i16;
    assert(c == twos_complement_16(word as int)) by (bit_vector)
        requires
            c == word as i16,
    ;
    c
}

/// Reads one byte as a signed 8-bit value.
pub fn as_signed_byte(byte: u8) -> (t: i8)
    ensures
        t == signed_byte(byte),
{
    let t: i8 = byte as i8;
    assert(t == signed_byte(byte)) by (bit_vector)
        requires
            t == byte as i8,
    ;
    t
}

/// Both readings of a byte pair come from one 16-bit pattern: the unsigned
/// word is `high * 256 + low`, it fits sixteen bits, and the signed word
/// differs from it by exactly 65536 when the top bit is set and not at all
/// otherwise.
pub proof fn lemma_combine_readings(low: u8, high: u8)
    ensures
        combine_unsigned(low, high) == high * 256 + low,
        0 <= combine_unsigned(low, high) <= 0xFFFF,
        -0x8000 <= combine_signed(low, high) <= 0x7FFF,
        high < 0x80 ==> combine_signed(low, high) == combine_unsigned(low, high),
        high >= 0x80 ==> combine_signed(low, high) == combine_unsigned(low, high) - 0x1_0000,
        (combine_signed(low, high) - combine_unsigned(low, high)) % 0x1_0000 == 0,
{
}

} // verus!
