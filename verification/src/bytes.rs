//! Conversions between frame bytes and characters.
use vstd::prelude::*;

verus! {

/// The character whose code point is the byte (ISO 8859-1 reading).
pub open spec fn latin1_char(byte: u8) -> char {
    byte as char
}

/// The low byte of the code point of a character.
pub open spec fn char_low_byte(c: char) -> u8 {
    c as u8
}

/// Reads a byte as the character of the same code point.
pub fn char_from_byte(byte: u8) -> (c: char)
    ensures
        c == latin1_char(byte),
{
    byte as char
}

/// Keeps the low byte of the code point of a character.
pub fn char_to_byte(c: char) -> (byte: u8)
    ensures
        byte == char_low_byte(c),
{
    c as u8
}

/// A byte read as a character gives back the byte.
pub proof fn lemma_char_byte_roundtrip(byte: u8)
    ensures
        char_low_byte(latin1_char(byte)) == byte,
{
}

/// A character of code point below 256 written as a byte reads back as
/// itself.
pub proof fn lemma_byte_char_roundtrip(c: char)
    requires
        (c as u32) < 0x100,
    ensures
        latin1_char(char_low_byte(c)) == c,
{
    assert((c as u8) as u32 == c as u32);
}

} // verus!
