//! Big-endian (network order) words inside a frame buffer, read and written
//! through the `byteorder` crate.
use byteorder::{ByteOrder, NetworkEndian};
use vstd::prelude::*;

verus! {

/// The big-endian 16-bit word at `pos` of `bytes`.
pub open spec fn be_u16(bytes: Seq<u8>, pos: int) -> u16 {
    (bytes[pos] as int * 0x100 + bytes[pos + 1] as int) as u16
}

/// The big-endian 24-bit word at `pos` of `bytes`.
pub open spec fn be_u24(bytes: Seq<u8>, pos: int) -> u32 {
    (bytes[pos] as int * 0x10000 + bytes[pos + 1] as int * 0x100 + bytes[pos + 2] as int) as u32
}

/// The big-endian 32-bit word at `pos` of `bytes`.
pub open spec fn be_u32(bytes: Seq<u8>, pos: int) -> u32 {
    (bytes[pos] as int * 0x1000000 + bytes[pos + 1] as int * 0x10000 + bytes[pos + 2] as int
        * 0x100 + bytes[pos + 3] as int) as u32
}

/// `bytes` with the big-endian 16-bit word at `pos` replaced by `value`.
pub open spec fn put_be_u16(bytes: Seq<u8>, pos: int, value: u16) -> Seq<u8> {
    bytes.update(pos, (value / 0x100) as u8).update(pos + 1, (value % 0x100) as u8)
}

/// `bytes` with the big-endian 24-bit word at `pos` replaced by `value`.
pub open spec fn put_be_u24(bytes: Seq<u8>, pos: int, value: u32) -> Seq<u8> {
    bytes.update(pos, (value / 0x10000) as u8).update(pos + 1, ((value / 0x100) % 0x100) as u8).update(
        pos + 2,
        (value % 0x100) as u8,
    )
}

/// `bytes` with the big-endian 32-bit word at `pos` replaced by `value`.
pub open spec fn put_be_u32(bytes: Seq<u8>, pos: int, value: u32) -> Seq<u8> {
    bytes.update(pos, (value / 0x1000000) as u8).update(
        pos + 1,
        ((value / 0x10000) % 0x100) as u8,
    ).update(pos + 2, ((value / 0x100) % 0x100) as u8).update(pos + 3, (value % 0x100) as u8)
}

/// Reads the big-endian 16-bit word at `pos` with `NetworkEndian::read_u16`,
/// which is claimed to combine the two bytes high byte first.
#[verifier::external_body]
pub(crate) fn read_u16(data: &[u8], pos: usize) -> (r: u16)
    requires
        pos + 2 <= data@.len(),
    ensures
        r == be_u16(data@, pos as int),
{
    NetworkEndian::read_u16(&data[pos..pos + 2])
}

/// Reads the big-endian 24-bit word at `pos` with `NetworkEndian::read_u24`,
/// which is claimed to combine the three bytes high byte first.
#[verifier::external_body]
pub(crate) fn read_u24(data: &[u8], pos: usize) -> (r: u32)
    requires
        pos + 3 <= data@.len(),
    ensures
        r == be_u24(data@, pos as int),
{
    NetworkEndian::read_u24(&data[pos..pos + 3])
}

/// Reads the big-endian 32-bit word at `pos` with `NetworkEndian::read_u32`,
/// which is claimed to combine the four bytes high byte first.
#[verifier::external_body]
pub(crate) fn read_u32(data: &[u8], pos: usize) -> (r: u32)
    requires
        pos + 4 <= data@.len(),
    ensures
        r == be_u32(data@, pos as int),
{
    NetworkEndian::read_u32(&data[pos..pos + 4])
}

/// Writes `value` big-endian at `pos` with `NetworkEndian::write_u16`, which
/// is claimed to store the high byte first and to touch no other byte.
#[verifier::external_body]
pub(crate) fn write_u16(data: &mut Vec<u8>, pos: usize, value: u16)
    requires
        pos + 2 <= old(data)@.len(),
    ensures
        final(data)@ == put_be_u16(old(data)@, pos as int, value),
{
    NetworkEndian::write_u16(&mut data[pos..pos + 2], value)
}

/// Writes `value` big-endian on three bytes at `pos` with
/// `NetworkEndian::write_u24`, which is claimed to store the high byte first
/// and to touch no other byte; it panics on a value of more than 24 bits.
#[verifier::external_body]
pub(crate) fn write_u24(data: &mut Vec<u8>, pos: usize, value: u32)
    requires
        pos + 3 <= old(data)@.len(),
        value < 0x1000000,
    ensures
        final(data)@ == put_be_u24(old(data)@, pos as int, value),
{
    NetworkEndian::write_u24(&mut data[pos..pos + 3], value)
}

/// Writes `value` big-endian at `pos` with `NetworkEndian::write_u32`, which
/// is claimed to store the high byte first and to touch no other byte.
#[verifier::external_body]
pub(crate) fn write_u32(data: &mut Vec<u8>, pos: usize, value: u32)
    requires
        pos + 4 <= old(data)@.len(),
    ensures
        final(data)@ == put_be_u32(old(data)@, pos as int, value),
{
    NetworkEndian::write_u32(&mut data[pos..pos + 4], value)
}

/// A 16-bit word reads back as written, and the other bytes are kept.
pub broadcast proof fn lemma_be_u16_roundtrip(bytes: Seq<u8>, pos: int, value: u16)
    requires
        0 <= pos,
        pos + 2 <= bytes.len(),
    ensures
        #[trigger] be_u16(put_be_u16(bytes, pos, value), pos) == value,
        put_be_u16(bytes, pos, value).len() == bytes.len(),
        forall|i: int|
            0 <= i < bytes.len() && i != pos && i != pos + 1 ==> #[trigger] put_be_u16(
                bytes,
                pos,
                value,
            )[i] == bytes[i],
{
}

/// A 24-bit word reads back as written, and the other bytes are kept.
pub broadcast proof fn lemma_be_u24_roundtrip(bytes: Seq<u8>, pos: int, value: u32)
    requires
        0 <= pos,
        pos + 3 <= bytes.len(),
        value < 0x1000000,
    ensures
        #[trigger] be_u24(put_be_u24(bytes, pos, value), pos) == value,
        put_be_u24(bytes, pos, value).len() == bytes.len(),
        forall|i: int|
            0 <= i < bytes.len() && (i < pos || i > pos + 2) ==> #[trigger] put_be_u24(
                bytes,
                pos,
                value,
            )[i] == bytes[i],
{
}

/// A 32-bit word reads back as written, and the other bytes are kept.
pub broadcast proof fn lemma_be_u32_roundtrip(bytes: Seq<u8>, pos: int, value: u32)
    requires
        0 <= pos,
        pos + 4 <= bytes.len(),
    ensures
        #[trigger] be_u32(put_be_u32(bytes, pos, value), pos) == value,
        put_be_u32(bytes, pos, value).len() == bytes.len(),
        forall|i: int|
            0 <= i < bytes.len() && (i < pos || i > pos + 3) ==> #[trigger] put_be_u32(
                bytes,
                pos,
                value,
            )[i] == bytes[i],
{
}

/// Writing back the 16-bit word that a sequence holds leaves it unchanged.
pub broadcast proof fn lemma_put_be_u16_read(bytes: Seq<u8>, pos: int)
    requires
        0 <= pos,
        pos + 2 <= bytes.len(),
    ensures
        #[trigger] put_be_u16(bytes, pos, be_u16(bytes, pos)) == bytes,
{
    assert(put_be_u16(bytes, pos, be_u16(bytes, pos)) =~= bytes);
}

/// Writing back the 24-bit word that a sequence holds leaves it unchanged.
pub broadcast proof fn lemma_put_be_u24_read(bytes: Seq<u8>, pos: int)
    requires
        0 <= pos,
        pos + 3 <= bytes.len(),
    ensures
        #[trigger] put_be_u24(bytes, pos, be_u24(bytes, pos)) == bytes,
{
    assert(put_be_u24(bytes, pos, be_u24(bytes, pos)) =~= bytes);
}

/// Writing back the 32-bit word that a sequence holds leaves it unchanged.
pub broadcast proof fn lemma_put_be_u32_read(bytes: Seq<u8>, pos: int)
    requires
        0 <= pos,
        pos + 4 <= bytes.len(),
    ensures
        #[trigger] put_be_u32(bytes, pos, be_u32(bytes, pos)) == bytes,
{
    assert(put_be_u32(bytes, pos, be_u32(bytes, pos)) =~= bytes);
}

/// The laws of the big-endian words, for use by the frame proofs.
pub broadcast group group_endian_laws {
    lemma_be_u16_roundtrip,
    lemma_be_u24_roundtrip,
    lemma_be_u32_roundtrip,
    lemma_put_be_u16_read,
    lemma_put_be_u24_read,
    lemma_put_be_u32_read,
}

} // verus!
