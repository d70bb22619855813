//! The bit-field model of a frame byte (and of a big-endian 16-bit word),
//! the executable accessors that follow it, and the laws that relate them.
//!
//! A field is named by the index of its lowest bit (`shift`) and its number
//! of bits (`width`).
use vstd::prelude::*;

verus! {

/// The mask of the `width` low bits of a byte.
pub closed spec fn low_mask(width: u8) -> u8 {
    if width >= 8 {
        0xff
    } else {
        ((1u8 << width) - 1) as u8
    }
}

/// The value of the `width`-bit field of `byte` whose lowest bit is `shift`.
pub closed spec fn bits(byte: u8, shift: u8, width: u8) -> u8 {
    (byte >> shift) & low_mask(width)
}

/// `byte` with its `width`-bit field at `shift` replaced by the low
/// `width` bits of `value`; the other bits are kept.
pub closed spec fn put_bits(byte: u8, shift: u8, width: u8, value: u8) -> u8 {
    (byte & !(low_mask(width) << shift)) | ((value & low_mask(width)) << shift)
}

/// Whether bit `index` of `byte` is set.
pub closed spec fn flag(byte: u8, index: u8) -> bool {
    bits(byte, index, 1) == 1
}

/// The raw value of a boolean.
pub closed spec fn bool_bit(value: bool) -> u8 {
    if value {
        1
    } else {
        0
    }
}

/// `byte` with bit `index` set to `value`; the other bits are kept.
pub closed spec fn put_flag(byte: u8, index: u8, value: bool) -> u8 {
    put_bits(byte, index, 1, bool_bit(value))
}

/// A field lies within a byte.
pub open spec fn field_fits(shift: u8, width: u8) -> bool {
    1 <= width && shift + width <= 8
}

/// Two fields of a byte share no bit.
pub open spec fn disjoint(shift1: u8, width1: u8, shift2: u8, width2: u8) -> bool {
    shift1 + width1 <= shift2 || shift2 + width2 <= shift1
}

/// Reads the `width`-bit field of `byte` at `shift`.
pub fn read_bits(byte: u8, shift: u8, width: u8) -> (r: u8)
    requires
        field_fits(shift, width),
    ensures
        r == bits(byte, shift, width),
{
    let mask: u8 = if width >= 8 {
        0xff
    } else {
        assert(1u8 << width >= 1) by (bit_vector)
            requires
                width < 8,
        ;
        (1u8 << width) - 1
    };
    (byte >> shift) & mask
}

/// Writes the low `width` bits of `value` into the field of `byte` at
/// `shift`, keeping the other bits.
pub fn write_bits(byte: u8, shift: u8, width: u8, value: u8) -> (r: u8)
    requires
        field_fits(shift, width),
    ensures
        r == put_bits(byte, shift, width, value),
{
    let mask: u8 = if width >= 8 {
        0xff
    } else {
        assert(1u8 << width >= 1) by (bit_vector)
            requires
                width < 8,
        ;
        (1u8 << width) - 1
    };
    (byte & !(mask << shift)) | ((value & mask) << shift)
}

/// Reads bit `index` of `byte`.
pub fn read_flag(byte: u8, index: u8) -> (r: bool)
    requires
        index < 8,
    ensures
        r == flag(byte, index),
{
    read_bits(byte, index, 1) == 1
}

/// Sets bit `index` of `byte` to `value`.
pub fn write_flag(byte: u8, index: u8, value: bool) -> (r: u8)
    requires
        index < 8,
    ensures
        r == put_flag(byte, index, value),
{
    write_bits(byte, index, 1, if value { 1 } else { 0 })
}

/// Reading a field gives back the low bits of what was written into it.
pub broadcast proof fn lemma_bits_put_same(byte: u8, shift: u8, width: u8, value: u8)
    requires
        field_fits(shift, width),
    ensures
        #[trigger] bits(put_bits(byte, shift, width, value), shift, width) == value & low_mask(
            width,
        ),
{
    assert((((byte & !(low_mask(width) << shift)) | ((value & low_mask(width)) << shift))
        >> shift) & low_mask(width) == value & low_mask(width)) by (bit_vector)
        requires
            1 <= width,
            shift + width <= 8,
            low_mask(width) == (if width >= 8 {
                0xffu8
            } else {
                ((1u8 << width) - 1) as u8
            }),
    ;
}

/// Writing a field leaves every field that shares no bit with it unchanged.
pub broadcast proof fn lemma_bits_put_other(
    byte: u8,
    shift: u8,
    width: u8,
    value: u8,
    shift2: u8,
    width2: u8,
)
    requires
        field_fits(shift, width),
        field_fits(shift2, width2),
        disjoint(shift, width, shift2, width2),
    ensures
        #[trigger] bits(put_bits(byte, shift, width, value), shift2, width2) == bits(
            byte,
            shift2,
            width2,
        ),
{
    let m = low_mask(width);
    let m2 = low_mask(width2);
    assert((((byte & !(m << shift)) | ((value & m) << shift)) >> shift2) & m2 == (byte >> shift2)
        & m2) by (bit_vector)
        requires
            1 <= width,
            shift + width <= 8,
            1 <= width2,
            shift2 + width2 <= 8,
            shift + width <= shift2 || shift2 + width2 <= shift,
            m == (if width >= 8 {
                0xffu8
            } else {
                ((1u8 << width) - 1) as u8
            }),
            m2 == (if width2 >= 8 {
                0xffu8
            } else {
                ((1u8 << width2) - 1) as u8
            }),
    ;
}

/// Writing back the value that a field holds leaves the byte unchanged.
pub broadcast proof fn lemma_put_bits_read(byte: u8, shift: u8, width: u8)
    requires
        field_fits(shift, width),
    ensures
        #[trigger] put_bits(byte, shift, width, bits(byte, shift, width)) == byte,
{
    let m = low_mask(width);
    assert((byte & !(m << shift)) | ((((byte >> shift) & m) & m) << shift) == byte) by (bit_vector)
        requires
            1 <= width,
            shift + width <= 8,
            m == (if width >= 8 {
                0xffu8
            } else {
                ((1u8 << width) - 1) as u8
            }),
    ;
}

/// The masks of the widths of a byte.
pub proof fn lemma_low_mask_values()
    ensures
        low_mask(1) == 0x01,
        low_mask(2) == 0x03,
        low_mask(3) == 0x07,
        low_mask(4) == 0x0f,
        low_mask(5) == 0x1f,
        low_mask(6) == 0x3f,
        low_mask(7) == 0x7f,
        low_mask(8) == 0xff,
{
    assert(low_mask(1) == 0x01 && low_mask(2) == 0x03 && low_mask(3) == 0x07 && low_mask(4) == 0x0f
        && low_mask(5) == 0x1f && low_mask(6) == 0x3f && low_mask(7) == 0x7f && low_mask(8)
        == 0xff) by (bit_vector);
}

/// A field holds no more than its mask.
pub broadcast proof fn lemma_bits_le_mask(byte: u8, shift: u8, width: u8)
    requires
        field_fits(shift, width),
    ensures
        #[trigger] bits(byte, shift, width) <= low_mask(width),
{
    let m = low_mask(width);
    assert((byte >> shift) & m <= m) by (bit_vector);
}

/// A value no greater than a mask is kept whole by it.
pub broadcast proof fn lemma_and_low_mask(value: u8, width: u8)
    requires
        1 <= width <= 8,
        value <= low_mask(width),
    ensures
        #[trigger] (value & low_mask(width)) == value,
{
    let m = low_mask(width);
    assert(value <= m ==> value & m == value) by (bit_vector)
        requires
            m == (if width >= 8 {
                0xffu8
            } else {
                ((1u8 << width) - 1) as u8
            }),
            1 <= width <= 8,
    ;
}

/// A flag reads back as written.
pub broadcast proof fn lemma_flag_put_same(byte: u8, index: u8, value: bool)
    requires
        index < 8,
    ensures
        #[trigger] flag(put_flag(byte, index, value), index) == value,
{
    lemma_bits_put_same(byte, index, 1, bool_bit(value));
    lemma_low_mask_values();
    assert(bool_bit(value) & 1 == bool_bit(value)) by (bit_vector);
}

/// Writing a flag keeps every field that does not hold it.
pub broadcast proof fn lemma_bits_put_flag_other(
    byte: u8,
    index: u8,
    value: bool,
    shift: u8,
    width: u8,
)
    requires
        index < 8,
        field_fits(shift, width),
        disjoint(index, 1, shift, width),
    ensures
        #[trigger] bits(put_flag(byte, index, value), shift, width) == bits(byte, shift, width),
{
    lemma_bits_put_other(byte, index, 1, bool_bit(value), shift, width);
}

/// Writing a field keeps every flag that it does not hold.
pub broadcast proof fn lemma_flag_put_bits_other(
    byte: u8,
    shift: u8,
    width: u8,
    value: u8,
    index: u8,
)
    requires
        index < 8,
        field_fits(shift, width),
        disjoint(shift, width, index, 1),
    ensures
        #[trigger] flag(put_bits(byte, shift, width, value), index) == flag(byte, index),
{
    lemma_bits_put_other(byte, shift, width, value, index, 1);
}

/// Writing a flag keeps the other flags.
pub broadcast proof fn lemma_flag_put_flag_other(byte: u8, index: u8, value: bool, index2: u8)
    requires
        index < 8,
        index2 < 8,
        index != index2,
    ensures
        #[trigger] flag(put_flag(byte, index, value), index2) == flag(byte, index2),
{
    lemma_bits_put_other(byte, index, 1, bool_bit(value), index2, 1);
}

/// Writing back the flag that a byte holds leaves the byte unchanged.
pub broadcast proof fn lemma_put_flag_read(byte: u8, index: u8)
    requires
        index < 8,
    ensures
        #[trigger] put_flag(byte, index, flag(byte, index)) == byte,
{
    lemma_put_bits_read(byte, index, 1);
    lemma_bits_le_mask(byte, index, 1);
    lemma_low_mask_values();
}

/// Writing into a flag the value that it already holds changes nothing.
pub broadcast proof fn lemma_put_flag_held(byte: u8, index: u8, value: bool)
    requires
        index < 8,
        flag(byte, index) == value,
    ensures
        #[trigger] put_flag(byte, index, value) == byte,
{
    lemma_put_flag_read(byte, index);
}

/// The laws of the byte fields, for use by the frame proofs.
pub broadcast group group_bitfield_laws {
    lemma_bits_put_same,
    lemma_bits_put_other,
    lemma_put_bits_read,
    lemma_bits_le_mask,
    lemma_and_low_mask,
    lemma_flag_put_same,
    lemma_bits_put_flag_other,
    lemma_flag_put_bits_other,
    lemma_flag_put_flag_other,
    lemma_put_flag_read,
    lemma_put_flag_held,
}


/// The value of the mask of the `width` low bits of a byte.
pub proof fn lemma_low_mask_formula(width: u8)
    ensures
        low_mask(width) == (if width >= 8 {
            0xffu8
        } else {
            ((1u8 << width) - 1) as u8
        }),
{
}

/// The value of a field of a byte, in bitwise operations.
pub proof fn lemma_bits_formula(byte: u8, shift: u8, width: u8)
    ensures
        bits(byte, shift, width) == (byte >> shift) & low_mask(width),
{
}

/// The byte that writing a field gives, in bitwise operations.
pub proof fn lemma_put_bits_formula(byte: u8, shift: u8, width: u8, value: u8)
    ensures
        put_bits(byte, shift, width, value) == (byte & !(low_mask(width) << shift)) | ((value
            & low_mask(width)) << shift),
{
}

/// The value of a flag of a byte, in bitwise operations.
pub proof fn lemma_flag_formula(byte: u8, index: u8)
    requires
        index < 8,
    ensures
        flag(byte, index) == (byte & (1u8 << index) != 0),
{
    lemma_low_mask_values();
    assert((((byte >> index) & 1) == 1) == (byte & (1u8 << index) != 0)) by (bit_vector)
        requires
            index < 8,
    ;
}

/// Each flag of a byte, as the bit that a mask selects.
pub proof fn lemma_flag_masks(byte: u8)
    ensures
        flag(byte, 0) == ((byte & 0x01) != 0),
        flag(byte, 1) == ((byte & 0x02) != 0),
        flag(byte, 2) == ((byte & 0x04) != 0),
        flag(byte, 3) == ((byte & 0x08) != 0),
        flag(byte, 4) == ((byte & 0x10) != 0),
        flag(byte, 5) == ((byte & 0x20) != 0),
        flag(byte, 6) == ((byte & 0x40) != 0),
        flag(byte, 7) == ((byte & 0x80) != 0),
{
    lemma_low_mask_values();
    assert((((byte >> 0u8) & 1) == 1) == ((byte & 0x01) != 0) && (((byte >> 1u8) & 1) == 1) == ((byte & 0x02) != 0) && (((byte >> 2u8) & 1) == 1) == ((byte & 0x04) != 0) && (((byte >> 3u8) & 1) == 1)
        == ((byte & 0x08) != 0) && (((byte >> 4u8) & 1) == 1) == ((byte & 0x10) != 0) && (((byte >> 5u8) & 1) == 1) == ((byte & 0x20) != 0) && (((byte >> 6u8) & 1) == 1) == ((byte & 0x40) != 0) && (((byte >> 7u8) & 1) == 1) == ((byte & 0x80) != 0)) by (bit_vector);
}

/// The value of a flag of a byte, as its bit shifted down.
pub proof fn lemma_flag_shift(byte: u8, index: u8)
    ensures
        flag(byte, index) == (((byte >> index) & 1) == 1),
{
    lemma_low_mask_values();
}

/// The value of a field in the low bits of a byte, in bitwise operations.
pub proof fn lemma_bits_low_formula(byte: u8, width: u8)
    ensures
        bits(byte, 0, width) == byte & low_mask(width),
{
    assert(byte >> 0u8 == byte) by (bit_vector);
}

/// The byte that writing a flag gives, in bitwise operations.
pub proof fn lemma_put_flag_formula(byte: u8, index: u8, value: bool)
    requires
        index < 8,
    ensures
        put_flag(byte, index, value) == (if value {
            byte | (1u8 << index)
        } else {
            byte & !(1u8 << index)
        }),
{
    lemma_low_mask_values();
    assert((byte & !(1u8 << index)) | ((1u8 & 1) << index) == byte | (1u8 << index)
        && (byte & !(1u8 << index)) | ((0u8 & 1) << index) == byte & !(1u8 << index))
        by (bit_vector)
        requires
            index < 8,
    ;
}

/// The mask of the `width` low bits of a 16-bit word.
pub closed spec fn low_mask16(width: u16) -> u16 {
    if width >= 16 {
        0xffff
    } else {
        ((1u16 << width) - 1) as u16
    }
}

/// The value of the `width`-bit field of `word` whose lowest bit is `shift`.
pub closed spec fn bits16(word: u16, shift: u16, width: u16) -> u16 {
    (word >> shift) & low_mask16(width)
}

/// `word` with its `width`-bit field at `shift` replaced by the low `width`
/// bits of `value`; the other bits are kept.
pub closed spec fn put_bits16(word: u16, shift: u16, width: u16, value: u16) -> u16 {
    (word & !(low_mask16(width) << shift)) | ((value & low_mask16(width)) << shift)
}

/// Whether bit `index` of `word` is set.
pub closed spec fn flag16(word: u16, index: u16) -> bool {
    bits16(word, index, 1) == 1
}

/// `word` with bit `index` set to `value`; the other bits are kept.
pub closed spec fn put_flag16(word: u16, index: u16, value: bool) -> u16 {
    put_bits16(word, index, 1, if value { 1 } else { 0 })
}

/// A field lies within a 16-bit word.
pub open spec fn field_fits16(shift: u16, width: u16) -> bool {
    1 <= width && shift + width <= 16
}

/// The executable mask of the `width` low bits of a 16-bit word.
fn mask16(width: u16) -> (m: u16)
    requires
        1 <= width <= 16,
    ensures
        m == low_mask16(width),
{
    if width >= 16 {
        0xffff
    } else {
        assert(1u16 << width >= 1) by (bit_vector)
            requires
                width < 16,
        ;
        (1u16 << width) - 1
    }
}

/// Reads the `width`-bit field of `word` at `shift`.
pub fn read_bits16(word: u16, shift: u16, width: u16) -> (r: u16)
    requires
        field_fits16(shift, width),
    ensures
        r == bits16(word, shift, width),
{
    (word >> shift) & mask16(width)
}

/// Writes the low `width` bits of `value` into the field of `word` at
/// `shift`, keeping the other bits.
pub fn write_bits16(word: u16, shift: u16, width: u16, value: u16) -> (r: u16)
    requires
        field_fits16(shift, width),
    ensures
        r == put_bits16(word, shift, width, value),
{
    let mask = mask16(width);
    (word & !(mask << shift)) | ((value & mask) << shift)
}

/// Reads bit `index` of `word`.
pub fn read_flag16(word: u16, index: u16) -> (r: bool)
    requires
        index < 16,
    ensures
        r == flag16(word, index),
{
    read_bits16(word, index, 1) == 1
}

/// Sets bit `index` of `word` to `value`.
pub fn write_flag16(word: u16, index: u16, value: bool) -> (r: u16)
    requires
        index < 16,
    ensures
        r == put_flag16(word, index, value),
{
    write_bits16(word, index, 1, if value { 1 } else { 0 })
}

/// Reading a field of a word gives back the low bits of what was written
/// into it.
pub broadcast proof fn lemma_bits16_put_same(word: u16, shift: u16, width: u16, value: u16)
    requires
        field_fits16(shift, width),
    ensures
        #[trigger] bits16(put_bits16(word, shift, width, value), shift, width) == value
            & low_mask16(width),
{
    let m = low_mask16(width);
    assert((((word & !(m << shift)) | ((value & m) << shift)) >> shift) & m == value & m)
        by (bit_vector)
        requires
            1 <= width,
            shift + width <= 16,
            m == (if width >= 16 {
                0xffffu16
            } else {
                ((1u16 << width) - 1) as u16
            }),
    ;
}

/// Writing a field of a word leaves every field that shares no bit with it
/// unchanged.
pub broadcast proof fn lemma_bits16_put_other(
    word: u16,
    shift: u16,
    width: u16,
    value: u16,
    shift2: u16,
    width2: u16,
)
    requires
        field_fits16(shift, width),
        field_fits16(shift2, width2),
        shift + width <= shift2 || shift2 + width2 <= shift,
    ensures
        #[trigger] bits16(put_bits16(word, shift, width, value), shift2, width2) == bits16(
            word,
            shift2,
            width2,
        ),
{
    let m = low_mask16(width);
    let m2 = low_mask16(width2);
    assert((((word & !(m << shift)) | ((value & m) << shift)) >> shift2) & m2 == (word >> shift2)
        & m2) by (bit_vector)
        requires
            1 <= width,
            shift + width <= 16,
            1 <= width2,
            shift2 + width2 <= 16,
            shift + width <= shift2 || shift2 + width2 <= shift,
            m == (if width >= 16 {
                0xffffu16
            } else {
                ((1u16 << width) - 1) as u16
            }),
            m2 == (if width2 >= 16 {
                0xffffu16
            } else {
                ((1u16 << width2) - 1) as u16
            }),
    ;
}

/// Writing back the value that a field of a word holds leaves the word
/// unchanged.
pub broadcast proof fn lemma_put_bits16_read(word: u16, shift: u16, width: u16)
    requires
        field_fits16(shift, width),
    ensures
        #[trigger] put_bits16(word, shift, width, bits16(word, shift, width)) == word,
{
    let m = low_mask16(width);
    assert((word & !(m << shift)) | ((((word >> shift) & m) & m) << shift) == word) by (bit_vector)
        requires
            1 <= width,
            shift + width <= 16,
            m == (if width >= 16 {
                0xffffu16
            } else {
                ((1u16 << width) - 1) as u16
            }),
    ;
}

/// A field of a word holds no more than its mask.
pub broadcast proof fn lemma_bits16_le_mask(word: u16, shift: u16, width: u16)
    requires
        field_fits16(shift, width),
    ensures
        #[trigger] bits16(word, shift, width) <= low_mask16(width),
{
    let m = low_mask16(width);
    assert((word >> shift) & m <= m) by (bit_vector);
}

/// A value no greater than a word mask is kept whole by it.
pub broadcast proof fn lemma_and_low_mask16(value: u16, width: u16)
    requires
        1 <= width <= 16,
        value <= low_mask16(width),
    ensures
        #[trigger] (value & low_mask16(width)) == value,
{
    let m = low_mask16(width);
    assert(value <= m ==> value & m == value) by (bit_vector)
        requires
            m == (if width >= 16 {
                0xffffu16
            } else {
                ((1u16 << width) - 1) as u16
            }),
            1 <= width <= 16,
    ;
}

/// The masks of some widths of a 16-bit word.
pub proof fn lemma_low_mask16_values()
    ensures
        low_mask16(1) == 0x0001,
        low_mask16(11) == 0x07ff,
        low_mask16(14) == 0x3fff,
        low_mask16(15) == 0x7fff,
{
    assert(low_mask16(1) == 0x0001 && low_mask16(11) == 0x07ff && low_mask16(14) == 0x3fff
        && low_mask16(15) == 0x7fff) by (bit_vector);
}

/// A flag of a word reads back as written, keeps the fields it does not
/// hold, and writing back the flag a word holds leaves it unchanged.
pub broadcast proof fn lemma_flag16_put(word: u16, index: u16, value: bool)
    requires
        index < 16,
    ensures
        #[trigger] flag16(put_flag16(word, index, value), index) == value,
        put_flag16(word, index, flag16(word, index)) == word,
{
    let v: u16 = if value { 1 } else { 0 };
    lemma_bits16_put_same(word, index, 1, v);
    lemma_low_mask16_values();
    assert(v & 1 == v) by (bit_vector) requires v == 0 || v == 1;
    lemma_put_bits16_read(word, index, 1);
    lemma_bits16_le_mask(word, index, 1);
}

/// Writing back the flag that a word holds leaves the word unchanged.
pub broadcast proof fn lemma_put_flag16_read(word: u16, index: u16)
    requires
        index < 16,
    ensures
        #[trigger] put_flag16(word, index, flag16(word, index)) == word,
{
    lemma_flag16_put(word, index, flag16(word, index));
}

/// Writing a flag of a word keeps every field that does not hold it.
pub broadcast proof fn lemma_bits16_put_flag_other(
    word: u16,
    index: u16,
    value: bool,
    shift: u16,
    width: u16,
)
    requires
        index < 16,
        field_fits16(shift, width),
        index + 1 <= shift || shift + width <= index,
    ensures
        #[trigger] bits16(put_flag16(word, index, value), shift, width) == bits16(word, shift, width),
{
    lemma_bits16_put_other(word, index, 1, if value { 1 } else { 0 }, shift, width);
}

/// Writing a field of a word keeps every flag that it does not hold.
pub broadcast proof fn lemma_flag16_write_other(
    word: u16,
    shift: u16,
    width: u16,
    value: u16,
    index: u16,
)
    requires
        index < 16,
        field_fits16(shift, width),
        index + 1 <= shift || shift + width <= index,
    ensures
        #[trigger] flag16(put_bits16(word, shift, width, value), index) == flag16(word, index),
{
    lemma_bits16_put_other(word, shift, width, value, index, 1);
}

/// The value of the mask of the `width` low bits of a 16-bit word.
pub proof fn lemma_low_mask16_formula(width: u16)
    ensures
        low_mask16(width) == (if width >= 16 {
            0xffffu16
        } else {
            ((1u16 << width) - 1) as u16
        }),
{
}

/// The value of a field of a word, in bitwise operations.
pub proof fn lemma_bits16_formula(word: u16, shift: u16, width: u16)
    ensures
        bits16(word, shift, width) == (word >> shift) & low_mask16(width),
{
}

/// The fields of a word that the frames use, in arithmetic: its fifteen
/// and fourteen low bits, its eleven bits above the three lowest, and its
/// highest bit.
pub proof fn lemma_bits16_arith(word: u16)
    ensures
        bits16(word, 0, 15) == word % 0x8000,
        bits16(word, 0, 14) == word % 0x4000,
        bits16(word, 3, 11) == (word / 8) % 0x800,
        flag16(word, 15) == (word >= 0x8000),
{
    lemma_low_mask16_values();
    assert((word >> 0u16) & 0x7fff == word % 0x8000 && (word >> 0u16) & 0x3fff == word % 0x4000
        && (word >> 3u16) & 0x7ff == (word / 8) % 0x800 && (((word >> 15u16) & 1) == 1) == (word
        >= 0x8000)) by (bit_vector);
}

/// The word that writing a field gives, in bitwise operations.
pub proof fn lemma_put_bits16_formula(word: u16, shift: u16, width: u16, value: u16)
    ensures
        put_bits16(word, shift, width, value) == (word & !(low_mask16(width) << shift)) | ((value
            & low_mask16(width)) << shift),
{
}

/// The value of a flag of a word, in bitwise operations.
pub proof fn lemma_flag16_formula(word: u16, index: u16)
    requires
        index < 16,
    ensures
        flag16(word, index) == (word & (1u16 << index) != 0),
{
    lemma_low_mask16_values();
    assert(((word >> index) & 1 == 1) == (word & (1u16 << index) != 0)) by (bit_vector)
        requires
            index < 16,
    ;
}

/// The word that writing a flag gives, in bitwise operations.
pub proof fn lemma_put_flag16_formula(word: u16, index: u16, value: bool)
    requires
        index < 16,
    ensures
        put_flag16(word, index, value) == (if value {
            word | (1u16 << index)
        } else {
            word & !(1u16 << index)
        }),
{
    lemma_low_mask16_values();
    assert((word & !(1u16 << index)) | ((1u16 & 1) << index) == word | (1u16 << index)
        && (word & !(1u16 << index)) | ((0u16 & 1) << index) == word & !(1u16 << index))
        by (bit_vector)
        requires
            index < 16,
    ;
}

/// The laws of the 16-bit word fields, for use by the frame proofs.
pub broadcast group group_bitfield16_laws {
    lemma_bits16_put_same,
    lemma_bits16_put_other,
    lemma_put_bits16_read,
    lemma_bits16_le_mask,
    lemma_and_low_mask16,
    lemma_flag16_put,
    lemma_put_flag16_read,
    lemma_bits16_put_flag_other,
    lemma_flag16_write_other,
}

} // verus!
