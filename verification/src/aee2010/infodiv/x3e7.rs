//! The x3e7 CAN frame: maintenance information.
use crate::bitfield::{bits, bits16, flag, lemma_bits16_arith, lemma_bits_formula, lemma_flag_masks, lemma_low_mask16_values, lemma_low_mask_values, put_bits, put_bits16, put_flag, read_bits, read_bits16, read_flag, write_bits, write_bits16, write_flag};
use crate::endian::{be_u16, lemma_be_u16_roundtrip, put_be_u16, read_u16, write_u16};
use crate::config::DisplayMode;
use crate::{check_frame_len, group_frame_laws, length_check, Error};
use crate::text::{group_occurs, occurs, push_signed, signed_text};
use vstd::prelude::*;

pub mod field;

verus! {

/// A read/write wrapper around a x3e7 CAN frame buffer.
#[derive(Debug, PartialEq, Clone)]
pub struct Frame {
    buffer: Vec<u8>,
}

impl View for Frame {
    type V = Seq<u8>;

    closed spec fn view(&self) -> Seq<u8> {
        self.buffer@
    }
}

impl AsRef<[u8]> for Frame {
    /// The bytes of the frame.
    fn as_ref(&self) -> (bytes: &[u8])
        ensures
            bytes@ == self@,
    {
        self.buffer.as_slice()
    }
}

/// Length of a x3e7 CAN frame.
pub const FRAME_LEN: usize = field::MAINTENANCE_DISTANCE + 2;

/// Periodicity of a x3e7 CAN frame, in milliseconds.
pub const PERIODICITY_MS: u64 = 500;

impl Frame {
    /// Create a raw octet buffer with a CAN frame structure.
    pub fn new_unchecked(buffer: Vec<u8>) -> (frame: Frame)
        ensures
            frame@ == buffer@,
    {
        Frame { buffer }
    }

    /// Shorthand for a combination of `new_unchecked` and `check_len`.
    pub fn new_checked(buffer: Vec<u8>) -> (r: Result<Frame, Error>)
        ensures
            r is Ok <==> buffer@.len() == FRAME_LEN,
            r matches Ok(frame) ==> frame@ == buffer@,
            r matches Err(e) ==> length_check(buffer@.len(), FRAME_LEN as nat) == Err::<(), Error>(e),
    {
        let frame = Self::new_unchecked(buffer);
        match frame.check_len() {
            Ok(()) => Ok(frame),
            Err(e) => Err(e),
        }
    }

    /// Ensure that no accessor method will panic if called.
    /// Returns `Err(Error::Truncated)` if the buffer is too short and
    /// `Err(Error::Overlong)` if it is too long.
    pub fn check_len(&self) -> (r: Result<(), Error>)
        ensures
            r == length_check(self@.len(), FRAME_LEN as nat),
    {
        check_frame_len(self.buffer.len(), FRAME_LEN)
    }

    /// Consume the frame, returning the underlying buffer.
    pub fn into_inner(self) -> (buffer: Vec<u8>)
        ensures
            buffer@ == self@,
    {
        self.buffer
    }

    /// Return the frame length.
    pub fn frame_len(&self) -> (len: usize)
        ensures
            len == FRAME_LEN,
    {
        FRAME_LEN
    }

    /// Return the maintenance remaining distance counter is negative flag.
    pub fn distance_counter_negative(&self) -> (value: bool)
        requires
            field::FLAGS < self@.len(),
        ensures
            value == flag(self@[field::FLAGS as int], 3),
    {
        read_flag(self.buffer[field::FLAGS], 3)
    }

    /// Return the maintenance remaining distance counter display mode flag.
    pub fn distance_counter_display_mode(&self) -> (value: DisplayMode)
        requires
            field::FLAGS < self@.len(),
        ensures
            value == DisplayMode::from_raw(bits(self@[field::FLAGS as int], 4, 1)),
    {
        DisplayMode::from(read_bits(self.buffer[field::FLAGS], 4, 1))
    }

    /// Return the maintenance wrench display mode flag.
    pub fn maintenance_wrench_display_mode(&self) -> (value: DisplayMode)
        requires
            field::FLAGS < self@.len(),
        ensures
            value == DisplayMode::from_raw(bits(self@[field::FLAGS as int], 5, 1)),
    {
        DisplayMode::from(read_bits(self.buffer[field::FLAGS], 5, 1))
    }

    /// Return the maintenance remaining days counter field.
    pub fn remaining_days(&self) -> (value: u16)
        requires
            field::MAINTENANCE_DAYS + 2 <= self@.len(),
        ensures
            value == bits16(be_u16(self@, field::MAINTENANCE_DAYS as int), 3, 11),
    {
        read_bits16(read_u16(self.buffer.as_slice(), field::MAINTENANCE_DAYS), 3, 11)
    }

    /// Return the maintenance remaining distance counter field.
    pub fn remaining_distance(&self) -> (value: u16)
        requires
            field::MAINTENANCE_DISTANCE + 2 <= self@.len(),
        ensures
            value == be_u16(self@, field::MAINTENANCE_DISTANCE as int),
    {
        read_u16(self.buffer.as_slice(), field::MAINTENANCE_DISTANCE)
    }

    /// Set the maintenance remaining distance counter is negative flag.
    pub fn set_distance_counter_negative(&mut self, value: bool)
        requires
            field::FLAGS < old(self)@.len(),
        ensures
            final(self)@ == old(self)@.update(field::FLAGS as int, put_flag(old(self)@[field::FLAGS as int], 3, value)),
    {
        let raw = write_flag(self.buffer[field::FLAGS], 3, value);
        self.buffer.set(field::FLAGS, raw);
    }

    /// Set the maintenance remaining distance counter display mode flag.
    pub fn set_distance_counter_display_mode(&mut self, value: DisplayMode)
        requires
            field::FLAGS < old(self)@.len(),
        ensures
            final(self)@ == old(self)@.update(field::FLAGS as int, put_bits(old(self)@[field::FLAGS as int], 4, 1, value.raw())),
    {
        let raw = write_bits(self.buffer[field::FLAGS], 4, 1, u8::from(value));
        self.buffer.set(field::FLAGS, raw);
    }

    /// Set the maintenance wrench display mode flag.
    pub fn set_maintenance_wrench_display_mode(&mut self, value: DisplayMode)
        requires
            field::FLAGS < old(self)@.len(),
        ensures
            final(self)@ == old(self)@.update(field::FLAGS as int, put_bits(old(self)@[field::FLAGS as int], 5, 1, value.raw())),
    {
        let raw = write_bits(self.buffer[field::FLAGS], 5, 1, u8::from(value));
        self.buffer.set(field::FLAGS, raw);
    }

    /// Set the maintenance remaining days counter field.
    pub fn set_remaining_days(&mut self, value: u16)
        requires
            field::MAINTENANCE_DAYS + 2 <= old(self)@.len(),
        ensures
            final(self)@ == put_be_u16(
                old(self)@,
                field::MAINTENANCE_DAYS as int,
                put_bits16(be_u16(old(self)@, field::MAINTENANCE_DAYS as int), 3, 11, value),
            ),
    {
        let raw = read_u16(self.buffer.as_slice(), field::MAINTENANCE_DAYS);
        write_u16(&mut self.buffer, field::MAINTENANCE_DAYS, write_bits16(raw, 3, 11, value));
    }

    /// Set the maintenance remaining distance counter field.
    pub fn set_remaining_distance(&mut self, value: u16)
        requires
            field::MAINTENANCE_DISTANCE + 2 <= old(self)@.len(),
        ensures
            final(self)@ == put_be_u16(old(self)@, field::MAINTENANCE_DISTANCE as int, value),
    {
        write_u16(&mut self.buffer, field::MAINTENANCE_DISTANCE, value);
    }
}

/// The absolute value of `x`.
pub open spec fn abs(x: int) -> int {
    if x < 0 {
        -x
    } else {
        x
    }
}

/// A high-level representation of a x3e7 CAN frame.
#[derive(Debug, PartialEq, Eq, Clone)]
pub struct Repr {
    pub distance_counter_display_mode: DisplayMode,
    pub maintenance_wrench_display_mode: DisplayMode,
    pub remaining_days: i32,
    pub remaining_distance: i32,
}

impl Repr {
    /// The representation that the bytes of a frame carry: the distance
    /// field counts steps of 20 km, negated when the negative flag is set.
    pub open spec fn from_bytes(bytes: Seq<u8>) -> Repr {
        let steps = be_u16(bytes, field::MAINTENANCE_DISTANCE as int) as int;
        let signed = if flag(bytes[field::FLAGS as int], 3) {
            -steps
        } else {
            steps
        };
        Repr {
            distance_counter_display_mode: DisplayMode::from_raw(bits(bytes[field::FLAGS as int], 4, 1)),
            maintenance_wrench_display_mode: DisplayMode::from_raw(bits(bytes[field::FLAGS as int], 5, 1)),
            remaining_days: bits16(be_u16(bytes, field::MAINTENANCE_DAYS as int), 3, 11) as i32,
            remaining_distance: (signed * 20) as i32,
        }
    }

    /// The byte at `field::FLAGS` once the fields that it carries are written
    /// into `b`.
    pub open spec fn flags_byte(self, b: u8) -> u8 {
        put_bits(
            put_bits(put_flag(b, 3, self.remaining_distance < 0), 4, 1, self.distance_counter_display_mode.raw()),
            5,
            1,
            self.maintenance_wrench_display_mode.raw(),
        )
    }

    /// The raw value written to the distance field: the number of whole
    /// 20 km steps in the size of the distance, truncated to 16 bits; the
    /// sign goes to the negative flag.
    pub open spec fn distance_steps(self) -> u16 {
        (abs(self.remaining_distance as int) / 20) as u16
    }

    /// The bytes of a frame once `self` is emitted into them.
    pub open spec fn emit_bytes(self, bytes: Seq<u8>) -> Seq<u8> {
        let days = put_bits16(
            be_u16(bytes, field::MAINTENANCE_DAYS as int),
            3,
            11,
            self.remaining_days as u16,
        );
        let words = put_be_u16(
            put_be_u16(bytes, field::MAINTENANCE_DAYS as int, days),
            field::MAINTENANCE_DISTANCE as int,
            self.distance_steps(),
        );
        words.update(field::FLAGS as int, self.flags_byte(bytes[field::FLAGS as int]))
    }

    /// Parse a x3e7 CAN frame into its high-level representation.
    pub fn parse(frame: &Frame) -> (r: Result<Repr, Error>)
        ensures
            r is Ok <==> frame@.len() == FRAME_LEN,
            r matches Ok(repr) ==> repr == Repr::from_bytes(frame@),
            r matches Err(e) ==> length_check(frame@.len(), FRAME_LEN as nat) == Err::<(), Error>(e),
    {
        if let Err(e) = frame.check_len() {
            return Err(e);
        }
        let remaining_days = frame.remaining_days() as i32;
        let mut remaining_distance = frame.remaining_distance() as i32;
        if frame.distance_counter_negative() {
            remaining_distance = -remaining_distance;
        }
        Ok(Repr {
            distance_counter_display_mode: frame.distance_counter_display_mode(),
            maintenance_wrench_display_mode: frame.maintenance_wrench_display_mode(),
            remaining_days,
            remaining_distance: remaining_distance * 20,
        })
    }

    /// The text of `self`: each field by name, with its value.
    pub open spec fn text(self) -> Seq<char> {
        "x3e7\n distance_counter_display_mode="@
            + self.distance_counter_display_mode.text()
            + "\n maintenance_wrench_display_mode="@
            + self.maintenance_wrench_display_mode.text()
            + "\n remaining_days="@
            + signed_text(self.remaining_days as int)
            + "\n remaining_distance="@
            + signed_text(self.remaining_distance as int)
            + "\n"@
    }

    /// Return the text of `self`.
    pub fn to_text(&self) -> (s: String)
        ensures
            s@ == self.text(),
    {
        let mut s = String::from_str("x3e7\n distance_counter_display_mode=");
        self.distance_counter_display_mode.push_text(&mut s);
        s.append("\n maintenance_wrench_display_mode=");
        self.maintenance_wrench_display_mode.push_text(&mut s);
        s.append("\n remaining_days=");
        push_signed(&mut s, self.remaining_days as i64);
        s.append("\n remaining_distance=");
        push_signed(&mut s, self.remaining_distance as i64);
        s.append("\n");
        s
    }

    /// Return the length of a frame that will be emitted from this high-level representation.
    pub fn buffer_len(&self) -> (len: usize)
        ensures
            len == FRAME_LEN,
    {
        FRAME_LEN
    }

    /// Emit a high-level representation into a x3e7 CAN frame.
    pub fn emit(&self, frame: &mut Frame)
        requires
            FRAME_LEN <= old(frame)@.len(),
        ensures
            final(frame)@ == self.emit_bytes(old(frame)@),
    {
        let ghost bytes = frame@;
        frame.set_distance_counter_negative(self.remaining_distance < 0);
        frame.set_distance_counter_display_mode(self.distance_counter_display_mode);
        frame.set_maintenance_wrench_display_mode(self.maintenance_wrench_display_mode);
        frame.set_remaining_days(self.remaining_days as u16);
        let distance = self.remaining_distance as i64;
        let size = if distance < 0 {
            -distance
        } else {
            distance
        };
        let steps = size / 20;
        assert(steps == abs(self.remaining_distance as int) / 20);
        frame.set_remaining_distance(steps as u16);
        assert(frame@ =~= self.emit_bytes(bytes));
    }
}

impl Frame {
    /// Return the text of the frame: that of the representation that it
    /// carries, or the error that parsing it gives.
    pub fn to_text(&self) -> (s: String)
        ensures
            s@ == (match length_check(self@.len(), FRAME_LEN as nat) {
                Ok(_) => Repr::from_bytes(self@).text(),
                Err(e) => "x3e7 ("@ + e.text() + ")"@,
            }),
    {
        match Repr::parse(self) {
            Ok(repr) => repr.to_text(),
            Err(e) => {
                let mut s = String::from_str("x3e7 (");
                s.append(e.description());
                s.append(")");
                s
            },
        }
    }
}

/// Emitting a representation whose day count fits in the 11 bits of its
/// field and whose distance is a whole number of 20 km steps, at most 16
/// bits of them either way, then parsing the bytes, gives the representation
/// back.
pub proof fn lemma_parse_emit(repr: Repr, bytes: Seq<u8>)
    requires
        bytes.len() == FRAME_LEN,
        0 <= repr.remaining_days < 0x800,
        -0xffff * 20 <= repr.remaining_distance <= 0xffff * 20,
        repr.remaining_distance % 20 == 0,
    ensures
        Repr::from_bytes(repr.emit_bytes(bytes)) == repr,
{
    broadcast use group_frame_laws;

    lemma_low_mask_values();
    lemma_low_mask16_values();
    let emitted = repr.emit_bytes(bytes);
    let days = put_bits16(be_u16(bytes, field::MAINTENANCE_DAYS as int), 3, 11, repr.remaining_days as u16);
    let with_days = put_be_u16(bytes, field::MAINTENANCE_DAYS as int, days);
    lemma_be_u16_roundtrip(bytes, field::MAINTENANCE_DAYS as int, days);
    lemma_be_u16_roundtrip(with_days, field::MAINTENANCE_DISTANCE as int, repr.distance_steps());
    let words = put_be_u16(with_days, field::MAINTENANCE_DISTANCE as int, repr.distance_steps());
    assert(be_u16(emitted, field::MAINTENANCE_DAYS as int) == be_u16(words, field::MAINTENANCE_DAYS as int));
    assert(be_u16(words, field::MAINTENANCE_DAYS as int) == be_u16(with_days, field::MAINTENANCE_DAYS as int));
    assert(be_u16(emitted, field::MAINTENANCE_DISTANCE as int) == repr.distance_steps());
    assert(emitted[field::FLAGS as int] == repr.flags_byte(bytes[field::FLAGS as int]));
    assert(repr.distance_steps() as int * 20 == abs(repr.remaining_distance as int));
    assert((repr.remaining_days as u16) < 0x800);
}

/// Emitting the representation that the bytes of a frame carry leaves the
/// bytes unchanged, except for a negative flag beside a zero distance, which
/// reads as a distance of zero and is written back clear.
pub proof fn lemma_emit_parse(bytes: Seq<u8>)
    requires
        bytes.len() == FRAME_LEN,
        flag(bytes[field::FLAGS as int], 3) ==> be_u16(bytes, field::MAINTENANCE_DISTANCE as int) != 0,
    ensures
        Repr::from_bytes(bytes).emit_bytes(bytes) == bytes,
{
    broadcast use group_frame_laws;

    lemma_low_mask_values();
    lemma_low_mask16_values();
    let repr = Repr::from_bytes(bytes);
    let steps = be_u16(bytes, field::MAINTENANCE_DISTANCE as int);
    assert(repr.distance_steps() == steps);
    let days = bits16(be_u16(bytes, field::MAINTENANCE_DAYS as int), 3, 11);
    assert(repr.remaining_days as u16 == days);
    let b = bytes[field::FLAGS as int];
    assert((repr.remaining_distance < 0) == flag(b, 3));
    assert(put_flag(b, 3, repr.remaining_distance < 0) == b) by {
        crate::bitfield::lemma_put_flag_read(b, 3);
    }
    assert(repr.flags_byte(b) == b);
    let with_days = put_be_u16(bytes, field::MAINTENANCE_DAYS as int, put_bits16(be_u16(bytes, field::MAINTENANCE_DAYS as int), 3, 11, days));
    assert(with_days == bytes);
}

/// Each field of a representation reads the bits of the frame that the
/// layout gives it: a word high byte first, a flag or a field through its
/// mask.
pub proof fn lemma_fields_from_bytes(bytes: Seq<u8>)
    requires
        bytes.len() == FRAME_LEN,
    ensures
        Repr::from_bytes(bytes).distance_counter_display_mode == DisplayMode::from_raw((bytes[field::FLAGS as int] >> 4u8) & 0x01),
        Repr::from_bytes(bytes).maintenance_wrench_display_mode == DisplayMode::from_raw((bytes[field::FLAGS as int] >> 5u8) & 0x01),
        Repr::from_bytes(bytes).remaining_days as int == (bytes[field::MAINTENANCE_DAYS as int] as int * 0x100 + bytes[field::MAINTENANCE_DAYS + 1] as int) / 8 % 0x800,
        Repr::from_bytes(bytes).remaining_distance as int == (if (bytes[field::FLAGS as int] & 0x08) != 0 {
            -20 * (bytes[field::MAINTENANCE_DISTANCE as int] as int * 0x100 + bytes[field::MAINTENANCE_DISTANCE + 1] as int)
        } else {
            20 * (bytes[field::MAINTENANCE_DISTANCE as int] as int * 0x100 + bytes[field::MAINTENANCE_DISTANCE + 1] as int)
        }),
{
    lemma_low_mask_values();
    lemma_bits16_arith(be_u16(bytes, field::MAINTENANCE_DAYS as int));
    lemma_bits_formula(bytes[field::FLAGS as int], 4, 1);
    lemma_bits_formula(bytes[field::FLAGS as int], 5, 1);
    lemma_flag_masks(bytes[field::FLAGS as int]);
}

/// The text of a representation shows each field after its name and before
/// the name of the next field, so the fields stand in their order.
pub proof fn lemma_text_shows_fields(repr: Repr)
    ensures
        occurs("x3e7\n distance_counter_display_mode="@ + repr.distance_counter_display_mode.text() + "\n maintenance_wrench_display_mode="@, repr.text()),
        occurs("\n maintenance_wrench_display_mode="@ + repr.maintenance_wrench_display_mode.text() + "\n remaining_days="@, repr.text()),
        occurs("\n remaining_days="@ + signed_text(repr.remaining_days as int) + "\n remaining_distance="@, repr.text()),
        occurs("\n remaining_distance="@ + signed_text(repr.remaining_distance as int) + "\n"@, repr.text()),
{
    broadcast use group_occurs;

}

} // verus!
