//! The x3d0 CAN frame: rear air conditioning state.
use crate::bitfield::{bits, lemma_bits_low_formula, lemma_low_mask_values, put_bits, read_bits, write_bits};
use crate::{check_frame_len, group_frame_laws, length_check, Error};
use crate::text::{decimal_text, group_occurs, occurs, push_decimal};
use vstd::prelude::*;

pub mod field;

verus! {

/// A read/write wrapper around a x3d0 CAN frame buffer.
#[derive(Debug, PartialEq, Clone)]
pub struct Frame {
    buffer: Vec<u8>,
}

impl View for Frame {
    type V = Seq<u8>;

    closed spec fn view(&self) -> Seq<u8> {
        self.buffer@
    }
}

impl AsRef<[u8]> for Frame {
    /// The bytes of the frame.
    fn as_ref(&self) -> (bytes: &[u8])
        ensures
            bytes@ == self@,
    {
        self.buffer.as_slice()
    }
}

/// Length of a x3d0 CAN frame.
pub const FRAME_LEN: usize = field::AC_5 + 1;

/// Periodicity of a x3d0 CAN frame, in milliseconds.
pub const PERIODICITY_MS: u64 = 500;

impl Frame {
    /// Create a raw octet buffer with a CAN frame structure.
    pub fn new_unchecked(buffer: Vec<u8>) -> (frame: Frame)
        ensures
            frame@ == buffer@,
    {
        Frame { buffer }
    }

    /// Shorthand for a combination of `new_unchecked` and `check_len`.
    pub fn new_checked(buffer: Vec<u8>) -> (r: Result<Frame, Error>)
        ensures
            r is Ok <==> buffer@.len() == FRAME_LEN,
            r matches Ok(frame) ==> frame@ == buffer@,
            r matches Err(e) ==> length_check(buffer@.len(), FRAME_LEN as nat) == Err::<(), Error>(e),
    {
        let frame = Self::new_unchecked(buffer);
        match frame.check_len() {
            Ok(()) => Ok(frame),
            Err(e) => Err(e),
        }
    }

    /// Ensure that no accessor method will panic if called.
    /// Returns `Err(Error::Truncated)` if the buffer is too short and
    /// `Err(Error::Overlong)` if it is too long.
    pub fn check_len(&self) -> (r: Result<(), Error>)
        ensures
            r == length_check(self@.len(), FRAME_LEN as nat),
    {
        check_frame_len(self.buffer.len(), FRAME_LEN)
    }

    /// Consume the frame, returning the underlying buffer.
    pub fn into_inner(self) -> (buffer: Vec<u8>)
        ensures
            buffer@ == self@,
    {
        self.buffer
    }

    /// Return the frame length.
    pub fn frame_len(&self) -> (len: usize)
        ensures
            len == FRAME_LEN,
    {
        FRAME_LEN
    }

    /// Return the rear left temperature value instruction field.
    pub fn rear_left_temp(&self) -> (value: u8)
        requires
            field::AC_1 < self@.len(),
        ensures
            value == bits(self@[field::AC_1 as int], 0, 5),
    {
        read_bits(self.buffer[field::AC_1], 0, 5)
    }

    /// Return the rear right temperature value instruction field.
    pub fn rear_right_temp(&self) -> (value: u8)
        requires
            field::AC_2 < self@.len(),
        ensures
            value == bits(self@[field::AC_2 as int], 0, 5),
    {
        read_bits(self.buffer[field::AC_2], 0, 5)
    }

    /// Return the rear A/C state field.
    pub fn rear_ac_state(&self) -> (value: u8)
        requires
            field::AC_3 < self@.len(),
        ensures
            value == bits(self@[field::AC_3 as int], 0, 2),
    {
        read_bits(self.buffer[field::AC_3], 0, 2)
    }

    /// Set the rear left temperature value instruction field.
    pub fn set_rear_left_temp(&mut self, value: u8)
        requires
            field::AC_1 < old(self)@.len(),
        ensures
            final(self)@ == old(self)@.update(field::AC_1 as int, put_bits(old(self)@[field::AC_1 as int], 0, 5, value)),
    {
        let raw = write_bits(self.buffer[field::AC_1], 0, 5, value);
        self.buffer.set(field::AC_1, raw);
    }

    /// Set the rear right temperature value instruction field.
    pub fn set_rear_right_temp(&mut self, value: u8)
        requires
            field::AC_2 < old(self)@.len(),
        ensures
            final(self)@ == old(self)@.update(field::AC_2 as int, put_bits(old(self)@[field::AC_2 as int], 0, 5, value)),
    {
        let raw = write_bits(self.buffer[field::AC_2], 0, 5, value);
        self.buffer.set(field::AC_2, raw);
    }

    /// Set the rear A/C state field.
    pub fn set_rear_ac_state(&mut self, value: u8)
        requires
            field::AC_3 < old(self)@.len(),
        ensures
            final(self)@ == old(self)@.update(field::AC_3 as int, put_bits(old(self)@[field::AC_3 as int], 0, 2, value)),
    {
        let raw = write_bits(self.buffer[field::AC_3], 0, 2, value);
        self.buffer.set(field::AC_3, raw);
    }
}

/// A high-level representation of a x3d0 CAN frame.
#[derive(Debug, PartialEq, Eq, Clone, Copy)]
pub struct Repr {
    pub rear_left_temp: u8,
    pub rear_right_temp: u8,
    pub rear_ac_state: u8,
}

impl Repr {
    /// The representation that the bytes of a frame carry.
    #[verifier::opaque]
    pub open spec fn from_bytes(bytes: Seq<u8>) -> Repr {
        Repr {
            rear_left_temp: bits(bytes[field::AC_1 as int], 0, 5),
            rear_right_temp: bits(bytes[field::AC_2 as int], 0, 5),
            rear_ac_state: bits(bytes[field::AC_3 as int], 0, 2),
        }
    }

    /// The bytes of a frame once `self` is emitted into them.
    pub open spec fn emit_bytes(self, bytes: Seq<u8>) -> Seq<u8> {
        bytes.update(
            field::AC_1 as int,
            put_bits(bytes[field::AC_1 as int], 0, 5, self.rear_left_temp),
        ).update(
            field::AC_2 as int,
            put_bits(bytes[field::AC_2 as int], 0, 5, self.rear_right_temp),
        ).update(
            field::AC_3 as int,
            put_bits(bytes[field::AC_3 as int], 0, 2, self.rear_ac_state),
        )
    }

    /// Every field of `self` fits in the bits that the frame gives it.
    pub open spec fn fits(self) -> bool {
        &&& self.rear_left_temp < 32
        &&& self.rear_right_temp < 32
        &&& self.rear_ac_state < 4
    }

    /// Parse a x3d0 CAN frame into its high-level representation.
    pub fn parse(frame: &Frame) -> (r: Result<Repr, Error>)
        ensures
            r is Ok <==> frame@.len() == FRAME_LEN,
            r matches Ok(repr) ==> repr == Repr::from_bytes(frame@),
            r matches Err(e) ==> length_check(frame@.len(), FRAME_LEN as nat) == Err::<(), Error>(e),
    {
        if let Err(e) = frame.check_len() {
            return Err(e);
        }
        Ok(Self::read_fields(frame))
    }

    /// The representation that the bytes of `frame` carry.
    fn read_fields(frame: &Frame) -> (repr: Repr)
        requires
            FRAME_LEN <= frame@.len(),
        ensures
            repr == Repr::from_bytes(frame@),
    {
        let repr = Repr {
            rear_left_temp: frame.rear_left_temp(),
            rear_right_temp: frame.rear_right_temp(),
            rear_ac_state: frame.rear_ac_state(),
        };
        proof {
            Repr::lemma_from_fields(repr, frame@);
        }
        repr
    }

    /// A representation whose every field holds what `bytes` carry is the
    /// representation that `bytes` carry.
    proof fn lemma_from_fields(repr: Repr, bytes: Seq<u8>)
        requires
            repr.rear_left_temp == bits(bytes[field::AC_1 as int], 0, 5),
            repr.rear_right_temp == bits(bytes[field::AC_2 as int], 0, 5),
            repr.rear_ac_state == bits(bytes[field::AC_3 as int], 0, 2),
        ensures
            repr == Repr::from_bytes(bytes),
    {
        reveal(Repr::from_bytes);
    }

    /// The text of `self`: each field by name, with its value.
    pub open spec fn text(self) -> Seq<char> {
        "x3d0\n rear_left_temp="@
            + decimal_text(self.rear_left_temp as nat)
            + "\n rear_right_temp="@
            + decimal_text(self.rear_right_temp as nat)
            + "\n rear_ac_state="@
            + decimal_text(self.rear_ac_state as nat)
            + "\n"@
    }

    /// Return the text of `self`.
    pub fn to_text(&self) -> (s: String)
        ensures
            s@ == self.text(),
    {
        let mut s = String::from_str("x3d0\n rear_left_temp=");
        push_decimal(&mut s, self.rear_left_temp as u64);
        s.append("\n rear_right_temp=");
        push_decimal(&mut s, self.rear_right_temp as u64);
        s.append("\n rear_ac_state=");
        push_decimal(&mut s, self.rear_ac_state as u64);
        s.append("\n");
        s
    }

    /// Return the length of a frame that will be emitted from this high-level representation.
    pub fn buffer_len(&self) -> (len: usize)
        ensures
            len == FRAME_LEN,
    {
        FRAME_LEN
    }

    /// Emit a high-level representation into a x3d0 CAN frame.
    pub fn emit(&self, frame: &mut Frame)
        requires
            FRAME_LEN <= old(frame)@.len(),
        ensures
            final(frame)@ == self.emit_bytes(old(frame)@),
    {
        frame.set_rear_left_temp(self.rear_left_temp);
        frame.set_rear_right_temp(self.rear_right_temp);
        frame.set_rear_ac_state(self.rear_ac_state);
    }
}

impl Frame {
    /// Return the text of the frame: that of the representation that it
    /// carries, or the error that parsing it gives.
    pub fn to_text(&self) -> (s: String)
        ensures
            s@ == (match length_check(self@.len(), FRAME_LEN as nat) {
                Ok(_) => Repr::from_bytes(self@).text(),
                Err(e) => "x3d0 ("@ + e.text() + ")"@,
            }),
    {
        match Repr::parse(self) {
            Ok(repr) => repr.to_text(),
            Err(e) => {
                let mut s = String::from_str("x3d0 (");
                s.append(e.description());
                s.append(")");
                s
            },
        }
    }
}

/// The fields that the byte at `field::AC_1` carries read back as they were written.
proof fn lemma_ac_1_parse_emit(repr: Repr, b: u8)
    requires
        repr.fits(),
    ensures
        bits(put_bits(b, 0, 5, repr.rear_left_temp), 0, 5) == repr.rear_left_temp,
{
    broadcast use group_frame_laws;

    lemma_low_mask_values();
}

/// The fields that the byte at `field::AC_2` carries read back as they were written.
proof fn lemma_ac_2_parse_emit(repr: Repr, b: u8)
    requires
        repr.fits(),
    ensures
        bits(put_bits(b, 0, 5, repr.rear_right_temp), 0, 5) == repr.rear_right_temp,
{
    broadcast use group_frame_laws;

    lemma_low_mask_values();
}

/// The fields that the byte at `field::AC_3` carries read back as they were written.
proof fn lemma_ac_3_parse_emit(repr: Repr, b: u8)
    requires
        repr.fits(),
    ensures
        bits(put_bits(b, 0, 2, repr.rear_ac_state), 0, 2) == repr.rear_ac_state,
{
    broadcast use group_frame_laws;

    lemma_low_mask_values();
}

/// Emitting a representation whose fields fit into the bytes of a frame, then
/// parsing the bytes, gives the representation back.
pub proof fn lemma_parse_emit(repr: Repr, bytes: Seq<u8>)
    requires
        repr.fits(),
        bytes.len() == FRAME_LEN,
    ensures
        Repr::from_bytes(repr.emit_bytes(bytes)) == repr,
{
    let emitted = repr.emit_bytes(bytes);
    assert(emitted[field::AC_1 as int] == put_bits(bytes[field::AC_1 as int], 0, 5, repr.rear_left_temp));
    assert(emitted[field::AC_2 as int] == put_bits(bytes[field::AC_2 as int], 0, 5, repr.rear_right_temp));
    assert(emitted[field::AC_3 as int] == put_bits(bytes[field::AC_3 as int], 0, 2, repr.rear_ac_state));
    lemma_ac_1_parse_emit(repr, bytes[field::AC_1 as int]);
    lemma_ac_2_parse_emit(repr, bytes[field::AC_2 as int]);
    lemma_ac_3_parse_emit(repr, bytes[field::AC_3 as int]);
    Repr::lemma_from_fields(repr, emitted);
}

/// Emitting the representation that the bytes of a frame carry leaves the
/// bytes unchanged.
pub proof fn lemma_emit_parse(bytes: Seq<u8>)
    requires
        bytes.len() == FRAME_LEN,
    ensures
        Repr::from_bytes(bytes).emit_bytes(bytes) == bytes,
{
    reveal(Repr::from_bytes);
    broadcast use group_frame_laws;

    lemma_low_mask_values();
}

/// Each field of a representation reads the bits of the frame that the
/// layout gives it: a word high byte first, a flag or a field through its
/// mask.
pub proof fn lemma_fields_from_bytes(bytes: Seq<u8>)
    requires
        bytes.len() == FRAME_LEN,
    ensures
        Repr::from_bytes(bytes).rear_left_temp == bytes[field::AC_1 as int] & 0x1f,
        Repr::from_bytes(bytes).rear_right_temp == bytes[field::AC_2 as int] & 0x1f,
        Repr::from_bytes(bytes).rear_ac_state == bytes[field::AC_3 as int] & 0x03,
{
    reveal(Repr::from_bytes);
    lemma_low_mask_values();
    lemma_bits_low_formula(bytes[field::AC_1 as int], 5);
    lemma_bits_low_formula(bytes[field::AC_2 as int], 5);
    lemma_bits_low_formula(bytes[field::AC_3 as int], 2);
}

/// Every representation that the bytes of a frame carry fits in the frame,
/// so that it can be emitted back.
pub proof fn lemma_parsed_fits(bytes: Seq<u8>)
    requires
        bytes.len() == FRAME_LEN,
    ensures
        Repr::from_bytes(bytes).fits(),
{
    reveal(Repr::from_bytes);
    broadcast use group_frame_laws;

    lemma_low_mask_values();
}

/// The text of a representation shows each field after its name and before
/// the name of the next field, so the fields stand in their order.
pub proof fn lemma_text_shows_fields(repr: Repr)
    ensures
        occurs("x3d0\n rear_left_temp="@ + decimal_text(repr.rear_left_temp as nat) + "\n rear_right_temp="@, repr.text()),
        occurs("\n rear_right_temp="@ + decimal_text(repr.rear_right_temp as nat) + "\n rear_ac_state="@, repr.text()),
        occurs("\n rear_ac_state="@ + decimal_text(repr.rear_ac_state as nat) + "\n"@, repr.text()),
{
    broadcast use group_occurs;

}

} // verus!
