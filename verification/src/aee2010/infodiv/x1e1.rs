//! The x1e1 CAN frame: tyre under-inflation state.
use crate::bitfield::{bits, lemma_bits_formula, lemma_bits_low_formula, lemma_low_mask_values, put_bits, read_bits, write_bits};
use crate::vehicle::UnderInflationSystemState;
use crate::vehicle::WheelState;
use crate::{check_frame_len, group_frame_laws, length_check, Error};
use crate::text::{group_occurs, occurs};
use vstd::prelude::*;

pub mod field;

verus! {

/// A read/write wrapper around a x1e1 CAN frame buffer.
#[derive(Debug, PartialEq, Clone)]
pub struct Frame {
    buffer: Vec<u8>,
}

impl View for Frame {
    type V = Seq<u8>;

    closed spec fn view(&self) -> Seq<u8> {
        self.buffer@
    }
}

impl AsRef<[u8]> for Frame {
    /// The bytes of the frame.
    fn as_ref(&self) -> (bytes: &[u8])
        ensures
            bytes@ == self@,
    {
        self.buffer.as_slice()
    }
}

/// Raw x1e1 CAN frame identifier.
pub const FRAME_ID: u16 = 0x1e1;

/// Length of a x1e1 CAN frame.
pub const FRAME_LEN: usize = field::REAR_RIGHT + 1;

impl Frame {
    /// Create a raw octet buffer with a CAN frame structure.
    pub fn new_unchecked(buffer: Vec<u8>) -> (frame: Frame)
        ensures
            frame@ == buffer@,
    {
        Frame { buffer }
    }

    /// Shorthand for a combination of `new_unchecked` and `check_len`.
    pub fn new_checked(buffer: Vec<u8>) -> (r: Result<Frame, Error>)
        ensures
            r is Ok <==> buffer@.len() == FRAME_LEN,
            r matches Ok(frame) ==> frame@ == buffer@,
            r matches Err(e) ==> length_check(buffer@.len(), FRAME_LEN as nat) == Err::<(), Error>(e),
    {
        let frame = Self::new_unchecked(buffer);
        match frame.check_len() {
            Ok(()) => Ok(frame),
            Err(e) => Err(e),
        }
    }

    /// Ensure that no accessor method will panic if called.
    /// Returns `Err(Error::Truncated)` if the buffer is too short and
    /// `Err(Error::Overlong)` if it is too long.
    pub fn check_len(&self) -> (r: Result<(), Error>)
        ensures
            r == length_check(self@.len(), FRAME_LEN as nat),
    {
        check_frame_len(self.buffer.len(), FRAME_LEN)
    }

    /// Consume the frame, returning the underlying buffer.
    pub fn into_inner(self) -> (buffer: Vec<u8>)
        ensures
            buffer@ == self@,
    {
        self.buffer
    }

    /// Return the frame length.
    pub fn frame_len(&self) -> (len: usize)
        ensures
            len == FRAME_LEN,
    {
        FRAME_LEN
    }

    /// Return the front left wheel state field.
    pub fn front_left_wheel_state(&self) -> (value: WheelState)
        requires
            field::FRONT_LEFT < self@.len(),
        ensures
            value == WheelState::from_raw(bits(self@[field::FRONT_LEFT as int], 3, 5)),
    {
        WheelState::from(read_bits(self.buffer[field::FRONT_LEFT], 3, 5))
    }

    /// Return the front right wheel state field.
    pub fn front_right_wheel_state(&self) -> (value: WheelState)
        requires
            field::FRONT_RIGHT < self@.len(),
        ensures
            value == WheelState::from_raw(bits(self@[field::FRONT_RIGHT as int], 3, 5)),
    {
        WheelState::from(read_bits(self.buffer[field::FRONT_RIGHT], 3, 5))
    }

    /// Return the rear left wheel state field.
    pub fn rear_left_wheel_state(&self) -> (value: WheelState)
        requires
            field::REAR_LEFT < self@.len(),
        ensures
            value == WheelState::from_raw(bits(self@[field::REAR_LEFT as int], 3, 5)),
    {
        WheelState::from(read_bits(self.buffer[field::REAR_LEFT], 3, 5))
    }

    /// Return the rear right wheel state field.
    pub fn rear_right_wheel_state(&self) -> (value: WheelState)
        requires
            field::REAR_RIGHT < self@.len(),
        ensures
            value == WheelState::from_raw(bits(self@[field::REAR_RIGHT as int], 3, 5)),
    {
        WheelState::from(read_bits(self.buffer[field::REAR_RIGHT], 3, 5))
    }

    /// Return the under-inflation system state field.
    pub fn system_state(&self) -> (value: UnderInflationSystemState)
        requires
            field::REAR_RIGHT < self@.len(),
        ensures
            value == UnderInflationSystemState::from_raw(bits(self@[field::REAR_RIGHT as int], 0, 3)),
    {
        UnderInflationSystemState::from(read_bits(self.buffer[field::REAR_RIGHT], 0, 3))
    }

    /// Set the front left wheel state field.
    pub fn set_front_left_wheel_state(&mut self, value: WheelState)
        requires
            field::FRONT_LEFT < old(self)@.len(),
        ensures
            final(self)@ == old(self)@.update(field::FRONT_LEFT as int, put_bits(old(self)@[field::FRONT_LEFT as int], 3, 5, value.raw())),
    {
        let raw = write_bits(self.buffer[field::FRONT_LEFT], 3, 5, u8::from(value));
        self.buffer.set(field::FRONT_LEFT, raw);
    }

    /// Set the front right wheel state field.
    pub fn set_front_right_wheel_state(&mut self, value: WheelState)
        requires
            field::FRONT_RIGHT < old(self)@.len(),
        ensures
            final(self)@ == old(self)@.update(field::FRONT_RIGHT as int, put_bits(old(self)@[field::FRONT_RIGHT as int], 3, 5, value.raw())),
    {
        let raw = write_bits(self.buffer[field::FRONT_RIGHT], 3, 5, u8::from(value));
        self.buffer.set(field::FRONT_RIGHT, raw);
    }

    /// Set the rear left wheel state field.
    pub fn set_rear_left_wheel_state(&mut self, value: WheelState)
        requires
            field::REAR_LEFT < old(self)@.len(),
        ensures
            final(self)@ == old(self)@.update(field::REAR_LEFT as int, put_bits(old(self)@[field::REAR_LEFT as int], 3, 5, value.raw())),
    {
        let raw = write_bits(self.buffer[field::REAR_LEFT], 3, 5, u8::from(value));
        self.buffer.set(field::REAR_LEFT, raw);
    }

    /// Set the rear right wheel state field.
    pub fn set_rear_right_wheel_state(&mut self, value: WheelState)
        requires
            field::REAR_RIGHT < old(self)@.len(),
        ensures
            final(self)@ == old(self)@.update(field::REAR_RIGHT as int, put_bits(old(self)@[field::REAR_RIGHT as int], 3, 5, value.raw())),
    {
        let raw = write_bits(self.buffer[field::REAR_RIGHT], 3, 5, u8::from(value));
        self.buffer.set(field::REAR_RIGHT, raw);
    }

    /// Set the under-inflation system state field.
    pub fn set_system_state(&mut self, value: UnderInflationSystemState)
        requires
            field::REAR_RIGHT < old(self)@.len(),
        ensures
            final(self)@ == old(self)@.update(field::REAR_RIGHT as int, put_bits(old(self)@[field::REAR_RIGHT as int], 0, 3, value.raw())),
    {
        let raw = write_bits(self.buffer[field::REAR_RIGHT], 0, 3, u8::from(value));
        self.buffer.set(field::REAR_RIGHT, raw);
    }
}

/// A high-level representation of a x1e1 CAN frame.
#[derive(Debug, PartialEq, Eq, Clone)]
pub struct Repr {
    pub front_left_wheel_state: WheelState,
    pub front_right_wheel_state: WheelState,
    pub rear_left_wheel_state: WheelState,
    pub rear_right_wheel_state: WheelState,
    pub system_state: UnderInflationSystemState,
}

impl Repr {
    /// The representation that the bytes of a frame carry.
    #[verifier::opaque]
    pub open spec fn from_bytes(bytes: Seq<u8>) -> Repr {
        Repr {
            front_left_wheel_state: WheelState::from_raw(bits(bytes[field::FRONT_LEFT as int], 3, 5)),
            front_right_wheel_state: WheelState::from_raw(bits(bytes[field::FRONT_RIGHT as int], 3, 5)),
            rear_left_wheel_state: WheelState::from_raw(bits(bytes[field::REAR_LEFT as int], 3, 5)),
            rear_right_wheel_state: WheelState::from_raw(bits(bytes[field::REAR_RIGHT as int], 3, 5)),
            system_state: UnderInflationSystemState::from_raw(bits(bytes[field::REAR_RIGHT as int], 0, 3)),
        }
    }

    /// The byte at `field::REAR_RIGHT` once the fields that it carries are written into `b`.
    pub open spec fn rear_right_byte(self, b: u8) -> u8 {
        put_bits(put_bits(b, 3, 5, self.rear_right_wheel_state.raw()), 0, 3, self.system_state.raw())
    }

    /// The bytes of a frame once `self` is emitted into them.
    pub open spec fn emit_bytes(self, bytes: Seq<u8>) -> Seq<u8> {
        bytes.update(
            field::FRONT_LEFT as int,
            put_bits(bytes[field::FRONT_LEFT as int], 3, 5, self.front_left_wheel_state.raw()),
        ).update(
            field::FRONT_RIGHT as int,
            put_bits(bytes[field::FRONT_RIGHT as int], 3, 5, self.front_right_wheel_state.raw()),
        ).update(
            field::REAR_LEFT as int,
            put_bits(bytes[field::REAR_LEFT as int], 3, 5, self.rear_left_wheel_state.raw()),
        ).update(
            field::REAR_RIGHT as int,
            self.rear_right_byte(bytes[field::REAR_RIGHT as int]),
        )
    }

    /// Every field of `self` fits in the bits that the frame gives it.
    pub open spec fn fits(self) -> bool {
        &&& WheelState::from_raw(self.front_left_wheel_state.raw()) == self.front_left_wheel_state && self.front_left_wheel_state.raw() < 32
        &&& WheelState::from_raw(self.front_right_wheel_state.raw()) == self.front_right_wheel_state && self.front_right_wheel_state.raw() < 32
        &&& WheelState::from_raw(self.rear_left_wheel_state.raw()) == self.rear_left_wheel_state && self.rear_left_wheel_state.raw() < 32
        &&& WheelState::from_raw(self.rear_right_wheel_state.raw()) == self.rear_right_wheel_state && self.rear_right_wheel_state.raw() < 32
        &&& UnderInflationSystemState::from_raw(self.system_state.raw()) == self.system_state && self.system_state.raw() < 8
    }

    /// Parse a x1e1 CAN frame into its high-level representation.
    pub fn parse(frame: &Frame) -> (r: Result<Repr, Error>)
        ensures
            r is Ok <==> frame@.len() == FRAME_LEN,
            r matches Ok(repr) ==> repr == Repr::from_bytes(frame@),
            r matches Err(e) ==> length_check(frame@.len(), FRAME_LEN as nat) == Err::<(), Error>(e),
    {
        if let Err(e) = frame.check_len() {
            return Err(e);
        }
        Ok(Self::read_fields(frame))
    }

    /// The representation that the bytes of `frame` carry.
    fn read_fields(frame: &Frame) -> (repr: Repr)
        requires
            FRAME_LEN <= frame@.len(),
        ensures
            repr == Repr::from_bytes(frame@),
    {
        let repr = Repr {
            front_left_wheel_state: frame.front_left_wheel_state(),
            front_right_wheel_state: frame.front_right_wheel_state(),
            rear_left_wheel_state: frame.rear_left_wheel_state(),
            rear_right_wheel_state: frame.rear_right_wheel_state(),
            system_state: frame.system_state(),
        };
        proof {
            Repr::lemma_from_fields(repr, frame@);
        }
        repr
    }

    /// A representation whose every field holds what `bytes` carry is the
    /// representation that `bytes` carry.
    proof fn lemma_from_fields(repr: Repr, bytes: Seq<u8>)
        requires
            repr.front_left_wheel_state == WheelState::from_raw(bits(bytes[field::FRONT_LEFT as int], 3, 5)),
            repr.front_right_wheel_state == WheelState::from_raw(bits(bytes[field::FRONT_RIGHT as int], 3, 5)),
            repr.rear_left_wheel_state == WheelState::from_raw(bits(bytes[field::REAR_LEFT as int], 3, 5)),
            repr.rear_right_wheel_state == WheelState::from_raw(bits(bytes[field::REAR_RIGHT as int], 3, 5)),
            repr.system_state == UnderInflationSystemState::from_raw(bits(bytes[field::REAR_RIGHT as int], 0, 3)),
        ensures
            repr == Repr::from_bytes(bytes),
    {
        reveal(Repr::from_bytes);
    }

    /// The text of `self`: each field by name, with its value.
    pub open spec fn text(self) -> Seq<char> {
        "x1e1\n front_left_wheel_state="@
            + self.front_left_wheel_state.text()
            + "\n front_right_wheel_state="@
            + self.front_right_wheel_state.text()
            + "\n rear_left_wheel_state="@
            + self.rear_left_wheel_state.text()
            + "\n rear_right_wheel_state="@
            + self.rear_right_wheel_state.text()
            + "\n system_state="@
            + self.system_state.text()
            + "\n"@
    }

    /// Return the text of `self`.
    pub fn to_text(&self) -> (s: String)
        ensures
            s@ == self.text(),
    {
        let mut s = String::from_str("x1e1\n front_left_wheel_state=");
        self.front_left_wheel_state.push_text(&mut s);
        s.append("\n front_right_wheel_state=");
        self.front_right_wheel_state.push_text(&mut s);
        s.append("\n rear_left_wheel_state=");
        self.rear_left_wheel_state.push_text(&mut s);
        s.append("\n rear_right_wheel_state=");
        self.rear_right_wheel_state.push_text(&mut s);
        s.append("\n system_state=");
        self.system_state.push_text(&mut s);
        s.append("\n");
        s
    }

    /// Return the length of a frame that will be emitted from this high-level representation.
    pub fn buffer_len(&self) -> (len: usize)
        ensures
            len == FRAME_LEN,
    {
        FRAME_LEN
    }

    /// Emit a high-level representation into a x1e1 CAN frame.
    pub fn emit(&self, frame: &mut Frame)
        requires
            FRAME_LEN <= old(frame)@.len(),
        ensures
            final(frame)@ == self.emit_bytes(old(frame)@),
    {
        frame.set_front_left_wheel_state(self.front_left_wheel_state);
        frame.set_front_right_wheel_state(self.front_right_wheel_state);
        frame.set_rear_left_wheel_state(self.rear_left_wheel_state);
        self.emit_rear_right(frame);
    }

    /// Write the fields that the byte at `field::REAR_RIGHT` carries.
    fn emit_rear_right(&self, frame: &mut Frame)
        requires
            field::REAR_RIGHT < old(frame)@.len(),
        ensures
            final(frame)@ == old(frame)@.update(field::REAR_RIGHT as int, self.rear_right_byte(old(frame)@[field::REAR_RIGHT as int])),
    {
        frame.set_rear_right_wheel_state(self.rear_right_wheel_state);
        frame.set_system_state(self.system_state);
    }
}

impl Frame {
    /// Return the text of the frame: that of the representation that it
    /// carries, or the error that parsing it gives.
    pub fn to_text(&self) -> (s: String)
        ensures
            s@ == (match length_check(self@.len(), FRAME_LEN as nat) {
                Ok(_) => Repr::from_bytes(self@).text(),
                Err(e) => "x1e1 ("@ + e.text() + ")"@,
            }),
    {
        match Repr::parse(self) {
            Ok(repr) => repr.to_text(),
            Err(e) => {
                let mut s = String::from_str("x1e1 (");
                s.append(e.description());
                s.append(")");
                s
            },
        }
    }
}

/// The fields that the byte at `field::FRONT_LEFT` carries read back as they were written.
proof fn lemma_front_left_parse_emit(repr: Repr, b: u8)
    requires
        repr.fits(),
    ensures
        WheelState::from_raw(bits(put_bits(b, 3, 5, repr.front_left_wheel_state.raw()), 3, 5)) == repr.front_left_wheel_state,
{
    broadcast use group_frame_laws;

    lemma_low_mask_values();
}

/// The fields that the byte at `field::FRONT_RIGHT` carries read back as they were written.
proof fn lemma_front_right_parse_emit(repr: Repr, b: u8)
    requires
        repr.fits(),
    ensures
        WheelState::from_raw(bits(put_bits(b, 3, 5, repr.front_right_wheel_state.raw()), 3, 5)) == repr.front_right_wheel_state,
{
    broadcast use group_frame_laws;

    lemma_low_mask_values();
}

/// The fields that the byte at `field::REAR_LEFT` carries read back as they were written.
proof fn lemma_rear_left_parse_emit(repr: Repr, b: u8)
    requires
        repr.fits(),
    ensures
        WheelState::from_raw(bits(put_bits(b, 3, 5, repr.rear_left_wheel_state.raw()), 3, 5)) == repr.rear_left_wheel_state,
{
    broadcast use group_frame_laws;

    lemma_low_mask_values();
}

/// The fields that the byte at `field::REAR_RIGHT` carries read back as they were written.
proof fn lemma_rear_right_parse_emit(repr: Repr, b: u8)
    requires
        repr.fits(),
    ensures
        WheelState::from_raw(bits(repr.rear_right_byte(b), 3, 5)) == repr.rear_right_wheel_state,
        UnderInflationSystemState::from_raw(bits(repr.rear_right_byte(b), 0, 3)) == repr.system_state,
{
    broadcast use group_frame_laws;

    lemma_low_mask_values();
}

/// Writing back the fields read from the byte at `field::REAR_RIGHT` leaves it unchanged.
proof fn lemma_rear_right_emit_parse(bytes: Seq<u8>)
    requires
        bytes.len() == FRAME_LEN,
    ensures
        Repr::from_bytes(bytes).rear_right_byte(bytes[field::REAR_RIGHT as int]) == bytes[field::REAR_RIGHT as int],
{
    reveal(Repr::from_bytes);
    broadcast use group_frame_laws;

    lemma_low_mask_values();
}

/// Emitting a representation whose fields fit into the bytes of a frame, then
/// parsing the bytes, gives the representation back.
pub proof fn lemma_parse_emit(repr: Repr, bytes: Seq<u8>)
    requires
        repr.fits(),
        bytes.len() == FRAME_LEN,
    ensures
        Repr::from_bytes(repr.emit_bytes(bytes)) == repr,
{
    let emitted = repr.emit_bytes(bytes);
    assert(emitted[field::FRONT_LEFT as int] == put_bits(bytes[field::FRONT_LEFT as int], 3, 5, repr.front_left_wheel_state.raw()));
    assert(emitted[field::FRONT_RIGHT as int] == put_bits(bytes[field::FRONT_RIGHT as int], 3, 5, repr.front_right_wheel_state.raw()));
    assert(emitted[field::REAR_LEFT as int] == put_bits(bytes[field::REAR_LEFT as int], 3, 5, repr.rear_left_wheel_state.raw()));
    assert(emitted[field::REAR_RIGHT as int] == repr.rear_right_byte(bytes[field::REAR_RIGHT as int]));
    lemma_front_left_parse_emit(repr, bytes[field::FRONT_LEFT as int]);
    lemma_front_right_parse_emit(repr, bytes[field::FRONT_RIGHT as int]);
    lemma_rear_left_parse_emit(repr, bytes[field::REAR_LEFT as int]);
    lemma_rear_right_parse_emit(repr, bytes[field::REAR_RIGHT as int]);
    Repr::lemma_from_fields(repr, emitted);
}

/// Emitting the representation that the bytes of a frame carry leaves the
/// bytes unchanged.
pub proof fn lemma_emit_parse(bytes: Seq<u8>)
    requires
        bytes.len() == FRAME_LEN,
    ensures
        Repr::from_bytes(bytes).emit_bytes(bytes) == bytes,
{
    reveal(Repr::from_bytes);
    broadcast use group_frame_laws;

    lemma_low_mask_values();
    lemma_rear_right_emit_parse(bytes);
}

/// Each field of a representation reads the bits of the frame that the
/// layout gives it: a word high byte first, a flag or a field through its
/// mask.
pub proof fn lemma_fields_from_bytes(bytes: Seq<u8>)
    requires
        bytes.len() == FRAME_LEN,
    ensures
        Repr::from_bytes(bytes).front_left_wheel_state == WheelState::from_raw((bytes[field::FRONT_LEFT as int] >> 3u8) & 0x1f),
        Repr::from_bytes(bytes).front_right_wheel_state == WheelState::from_raw((bytes[field::FRONT_RIGHT as int] >> 3u8) & 0x1f),
        Repr::from_bytes(bytes).rear_left_wheel_state == WheelState::from_raw((bytes[field::REAR_LEFT as int] >> 3u8) & 0x1f),
        Repr::from_bytes(bytes).rear_right_wheel_state == WheelState::from_raw((bytes[field::REAR_RIGHT as int] >> 3u8) & 0x1f),
        Repr::from_bytes(bytes).system_state == UnderInflationSystemState::from_raw(bytes[field::REAR_RIGHT as int] & 0x07),
{
    reveal(Repr::from_bytes);
    lemma_low_mask_values();
    lemma_bits_formula(bytes[field::FRONT_LEFT as int], 3, 5);
    lemma_bits_formula(bytes[field::FRONT_RIGHT as int], 3, 5);
    lemma_bits_formula(bytes[field::REAR_LEFT as int], 3, 5);
    lemma_bits_formula(bytes[field::REAR_RIGHT as int], 3, 5);
    lemma_bits_low_formula(bytes[field::REAR_RIGHT as int], 3);
}

/// Every representation that the bytes of a frame carry fits in the frame,
/// so that it can be emitted back.
pub proof fn lemma_parsed_fits(bytes: Seq<u8>)
    requires
        bytes.len() == FRAME_LEN,
    ensures
        Repr::from_bytes(bytes).fits(),
{
    reveal(Repr::from_bytes);
    broadcast use group_frame_laws;

    lemma_low_mask_values();
}

/// The text of a representation shows each field after its name and before
/// the name of the next field, so the fields stand in their order.
pub proof fn lemma_text_shows_fields(repr: Repr)
    ensures
        occurs("x1e1\n front_left_wheel_state="@ + repr.front_left_wheel_state.text() + "\n front_right_wheel_state="@, repr.text()),
        occurs("\n front_right_wheel_state="@ + repr.front_right_wheel_state.text() + "\n rear_left_wheel_state="@, repr.text()),
        occurs("\n rear_left_wheel_state="@ + repr.rear_left_wheel_state.text() + "\n rear_right_wheel_state="@, repr.text()),
        occurs("\n rear_right_wheel_state="@ + repr.rear_right_wheel_state.text() + "\n system_state="@, repr.text()),
        occurs("\n system_state="@ + repr.system_state.text() + "\n"@, repr.text()),
{
    broadcast use group_occurs;

}

} // verus!
