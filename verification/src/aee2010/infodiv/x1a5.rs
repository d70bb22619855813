//! The x1a5 CAN frame: audio volume level.
use crate::bitfield::{bits, lemma_bits_formula, lemma_bits_low_formula, lemma_low_mask_values, put_bits, read_bits, write_bits};
use crate::vehicle::VolumeLevelOrigin;
use crate::{check_frame_len, group_frame_laws, length_check, Error};
use crate::text::{decimal_text, group_occurs, occurs, push_decimal};
use vstd::prelude::*;

pub mod field;

verus! {

/// A read/write wrapper around a x1a5 CAN frame buffer.
#[derive(Debug, PartialEq, Clone)]
pub struct Frame {
    buffer: Vec<u8>,
}

impl View for Frame {
    type V = Seq<u8>;

    closed spec fn view(&self) -> Seq<u8> {
        self.buffer@
    }
}

impl AsRef<[u8]> for Frame {
    /// The bytes of the frame.
    fn as_ref(&self) -> (bytes: &[u8])
        ensures
            bytes@ == self@,
    {
        self.buffer.as_slice()
    }
}

/// Raw x1a5 CAN frame identifier.
pub const FRAME_ID: u16 = 0x1a5;

/// Length of a x1a5 CAN frame.
pub const FRAME_LEN: usize = field::VOLUME + 1;

impl Frame {
    /// Create a raw octet buffer with a CAN frame structure.
    pub fn new_unchecked(buffer: Vec<u8>) -> (frame: Frame)
        ensures
            frame@ == buffer@,
    {
        Frame { buffer }
    }

    /// Shorthand for a combination of `new_unchecked` and `check_len`.
    pub fn new_checked(buffer: Vec<u8>) -> (r: Result<Frame, Error>)
        ensures
            r is Ok <==> buffer@.len() == FRAME_LEN,
            r matches Ok(frame) ==> frame@ == buffer@,
            r matches Err(e) ==> length_check(buffer@.len(), FRAME_LEN as nat) == Err::<(), Error>(e),
    {
        let frame = Self::new_unchecked(buffer);
        match frame.check_len() {
            Ok(()) => Ok(frame),
            Err(e) => Err(e),
        }
    }

    /// Ensure that no accessor method will panic if called.
    /// Returns `Err(Error::Truncated)` if the buffer is too short and
    /// `Err(Error::Overlong)` if it is too long.
    pub fn check_len(&self) -> (r: Result<(), Error>)
        ensures
            r == length_check(self@.len(), FRAME_LEN as nat),
    {
        check_frame_len(self.buffer.len(), FRAME_LEN)
    }

    /// Consume the frame, returning the underlying buffer.
    pub fn into_inner(self) -> (buffer: Vec<u8>)
        ensures
            buffer@ == self@,
    {
        self.buffer
    }

    /// Return the frame length.
    pub fn frame_len(&self) -> (len: usize)
        ensures
            len == FRAME_LEN,
    {
        FRAME_LEN
    }

    /// Return the audio volume level field.
    pub fn volume_level(&self) -> (value: u8)
        requires
            field::VOLUME < self@.len(),
        ensures
            value == bits(self@[field::VOLUME as int], 0, 5),
    {
        read_bits(self.buffer[field::VOLUME], 0, 5)
    }

    /// Return the audio volume level origin.
    pub fn volume_level_origin(&self) -> (value: VolumeLevelOrigin)
        requires
            field::VOLUME < self@.len(),
        ensures
            value == VolumeLevelOrigin::from_raw(bits(self@[field::VOLUME as int], 5, 3)),
    {
        VolumeLevelOrigin::from(read_bits(self.buffer[field::VOLUME], 5, 3))
    }

    /// Set the audio volume level field.
    pub fn set_volume_level(&mut self, value: u8)
        requires
            field::VOLUME < old(self)@.len(),
        ensures
            final(self)@ == old(self)@.update(field::VOLUME as int, put_bits(old(self)@[field::VOLUME as int], 0, 5, value)),
    {
        let raw = write_bits(self.buffer[field::VOLUME], 0, 5, value);
        self.buffer.set(field::VOLUME, raw);
    }

    /// Set the audio volume level origin.
    pub fn set_volume_level_origin(&mut self, value: VolumeLevelOrigin)
        requires
            field::VOLUME < old(self)@.len(),
        ensures
            final(self)@ == old(self)@.update(field::VOLUME as int, put_bits(old(self)@[field::VOLUME as int], 5, 3, value.raw())),
    {
        let raw = write_bits(self.buffer[field::VOLUME], 5, 3, u8::from(value));
        self.buffer.set(field::VOLUME, raw);
    }
}

/// A high-level representation of a x1a5 CAN frame.
#[derive(Debug, PartialEq, Eq, Clone)]
pub struct Repr {
    pub volume: u8,
    pub origin: VolumeLevelOrigin,
}

impl Repr {
    /// The representation that the bytes of a frame carry.
    #[verifier::opaque]
    pub open spec fn from_bytes(bytes: Seq<u8>) -> Repr {
        Repr {
            volume: bits(bytes[field::VOLUME as int], 0, 5),
            origin: VolumeLevelOrigin::from_raw(bits(bytes[field::VOLUME as int], 5, 3)),
        }
    }

    /// The byte at `field::VOLUME` once the fields that it carries are written into `b`.
    pub open spec fn volume_byte(self, b: u8) -> u8 {
        put_bits(put_bits(b, 0, 5, self.volume), 5, 3, self.origin.raw())
    }

    /// The bytes of a frame once `self` is emitted into them.
    pub open spec fn emit_bytes(self, bytes: Seq<u8>) -> Seq<u8> {
        bytes.update(
            field::VOLUME as int,
            self.volume_byte(bytes[field::VOLUME as int]),
        )
    }

    /// Every field of `self` fits in the bits that the frame gives it.
    pub open spec fn fits(self) -> bool {
        &&& self.volume < 32
        &&& VolumeLevelOrigin::from_raw(self.origin.raw()) == self.origin && self.origin.raw() < 8
    }

    /// Parse a x1a5 CAN frame into its high-level representation.
    pub fn parse(frame: &Frame) -> (r: Result<Repr, Error>)
        ensures
            r is Ok <==> frame@.len() == FRAME_LEN,
            r matches Ok(repr) ==> repr == Repr::from_bytes(frame@),
            r matches Err(e) ==> length_check(frame@.len(), FRAME_LEN as nat) == Err::<(), Error>(e),
    {
        if let Err(e) = frame.check_len() {
            return Err(e);
        }
        Ok(Self::read_fields(frame))
    }

    /// The representation that the bytes of `frame` carry.
    fn read_fields(frame: &Frame) -> (repr: Repr)
        requires
            FRAME_LEN <= frame@.len(),
        ensures
            repr == Repr::from_bytes(frame@),
    {
        let repr = Repr {
            volume: frame.volume_level(),
            origin: frame.volume_level_origin(),
        };
        proof {
            Repr::lemma_from_fields(repr, frame@);
        }
        repr
    }

    /// A representation whose every field holds what `bytes` carry is the
    /// representation that `bytes` carry.
    proof fn lemma_from_fields(repr: Repr, bytes: Seq<u8>)
        requires
            repr.volume == bits(bytes[field::VOLUME as int], 0, 5),
            repr.origin == VolumeLevelOrigin::from_raw(bits(bytes[field::VOLUME as int], 5, 3)),
        ensures
            repr == Repr::from_bytes(bytes),
    {
        reveal(Repr::from_bytes);
    }

    /// The text of `self`: each field by name, with its value.
    pub open spec fn text(self) -> Seq<char> {
        "x1a5 volume="@
            + decimal_text(self.volume as nat)
            + "\n origin="@
            + self.origin.text()
            + "\n"@
    }

    /// Return the text of `self`.
    pub fn to_text(&self) -> (s: String)
        ensures
            s@ == self.text(),
    {
        let mut s = String::from_str("x1a5 volume=");
        push_decimal(&mut s, self.volume as u64);
        s.append("\n origin=");
        self.origin.push_text(&mut s);
        s.append("\n");
        s
    }

    /// Return the length of a frame that will be emitted from this high-level representation.
    pub fn buffer_len(&self) -> (len: usize)
        ensures
            len == FRAME_LEN,
    {
        FRAME_LEN
    }

    /// Emit a high-level representation into a x1a5 CAN frame.
    pub fn emit(&self, frame: &mut Frame)
        requires
            FRAME_LEN <= old(frame)@.len(),
        ensures
            final(frame)@ == self.emit_bytes(old(frame)@),
    {
        self.emit_volume(frame);
    }

    /// Write the fields that the byte at `field::VOLUME` carries.
    fn emit_volume(&self, frame: &mut Frame)
        requires
            field::VOLUME < old(frame)@.len(),
        ensures
            final(frame)@ == old(frame)@.update(field::VOLUME as int, self.volume_byte(old(frame)@[field::VOLUME as int])),
    {
        frame.set_volume_level(self.volume);
        frame.set_volume_level_origin(self.origin);
    }
}

impl Frame {
    /// Return the text of the frame: that of the representation that it
    /// carries, or the error that parsing it gives.
    pub fn to_text(&self) -> (s: String)
        ensures
            s@ == (match length_check(self@.len(), FRAME_LEN as nat) {
                Ok(_) => Repr::from_bytes(self@).text(),
                Err(e) => "x1a5 ("@ + e.text() + ")"@,
            }),
    {
        match Repr::parse(self) {
            Ok(repr) => repr.to_text(),
            Err(e) => {
                let mut s = String::from_str("x1a5 (");
                s.append(e.description());
                s.append(")");
                s
            },
        }
    }
}

/// The fields that the byte at `field::VOLUME` carries read back as they were written.
proof fn lemma_volume_parse_emit(repr: Repr, b: u8)
    requires
        repr.fits(),
    ensures
        bits(repr.volume_byte(b), 0, 5) == repr.volume,
        VolumeLevelOrigin::from_raw(bits(repr.volume_byte(b), 5, 3)) == repr.origin,
{
    broadcast use group_frame_laws;

    lemma_low_mask_values();
}

/// Writing back the fields read from the byte at `field::VOLUME` leaves it unchanged.
proof fn lemma_volume_emit_parse(bytes: Seq<u8>)
    requires
        bytes.len() == FRAME_LEN,
    ensures
        Repr::from_bytes(bytes).volume_byte(bytes[field::VOLUME as int]) == bytes[field::VOLUME as int],
{
    reveal(Repr::from_bytes);
    broadcast use group_frame_laws;

    lemma_low_mask_values();
}

/// Emitting a representation whose fields fit into the bytes of a frame, then
/// parsing the bytes, gives the representation back.
pub proof fn lemma_parse_emit(repr: Repr, bytes: Seq<u8>)
    requires
        repr.fits(),
        bytes.len() == FRAME_LEN,
    ensures
        Repr::from_bytes(repr.emit_bytes(bytes)) == repr,
{
    let emitted = repr.emit_bytes(bytes);
    assert(emitted[field::VOLUME as int] == repr.volume_byte(bytes[field::VOLUME as int]));
    lemma_volume_parse_emit(repr, bytes[field::VOLUME as int]);
    Repr::lemma_from_fields(repr, emitted);
}

/// Emitting the representation that the bytes of a frame carry leaves the
/// bytes unchanged.
pub proof fn lemma_emit_parse(bytes: Seq<u8>)
    requires
        bytes.len() == FRAME_LEN,
    ensures
        Repr::from_bytes(bytes).emit_bytes(bytes) == bytes,
{
    reveal(Repr::from_bytes);
    broadcast use group_frame_laws;

    lemma_low_mask_values();
    lemma_volume_emit_parse(bytes);
}

/// The byte that an emission writes holds the volume in its five low bits
/// and the origin above them, whatever the byte held before.
pub proof fn lemma_volume_byte_value(repr: Repr, b: u8)
    requires
        repr.fits(),
    ensures
        repr.volume_byte(b) == repr.volume | (repr.origin.raw() << 5u8),
{
    let v = repr.volume;
    let o = repr.origin.raw();
    let low = put_bits(b, 0, 5, v);
    let both = put_bits(low, 5, 3, o);
    crate::bitfield::lemma_put_bits_formula(b, 0, 5, v);
    crate::bitfield::lemma_put_bits_formula(low, 5, 3, o);
    lemma_low_mask_values();
    assert(low == (b & 0xe0u8) | v) by (bit_vector)
        requires
            low == (b & !(0x1fu8 << 0u8)) | ((v & 0x1fu8) << 0u8),
            v < 32,
    ;
    assert(both == v | (o << 5u8)) by (bit_vector)
        requires
            both == (low & !(0x07u8 << 5u8)) | ((o & 0x07u8) << 5u8),
            low == (b & 0xe0u8) | v,
            v < 32,
            o < 8,
    ;
}

/// Each field of a representation reads the bits of the frame that the
/// layout gives it: a word high byte first, a flag or a field through its
/// mask.
pub proof fn lemma_fields_from_bytes(bytes: Seq<u8>)
    requires
        bytes.len() == FRAME_LEN,
    ensures
        Repr::from_bytes(bytes).volume == bytes[field::VOLUME as int] & 0x1f,
        Repr::from_bytes(bytes).origin == VolumeLevelOrigin::from_raw((bytes[field::VOLUME as int] >> 5u8) & 0x07),
{
    reveal(Repr::from_bytes);
    lemma_low_mask_values();
    lemma_bits_formula(bytes[field::VOLUME as int], 5, 3);
    lemma_bits_low_formula(bytes[field::VOLUME as int], 5);
}

/// Every representation that the bytes of a frame carry fits in the frame,
/// so that it can be emitted back.
pub proof fn lemma_parsed_fits(bytes: Seq<u8>)
    requires
        bytes.len() == FRAME_LEN,
    ensures
        Repr::from_bytes(bytes).fits(),
{
    reveal(Repr::from_bytes);
    broadcast use group_frame_laws;

    lemma_low_mask_values();
}

/// The text of a representation shows each field after its name and before
/// the name of the next field, so the fields stand in their order.
pub proof fn lemma_text_shows_fields(repr: Repr)
    ensures
        occurs("x1a5 volume="@ + decimal_text(repr.volume as nat) + "\n origin="@, repr.text()),
        occurs("\n origin="@ + repr.origin.text() + "\n"@, repr.text()),
{
    broadcast use group_occurs;

}

} // verus!
