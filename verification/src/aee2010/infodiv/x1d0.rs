//! The x1d0 CAN frame: fragrance diffuser state.
use crate::bitfield::{bits, flag, lemma_bits_formula, lemma_bits_low_formula, lemma_flag_masks, lemma_low_mask_values, put_bits, put_flag, read_bits, read_flag, write_bits, write_flag};
use crate::{check_frame_len, group_frame_laws, length_check, Error};
use crate::text::{bool_text, decimal_text, group_occurs, occurs, push_bool, push_decimal};
use vstd::prelude::*;

pub mod field;

verus! {

/// A read/write wrapper around a x1d0 CAN frame buffer.
#[derive(Debug, PartialEq, Clone)]
pub struct Frame {
    buffer: Vec<u8>,
}

impl View for Frame {
    type V = Seq<u8>;

    closed spec fn view(&self) -> Seq<u8> {
        self.buffer@
    }
}

impl AsRef<[u8]> for Frame {
    /// The bytes of the frame.
    fn as_ref(&self) -> (bytes: &[u8])
        ensures
            bytes@ == self@,
    {
        self.buffer.as_slice()
    }
}

/// Length of a x1d0 CAN frame.
pub const FRAME_LEN: usize = field::FRAGRANCE + 1;

/// Periodicity of a x1d0 CAN frame, in milliseconds.
pub const PERIODICITY_MS: u64 = 200;

impl Frame {
    /// Create a raw octet buffer with a CAN frame structure.
    pub fn new_unchecked(buffer: Vec<u8>) -> (frame: Frame)
        ensures
            frame@ == buffer@,
    {
        Frame { buffer }
    }

    /// Shorthand for a combination of `new_unchecked` and `check_len`.
    pub fn new_checked(buffer: Vec<u8>) -> (r: Result<Frame, Error>)
        ensures
            r is Ok <==> buffer@.len() == FRAME_LEN,
            r matches Ok(frame) ==> frame@ == buffer@,
            r matches Err(e) ==> length_check(buffer@.len(), FRAME_LEN as nat) == Err::<(), Error>(e),
    {
        let frame = Self::new_unchecked(buffer);
        match frame.check_len() {
            Ok(()) => Ok(frame),
            Err(e) => Err(e),
        }
    }

    /// Ensure that no accessor method will panic if called.
    /// Returns `Err(Error::Truncated)` if the buffer is too short and
    /// `Err(Error::Overlong)` if it is too long.
    pub fn check_len(&self) -> (r: Result<(), Error>)
        ensures
            r == length_check(self@.len(), FRAME_LEN as nat),
    {
        check_frame_len(self.buffer.len(), FRAME_LEN)
    }

    /// Consume the frame, returning the underlying buffer.
    pub fn into_inner(self) -> (buffer: Vec<u8>)
        ensures
            buffer@ == self@,
    {
        self.buffer
    }

    /// Return the frame length.
    pub fn frame_len(&self) -> (len: usize)
        ensures
            len == FRAME_LEN,
    {
        FRAME_LEN
    }

    /// Return the fragrance selection field.
    pub fn fragrance_selection(&self) -> (value: u8)
        requires
            field::FRAGRANCE < self@.len(),
        ensures
            value == bits(self@[field::FRAGRANCE as int], 0, 2),
    {
        read_bits(self.buffer[field::FRAGRANCE], 0, 2)
    }

    /// Return the fragrance diffuser enable flag.
    pub fn fragrance_diffuser_enable(&self) -> (value: bool)
        requires
            field::FRAGRANCE < self@.len(),
        ensures
            value == flag(self@[field::FRAGRANCE as int], 2),
    {
        read_flag(self.buffer[field::FRAGRANCE], 2)
    }

    /// Return the fragrance intensity field.
    pub fn fragrance_intensity(&self) -> (value: u8)
        requires
            field::FRAGRANCE < self@.len(),
        ensures
            value == bits(self@[field::FRAGRANCE as int], 3, 2),
    {
        read_bits(self.buffer[field::FRAGRANCE], 3, 2)
    }

    /// Return the fragrance cartridge type field.
    pub fn fragrance_cartridge_type(&self) -> (value: u8)
        requires
            field::FRAGRANCE < self@.len(),
        ensures
            value == bits(self@[field::FRAGRANCE as int], 5, 3),
    {
        read_bits(self.buffer[field::FRAGRANCE], 5, 3)
    }

    /// Set the fragrance selection field.
    pub fn set_fragrance_selection(&mut self, value: u8)
        requires
            field::FRAGRANCE < old(self)@.len(),
        ensures
            final(self)@ == old(self)@.update(field::FRAGRANCE as int, put_bits(old(self)@[field::FRAGRANCE as int], 0, 2, value)),
    {
        let raw = write_bits(self.buffer[field::FRAGRANCE], 0, 2, value);
        self.buffer.set(field::FRAGRANCE, raw);
    }

    /// Set the the fragrance diffuser enable flag.
    pub fn set_fragrance_diffuser_enable(&mut self, value: bool)
        requires
            field::FRAGRANCE < old(self)@.len(),
        ensures
            final(self)@ == old(self)@.update(field::FRAGRANCE as int, put_flag(old(self)@[field::FRAGRANCE as int], 2, value)),
    {
        let raw = write_flag(self.buffer[field::FRAGRANCE], 2, value);
        self.buffer.set(field::FRAGRANCE, raw);
    }

    /// Set the fragrance intensity field.
    pub fn set_fragrance_intensity(&mut self, value: u8)
        requires
            field::FRAGRANCE < old(self)@.len(),
        ensures
            final(self)@ == old(self)@.update(field::FRAGRANCE as int, put_bits(old(self)@[field::FRAGRANCE as int], 3, 2, value)),
    {
        let raw = write_bits(self.buffer[field::FRAGRANCE], 3, 2, value);
        self.buffer.set(field::FRAGRANCE, raw);
    }

    /// Set the fragrance cartridge type field.
    pub fn set_fragrance_cartridge_type(&mut self, value: u8)
        requires
            field::FRAGRANCE < old(self)@.len(),
        ensures
            final(self)@ == old(self)@.update(field::FRAGRANCE as int, put_bits(old(self)@[field::FRAGRANCE as int], 5, 3, value)),
    {
        let raw = write_bits(self.buffer[field::FRAGRANCE], 5, 3, value);
        self.buffer.set(field::FRAGRANCE, raw);
    }
}

/// A high-level representation of a x1d0 CAN frame.
#[derive(Debug, PartialEq, Eq, Clone, Copy)]
pub struct Repr {
    pub fragrance_selection: u8,
    pub fragrance_diffuser_enable: bool,
    pub fragrance_intensity: u8,
    pub fragrance_cartridge_type: u8,
}

impl Repr {
    /// The representation that the bytes of a frame carry.
    #[verifier::opaque]
    pub open spec fn from_bytes(bytes: Seq<u8>) -> Repr {
        Repr {
            fragrance_selection: bits(bytes[field::FRAGRANCE as int], 0, 2),
            fragrance_diffuser_enable: flag(bytes[field::FRAGRANCE as int], 2),
            fragrance_intensity: bits(bytes[field::FRAGRANCE as int], 3, 2),
            fragrance_cartridge_type: bits(bytes[field::FRAGRANCE as int], 5, 3),
        }
    }

    /// The byte at `field::FRAGRANCE` once the fields that it carries are written into `b`.
    pub open spec fn fragrance_byte(self, b: u8) -> u8 {
        put_bits(put_bits(put_flag(put_bits(b, 0, 2, self.fragrance_selection), 2, self.fragrance_diffuser_enable), 3, 2, self.fragrance_intensity), 5, 3, self.fragrance_cartridge_type)
    }

    /// The bytes of a frame once `self` is emitted into them.
    pub open spec fn emit_bytes(self, bytes: Seq<u8>) -> Seq<u8> {
        bytes.update(
            field::FRAGRANCE as int,
            self.fragrance_byte(bytes[field::FRAGRANCE as int]),
        )
    }

    /// Every field of `self` fits in the bits that the frame gives it.
    pub open spec fn fits(self) -> bool {
        &&& self.fragrance_selection < 4
        &&& self.fragrance_intensity < 4
        &&& self.fragrance_cartridge_type < 8
    }

    /// Parse a x1d0 CAN frame into its high-level representation.
    pub fn parse(frame: &Frame) -> (r: Result<Repr, Error>)
        ensures
            r is Ok <==> frame@.len() == FRAME_LEN,
            r matches Ok(repr) ==> repr == Repr::from_bytes(frame@),
            r matches Err(e) ==> length_check(frame@.len(), FRAME_LEN as nat) == Err::<(), Error>(e),
    {
        if let Err(e) = frame.check_len() {
            return Err(e);
        }
        Ok(Self::read_fields(frame))
    }

    /// The representation that the bytes of `frame` carry.
    fn read_fields(frame: &Frame) -> (repr: Repr)
        requires
            FRAME_LEN <= frame@.len(),
        ensures
            repr == Repr::from_bytes(frame@),
    {
        let repr = Repr {
            fragrance_selection: frame.fragrance_selection(),
            fragrance_diffuser_enable: frame.fragrance_diffuser_enable(),
            fragrance_intensity: frame.fragrance_intensity(),
            fragrance_cartridge_type: frame.fragrance_cartridge_type(),
        };
        proof {
            Repr::lemma_from_fields(repr, frame@);
        }
        repr
    }

    /// A representation whose every field holds what `bytes` carry is the
    /// representation that `bytes` carry.
    proof fn lemma_from_fields(repr: Repr, bytes: Seq<u8>)
        requires
            repr.fragrance_selection == bits(bytes[field::FRAGRANCE as int], 0, 2),
            repr.fragrance_diffuser_enable == flag(bytes[field::FRAGRANCE as int], 2),
            repr.fragrance_intensity == bits(bytes[field::FRAGRANCE as int], 3, 2),
            repr.fragrance_cartridge_type == bits(bytes[field::FRAGRANCE as int], 5, 3),
        ensures
            repr == Repr::from_bytes(bytes),
    {
        reveal(Repr::from_bytes);
    }

    /// The text of `self`: each field by name, with its value.
    pub open spec fn text(self) -> Seq<char> {
        "x1d0\n fragrance_selection="@
            + decimal_text(self.fragrance_selection as nat)
            + "\n fragrance_diffuser_enable="@
            + bool_text(self.fragrance_diffuser_enable)
            + "\n fragrance_intensity="@
            + decimal_text(self.fragrance_intensity as nat)
            + "\n fragrance_cartridge_type="@
            + decimal_text(self.fragrance_cartridge_type as nat)
            + "\n"@
    }

    /// Return the text of `self`.
    pub fn to_text(&self) -> (s: String)
        ensures
            s@ == self.text(),
    {
        let mut s = String::from_str("x1d0\n fragrance_selection=");
        push_decimal(&mut s, self.fragrance_selection as u64);
        s.append("\n fragrance_diffuser_enable=");
        push_bool(&mut s, self.fragrance_diffuser_enable);
        s.append("\n fragrance_intensity=");
        push_decimal(&mut s, self.fragrance_intensity as u64);
        s.append("\n fragrance_cartridge_type=");
        push_decimal(&mut s, self.fragrance_cartridge_type as u64);
        s.append("\n");
        s
    }

    /// Return the length of a frame that will be emitted from this high-level representation.
    pub fn buffer_len(&self) -> (len: usize)
        ensures
            len == FRAME_LEN,
    {
        FRAME_LEN
    }

    /// Emit a high-level representation into a x1d0 CAN frame.
    pub fn emit(&self, frame: &mut Frame)
        requires
            FRAME_LEN <= old(frame)@.len(),
        ensures
            final(frame)@ == self.emit_bytes(old(frame)@),
    {
        self.emit_fragrance(frame);
    }

    /// Write the fields that the byte at `field::FRAGRANCE` carries.
    fn emit_fragrance(&self, frame: &mut Frame)
        requires
            field::FRAGRANCE < old(frame)@.len(),
        ensures
            final(frame)@ == old(frame)@.update(field::FRAGRANCE as int, self.fragrance_byte(old(frame)@[field::FRAGRANCE as int])),
    {
        frame.set_fragrance_selection(self.fragrance_selection);
        frame.set_fragrance_diffuser_enable(self.fragrance_diffuser_enable);
        frame.set_fragrance_intensity(self.fragrance_intensity);
        frame.set_fragrance_cartridge_type(self.fragrance_cartridge_type);
    }
}

impl Frame {
    /// Return the text of the frame: that of the representation that it
    /// carries, or the error that parsing it gives.
    pub fn to_text(&self) -> (s: String)
        ensures
            s@ == (match length_check(self@.len(), FRAME_LEN as nat) {
                Ok(_) => Repr::from_bytes(self@).text(),
                Err(e) => "x1d0 ("@ + e.text() + ")"@,
            }),
    {
        match Repr::parse(self) {
            Ok(repr) => repr.to_text(),
            Err(e) => {
                let mut s = String::from_str("x1d0 (");
                s.append(e.description());
                s.append(")");
                s
            },
        }
    }
}

/// The fields that the byte at `field::FRAGRANCE` carries read back as they were written.
proof fn lemma_fragrance_parse_emit(repr: Repr, b: u8)
    requires
        repr.fits(),
    ensures
        bits(repr.fragrance_byte(b), 0, 2) == repr.fragrance_selection,
        flag(repr.fragrance_byte(b), 2) == repr.fragrance_diffuser_enable,
        bits(repr.fragrance_byte(b), 3, 2) == repr.fragrance_intensity,
        bits(repr.fragrance_byte(b), 5, 3) == repr.fragrance_cartridge_type,
{
    broadcast use group_frame_laws;

    lemma_low_mask_values();
}

/// Writing back the fields read from the byte at `field::FRAGRANCE` leaves it unchanged.
proof fn lemma_fragrance_emit_parse(bytes: Seq<u8>)
    requires
        bytes.len() == FRAME_LEN,
    ensures
        Repr::from_bytes(bytes).fragrance_byte(bytes[field::FRAGRANCE as int]) == bytes[field::FRAGRANCE as int],
{
    reveal(Repr::from_bytes);
    broadcast use group_frame_laws;

    lemma_low_mask_values();
}

/// Emitting a representation whose fields fit into the bytes of a frame, then
/// parsing the bytes, gives the representation back.
pub proof fn lemma_parse_emit(repr: Repr, bytes: Seq<u8>)
    requires
        repr.fits(),
        bytes.len() == FRAME_LEN,
    ensures
        Repr::from_bytes(repr.emit_bytes(bytes)) == repr,
{
    let emitted = repr.emit_bytes(bytes);
    assert(emitted[field::FRAGRANCE as int] == repr.fragrance_byte(bytes[field::FRAGRANCE as int]));
    lemma_fragrance_parse_emit(repr, bytes[field::FRAGRANCE as int]);
    Repr::lemma_from_fields(repr, emitted);
}

/// Emitting the representation that the bytes of a frame carry leaves the
/// bytes unchanged.
pub proof fn lemma_emit_parse(bytes: Seq<u8>)
    requires
        bytes.len() == FRAME_LEN,
    ensures
        Repr::from_bytes(bytes).emit_bytes(bytes) == bytes,
{
    reveal(Repr::from_bytes);
    broadcast use group_frame_laws;

    lemma_low_mask_values();
    lemma_fragrance_emit_parse(bytes);
}

/// Each field of a representation reads the bits of the frame that the
/// layout gives it: a word high byte first, a flag or a field through its
/// mask.
pub proof fn lemma_fields_from_bytes(bytes: Seq<u8>)
    requires
        bytes.len() == FRAME_LEN,
    ensures
        Repr::from_bytes(bytes).fragrance_selection == bytes[field::FRAGRANCE as int] & 0x03,
        Repr::from_bytes(bytes).fragrance_diffuser_enable == ((bytes[field::FRAGRANCE as int] & 0x04) != 0),
        Repr::from_bytes(bytes).fragrance_intensity == (bytes[field::FRAGRANCE as int] >> 3u8) & 0x03,
        Repr::from_bytes(bytes).fragrance_cartridge_type == (bytes[field::FRAGRANCE as int] >> 5u8) & 0x07,
{
    reveal(Repr::from_bytes);
    lemma_low_mask_values();
    lemma_bits_formula(bytes[field::FRAGRANCE as int], 3, 2);
    lemma_bits_formula(bytes[field::FRAGRANCE as int], 5, 3);
    lemma_bits_low_formula(bytes[field::FRAGRANCE as int], 2);
    lemma_flag_masks(bytes[field::FRAGRANCE as int]);
}

/// Every representation that the bytes of a frame carry fits in the frame,
/// so that it can be emitted back.
pub proof fn lemma_parsed_fits(bytes: Seq<u8>)
    requires
        bytes.len() == FRAME_LEN,
    ensures
        Repr::from_bytes(bytes).fits(),
{
    reveal(Repr::from_bytes);
    broadcast use group_frame_laws;

    lemma_low_mask_values();
}

/// The text of a representation shows each field after its name and before
/// the name of the next field, so the fields stand in their order.
pub proof fn lemma_text_shows_fields(repr: Repr)
    ensures
        occurs("x1d0\n fragrance_selection="@ + decimal_text(repr.fragrance_selection as nat) + "\n fragrance_diffuser_enable="@, repr.text()),
        occurs("\n fragrance_diffuser_enable="@ + bool_text(repr.fragrance_diffuser_enable) + "\n fragrance_intensity="@, repr.text()),
        occurs("\n fragrance_intensity="@ + decimal_text(repr.fragrance_intensity as nat) + "\n fragrance_cartridge_type="@, repr.text()),
        occurs("\n fragrance_cartridge_type="@ + decimal_text(repr.fragrance_cartridge_type as nat) + "\n"@, repr.text()),
{
    broadcast use group_occurs;

}

} // verus!
