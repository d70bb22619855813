//! The x0b6 CAN frame: fast vehicle data: engine speed, vehicle speed, trip odometer and fuel consumption.
use crate::bitfield::{bits, flag, lemma_bits_formula, lemma_flag_masks, lemma_low_mask_values, put_bits, put_flag, read_bits, read_flag, write_bits, write_flag};
use crate::endian::{be_u16, lemma_be_u16_roundtrip, put_be_u16, read_u16, write_u16};
use crate::vehicle::SpeedValidity;
use crate::{check_frame_len, group_frame_laws, length_check, Error};
use crate::text::{bool_text, decimal_text, group_occurs, occurs, push_bool, push_decimal};
use vstd::prelude::*;

pub mod field;

verus! {

/// A read/write wrapper around a x0b6 CAN frame buffer.
#[derive(Debug, PartialEq, Clone)]
pub struct Frame {
    buffer: Vec<u8>,
}

impl View for Frame {
    type V = Seq<u8>;

    closed spec fn view(&self) -> Seq<u8> {
        self.buffer@
    }
}

impl AsRef<[u8]> for Frame {
    /// The bytes of the frame.
    fn as_ref(&self) -> (bytes: &[u8])
        ensures
            bytes@ == self@,
    {
        self.buffer.as_slice()
    }
}

/// Raw x0b6 CAN frame identifier.
pub const FRAME_ID: u16 = 0x0b6;

/// Length of a x0b6 CAN frame.
pub const FRAME_LEN: usize = field::VALIDITY + 1;

/// Periodicity of a x0b6 CAN frame, in milliseconds.
pub const PERIODICITY_MS: u64 = 50;

impl Frame {
    /// Create a raw octet buffer with a CAN frame structure.
    pub fn new_unchecked(buffer: Vec<u8>) -> (frame: Frame)
        ensures
            frame@ == buffer@,
    {
        Frame { buffer }
    }

    /// Shorthand for a combination of `new_unchecked` and `check_len`.
    pub fn new_checked(buffer: Vec<u8>) -> (r: Result<Frame, Error>)
        ensures
            r is Ok <==> buffer@.len() == FRAME_LEN,
            r matches Ok(frame) ==> frame@ == buffer@,
            r matches Err(e) ==> length_check(buffer@.len(), FRAME_LEN as nat) == Err::<(), Error>(e),
    {
        let frame = Self::new_unchecked(buffer);
        match frame.check_len() {
            Ok(()) => Ok(frame),
            Err(e) => Err(e),
        }
    }

    /// Ensure that no accessor method will panic if called.
    /// Returns `Err(Error::Truncated)` if the buffer is too short and
    /// `Err(Error::Overlong)` if it is too long.
    pub fn check_len(&self) -> (r: Result<(), Error>)
        ensures
            r == length_check(self@.len(), FRAME_LEN as nat),
    {
        check_frame_len(self.buffer.len(), FRAME_LEN)
    }

    /// Consume the frame, returning the underlying buffer.
    pub fn into_inner(self) -> (buffer: Vec<u8>)
        ensures
            buffer@ == self@,
    {
        self.buffer
    }

    /// Return the frame length.
    pub fn frame_len(&self) -> (len: usize)
        ensures
            len == FRAME_LEN,
    {
        FRAME_LEN
    }

    /// Return the engine revolution per minute field in 0.1 rpm units.
    pub fn engine_rpm(&self) -> (value: u16)
        requires
            field::ENGINE_RPM + 2 <= self@.len(),
        ensures
            value == be_u16(self@, field::ENGINE_RPM as int),
    {
        read_u16(self.buffer.as_slice(), field::ENGINE_RPM)
    }

    /// Return the vehicle immediate speed measured on the driving wheels field, in 0.01 km/h.
    pub fn vehicle_immediate_speed(&self) -> (value: u16)
        requires
            field::VEHICLE_SPD + 2 <= self@.len(),
        ensures
            value == be_u16(self@, field::VEHICLE_SPD as int),
    {
        read_u16(self.buffer.as_slice(), field::VEHICLE_SPD)
    }

    /// Return the odometer value since start of vehicle field, incremented at each distance top.
    pub fn trip_odometer(&self) -> (value: u16)
        requires
            field::ODOMETER + 2 <= self@.len(),
        ensures
            value == be_u16(self@, field::ODOMETER as int),
    {
        read_u16(self.buffer.as_slice(), field::ODOMETER)
    }

    /// Return the fuel consumption since start of vehicle field.
    pub fn trip_fuel_consumption(&self) -> (value: u8)
        requires
            field::FUEL_CONSUMPTION < self@.len(),
        ensures
            value == self@[field::FUEL_CONSUMPTION as int],
    {
        self.buffer[field::FUEL_CONSUMPTION]
    }

    /// Return the vehicle speed value validity field.
    pub fn speed_validity(&self) -> (value: SpeedValidity)
        requires
            field::VALIDITY < self@.len(),
        ensures
            value == SpeedValidity::from_raw(bits(self@[field::VALIDITY as int], 3, 4)),
    {
        SpeedValidity::from(read_bits(self.buffer[field::VALIDITY], 3, 4))
    }

    /// Return the vehicle immediate speed value validity flag.
    pub fn immediate_speed_validity(&self) -> (value: bool)
        requires
            field::VALIDITY < self@.len(),
        ensures
            value == flag(self@[field::VALIDITY as int], 7),
    {
        read_flag(self.buffer[field::VALIDITY], 7)
    }

    /// Set the engine revolution per minute field in 0.1 rpm units.
    pub fn set_engine_rpm(&mut self, value: u16)
        requires
            field::ENGINE_RPM + 2 <= old(self)@.len(),
        ensures
            final(self)@ == put_be_u16(old(self)@, field::ENGINE_RPM as int, value),
    {
        write_u16(&mut self.buffer, field::ENGINE_RPM, value);
    }

    /// Set the vehicle immediate speed measured on the driving wheels field, in 0.01 km/h.
    pub fn set_vehicle_immediate_speed(&mut self, value: u16)
        requires
            field::VEHICLE_SPD + 2 <= old(self)@.len(),
        ensures
            final(self)@ == put_be_u16(old(self)@, field::VEHICLE_SPD as int, value),
    {
        write_u16(&mut self.buffer, field::VEHICLE_SPD, value);
    }

    /// Set the odometer value since start of vehicle field, incremented at each distance top.
    pub fn set_trip_odometer(&mut self, value: u16)
        requires
            field::ODOMETER + 2 <= old(self)@.len(),
        ensures
            final(self)@ == put_be_u16(old(self)@, field::ODOMETER as int, value),
    {
        write_u16(&mut self.buffer, field::ODOMETER, value);
    }

    /// Set the fuel consumption since start of vehicle field.
    pub fn set_trip_fuel_consumption(&mut self, value: u8)
        requires
            field::FUEL_CONSUMPTION < old(self)@.len(),
        ensures
            final(self)@ == old(self)@.update(field::FUEL_CONSUMPTION as int, value),
    {
        self.buffer.set(field::FUEL_CONSUMPTION, value);
    }

    /// Set the vehicle speed value validity field.
    pub fn set_speed_validity(&mut self, value: SpeedValidity)
        requires
            field::VALIDITY < old(self)@.len(),
        ensures
            final(self)@ == old(self)@.update(field::VALIDITY as int, put_bits(old(self)@[field::VALIDITY as int], 3, 4, value.raw())),
    {
        let raw = write_bits(self.buffer[field::VALIDITY], 3, 4, u8::from(value));
        self.buffer.set(field::VALIDITY, raw);
    }

    /// Set the vehicle immediate speed value validity flag.
    pub fn set_immediate_speed_validity(&mut self, value: bool)
        requires
            field::VALIDITY < old(self)@.len(),
        ensures
            final(self)@ == old(self)@.update(field::VALIDITY as int, put_flag(old(self)@[field::VALIDITY as int], 7, value)),
    {
        let raw = write_flag(self.buffer[field::VALIDITY], 7, value);
        self.buffer.set(field::VALIDITY, raw);
    }
}

/// A high-level representation of a x0b6 CAN frame.
#[derive(Debug, PartialEq, Clone, Copy)]
pub struct Repr {
    pub engine_rpm: u16,
    pub vehicle_immediate_speed: u16,
    pub trip_odometer: u16,
    pub trip_fuel_consumption: u8,
    pub speed_validity: SpeedValidity,
    pub immediate_speed_validity: bool,
}

impl Repr {
    /// The representation that the bytes of a frame carry.
    #[verifier::opaque]
    pub open spec fn from_bytes(bytes: Seq<u8>) -> Repr {
        Repr {
            engine_rpm: be_u16(bytes, field::ENGINE_RPM as int),
            vehicle_immediate_speed: be_u16(bytes, field::VEHICLE_SPD as int),
            trip_odometer: be_u16(bytes, field::ODOMETER as int),
            trip_fuel_consumption: bytes[field::FUEL_CONSUMPTION as int],
            speed_validity: SpeedValidity::from_raw(bits(bytes[field::VALIDITY as int], 3, 4)),
            immediate_speed_validity: flag(bytes[field::VALIDITY as int], 7),
        }
    }

    /// The byte at `field::VALIDITY` once the fields that it carries are written into `b`.
    pub open spec fn validity_byte(self, b: u8) -> u8 {
        put_flag(put_bits(b, 3, 4, self.speed_validity.raw()), 7, self.immediate_speed_validity)
    }

    /// The bytes of a frame once `self` is emitted into them.
    pub open spec fn emit_bytes(self, bytes: Seq<u8>) -> Seq<u8> {
        let words = put_be_u16(put_be_u16(put_be_u16(bytes, field::ENGINE_RPM as int, self.engine_rpm), field::VEHICLE_SPD as int, self.vehicle_immediate_speed), field::ODOMETER as int, self.trip_odometer);
        words.update(
            field::FUEL_CONSUMPTION as int,
            self.trip_fuel_consumption,
        ).update(
            field::VALIDITY as int,
            self.validity_byte(bytes[field::VALIDITY as int]),
        )
    }

    /// Every field of `self` fits in the bits that the frame gives it.
    pub open spec fn fits(self) -> bool {
        &&& SpeedValidity::from_raw(self.speed_validity.raw()) == self.speed_validity && self.speed_validity.raw() < 16
    }

    /// Parse a x0b6 CAN frame into its high-level representation.
    pub fn parse(frame: &Frame) -> (r: Result<Repr, Error>)
        ensures
            r is Ok <==> frame@.len() == FRAME_LEN,
            r matches Ok(repr) ==> repr == Repr::from_bytes(frame@),
            r matches Err(e) ==> length_check(frame@.len(), FRAME_LEN as nat) == Err::<(), Error>(e),
    {
        if let Err(e) = frame.check_len() {
            return Err(e);
        }
        Ok(Self::read_fields(frame))
    }

    /// The representation that the bytes of `frame` carry.
    fn read_fields(frame: &Frame) -> (repr: Repr)
        requires
            FRAME_LEN <= frame@.len(),
        ensures
            repr == Repr::from_bytes(frame@),
    {
        let repr = Repr {
            engine_rpm: frame.engine_rpm(),
            vehicle_immediate_speed: frame.vehicle_immediate_speed(),
            trip_odometer: frame.trip_odometer(),
            trip_fuel_consumption: frame.trip_fuel_consumption(),
            speed_validity: frame.speed_validity(),
            immediate_speed_validity: frame.immediate_speed_validity(),
        };
        proof {
            Repr::lemma_from_fields(repr, frame@);
        }
        repr
    }

    /// A representation whose every field holds what `bytes` carry is the
    /// representation that `bytes` carry.
    proof fn lemma_from_fields(repr: Repr, bytes: Seq<u8>)
        requires
            repr.engine_rpm == be_u16(bytes, field::ENGINE_RPM as int),
            repr.vehicle_immediate_speed == be_u16(bytes, field::VEHICLE_SPD as int),
            repr.trip_odometer == be_u16(bytes, field::ODOMETER as int),
            repr.trip_fuel_consumption == bytes[field::FUEL_CONSUMPTION as int],
            repr.speed_validity == SpeedValidity::from_raw(bits(bytes[field::VALIDITY as int], 3, 4)),
            repr.immediate_speed_validity == flag(bytes[field::VALIDITY as int], 7),
        ensures
            repr == Repr::from_bytes(bytes),
    {
        reveal(Repr::from_bytes);
    }

    /// The text of `self`: each field by name, with its value.
    pub open spec fn text(self) -> Seq<char> {
        self.text_prefix_1()
    }

    /// The first part of the text of `self`, up to part 0.
    #[verifier::opaque]
    pub open spec fn text_prefix_0(self) -> Seq<char> {
        "x0b6 engine_rpm="@
            + decimal_text(self.engine_rpm as nat)
            + "\n vehicle_immediate_speed="@
            + decimal_text(self.vehicle_immediate_speed as nat)
            + "\n trip_odometer="@
            + decimal_text(self.trip_odometer as nat)
            + "\n trip_fuel_consumption="@
            + decimal_text(self.trip_fuel_consumption as nat)
            + "\n speed_validity="@
            + self.speed_validity.text()
    }

    /// The first parts of the text of `self`, up to part 1.
    #[verifier::opaque]
    pub open spec fn text_prefix_1(self) -> Seq<char> {
        self.text_prefix_0()
            + "\n immediate_speed_validity="@
            + bool_text(self.immediate_speed_validity)
            + "\n"@
    }

    /// Return the text of `self`.
    pub fn to_text(&self) -> (s: String)
        ensures
            s@ == self.text(),
    {
        let mut s = self.text_start();
        self.push_text_part_1(&mut s);
        s
    }

    /// The first part of the text of `self`.
    fn text_start(&self) -> (s: String)
        ensures
            s@ == self.text_prefix_0(),
    {
        proof {
            reveal(Repr::text_prefix_0);
        }
        let mut s = String::from_str("x0b6 engine_rpm=");
        push_decimal(&mut s, self.engine_rpm as u64);
        s.append("\n vehicle_immediate_speed=");
        push_decimal(&mut s, self.vehicle_immediate_speed as u64);
        s.append("\n trip_odometer=");
        push_decimal(&mut s, self.trip_odometer as u64);
        s.append("\n trip_fuel_consumption=");
        push_decimal(&mut s, self.trip_fuel_consumption as u64);
        s.append("\n speed_validity=");
        self.speed_validity.push_text(&mut s);
        s
    }

    /// Appends part 1 of the text of `self`.
    fn push_text_part_1(&self, s: &mut String)
        requires
            old(s)@ == self.text_prefix_0(),
        ensures
            final(s)@ == self.text_prefix_1(),
    {
        proof {
            reveal(Repr::text_prefix_1);
        }
        s.append("\n immediate_speed_validity=");
        push_bool(s, self.immediate_speed_validity);
        s.append("\n");
    }

    /// Return the length of a frame that will be emitted from this high-level representation.
    pub fn buffer_len(&self) -> (len: usize)
        ensures
            len == FRAME_LEN,
    {
        FRAME_LEN
    }

    /// Emit a high-level representation into a x0b6 CAN frame.
    pub fn emit(&self, frame: &mut Frame)
        requires
            FRAME_LEN <= old(frame)@.len(),
        ensures
            final(frame)@ == self.emit_bytes(old(frame)@),
    {
        frame.set_engine_rpm(self.engine_rpm);
        frame.set_vehicle_immediate_speed(self.vehicle_immediate_speed);
        frame.set_trip_odometer(self.trip_odometer);
        frame.set_trip_fuel_consumption(self.trip_fuel_consumption);
        self.emit_validity(frame);
    }

    /// Write the fields that the byte at `field::VALIDITY` carries.
    fn emit_validity(&self, frame: &mut Frame)
        requires
            field::VALIDITY < old(frame)@.len(),
        ensures
            final(frame)@ == old(frame)@.update(field::VALIDITY as int, self.validity_byte(old(frame)@[field::VALIDITY as int])),
    {
        frame.set_speed_validity(self.speed_validity);
        frame.set_immediate_speed_validity(self.immediate_speed_validity);
    }
}

impl Frame {
    /// Return the text of the frame: that of the representation that it
    /// carries, or the error that parsing it gives.
    pub fn to_text(&self) -> (s: String)
        ensures
            s@ == (match length_check(self@.len(), FRAME_LEN as nat) {
                Ok(_) => Repr::from_bytes(self@).text(),
                Err(e) => "x0b6 ("@ + e.text() + ")"@,
            }),
    {
        match Repr::parse(self) {
            Ok(repr) => repr.to_text(),
            Err(e) => {
                let mut s = String::from_str("x0b6 (");
                s.append(e.description());
                s.append(")");
                s
            },
        }
    }
}

/// The fields that the byte at `field::VALIDITY` carries read back as they were written.
proof fn lemma_validity_parse_emit(repr: Repr, b: u8)
    requires
        repr.fits(),
    ensures
        SpeedValidity::from_raw(bits(repr.validity_byte(b), 3, 4)) == repr.speed_validity,
        flag(repr.validity_byte(b), 7) == repr.immediate_speed_validity,
{
    broadcast use group_frame_laws;

    lemma_low_mask_values();
}

/// Writing back the fields read from the byte at `field::VALIDITY` leaves it unchanged.
proof fn lemma_validity_emit_parse(bytes: Seq<u8>)
    requires
        bytes.len() == FRAME_LEN,
    ensures
        Repr::from_bytes(bytes).validity_byte(bytes[field::VALIDITY as int]) == bytes[field::VALIDITY as int],
{
    reveal(Repr::from_bytes);
    broadcast use group_frame_laws;

    lemma_low_mask_values();
}

/// Emitting a representation whose fields fit into the bytes of a frame, then
/// parsing the bytes, gives the representation back.
pub proof fn lemma_parse_emit(repr: Repr, bytes: Seq<u8>)
    requires
        repr.fits(),
        bytes.len() == FRAME_LEN,
    ensures
        Repr::from_bytes(repr.emit_bytes(bytes)) == repr,
{
    let emitted = repr.emit_bytes(bytes);
    assert(emitted[field::FUEL_CONSUMPTION as int] == repr.trip_fuel_consumption);
    assert(emitted[field::VALIDITY as int] == repr.validity_byte(bytes[field::VALIDITY as int]));
    lemma_be_u16_roundtrip(bytes, field::ENGINE_RPM as int, repr.engine_rpm);
    lemma_be_u16_roundtrip(put_be_u16(bytes, field::ENGINE_RPM as int, repr.engine_rpm), field::VEHICLE_SPD as int, repr.vehicle_immediate_speed);
    lemma_be_u16_roundtrip(put_be_u16(put_be_u16(bytes, field::ENGINE_RPM as int, repr.engine_rpm), field::VEHICLE_SPD as int, repr.vehicle_immediate_speed), field::ODOMETER as int, repr.trip_odometer);
    let words = put_be_u16(put_be_u16(put_be_u16(bytes, field::ENGINE_RPM as int, repr.engine_rpm), field::VEHICLE_SPD as int, repr.vehicle_immediate_speed), field::ODOMETER as int, repr.trip_odometer);
    assert(be_u16(emitted, field::ENGINE_RPM as int) == be_u16(words, field::ENGINE_RPM as int));
    assert(be_u16(emitted, field::ENGINE_RPM as int) == repr.engine_rpm);
    assert(be_u16(emitted, field::VEHICLE_SPD as int) == be_u16(words, field::VEHICLE_SPD as int));
    assert(be_u16(emitted, field::VEHICLE_SPD as int) == repr.vehicle_immediate_speed);
    assert(be_u16(emitted, field::ODOMETER as int) == be_u16(words, field::ODOMETER as int));
    assert(be_u16(emitted, field::ODOMETER as int) == repr.trip_odometer);
    lemma_validity_parse_emit(repr, bytes[field::VALIDITY as int]);
    Repr::lemma_from_fields(repr, emitted);
}

/// Emitting the representation that the bytes of a frame carry leaves the
/// bytes unchanged.
pub proof fn lemma_emit_parse(bytes: Seq<u8>)
    requires
        bytes.len() == FRAME_LEN,
    ensures
        Repr::from_bytes(bytes).emit_bytes(bytes) == bytes,
{
    reveal(Repr::from_bytes);
    broadcast use group_frame_laws;

    lemma_low_mask_values();
    lemma_validity_emit_parse(bytes);
}

/// Each field of a representation reads the bits of the frame that the
/// layout gives it: a word high byte first, a flag or a field through its
/// mask.
pub proof fn lemma_fields_from_bytes(bytes: Seq<u8>)
    requires
        bytes.len() == FRAME_LEN,
    ensures
        Repr::from_bytes(bytes).engine_rpm as int == bytes[field::ENGINE_RPM as int] as int * 0x100 + bytes[field::ENGINE_RPM + 1] as int,
        Repr::from_bytes(bytes).vehicle_immediate_speed as int == bytes[field::VEHICLE_SPD as int] as int * 0x100 + bytes[field::VEHICLE_SPD + 1] as int,
        Repr::from_bytes(bytes).trip_odometer as int == bytes[field::ODOMETER as int] as int * 0x100 + bytes[field::ODOMETER + 1] as int,
        Repr::from_bytes(bytes).trip_fuel_consumption == bytes[field::FUEL_CONSUMPTION as int],
        Repr::from_bytes(bytes).speed_validity == SpeedValidity::from_raw((bytes[field::VALIDITY as int] >> 3u8) & 0x0f),
        Repr::from_bytes(bytes).immediate_speed_validity == ((bytes[field::VALIDITY as int] & 0x80) != 0),
{
    reveal(Repr::from_bytes);
    lemma_low_mask_values();
    lemma_bits_formula(bytes[field::VALIDITY as int], 3, 4);
    lemma_flag_masks(bytes[field::VALIDITY as int]);
}

/// Every representation that the bytes of a frame carry fits in the frame,
/// so that it can be emitted back.
pub proof fn lemma_parsed_fits(bytes: Seq<u8>)
    requires
        bytes.len() == FRAME_LEN,
    ensures
        Repr::from_bytes(bytes).fits(),
{
    reveal(Repr::from_bytes);
    broadcast use group_frame_laws;

    lemma_low_mask_values();
}

/// The text of a representation shows each field after its name and before
/// the name of the next field, so the fields stand in their order.
pub proof fn lemma_text_shows_fields(repr: Repr)
    ensures
        occurs("x0b6 engine_rpm="@ + decimal_text(repr.engine_rpm as nat) + "\n vehicle_immediate_speed="@, repr.text()),
        occurs("\n vehicle_immediate_speed="@ + decimal_text(repr.vehicle_immediate_speed as nat) + "\n trip_odometer="@, repr.text()),
        occurs("\n trip_odometer="@ + decimal_text(repr.trip_odometer as nat) + "\n trip_fuel_consumption="@, repr.text()),
        occurs("\n trip_fuel_consumption="@ + decimal_text(repr.trip_fuel_consumption as nat) + "\n speed_validity="@, repr.text()),
        occurs("\n speed_validity="@ + repr.speed_validity.text() + "\n immediate_speed_validity="@, repr.text()),
        occurs("\n immediate_speed_validity="@ + bool_text(repr.immediate_speed_validity) + "\n"@, repr.text()),
{
    lemma_text_part_0_shows_fields(repr);
    lemma_text_part_1_shows_fields(repr);
    lemma_text_prefix_0_grows(repr);
}

/// Part 0 of the text of a representation shows each of its fields after
/// its name and before the name of the next field.
proof fn lemma_text_part_0_shows_fields(repr: Repr)
    ensures
        occurs("x0b6 engine_rpm="@ + decimal_text(repr.engine_rpm as nat) + "\n vehicle_immediate_speed="@, repr.text_prefix_0()),
        occurs("\n vehicle_immediate_speed="@ + decimal_text(repr.vehicle_immediate_speed as nat) + "\n trip_odometer="@, repr.text_prefix_0()),
        occurs("\n trip_odometer="@ + decimal_text(repr.trip_odometer as nat) + "\n trip_fuel_consumption="@, repr.text_prefix_0()),
        occurs("\n trip_fuel_consumption="@ + decimal_text(repr.trip_fuel_consumption as nat) + "\n speed_validity="@, repr.text_prefix_0()),
{
    reveal(Repr::text_prefix_0);
    broadcast use group_occurs;

}

/// Part 1 of the text of a representation shows each of its fields after
/// its name and before the name of the next field.
proof fn lemma_text_part_1_shows_fields(repr: Repr)
    ensures
        occurs("\n speed_validity="@ + repr.speed_validity.text() + "\n immediate_speed_validity="@, repr.text_prefix_1()),
        occurs("\n immediate_speed_validity="@ + bool_text(repr.immediate_speed_validity) + "\n"@, repr.text_prefix_1()),
{
    reveal(Repr::text_prefix_0);
    reveal(Repr::text_prefix_1);
    broadcast use group_occurs;

}

/// What occurs in the text of a representation up to part 0 occurs in its
/// text up to part 1.
proof fn lemma_text_prefix_0_grows(repr: Repr)
    ensures
        forall|t: Seq<char>| occurs(t, repr.text_prefix_0()) ==> #[trigger] occurs(t, repr.text_prefix_1()),
{
    reveal(Repr::text_prefix_1);
    broadcast use group_occurs;

}

} // verus!
