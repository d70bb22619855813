//! The x350 CAN frame: front air conditioning state.
use crate::bitfield::{bits, flag, lemma_bits_formula, lemma_bits_low_formula, lemma_flag_masks, lemma_low_mask_values, put_bits, put_flag, read_bits, read_flag, write_bits, write_flag};
use crate::vehicle::ACAirDistributionPosition;
use crate::vehicle::ACAirIntakeMode;
use crate::vehicle::ACAirTemperature;
use crate::vehicle::ACFanMode2010;
use crate::vehicle::ACFanSpeed;
use crate::vehicle::ACModeRequest;
use crate::{check_frame_len, group_frame_laws, length_check, Error};
use crate::text::{bool_text, decimal_text, group_occurs, occurs, push_bool, push_decimal};
use vstd::prelude::*;

pub mod field;

verus! {

/// A read/write wrapper around a x350 CAN frame buffer.
#[derive(Debug, PartialEq, Clone)]
pub struct Frame {
    buffer: Vec<u8>,
}

impl View for Frame {
    type V = Seq<u8>;

    closed spec fn view(&self) -> Seq<u8> {
        self.buffer@
    }
}

impl AsRef<[u8]> for Frame {
    /// The bytes of the frame.
    fn as_ref(&self) -> (bytes: &[u8])
        ensures
            bytes@ == self@,
    {
        self.buffer.as_slice()
    }
}

/// Raw x350 CAN frame identifier.
pub const FRAME_ID: u16 = 0x350;

/// Length of a x350 CAN frame.
pub const FRAME_LEN: usize = field::AC_7 + 1;

/// Periodicity of a x350 CAN frame, in milliseconds.
pub const PERIODICITY_MS: u64 = 500;

impl Frame {
    /// Create a raw octet buffer with a CAN frame structure.
    pub fn new_unchecked(buffer: Vec<u8>) -> (frame: Frame)
        ensures
            frame@ == buffer@,
    {
        Frame { buffer }
    }

    /// Shorthand for a combination of `new_unchecked` and `check_len`.
    pub fn new_checked(buffer: Vec<u8>) -> (r: Result<Frame, Error>)
        ensures
            r is Ok <==> buffer@.len() == FRAME_LEN,
            r matches Ok(frame) ==> frame@ == buffer@,
            r matches Err(e) ==> length_check(buffer@.len(), FRAME_LEN as nat) == Err::<(), Error>(e),
    {
        let frame = Self::new_unchecked(buffer);
        match frame.check_len() {
            Ok(()) => Ok(frame),
            Err(e) => Err(e),
        }
    }

    /// Ensure that no accessor method will panic if called.
    /// Returns `Err(Error::Truncated)` if the buffer is too short and
    /// `Err(Error::Overlong)` if it is too long.
    pub fn check_len(&self) -> (r: Result<(), Error>)
        ensures
            r == length_check(self@.len(), FRAME_LEN as nat),
    {
        check_frame_len(self.buffer.len(), FRAME_LEN)
    }

    /// Consume the frame, returning the underlying buffer.
    pub fn into_inner(self) -> (buffer: Vec<u8>)
        ensures
            buffer@ == self@,
    {
        self.buffer
    }

    /// Return the frame length.
    pub fn frame_len(&self) -> (len: usize)
        ensures
            len == FRAME_LEN,
    {
        FRAME_LEN
    }

    /// Return the front A/C fan mode.
    pub fn front_ac_fan_mode(&self) -> (value: ACFanMode2010)
        requires
            field::AC_0 < self@.len(),
        ensures
            value == ACFanMode2010::from_raw(bits(self@[field::AC_0 as int], 0, 2)),
    {
        ACFanMode2010::from(read_bits(self.buffer[field::AC_0], 0, 2))
    }

    /// Return the A/C request field.
    pub fn ac_request(&self) -> (value: ACModeRequest)
        requires
            field::AC_0 < self@.len(),
        ensures
            value == ACModeRequest::from_raw(bits(self@[field::AC_0 as int], 2, 2)),
    {
        ACModeRequest::from(read_bits(self.buffer[field::AC_0], 2, 2))
    }

    /// Return the front left temperature field.
    pub fn front_left_temp(&self) -> (value: ACAirTemperature)
        requires
            field::AC_3 < self@.len(),
        ensures
            value == ACAirTemperature::from_raw(bits(self@[field::AC_3 as int], 0, 5)),
    {
        ACAirTemperature::from(read_bits(self.buffer[field::AC_3], 0, 5))
    }

    /// Return the mono temperature mode flag.
    pub fn mono_temp(&self) -> (value: bool)
        requires
            field::AC_3 < self@.len(),
        ensures
            value == flag(self@[field::AC_3 as int], 6),
    {
        read_flag(self.buffer[field::AC_3], 6)
    }

    /// Return the A/C max request flag.
    pub fn ac_max(&self) -> (value: bool)
        requires
            field::AC_3 < self@.len(),
        ensures
            value == flag(self@[field::AC_3 as int], 7),
    {
        read_flag(self.buffer[field::AC_3], 7)
    }

    /// Return the front right temperature field.
    pub fn front_right_temp(&self) -> (value: ACAirTemperature)
        requires
            field::AC_4 < self@.len(),
        ensures
            value == ACAirTemperature::from_raw(bits(self@[field::AC_4 as int], 0, 5)),
    {
        ACAirTemperature::from(read_bits(self.buffer[field::AC_4], 0, 5))
    }

    /// Return the front left seat ventilation request field.
    pub fn front_left_seat_ventilation(&self) -> (value: u8)
        requires
            field::AC_4 < self@.len(),
        ensures
            value == bits(self@[field::AC_4 as int], 5, 2),
    {
        read_bits(self.buffer[field::AC_4], 5, 2)
    }

    /// Return the front fan speed value field.
    pub fn front_fan_speed(&self) -> (value: ACFanSpeed)
        requires
            field::AC_5 < self@.len(),
        ensures
            value == ACFanSpeed::from_raw(bits(self@[field::AC_5 as int], 0, 4)),
    {
        ACFanSpeed::from(read_bits(self.buffer[field::AC_5], 0, 4))
    }

    /// Return the air intake mode value field.
    pub fn air_intake_mode(&self) -> (value: ACAirIntakeMode)
        requires
            field::AC_5 < self@.len(),
        ensures
            value == ACAirIntakeMode::from_raw(bits(self@[field::AC_5 as int], 4, 3)),
    {
        ACAirIntakeMode::from(read_bits(self.buffer[field::AC_5], 4, 3))
    }

    /// Return the air quality system enable flag.
    pub fn air_quality_enable(&self) -> (value: bool)
        requires
            field::AC_5 < self@.len(),
        ensures
            value == flag(self@[field::AC_5 as int], 7),
    {
        read_flag(self.buffer[field::AC_5], 7)
    }

    /// Return the front right air distribution position field.
    pub fn front_right_distribution_position(&self) -> (value: ACAirDistributionPosition)
        requires
            field::AC_6 < self@.len(),
        ensures
            value == ACAirDistributionPosition::from_raw(bits(self@[field::AC_6 as int], 0, 4)),
    {
        ACAirDistributionPosition::from(read_bits(self.buffer[field::AC_6], 0, 4))
    }

    /// Return the front left air distribution position field.
    pub fn front_left_distribution_position(&self) -> (value: ACAirDistributionPosition)
        requires
            field::AC_6 < self@.len(),
        ensures
            value == ACAirDistributionPosition::from_raw(bits(self@[field::AC_6 as int], 4, 4)),
    {
        ACAirDistributionPosition::from(read_bits(self.buffer[field::AC_6], 4, 4))
    }

    /// Return the front right seat ventilation request field.
    pub fn front_right_seat_ventilation(&self) -> (value: u8)
        requires
            field::AC_7 < self@.len(),
        ensures
            value == bits(self@[field::AC_7 as int], 1, 2),
    {
        read_bits(self.buffer[field::AC_7], 1, 2)
    }

    /// Return the front left seat heating value request field.
    pub fn front_left_seat_heating(&self) -> (value: u8)
        requires
            field::AC_7 < self@.len(),
        ensures
            value == bits(self@[field::AC_7 as int], 3, 2),
    {
        read_bits(self.buffer[field::AC_7], 3, 2)
    }

    /// Return the front right seat heating value request field.
    pub fn front_right_seat_heating(&self) -> (value: u8)
        requires
            field::AC_7 < self@.len(),
        ensures
            value == bits(self@[field::AC_7 as int], 5, 2),
    {
        read_bits(self.buffer[field::AC_7], 5, 2)
    }

    /// Return the energy saver mode enable flag.
    pub fn energy_saver_mode_enable(&self) -> (value: bool)
        requires
            field::AC_7 < self@.len(),
        ensures
            value == flag(self@[field::AC_7 as int], 7),
    {
        read_flag(self.buffer[field::AC_7], 7)
    }

    /// Set the front A/C fan mode.
    pub fn set_front_ac_fan_mode(&mut self, value: ACFanMode2010)
        requires
            field::AC_0 < old(self)@.len(),
        ensures
            final(self)@ == old(self)@.update(field::AC_0 as int, put_bits(old(self)@[field::AC_0 as int], 0, 2, value.raw())),
    {
        let raw = write_bits(self.buffer[field::AC_0], 0, 2, u8::from(value));
        self.buffer.set(field::AC_0, raw);
    }

    /// Set the A/C request field.
    pub fn set_ac_request(&mut self, value: ACModeRequest)
        requires
            field::AC_0 < old(self)@.len(),
        ensures
            final(self)@ == old(self)@.update(field::AC_0 as int, put_bits(old(self)@[field::AC_0 as int], 2, 2, value.raw())),
    {
        let raw = write_bits(self.buffer[field::AC_0], 2, 2, u8::from(value));
        self.buffer.set(field::AC_0, raw);
    }

    /// Set the front left temperature field.
    pub fn set_front_left_temp(&mut self, value: ACAirTemperature)
        requires
            field::AC_3 < old(self)@.len(),
        ensures
            final(self)@ == old(self)@.update(field::AC_3 as int, put_bits(old(self)@[field::AC_3 as int], 0, 5, value.raw())),
    {
        let raw = write_bits(self.buffer[field::AC_3], 0, 5, u8::from(value));
        self.buffer.set(field::AC_3, raw);
    }

    /// Set the mono temperature mode flag.
    pub fn set_mono_temp(&mut self, value: bool)
        requires
            field::AC_3 < old(self)@.len(),
        ensures
            final(self)@ == old(self)@.update(field::AC_3 as int, put_flag(old(self)@[field::AC_3 as int], 6, value)),
    {
        let raw = write_flag(self.buffer[field::AC_3], 6, value);
        self.buffer.set(field::AC_3, raw);
    }

    /// Set the A/C max request flag.
    pub fn set_ac_max(&mut self, value: bool)
        requires
            field::AC_3 < old(self)@.len(),
        ensures
            final(self)@ == old(self)@.update(field::AC_3 as int, put_flag(old(self)@[field::AC_3 as int], 7, value)),
    {
        let raw = write_flag(self.buffer[field::AC_3], 7, value);
        self.buffer.set(field::AC_3, raw);
    }

    /// Set the front right temperature field.
    pub fn set_front_right_temp(&mut self, value: ACAirTemperature)
        requires
            field::AC_4 < old(self)@.len(),
        ensures
            final(self)@ == old(self)@.update(field::AC_4 as int, put_bits(old(self)@[field::AC_4 as int], 0, 5, value.raw())),
    {
        let raw = write_bits(self.buffer[field::AC_4], 0, 5, u8::from(value));
        self.buffer.set(field::AC_4, raw);
    }

    /// Set the front left seat ventilation request field.
    pub fn set_front_left_seat_ventilation(&mut self, value: u8)
        requires
            field::AC_4 < old(self)@.len(),
        ensures
            final(self)@ == old(self)@.update(field::AC_4 as int, put_bits(old(self)@[field::AC_4 as int], 5, 2, value)),
    {
        let raw = write_bits(self.buffer[field::AC_4], 5, 2, value);
        self.buffer.set(field::AC_4, raw);
    }

    /// Set the front fan speed field.
    pub fn set_front_fan_speed(&mut self, value: ACFanSpeed)
        requires
            field::AC_5 < old(self)@.len(),
        ensures
            final(self)@ == old(self)@.update(field::AC_5 as int, put_bits(old(self)@[field::AC_5 as int], 0, 4, value.raw())),
    {
        let raw = write_bits(self.buffer[field::AC_5], 0, 4, u8::from(value));
        self.buffer.set(field::AC_5, raw);
    }

    /// Set the air intake mode field.
    pub fn set_air_intake_mode(&mut self, value: ACAirIntakeMode)
        requires
            field::AC_5 < old(self)@.len(),
        ensures
            final(self)@ == old(self)@.update(field::AC_5 as int, put_bits(old(self)@[field::AC_5 as int], 4, 3, value.raw())),
    {
        let raw = write_bits(self.buffer[field::AC_5], 4, 3, u8::from(value));
        self.buffer.set(field::AC_5, raw);
    }

    /// Set the air quality system enable flag.
    pub fn set_air_quality_enable(&mut self, value: bool)
        requires
            field::AC_5 < old(self)@.len(),
        ensures
            final(self)@ == old(self)@.update(field::AC_5 as int, put_flag(old(self)@[field::AC_5 as int], 7, value)),
    {
        let raw = write_flag(self.buffer[field::AC_5], 7, value);
        self.buffer.set(field::AC_5, raw);
    }

    /// Set the front right air distribution position field.
    pub fn set_front_right_distribution_position(&mut self, value: ACAirDistributionPosition)
        requires
            field::AC_6 < old(self)@.len(),
        ensures
            final(self)@ == old(self)@.update(field::AC_6 as int, put_bits(old(self)@[field::AC_6 as int], 0, 4, value.raw())),
    {
        let raw = write_bits(self.buffer[field::AC_6], 0, 4, u8::from(value));
        self.buffer.set(field::AC_6, raw);
    }

    /// Set the front left air distribution position field.
    pub fn set_front_left_distribution_position(&mut self, value: ACAirDistributionPosition)
        requires
            field::AC_6 < old(self)@.len(),
        ensures
            final(self)@ == old(self)@.update(field::AC_6 as int, put_bits(old(self)@[field::AC_6 as int], 4, 4, value.raw())),
    {
        let raw = write_bits(self.buffer[field::AC_6], 4, 4, u8::from(value));
        self.buffer.set(field::AC_6, raw);
    }

    /// Set the front right seat ventilation request field.
    pub fn set_front_right_seat_ventilation(&mut self, value: u8)
        requires
            field::AC_7 < old(self)@.len(),
        ensures
            final(self)@ == old(self)@.update(field::AC_7 as int, put_bits(old(self)@[field::AC_7 as int], 1, 2, value)),
    {
        let raw = write_bits(self.buffer[field::AC_7], 1, 2, value);
        self.buffer.set(field::AC_7, raw);
    }

    /// Set the front left seat heating value request field.
    pub fn set_front_left_seat_heating(&mut self, value: u8)
        requires
            field::AC_7 < old(self)@.len(),
        ensures
            final(self)@ == old(self)@.update(field::AC_7 as int, put_bits(old(self)@[field::AC_7 as int], 3, 2, value)),
    {
        let raw = write_bits(self.buffer[field::AC_7], 3, 2, value);
        self.buffer.set(field::AC_7, raw);
    }

    /// Set the front right seat heating value request field.
    pub fn set_front_right_seat_heating(&mut self, value: u8)
        requires
            field::AC_7 < old(self)@.len(),
        ensures
            final(self)@ == old(self)@.update(field::AC_7 as int, put_bits(old(self)@[field::AC_7 as int], 5, 2, value)),
    {
        let raw = write_bits(self.buffer[field::AC_7], 5, 2, value);
        self.buffer.set(field::AC_7, raw);
    }

    /// Set the energy saver mode enable flag.
    pub fn set_energy_saver_mode_enable(&mut self, value: bool)
        requires
            field::AC_7 < old(self)@.len(),
        ensures
            final(self)@ == old(self)@.update(field::AC_7 as int, put_flag(old(self)@[field::AC_7 as int], 7, value)),
    {
        let raw = write_flag(self.buffer[field::AC_7], 7, value);
        self.buffer.set(field::AC_7, raw);
    }
}

/// A high-level representation of a x350 CAN frame.
#[derive(Debug, PartialEq, Eq, Clone, Copy)]
pub struct Repr {
    pub front_ac_fan_mode: ACFanMode2010,
    pub ac_request: ACModeRequest,
    pub front_left_temperature: ACAirTemperature,
    pub mono_temperature: bool,
    pub ac_max: bool,
    pub front_right_temperature: ACAirTemperature,
    pub front_left_seat_ventilation: u8,
    pub front_fan_speed: ACFanSpeed,
    pub air_intake_mode: ACAirIntakeMode,
    pub air_quality_enabled: bool,
    pub front_right_distribution_position: ACAirDistributionPosition,
    pub front_left_distribution_position: ACAirDistributionPosition,
    pub front_right_seat_ventilation: u8,
    pub front_left_seat_heating: u8,
    pub front_right_seat_heating: u8,
    pub energy_saver_mode_enabled: bool,
}

impl Repr {
    /// The representation that the bytes of a frame carry.
    #[verifier::opaque]
    pub open spec fn from_bytes(bytes: Seq<u8>) -> Repr {
        Repr {
            front_ac_fan_mode: ACFanMode2010::from_raw(bits(bytes[field::AC_0 as int], 0, 2)),
            ac_request: ACModeRequest::from_raw(bits(bytes[field::AC_0 as int], 2, 2)),
            front_left_temperature: ACAirTemperature::from_raw(bits(bytes[field::AC_3 as int], 0, 5)),
            mono_temperature: flag(bytes[field::AC_3 as int], 6),
            ac_max: flag(bytes[field::AC_3 as int], 7),
            front_right_temperature: ACAirTemperature::from_raw(bits(bytes[field::AC_4 as int], 0, 5)),
            front_left_seat_ventilation: bits(bytes[field::AC_4 as int], 5, 2),
            front_fan_speed: ACFanSpeed::from_raw(bits(bytes[field::AC_5 as int], 0, 4)),
            air_intake_mode: ACAirIntakeMode::from_raw(bits(bytes[field::AC_5 as int], 4, 3)),
            air_quality_enabled: flag(bytes[field::AC_5 as int], 7),
            front_right_distribution_position: ACAirDistributionPosition::from_raw(bits(bytes[field::AC_6 as int], 0, 4)),
            front_left_distribution_position: ACAirDistributionPosition::from_raw(bits(bytes[field::AC_6 as int], 4, 4)),
            front_right_seat_ventilation: bits(bytes[field::AC_7 as int], 1, 2),
            front_left_seat_heating: bits(bytes[field::AC_7 as int], 3, 2),
            front_right_seat_heating: bits(bytes[field::AC_7 as int], 5, 2),
            energy_saver_mode_enabled: flag(bytes[field::AC_7 as int], 7),
        }
    }

    /// The byte at `field::AC_0` once the fields that it carries are written into `b`.
    pub open spec fn ac_0_byte(self, b: u8) -> u8 {
        put_bits(put_bits(b, 0, 2, self.front_ac_fan_mode.raw()), 2, 2, self.ac_request.raw())
    }

    /// The byte at `field::AC_3` once the fields that it carries are written into `b`.
    pub open spec fn ac_3_byte(self, b: u8) -> u8 {
        put_flag(put_flag(put_bits(b, 0, 5, self.front_left_temperature.raw()), 6, self.mono_temperature), 7, self.ac_max)
    }

    /// The byte at `field::AC_4` once the fields that it carries are written into `b`.
    pub open spec fn ac_4_byte(self, b: u8) -> u8 {
        put_bits(put_bits(b, 0, 5, self.front_right_temperature.raw()), 5, 2, self.front_left_seat_ventilation)
    }

    /// The byte at `field::AC_5` once the fields that it carries are written into `b`.
    pub open spec fn ac_5_byte(self, b: u8) -> u8 {
        put_flag(put_bits(put_bits(b, 0, 4, self.front_fan_speed.raw()), 4, 3, self.air_intake_mode.raw()), 7, self.air_quality_enabled)
    }

    /// The byte at `field::AC_6` once the fields that it carries are written into `b`.
    pub open spec fn ac_6_byte(self, b: u8) -> u8 {
        put_bits(put_bits(b, 0, 4, self.front_right_distribution_position.raw()), 4, 4, self.front_left_distribution_position.raw())
    }

    /// The byte at `field::AC_7` once the fields that it carries are written into `b`.
    pub open spec fn ac_7_byte(self, b: u8) -> u8 {
        put_flag(put_bits(put_bits(put_bits(b, 1, 2, self.front_right_seat_ventilation), 3, 2, self.front_left_seat_heating), 5, 2, self.front_right_seat_heating), 7, self.energy_saver_mode_enabled)
    }

    /// The bytes of a frame once `self` is emitted into them.
    pub open spec fn emit_bytes(self, bytes: Seq<u8>) -> Seq<u8> {
        bytes.update(
            field::AC_0 as int,
            self.ac_0_byte(bytes[field::AC_0 as int]),
        ).update(
            field::AC_3 as int,
            self.ac_3_byte(bytes[field::AC_3 as int]),
        ).update(
            field::AC_4 as int,
            self.ac_4_byte(bytes[field::AC_4 as int]),
        ).update(
            field::AC_5 as int,
            self.ac_5_byte(bytes[field::AC_5 as int]),
        ).update(
            field::AC_6 as int,
            self.ac_6_byte(bytes[field::AC_6 as int]),
        ).update(
            field::AC_7 as int,
            self.ac_7_byte(bytes[field::AC_7 as int]),
        )
    }

    /// Every field of `self` fits in the bits that the frame gives it.
    pub open spec fn fits(self) -> bool {
        &&& ACFanMode2010::from_raw(self.front_ac_fan_mode.raw()) == self.front_ac_fan_mode && self.front_ac_fan_mode.raw() < 4
        &&& ACModeRequest::from_raw(self.ac_request.raw()) == self.ac_request && self.ac_request.raw() < 4
        &&& ACAirTemperature::from_raw(self.front_left_temperature.raw()) == self.front_left_temperature && self.front_left_temperature.raw() < 32
        &&& ACAirTemperature::from_raw(self.front_right_temperature.raw()) == self.front_right_temperature && self.front_right_temperature.raw() < 32
        &&& self.front_left_seat_ventilation < 4
        &&& ACFanSpeed::from_raw(self.front_fan_speed.raw()) == self.front_fan_speed && self.front_fan_speed.raw() < 16
        &&& ACAirIntakeMode::from_raw(self.air_intake_mode.raw()) == self.air_intake_mode && self.air_intake_mode.raw() < 8
        &&& ACAirDistributionPosition::from_raw(self.front_right_distribution_position.raw()) == self.front_right_distribution_position && self.front_right_distribution_position.raw() < 16
        &&& ACAirDistributionPosition::from_raw(self.front_left_distribution_position.raw()) == self.front_left_distribution_position && self.front_left_distribution_position.raw() < 16
        &&& self.front_right_seat_ventilation < 4
        &&& self.front_left_seat_heating < 4
        &&& self.front_right_seat_heating < 4
    }

    /// Parse a x350 CAN frame into its high-level representation.
    pub fn parse(frame: &Frame) -> (r: Result<Repr, Error>)
        ensures
            r is Ok <==> frame@.len() == FRAME_LEN,
            r matches Ok(repr) ==> repr == Repr::from_bytes(frame@),
            r matches Err(e) ==> length_check(frame@.len(), FRAME_LEN as nat) == Err::<(), Error>(e),
    {
        if let Err(e) = frame.check_len() {
            return Err(e);
        }
        Ok(Self::read_fields(frame))
    }

    /// The representation that the bytes of `frame` carry.
    fn read_fields(frame: &Frame) -> (repr: Repr)
        requires
            FRAME_LEN <= frame@.len(),
        ensures
            repr == Repr::from_bytes(frame@),
    {
        let repr = Repr {
            front_ac_fan_mode: frame.front_ac_fan_mode(),
            ac_request: frame.ac_request(),
            front_left_temperature: frame.front_left_temp(),
            mono_temperature: frame.mono_temp(),
            ac_max: frame.ac_max(),
            front_right_temperature: frame.front_right_temp(),
            front_left_seat_ventilation: frame.front_left_seat_ventilation(),
            front_fan_speed: frame.front_fan_speed(),
            air_intake_mode: frame.air_intake_mode(),
            air_quality_enabled: frame.air_quality_enable(),
            front_right_distribution_position: frame.front_right_distribution_position(),
            front_left_distribution_position: frame.front_left_distribution_position(),
            front_right_seat_ventilation: frame.front_right_seat_ventilation(),
            front_left_seat_heating: frame.front_left_seat_heating(),
            front_right_seat_heating: frame.front_right_seat_heating(),
            energy_saver_mode_enabled: frame.energy_saver_mode_enable(),
        };
        proof {
            Repr::lemma_from_fields(repr, frame@);
        }
        repr
    }

    /// A representation whose every field holds what `bytes` carry is the
    /// representation that `bytes` carry.
    proof fn lemma_from_fields(repr: Repr, bytes: Seq<u8>)
        requires
            repr.front_ac_fan_mode == ACFanMode2010::from_raw(bits(bytes[field::AC_0 as int], 0, 2)),
            repr.ac_request == ACModeRequest::from_raw(bits(bytes[field::AC_0 as int], 2, 2)),
            repr.front_left_temperature == ACAirTemperature::from_raw(bits(bytes[field::AC_3 as int], 0, 5)),
            repr.mono_temperature == flag(bytes[field::AC_3 as int], 6),
            repr.ac_max == flag(bytes[field::AC_3 as int], 7),
            repr.front_right_temperature == ACAirTemperature::from_raw(bits(bytes[field::AC_4 as int], 0, 5)),
            repr.front_left_seat_ventilation == bits(bytes[field::AC_4 as int], 5, 2),
            repr.front_fan_speed == ACFanSpeed::from_raw(bits(bytes[field::AC_5 as int], 0, 4)),
            repr.air_intake_mode == ACAirIntakeMode::from_raw(bits(bytes[field::AC_5 as int], 4, 3)),
            repr.air_quality_enabled == flag(bytes[field::AC_5 as int], 7),
            repr.front_right_distribution_position == ACAirDistributionPosition::from_raw(bits(bytes[field::AC_6 as int], 0, 4)),
            repr.front_left_distribution_position == ACAirDistributionPosition::from_raw(bits(bytes[field::AC_6 as int], 4, 4)),
            repr.front_right_seat_ventilation == bits(bytes[field::AC_7 as int], 1, 2),
            repr.front_left_seat_heating == bits(bytes[field::AC_7 as int], 3, 2),
            repr.front_right_seat_heating == bits(bytes[field::AC_7 as int], 5, 2),
            repr.energy_saver_mode_enabled == flag(bytes[field::AC_7 as int], 7),
        ensures
            repr == Repr::from_bytes(bytes),
    {
        reveal(Repr::from_bytes);
    }

    /// The text of `self`: each field by name, with its value.
    pub open spec fn text(self) -> Seq<char> {
        self.text_prefix_3()
    }

    /// The first part of the text of `self`, up to part 0.
    #[verifier::opaque]
    pub open spec fn text_prefix_0(self) -> Seq<char> {
        "x350\n front_ac_fan_mode="@
            + self.front_ac_fan_mode.text()
            + "\n ac_request="@
            + self.ac_request.text()
            + "\n front_left_temperature="@
            + self.front_left_temperature.text()
            + "\n mono_temperature="@
            + bool_text(self.mono_temperature)
            + "\n ac_max="@
            + bool_text(self.ac_max)
    }

    /// The first parts of the text of `self`, up to part 1.
    #[verifier::opaque]
    pub open spec fn text_prefix_1(self) -> Seq<char> {
        self.text_prefix_0()
            + "\n front_right_temperature="@
            + self.front_right_temperature.text()
            + "\n front_left_seat_ventilation="@
            + decimal_text(self.front_left_seat_ventilation as nat)
            + "\n front_fan_speed="@
            + self.front_fan_speed.text()
            + "\n air_intake_mode="@
            + self.air_intake_mode.text()
            + "\n air_quality_enabled="@
            + bool_text(self.air_quality_enabled)
    }

    /// The first parts of the text of `self`, up to part 2.
    #[verifier::opaque]
    pub open spec fn text_prefix_2(self) -> Seq<char> {
        self.text_prefix_1()
            + "\n front_right_distribution_position="@
            + self.front_right_distribution_position.text()
            + "\n front_left_distribution_position="@
            + self.front_left_distribution_position.text()
            + "\n front_right_seat_ventilation="@
            + decimal_text(self.front_right_seat_ventilation as nat)
            + "\n front_left_seat_heating="@
            + decimal_text(self.front_left_seat_heating as nat)
            + "\n front_right_seat_heating="@
            + decimal_text(self.front_right_seat_heating as nat)
    }

    /// The first parts of the text of `self`, up to part 3.
    #[verifier::opaque]
    pub open spec fn text_prefix_3(self) -> Seq<char> {
        self.text_prefix_2()
            + "\n energy_saver_mode_enabled="@
            + bool_text(self.energy_saver_mode_enabled)
            + "\n"@
    }

    /// Return the text of `self`.
    pub fn to_text(&self) -> (s: String)
        ensures
            s@ == self.text(),
    {
        let mut s = self.text_start();
        self.push_text_part_1(&mut s);
        self.push_text_part_2(&mut s);
        self.push_text_part_3(&mut s);
        s
    }

    /// The first part of the text of `self`.
    fn text_start(&self) -> (s: String)
        ensures
            s@ == self.text_prefix_0(),
    {
        proof {
            reveal(Repr::text_prefix_0);
        }
        let mut s = String::from_str("x350\n front_ac_fan_mode=");
        self.front_ac_fan_mode.push_text(&mut s);
        s.append("\n ac_request=");
        self.ac_request.push_text(&mut s);
        s.append("\n front_left_temperature=");
        self.front_left_temperature.push_text(&mut s);
        s.append("\n mono_temperature=");
        push_bool(&mut s, self.mono_temperature);
        s.append("\n ac_max=");
        push_bool(&mut s, self.ac_max);
        s
    }

    /// Appends part 1 of the text of `self`.
    fn push_text_part_1(&self, s: &mut String)
        requires
            old(s)@ == self.text_prefix_0(),
        ensures
            final(s)@ == self.text_prefix_1(),
    {
        proof {
            reveal(Repr::text_prefix_1);
        }
        s.append("\n front_right_temperature=");
        self.front_right_temperature.push_text(s);
        s.append("\n front_left_seat_ventilation=");
        push_decimal(s, self.front_left_seat_ventilation as u64);
        s.append("\n front_fan_speed=");
        self.front_fan_speed.push_text(s);
        s.append("\n air_intake_mode=");
        self.air_intake_mode.push_text(s);
        s.append("\n air_quality_enabled=");
        push_bool(s, self.air_quality_enabled);
    }

    /// Appends part 2 of the text of `self`.
    fn push_text_part_2(&self, s: &mut String)
        requires
            old(s)@ == self.text_prefix_1(),
        ensures
            final(s)@ == self.text_prefix_2(),
    {
        proof {
            reveal(Repr::text_prefix_2);
        }
        s.append("\n front_right_distribution_position=");
        self.front_right_distribution_position.push_text(s);
        s.append("\n front_left_distribution_position=");
        self.front_left_distribution_position.push_text(s);
        s.append("\n front_right_seat_ventilation=");
        push_decimal(s, self.front_right_seat_ventilation as u64);
        s.append("\n front_left_seat_heating=");
        push_decimal(s, self.front_left_seat_heating as u64);
        s.append("\n front_right_seat_heating=");
        push_decimal(s, self.front_right_seat_heating as u64);
    }

    /// Appends part 3 of the text of `self`.
    fn push_text_part_3(&self, s: &mut String)
        requires
            old(s)@ == self.text_prefix_2(),
        ensures
            final(s)@ == self.text_prefix_3(),
    {
        proof {
            reveal(Repr::text_prefix_3);
        }
        s.append("\n energy_saver_mode_enabled=");
        push_bool(s, self.energy_saver_mode_enabled);
        s.append("\n");
    }

    /// Return the length of a frame that will be emitted from this high-level representation.
    pub fn buffer_len(&self) -> (len: usize)
        ensures
            len == FRAME_LEN,
    {
        FRAME_LEN
    }

    /// Emit a high-level representation into a x350 CAN frame.
    pub fn emit(&self, frame: &mut Frame)
        requires
            FRAME_LEN <= old(frame)@.len(),
        ensures
            final(frame)@ == self.emit_bytes(old(frame)@),
    {
        self.emit_ac_0(frame);
        self.emit_ac_3(frame);
        self.emit_ac_4(frame);
        self.emit_ac_5(frame);
        self.emit_ac_6(frame);
        self.emit_ac_7(frame);
    }

    /// Write the fields that the byte at `field::AC_0` carries.
    fn emit_ac_0(&self, frame: &mut Frame)
        requires
            field::AC_0 < old(frame)@.len(),
        ensures
            final(frame)@ == old(frame)@.update(field::AC_0 as int, self.ac_0_byte(old(frame)@[field::AC_0 as int])),
    {
        frame.set_front_ac_fan_mode(self.front_ac_fan_mode);
        frame.set_ac_request(self.ac_request);
    }

    /// Write the fields that the byte at `field::AC_3` carries.
    fn emit_ac_3(&self, frame: &mut Frame)
        requires
            field::AC_3 < old(frame)@.len(),
        ensures
            final(frame)@ == old(frame)@.update(field::AC_3 as int, self.ac_3_byte(old(frame)@[field::AC_3 as int])),
    {
        frame.set_front_left_temp(self.front_left_temperature);
        frame.set_mono_temp(self.mono_temperature);
        frame.set_ac_max(self.ac_max);
    }

    /// Write the fields that the byte at `field::AC_4` carries.
    fn emit_ac_4(&self, frame: &mut Frame)
        requires
            field::AC_4 < old(frame)@.len(),
        ensures
            final(frame)@ == old(frame)@.update(field::AC_4 as int, self.ac_4_byte(old(frame)@[field::AC_4 as int])),
    {
        frame.set_front_right_temp(self.front_right_temperature);
        frame.set_front_left_seat_ventilation(self.front_left_seat_ventilation);
    }

    /// Write the fields that the byte at `field::AC_5` carries.
    fn emit_ac_5(&self, frame: &mut Frame)
        requires
            field::AC_5 < old(frame)@.len(),
        ensures
            final(frame)@ == old(frame)@.update(field::AC_5 as int, self.ac_5_byte(old(frame)@[field::AC_5 as int])),
    {
        frame.set_front_fan_speed(self.front_fan_speed);
        frame.set_air_intake_mode(self.air_intake_mode);
        frame.set_air_quality_enable(self.air_quality_enabled);
    }

    /// Write the fields that the byte at `field::AC_6` carries.
    fn emit_ac_6(&self, frame: &mut Frame)
        requires
            field::AC_6 < old(frame)@.len(),
        ensures
            final(frame)@ == old(frame)@.update(field::AC_6 as int, self.ac_6_byte(old(frame)@[field::AC_6 as int])),
    {
        frame.set_front_right_distribution_position(self.front_right_distribution_position);
        frame.set_front_left_distribution_position(self.front_left_distribution_position);
    }

    /// Write the fields that the byte at `field::AC_7` carries.
    fn emit_ac_7(&self, frame: &mut Frame)
        requires
            field::AC_7 < old(frame)@.len(),
        ensures
            final(frame)@ == old(frame)@.update(field::AC_7 as int, self.ac_7_byte(old(frame)@[field::AC_7 as int])),
    {
        frame.set_front_right_seat_ventilation(self.front_right_seat_ventilation);
        frame.set_front_left_seat_heating(self.front_left_seat_heating);
        frame.set_front_right_seat_heating(self.front_right_seat_heating);
        frame.set_energy_saver_mode_enable(self.energy_saver_mode_enabled);
    }
}

impl Frame {
    /// Return the text of the frame: that of the representation that it
    /// carries, or the error that parsing it gives.
    pub fn to_text(&self) -> (s: String)
        ensures
            s@ == (match length_check(self@.len(), FRAME_LEN as nat) {
                Ok(_) => Repr::from_bytes(self@).text(),
                Err(e) => "x350 ("@ + e.text() + ")"@,
            }),
    {
        match Repr::parse(self) {
            Ok(repr) => repr.to_text(),
            Err(e) => {
                let mut s = String::from_str("x350 (");
                s.append(e.description());
                s.append(")");
                s
            },
        }
    }
}

/// The fields that the byte at `field::AC_0` carries read back as they were written.
proof fn lemma_ac_0_parse_emit(repr: Repr, b: u8)
    requires
        repr.fits(),
    ensures
        ACFanMode2010::from_raw(bits(repr.ac_0_byte(b), 0, 2)) == repr.front_ac_fan_mode,
        ACModeRequest::from_raw(bits(repr.ac_0_byte(b), 2, 2)) == repr.ac_request,
{
    broadcast use group_frame_laws;

    lemma_low_mask_values();
}

/// Writing back the fields read from the byte at `field::AC_0` leaves it unchanged.
proof fn lemma_ac_0_emit_parse(bytes: Seq<u8>)
    requires
        bytes.len() == FRAME_LEN,
    ensures
        Repr::from_bytes(bytes).ac_0_byte(bytes[field::AC_0 as int]) == bytes[field::AC_0 as int],
{
    reveal(Repr::from_bytes);
    broadcast use group_frame_laws;

    lemma_low_mask_values();
}

/// The fields that the byte at `field::AC_3` carries read back as they were written.
proof fn lemma_ac_3_parse_emit(repr: Repr, b: u8)
    requires
        repr.fits(),
    ensures
        ACAirTemperature::from_raw(bits(repr.ac_3_byte(b), 0, 5)) == repr.front_left_temperature,
        flag(repr.ac_3_byte(b), 6) == repr.mono_temperature,
        flag(repr.ac_3_byte(b), 7) == repr.ac_max,
{
    broadcast use group_frame_laws;

    lemma_low_mask_values();
}

/// Writing back the fields read from the byte at `field::AC_3` leaves it unchanged.
proof fn lemma_ac_3_emit_parse(bytes: Seq<u8>)
    requires
        bytes.len() == FRAME_LEN,
    ensures
        Repr::from_bytes(bytes).ac_3_byte(bytes[field::AC_3 as int]) == bytes[field::AC_3 as int],
{
    reveal(Repr::from_bytes);
    broadcast use group_frame_laws;

    lemma_low_mask_values();
}

/// The fields that the byte at `field::AC_4` carries read back as they were written.
proof fn lemma_ac_4_parse_emit(repr: Repr, b: u8)
    requires
        repr.fits(),
    ensures
        ACAirTemperature::from_raw(bits(repr.ac_4_byte(b), 0, 5)) == repr.front_right_temperature,
        bits(repr.ac_4_byte(b), 5, 2) == repr.front_left_seat_ventilation,
{
    broadcast use group_frame_laws;

    lemma_low_mask_values();
}

/// Writing back the fields read from the byte at `field::AC_4` leaves it unchanged.
proof fn lemma_ac_4_emit_parse(bytes: Seq<u8>)
    requires
        bytes.len() == FRAME_LEN,
    ensures
        Repr::from_bytes(bytes).ac_4_byte(bytes[field::AC_4 as int]) == bytes[field::AC_4 as int],
{
    reveal(Repr::from_bytes);
    broadcast use group_frame_laws;

    lemma_low_mask_values();
}

/// The fields that the byte at `field::AC_5` carries read back as they were written.
proof fn lemma_ac_5_parse_emit(repr: Repr, b: u8)
    requires
        repr.fits(),
    ensures
        ACFanSpeed::from_raw(bits(repr.ac_5_byte(b), 0, 4)) == repr.front_fan_speed,
        ACAirIntakeMode::from_raw(bits(repr.ac_5_byte(b), 4, 3)) == repr.air_intake_mode,
        flag(repr.ac_5_byte(b), 7) == repr.air_quality_enabled,
{
    broadcast use group_frame_laws;

    lemma_low_mask_values();
}

/// Writing back the fields read from the byte at `field::AC_5` leaves it unchanged.
proof fn lemma_ac_5_emit_parse(bytes: Seq<u8>)
    requires
        bytes.len() == FRAME_LEN,
    ensures
        Repr::from_bytes(bytes).ac_5_byte(bytes[field::AC_5 as int]) == bytes[field::AC_5 as int],
{
    reveal(Repr::from_bytes);
    broadcast use group_frame_laws;

    lemma_low_mask_values();
}

/// The fields that the byte at `field::AC_6` carries read back as they were written.
proof fn lemma_ac_6_parse_emit(repr: Repr, b: u8)
    requires
        repr.fits(),
    ensures
        ACAirDistributionPosition::from_raw(bits(repr.ac_6_byte(b), 0, 4)) == repr.front_right_distribution_position,
        ACAirDistributionPosition::from_raw(bits(repr.ac_6_byte(b), 4, 4)) == repr.front_left_distribution_position,
{
    broadcast use group_frame_laws;

    lemma_low_mask_values();
}

/// Writing back the fields read from the byte at `field::AC_6` leaves it unchanged.
proof fn lemma_ac_6_emit_parse(bytes: Seq<u8>)
    requires
        bytes.len() == FRAME_LEN,
    ensures
        Repr::from_bytes(bytes).ac_6_byte(bytes[field::AC_6 as int]) == bytes[field::AC_6 as int],
{
    reveal(Repr::from_bytes);
    broadcast use group_frame_laws;

    lemma_low_mask_values();
}

/// The fields that the byte at `field::AC_7` carries read back as they were written.
proof fn lemma_ac_7_parse_emit(repr: Repr, b: u8)
    requires
        repr.fits(),
    ensures
        bits(repr.ac_7_byte(b), 1, 2) == repr.front_right_seat_ventilation,
        bits(repr.ac_7_byte(b), 3, 2) == repr.front_left_seat_heating,
        bits(repr.ac_7_byte(b), 5, 2) == repr.front_right_seat_heating,
        flag(repr.ac_7_byte(b), 7) == repr.energy_saver_mode_enabled,
{
    broadcast use group_frame_laws;

    lemma_low_mask_values();
}

/// Writing back the fields read from the byte at `field::AC_7` leaves it unchanged.
proof fn lemma_ac_7_emit_parse(bytes: Seq<u8>)
    requires
        bytes.len() == FRAME_LEN,
    ensures
        Repr::from_bytes(bytes).ac_7_byte(bytes[field::AC_7 as int]) == bytes[field::AC_7 as int],
{
    reveal(Repr::from_bytes);
    broadcast use group_frame_laws;

    lemma_low_mask_values();
}

/// Emitting a representation whose fields fit into the bytes of a frame, then
/// parsing the bytes, gives the representation back.
pub proof fn lemma_parse_emit(repr: Repr, bytes: Seq<u8>)
    requires
        repr.fits(),
        bytes.len() == FRAME_LEN,
    ensures
        Repr::from_bytes(repr.emit_bytes(bytes)) == repr,
{
    let emitted = repr.emit_bytes(bytes);
    assert(emitted[field::AC_0 as int] == repr.ac_0_byte(bytes[field::AC_0 as int]));
    assert(emitted[field::AC_3 as int] == repr.ac_3_byte(bytes[field::AC_3 as int]));
    assert(emitted[field::AC_4 as int] == repr.ac_4_byte(bytes[field::AC_4 as int]));
    assert(emitted[field::AC_5 as int] == repr.ac_5_byte(bytes[field::AC_5 as int]));
    assert(emitted[field::AC_6 as int] == repr.ac_6_byte(bytes[field::AC_6 as int]));
    assert(emitted[field::AC_7 as int] == repr.ac_7_byte(bytes[field::AC_7 as int]));
    lemma_ac_0_parse_emit(repr, bytes[field::AC_0 as int]);
    lemma_ac_3_parse_emit(repr, bytes[field::AC_3 as int]);
    lemma_ac_4_parse_emit(repr, bytes[field::AC_4 as int]);
    lemma_ac_5_parse_emit(repr, bytes[field::AC_5 as int]);
    lemma_ac_6_parse_emit(repr, bytes[field::AC_6 as int]);
    lemma_ac_7_parse_emit(repr, bytes[field::AC_7 as int]);
    Repr::lemma_from_fields(repr, emitted);
}

/// Emitting the representation that the bytes of a frame carry leaves the
/// bytes unchanged.
pub proof fn lemma_emit_parse(bytes: Seq<u8>)
    requires
        bytes.len() == FRAME_LEN,
    ensures
        Repr::from_bytes(bytes).emit_bytes(bytes) == bytes,
{
    reveal(Repr::from_bytes);
    broadcast use group_frame_laws;

    lemma_low_mask_values();
    lemma_ac_0_emit_parse(bytes);
    lemma_ac_3_emit_parse(bytes);
    lemma_ac_4_emit_parse(bytes);
    lemma_ac_5_emit_parse(bytes);
    lemma_ac_6_emit_parse(bytes);
    lemma_ac_7_emit_parse(bytes);
}

/// Each field of a representation reads the bits of the frame that the
/// layout gives it: a word high byte first, a flag or a field through its
/// mask.
pub proof fn lemma_fields_from_bytes(bytes: Seq<u8>)
    requires
        bytes.len() == FRAME_LEN,
    ensures
        Repr::from_bytes(bytes).front_ac_fan_mode == ACFanMode2010::from_raw(bytes[field::AC_0 as int] & 0x03),
        Repr::from_bytes(bytes).ac_request == ACModeRequest::from_raw((bytes[field::AC_0 as int] >> 2u8) & 0x03),
        Repr::from_bytes(bytes).front_left_temperature == ACAirTemperature::from_raw(bytes[field::AC_3 as int] & 0x1f),
        Repr::from_bytes(bytes).mono_temperature == ((bytes[field::AC_3 as int] & 0x40) != 0),
        Repr::from_bytes(bytes).ac_max == ((bytes[field::AC_3 as int] & 0x80) != 0),
        Repr::from_bytes(bytes).front_right_temperature == ACAirTemperature::from_raw(bytes[field::AC_4 as int] & 0x1f),
        Repr::from_bytes(bytes).front_left_seat_ventilation == (bytes[field::AC_4 as int] >> 5u8) & 0x03,
        Repr::from_bytes(bytes).front_fan_speed == ACFanSpeed::from_raw(bytes[field::AC_5 as int] & 0x0f),
        Repr::from_bytes(bytes).air_intake_mode == ACAirIntakeMode::from_raw((bytes[field::AC_5 as int] >> 4u8) & 0x07),
        Repr::from_bytes(bytes).air_quality_enabled == ((bytes[field::AC_5 as int] & 0x80) != 0),
        Repr::from_bytes(bytes).front_right_distribution_position == ACAirDistributionPosition::from_raw(bytes[field::AC_6 as int] & 0x0f),
        Repr::from_bytes(bytes).front_left_distribution_position == ACAirDistributionPosition::from_raw((bytes[field::AC_6 as int] >> 4u8) & 0x0f),
        Repr::from_bytes(bytes).front_right_seat_ventilation == (bytes[field::AC_7 as int] >> 1u8) & 0x03,
        Repr::from_bytes(bytes).front_left_seat_heating == (bytes[field::AC_7 as int] >> 3u8) & 0x03,
        Repr::from_bytes(bytes).front_right_seat_heating == (bytes[field::AC_7 as int] >> 5u8) & 0x03,
        Repr::from_bytes(bytes).energy_saver_mode_enabled == ((bytes[field::AC_7 as int] & 0x80) != 0),
{
    reveal(Repr::from_bytes);
    lemma_low_mask_values();
    lemma_bits_formula(bytes[field::AC_0 as int], 2, 2);
    lemma_bits_formula(bytes[field::AC_4 as int], 5, 2);
    lemma_bits_formula(bytes[field::AC_5 as int], 4, 3);
    lemma_bits_formula(bytes[field::AC_6 as int], 4, 4);
    lemma_bits_formula(bytes[field::AC_7 as int], 1, 2);
    lemma_bits_formula(bytes[field::AC_7 as int], 3, 2);
    lemma_bits_formula(bytes[field::AC_7 as int], 5, 2);
    lemma_bits_low_formula(bytes[field::AC_0 as int], 2);
    lemma_bits_low_formula(bytes[field::AC_3 as int], 5);
    lemma_bits_low_formula(bytes[field::AC_4 as int], 5);
    lemma_bits_low_formula(bytes[field::AC_5 as int], 4);
    lemma_bits_low_formula(bytes[field::AC_6 as int], 4);
    lemma_flag_masks(bytes[field::AC_3 as int]);
    lemma_flag_masks(bytes[field::AC_5 as int]);
    lemma_flag_masks(bytes[field::AC_7 as int]);
}

/// Every representation that the bytes of a frame carry fits in the frame,
/// so that it can be emitted back.
pub proof fn lemma_parsed_fits(bytes: Seq<u8>)
    requires
        bytes.len() == FRAME_LEN,
    ensures
        Repr::from_bytes(bytes).fits(),
{
    reveal(Repr::from_bytes);
    broadcast use group_frame_laws;

    lemma_low_mask_values();
}

/// The text of a representation shows each field after its name and before
/// the name of the next field, so the fields stand in their order.
pub proof fn lemma_text_shows_fields(repr: Repr)
    ensures
        occurs("x350\n front_ac_fan_mode="@ + repr.front_ac_fan_mode.text() + "\n ac_request="@, repr.text()),
        occurs("\n ac_request="@ + repr.ac_request.text() + "\n front_left_temperature="@, repr.text()),
        occurs("\n front_left_temperature="@ + repr.front_left_temperature.text() + "\n mono_temperature="@, repr.text()),
        occurs("\n mono_temperature="@ + bool_text(repr.mono_temperature) + "\n ac_max="@, repr.text()),
        occurs("\n ac_max="@ + bool_text(repr.ac_max) + "\n front_right_temperature="@, repr.text()),
        occurs("\n front_right_temperature="@ + repr.front_right_temperature.text() + "\n front_left_seat_ventilation="@, repr.text()),
        occurs("\n front_left_seat_ventilation="@ + decimal_text(repr.front_left_seat_ventilation as nat) + "\n front_fan_speed="@, repr.text()),
        occurs("\n front_fan_speed="@ + repr.front_fan_speed.text() + "\n air_intake_mode="@, repr.text()),
        occurs("\n air_intake_mode="@ + repr.air_intake_mode.text() + "\n air_quality_enabled="@, repr.text()),
        occurs("\n air_quality_enabled="@ + bool_text(repr.air_quality_enabled) + "\n front_right_distribution_position="@, repr.text()),
        occurs("\n front_right_distribution_position="@ + repr.front_right_distribution_position.text() + "\n front_left_distribution_position="@, repr.text()),
        occurs("\n front_left_distribution_position="@ + repr.front_left_distribution_position.text() + "\n front_right_seat_ventilation="@, repr.text()),
        occurs("\n front_right_seat_ventilation="@ + decimal_text(repr.front_right_seat_ventilation as nat) + "\n front_left_seat_heating="@, repr.text()),
        occurs("\n front_left_seat_heating="@ + decimal_text(repr.front_left_seat_heating as nat) + "\n front_right_seat_heating="@, repr.text()),
        occurs("\n front_right_seat_heating="@ + decimal_text(repr.front_right_seat_heating as nat) + "\n energy_saver_mode_enabled="@, repr.text()),
        occurs("\n energy_saver_mode_enabled="@ + bool_text(repr.energy_saver_mode_enabled) + "\n"@, repr.text()),
{
    lemma_text_part_0_shows_fields(repr);
    lemma_text_part_1_shows_fields(repr);
    lemma_text_prefix_0_grows(repr);
    lemma_text_part_2_shows_fields(repr);
    lemma_text_prefix_1_grows(repr);
    lemma_text_part_3_shows_fields(repr);
    lemma_text_prefix_2_grows(repr);
}

/// Part 0 of the text of a representation shows each of its fields after
/// its name and before the name of the next field.
proof fn lemma_text_part_0_shows_fields(repr: Repr)
    ensures
        occurs("x350\n front_ac_fan_mode="@ + repr.front_ac_fan_mode.text() + "\n ac_request="@, repr.text_prefix_0()),
        occurs("\n ac_request="@ + repr.ac_request.text() + "\n front_left_temperature="@, repr.text_prefix_0()),
        occurs("\n front_left_temperature="@ + repr.front_left_temperature.text() + "\n mono_temperature="@, repr.text_prefix_0()),
        occurs("\n mono_temperature="@ + bool_text(repr.mono_temperature) + "\n ac_max="@, repr.text_prefix_0()),
{
    reveal(Repr::text_prefix_0);
    broadcast use group_occurs;

}

/// Part 1 of the text of a representation shows each of its fields after
/// its name and before the name of the next field.
proof fn lemma_text_part_1_shows_fields(repr: Repr)
    ensures
        occurs("\n ac_max="@ + bool_text(repr.ac_max) + "\n front_right_temperature="@, repr.text_prefix_1()),
        occurs("\n front_right_temperature="@ + repr.front_right_temperature.text() + "\n front_left_seat_ventilation="@, repr.text_prefix_1()),
        occurs("\n front_left_seat_ventilation="@ + decimal_text(repr.front_left_seat_ventilation as nat) + "\n front_fan_speed="@, repr.text_prefix_1()),
        occurs("\n front_fan_speed="@ + repr.front_fan_speed.text() + "\n air_intake_mode="@, repr.text_prefix_1()),
        occurs("\n air_intake_mode="@ + repr.air_intake_mode.text() + "\n air_quality_enabled="@, repr.text_prefix_1()),
{
    reveal(Repr::text_prefix_0);
    reveal(Repr::text_prefix_1);
    broadcast use group_occurs;

}

/// What occurs in the text of a representation up to part 0 occurs in its
/// text up to part 1.
proof fn lemma_text_prefix_0_grows(repr: Repr)
    ensures
        forall|t: Seq<char>| occurs(t, repr.text_prefix_0()) ==> #[trigger] occurs(t, repr.text_prefix_1()),
{
    reveal(Repr::text_prefix_1);
    broadcast use group_occurs;

}

/// Part 2 of the text of a representation shows each of its fields after
/// its name and before the name of the next field.
proof fn lemma_text_part_2_shows_fields(repr: Repr)
    ensures
        occurs("\n air_quality_enabled="@ + bool_text(repr.air_quality_enabled) + "\n front_right_distribution_position="@, repr.text_prefix_2()),
        occurs("\n front_right_distribution_position="@ + repr.front_right_distribution_position.text() + "\n front_left_distribution_position="@, repr.text_prefix_2()),
        occurs("\n front_left_distribution_position="@ + repr.front_left_distribution_position.text() + "\n front_right_seat_ventilation="@, repr.text_prefix_2()),
        occurs("\n front_right_seat_ventilation="@ + decimal_text(repr.front_right_seat_ventilation as nat) + "\n front_left_seat_heating="@, repr.text_prefix_2()),
        occurs("\n front_left_seat_heating="@ + decimal_text(repr.front_left_seat_heating as nat) + "\n front_right_seat_heating="@, repr.text_prefix_2()),
{
    reveal(Repr::text_prefix_1);
    reveal(Repr::text_prefix_2);
    broadcast use group_occurs;

}

/// What occurs in the text of a representation up to part 1 occurs in its
/// text up to part 2.
proof fn lemma_text_prefix_1_grows(repr: Repr)
    ensures
        forall|t: Seq<char>| occurs(t, repr.text_prefix_1()) ==> #[trigger] occurs(t, repr.text_prefix_2()),
{
    reveal(Repr::text_prefix_2);
    broadcast use group_occurs;

}

/// Part 3 of the text of a representation shows each of its fields after
/// its name and before the name of the next field.
proof fn lemma_text_part_3_shows_fields(repr: Repr)
    ensures
        occurs("\n front_right_seat_heating="@ + decimal_text(repr.front_right_seat_heating as nat) + "\n energy_saver_mode_enabled="@, repr.text_prefix_3()),
        occurs("\n energy_saver_mode_enabled="@ + bool_text(repr.energy_saver_mode_enabled) + "\n"@, repr.text_prefix_3()),
{
    reveal(Repr::text_prefix_2);
    reveal(Repr::text_prefix_3);
    broadcast use group_occurs;

}

/// What occurs in the text of a representation up to part 2 occurs in its
/// text up to part 3.
proof fn lemma_text_prefix_2_grows(repr: Repr)
    ensures
        forall|t: Seq<char>| occurs(t, repr.text_prefix_2()) ==> #[trigger] occurs(t, repr.text_prefix_3()),
{
    reveal(Repr::text_prefix_3);
    broadcast use group_occurs;

}

} // verus!
