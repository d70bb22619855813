//! The x168 CAN frame: cluster warning lamps.
use crate::bitfield::{bits, flag, lemma_bits_formula, lemma_flag_masks, lemma_low_mask_values, put_bits, put_flag, read_bits, read_flag, write_bits, write_flag};
use crate::vehicle::GearboxDriveModeGear;
use crate::vehicle::IndicatorState;
use crate::vehicle::LaneCenteringIndicatorState;
use crate::vehicle::SteeringAssistanceFaultType;
use crate::vehicle::SteeringAssistanceIndicatorState;
use crate::{check_frame_len, group_frame_laws, length_check, Error};
use crate::text::{bool_text, group_occurs, occurs, push_bool};
use vstd::prelude::*;

pub mod field;

use self::field::{FLAGS_1, FLAGS_2, FLAGS_3, FLAGS_4, FLAGS_5, FLAGS_6, FLAGS_7};

verus! {

/// A read/write wrapper around a x168 CAN frame buffer.
#[derive(Debug, PartialEq, Clone)]
pub struct Frame {
    buffer: Vec<u8>,
}

impl View for Frame {
    type V = Seq<u8>;

    closed spec fn view(&self) -> Seq<u8> {
        self.buffer@
    }
}

impl AsRef<[u8]> for Frame {
    /// The bytes of the frame.
    fn as_ref(&self) -> (bytes: &[u8])
        ensures
            bytes@ == self@,
    {
        self.buffer.as_slice()
    }
}

/// Raw x168 CAN frame identifier.
pub const FRAME_ID: u16 = 0x168;

/// Length of a x168 CAN frame.
pub const FRAME_LEN: usize = field::FLAGS_8 + 1;

impl Frame {
    /// Create a raw octet buffer with a CAN frame structure.
    pub fn new_unchecked(buffer: Vec<u8>) -> (frame: Frame)
        ensures
            frame@ == buffer@,
    {
        Frame { buffer }
    }

    /// Shorthand for a combination of `new_unchecked` and `check_len`.
    pub fn new_checked(buffer: Vec<u8>) -> (r: Result<Frame, Error>)
        ensures
            r is Ok <==> buffer@.len() == FRAME_LEN,
            r matches Ok(frame) ==> frame@ == buffer@,
            r matches Err(e) ==> length_check(buffer@.len(), FRAME_LEN as nat) == Err::<(), Error>(e),
    {
        let frame = Self::new_unchecked(buffer);
        match frame.check_len() {
            Ok(()) => Ok(frame),
            Err(e) => Err(e),
        }
    }

    /// Ensure that no accessor method will panic if called.
    /// Returns `Err(Error::Truncated)` if the buffer is too short and
    /// `Err(Error::Overlong)` if it is too long.
    pub fn check_len(&self) -> (r: Result<(), Error>)
        ensures
            r == length_check(self@.len(), FRAME_LEN as nat),
    {
        check_frame_len(self.buffer.len(), FRAME_LEN)
    }

    /// Consume the frame, returning the underlying buffer.
    pub fn into_inner(self) -> (buffer: Vec<u8>)
        ensures
            buffer@ == self@,
    {
        self.buffer
    }

    /// Return the frame length.
    pub fn frame_len(&self) -> (len: usize)
        ensures
            len == FRAME_LEN,
    {
        FRAME_LEN
    }

    /// Return the bit in byte B at index I.
    pub fn read_bit<const B: usize, const I: u8>(&self) -> (value: bool)
        requires
            B < self@.len(),
            I < 8,
        ensures
            value == flag(self@[B as int], I),
    {
        read_flag(self.buffer[B], I)
    }

    /// Return the steering assistance fault type field.
    pub fn steering_assistance_fault_type(&self) -> (value: SteeringAssistanceFaultType)
        requires
            field::FLAGS_6 < self@.len(),
        ensures
            value == SteeringAssistanceFaultType::from_raw(bits(self@[field::FLAGS_6 as int], 3, 2)),
    {
        SteeringAssistanceFaultType::from(read_bits(self.buffer[field::FLAGS_6], 3, 2))
    }

    /// Return the steering assistance indicator state field.
    pub fn steering_assistance_indicator(&self) -> (value: SteeringAssistanceIndicatorState)
        requires
            field::FLAGS_6 < self@.len(),
        ensures
            value == SteeringAssistanceIndicatorState::from_raw(bits(self@[field::FLAGS_6 as int], 6, 2)),
    {
        SteeringAssistanceIndicatorState::from(read_bits(self.buffer[field::FLAGS_6], 6, 2))
    }

    /// Return the gearbox drive mode engaged gear field.
    pub fn gearbox_drive_mode_gear(&self) -> (value: GearboxDriveModeGear)
        requires
            field::FLAGS_7 < self@.len(),
        ensures
            value == GearboxDriveModeGear::from_raw(bits(self@[field::FLAGS_7 as int], 1, 4)),
    {
        GearboxDriveModeGear::from(read_bits(self.buffer[field::FLAGS_7], 1, 4))
    }

    /// Return the lane centering indicator state field.
    pub fn lane_centering_indicator(&self) -> (value: LaneCenteringIndicatorState)
        requires
            field::FLAGS_8 < self@.len(),
        ensures
            value == LaneCenteringIndicatorState::from_raw(bits(self@[field::FLAGS_8 as int], 2, 2)),
    {
        LaneCenteringIndicatorState::from(read_bits(self.buffer[field::FLAGS_8], 2, 2))
    }

    /// Return the automatic emergency braking indicator state field.
    pub fn automatic_emergency_braking_indicator(&self) -> (value: IndicatorState)
        requires
            field::FLAGS_8 < self@.len(),
        ensures
            value == IndicatorState::from_raw(bits(self@[field::FLAGS_8 as int], 6, 2)),
    {
        IndicatorState::from(read_bits(self.buffer[field::FLAGS_8], 6, 2))
    }

    /// Set the bit in byte B at index I.
    pub fn write_bit<const B: usize, const I: u8>(&mut self, value: bool)
        requires
            B < old(self)@.len(),
            I < 8,
        ensures
            final(self)@ == old(self)@.update(B as int, put_flag(old(self)@[B as int], I, value)),
    {
        let raw = write_flag(self.buffer[B], I, value);
        self.buffer.set(B, raw);
    }

    /// Set the steering assistance fault type field.
    pub fn set_steering_assistance_fault_type(&mut self, value: SteeringAssistanceFaultType)
        requires
            field::FLAGS_6 < old(self)@.len(),
        ensures
            final(self)@ == old(self)@.update(field::FLAGS_6 as int, put_bits(old(self)@[field::FLAGS_6 as int], 3, 2, value.raw())),
    {
        let raw = write_bits(self.buffer[field::FLAGS_6], 3, 2, u8::from(value));
        self.buffer.set(field::FLAGS_6, raw);
    }

    /// Set the steering assistance indicator state field.
    pub fn set_steering_assistance_indicator(&mut self, value: SteeringAssistanceIndicatorState)
        requires
            field::FLAGS_6 < old(self)@.len(),
        ensures
            final(self)@ == old(self)@.update(field::FLAGS_6 as int, put_bits(old(self)@[field::FLAGS_6 as int], 6, 2, value.raw())),
    {
        let raw = write_bits(self.buffer[field::FLAGS_6], 6, 2, u8::from(value));
        self.buffer.set(field::FLAGS_6, raw);
    }

    /// Set the gearbox drive mode engaged gear field.
    pub fn set_gearbox_drive_mode_gear(&mut self, value: GearboxDriveModeGear)
        requires
            field::FLAGS_7 < old(self)@.len(),
        ensures
            final(self)@ == old(self)@.update(field::FLAGS_7 as int, put_bits(old(self)@[field::FLAGS_7 as int], 1, 4, value.raw())),
    {
        let raw = write_bits(self.buffer[field::FLAGS_7], 1, 4, u8::from(value));
        self.buffer.set(field::FLAGS_7, raw);
    }

    /// Set the lane centering indicator state field.
    pub fn set_lane_centering_indicator(&mut self, value: LaneCenteringIndicatorState)
        requires
            field::FLAGS_8 < old(self)@.len(),
        ensures
            final(self)@ == old(self)@.update(field::FLAGS_8 as int, put_bits(old(self)@[field::FLAGS_8 as int], 2, 2, value.raw())),
    {
        let raw = write_bits(self.buffer[field::FLAGS_8], 2, 2, u8::from(value));
        self.buffer.set(field::FLAGS_8, raw);
    }

    /// Set the automatic emergency braking indicator state field.
    pub fn set_automatic_emergency_braking_indicator(&mut self, value: IndicatorState)
        requires
            field::FLAGS_8 < old(self)@.len(),
        ensures
            final(self)@ == old(self)@.update(field::FLAGS_8 as int, put_bits(old(self)@[field::FLAGS_8 as int], 6, 2, value.raw())),
    {
        let raw = write_bits(self.buffer[field::FLAGS_8], 6, 2, u8::from(value));
        self.buffer.set(field::FLAGS_8, raw);
    }
}

/// A high-level representation of a x168 CAN frame.
#[derive(Debug, PartialEq, Eq, Clone, Copy)]
pub struct Repr {
    pub under_inflation_failure: bool,
    pub cold_engine_alert: bool,
    pub low_brake_fluid_level_alert: bool,
    pub low_oil_pressure_alert: bool,
    pub low_oil_level_alert: bool,
    pub low_coolant_level_alert: bool,
    pub gearbox_has_more_than_six_speed: bool,
    pub coolant_temperature_alert: bool,
    pub automatic_wipers_enabled: bool,
    pub particulate_filter_indicator: bool,
    pub anti_emission_fault: bool,
    pub tyre_puncture_alert: bool,
    pub under_inflation_alert_flag: bool,
    pub electrical_generator_fault: bool,
    pub battery_charge_fault: bool,
    pub ebd_fault: bool,
    pub obd_fault: bool,
    pub worn_brake_pad_fault: bool,
    pub gearbox_fault: bool,
    pub esp_asr_fault: bool,
    pub abs_fault: bool,
    pub steering_assistance_fault: bool,
    pub passive_safety_fault: bool,
    pub turn_lights_fault: bool,
    pub water_in_diesel: bool,
    pub steering_assistance_fault_type_validity: bool,
    pub steering_assistance_fault_type: SteeringAssistanceFaultType,
    pub steering_assistance_indicator_validity: bool,
    pub steering_assistance_indicator: SteeringAssistanceIndicatorState,
    pub braking_assistance_fault: bool,
    pub gearbox_drive_mode_gear: GearboxDriveModeGear,
    pub lane_centering_indicator: LaneCenteringIndicatorState,
    pub automatic_emergency_braking_indicator: IndicatorState,
}

impl Repr {
    /// The representation that the bytes of a frame carry.
    #[verifier::opaque]
    pub open spec fn from_bytes(bytes: Seq<u8>) -> Repr {
        Repr {
            under_inflation_failure: flag(bytes[field::FLAGS_1 as int], 0),
            cold_engine_alert: flag(bytes[field::FLAGS_1 as int], 1),
            low_brake_fluid_level_alert: flag(bytes[field::FLAGS_1 as int], 2),
            low_oil_pressure_alert: flag(bytes[field::FLAGS_1 as int], 3),
            low_oil_level_alert: flag(bytes[field::FLAGS_1 as int], 4),
            low_coolant_level_alert: flag(bytes[field::FLAGS_1 as int], 5),
            gearbox_has_more_than_six_speed: flag(bytes[field::FLAGS_1 as int], 6),
            coolant_temperature_alert: flag(bytes[field::FLAGS_1 as int], 7),
            automatic_wipers_enabled: flag(bytes[field::FLAGS_2 as int], 3),
            particulate_filter_indicator: flag(bytes[field::FLAGS_2 as int], 4),
            anti_emission_fault: flag(bytes[field::FLAGS_2 as int], 5),
            tyre_puncture_alert: flag(bytes[field::FLAGS_2 as int], 6),
            under_inflation_alert_flag: flag(bytes[field::FLAGS_2 as int], 7),
            electrical_generator_fault: flag(bytes[field::FLAGS_3 as int], 0),
            battery_charge_fault: flag(bytes[field::FLAGS_3 as int], 1),
            ebd_fault: flag(bytes[field::FLAGS_3 as int], 3),
            obd_fault: flag(bytes[field::FLAGS_4 as int], 1),
            worn_brake_pad_fault: flag(bytes[field::FLAGS_4 as int], 2),
            gearbox_fault: flag(bytes[field::FLAGS_4 as int], 3),
            esp_asr_fault: flag(bytes[field::FLAGS_4 as int], 4),
            abs_fault: flag(bytes[field::FLAGS_4 as int], 5),
            steering_assistance_fault: flag(bytes[field::FLAGS_5 as int], 2),
            passive_safety_fault: flag(bytes[field::FLAGS_5 as int], 5),
            turn_lights_fault: flag(bytes[field::FLAGS_5 as int], 6),
            water_in_diesel: flag(bytes[field::FLAGS_5 as int], 7),
            steering_assistance_fault_type_validity: flag(bytes[field::FLAGS_6 as int], 2),
            steering_assistance_fault_type: SteeringAssistanceFaultType::from_raw(bits(bytes[field::FLAGS_6 as int], 3, 2)),
            steering_assistance_indicator_validity: flag(bytes[field::FLAGS_6 as int], 5),
            steering_assistance_indicator: SteeringAssistanceIndicatorState::from_raw(bits(bytes[field::FLAGS_6 as int], 6, 2)),
            braking_assistance_fault: flag(bytes[field::FLAGS_7 as int], 0),
            gearbox_drive_mode_gear: GearboxDriveModeGear::from_raw(bits(bytes[field::FLAGS_7 as int], 1, 4)),
            lane_centering_indicator: LaneCenteringIndicatorState::from_raw(bits(bytes[field::FLAGS_8 as int], 2, 2)),
            automatic_emergency_braking_indicator: IndicatorState::from_raw(bits(bytes[field::FLAGS_8 as int], 6, 2)),
        }
    }

    /// The byte at `field::FLAGS_1` once the fields that it carries are written into `b`.
    pub open spec fn flags_1_byte(self, b: u8) -> u8 {
        put_flag(put_flag(put_flag(put_flag(put_flag(put_flag(put_flag(put_flag(b, 0, self.under_inflation_failure), 1, self.cold_engine_alert), 2, self.low_brake_fluid_level_alert), 3, self.low_oil_pressure_alert), 4, self.low_oil_level_alert), 5, self.low_coolant_level_alert), 6, self.gearbox_has_more_than_six_speed), 7, self.coolant_temperature_alert)
    }

    /// The byte at `field::FLAGS_2` once the fields that it carries are written into `b`.
    pub open spec fn flags_2_byte(self, b: u8) -> u8 {
        put_flag(put_flag(put_flag(put_flag(put_flag(b, 3, self.automatic_wipers_enabled), 4, self.particulate_filter_indicator), 5, self.anti_emission_fault), 6, self.tyre_puncture_alert), 7, self.under_inflation_alert_flag)
    }

    /// The byte at `field::FLAGS_3` once the fields that it carries are written into `b`.
    pub open spec fn flags_3_byte(self, b: u8) -> u8 {
        put_flag(put_flag(put_flag(b, 0, self.electrical_generator_fault), 1, self.battery_charge_fault), 3, self.ebd_fault)
    }

    /// The byte at `field::FLAGS_4` once the fields that it carries are written into `b`.
    pub open spec fn flags_4_byte(self, b: u8) -> u8 {
        put_flag(put_flag(put_flag(put_flag(put_flag(b, 1, self.obd_fault), 2, self.worn_brake_pad_fault), 3, self.gearbox_fault), 4, self.esp_asr_fault), 5, self.abs_fault)
    }

    /// The byte at `field::FLAGS_5` once the fields that it carries are written into `b`.
    pub open spec fn flags_5_byte(self, b: u8) -> u8 {
        put_flag(put_flag(put_flag(put_flag(b, 2, self.steering_assistance_fault), 5, self.passive_safety_fault), 6, self.turn_lights_fault), 7, self.water_in_diesel)
    }

    /// The byte at `field::FLAGS_6` once the fields that it carries are written into `b`.
    pub open spec fn flags_6_byte(self, b: u8) -> u8 {
        put_bits(put_flag(put_bits(put_flag(b, 2, self.steering_assistance_fault_type_validity), 3, 2, self.steering_assistance_fault_type.raw()), 5, self.steering_assistance_indicator_validity), 6, 2, self.steering_assistance_indicator.raw())
    }

    /// The byte at `field::FLAGS_7` once the fields that it carries are written into `b`.
    pub open spec fn flags_7_byte(self, b: u8) -> u8 {
        put_bits(put_flag(b, 0, self.braking_assistance_fault), 1, 4, self.gearbox_drive_mode_gear.raw())
    }

    /// The byte at `field::FLAGS_8` once the fields that it carries are written into `b`.
    pub open spec fn flags_8_byte(self, b: u8) -> u8 {
        put_bits(put_bits(b, 2, 2, self.lane_centering_indicator.raw()), 6, 2, self.automatic_emergency_braking_indicator.raw())
    }

    /// The bytes of a frame once `self` is emitted into them.
    pub open spec fn emit_bytes(self, bytes: Seq<u8>) -> Seq<u8> {
        bytes.update(
            field::FLAGS_1 as int,
            self.flags_1_byte(bytes[field::FLAGS_1 as int]),
        ).update(
            field::FLAGS_2 as int,
            self.flags_2_byte(bytes[field::FLAGS_2 as int]),
        ).update(
            field::FLAGS_3 as int,
            self.flags_3_byte(bytes[field::FLAGS_3 as int]),
        ).update(
            field::FLAGS_4 as int,
            self.flags_4_byte(bytes[field::FLAGS_4 as int]),
        ).update(
            field::FLAGS_5 as int,
            self.flags_5_byte(bytes[field::FLAGS_5 as int]),
        ).update(
            field::FLAGS_6 as int,
            self.flags_6_byte(bytes[field::FLAGS_6 as int]),
        ).update(
            field::FLAGS_7 as int,
            self.flags_7_byte(bytes[field::FLAGS_7 as int]),
        ).update(
            field::FLAGS_8 as int,
            self.flags_8_byte(bytes[field::FLAGS_8 as int]),
        )
    }

    /// Every field of `self` fits in the bits that the frame gives it.
    pub open spec fn fits(self) -> bool {
        &&& SteeringAssistanceFaultType::from_raw(self.steering_assistance_fault_type.raw()) == self.steering_assistance_fault_type && self.steering_assistance_fault_type.raw() < 4
        &&& SteeringAssistanceIndicatorState::from_raw(self.steering_assistance_indicator.raw()) == self.steering_assistance_indicator && self.steering_assistance_indicator.raw() < 4
        &&& GearboxDriveModeGear::from_raw(self.gearbox_drive_mode_gear.raw()) == self.gearbox_drive_mode_gear && self.gearbox_drive_mode_gear.raw() < 16
        &&& LaneCenteringIndicatorState::from_raw(self.lane_centering_indicator.raw()) == self.lane_centering_indicator && self.lane_centering_indicator.raw() < 4
        &&& IndicatorState::from_raw(self.automatic_emergency_braking_indicator.raw()) == self.automatic_emergency_braking_indicator && self.automatic_emergency_braking_indicator.raw() < 4
    }

    /// Parse a x168 CAN frame into its high-level representation.
    pub fn parse(frame: &Frame) -> (r: Result<Repr, Error>)
        ensures
            r is Ok <==> frame@.len() == FRAME_LEN,
            r matches Ok(repr) ==> repr == Repr::from_bytes(frame@),
            r matches Err(e) ==> length_check(frame@.len(), FRAME_LEN as nat) == Err::<(), Error>(e),
    {
        if let Err(e) = frame.check_len() {
            return Err(e);
        }
        Ok(Self::read_fields(frame))
    }

    /// The representation that the bytes of `frame` carry.
    fn read_fields(frame: &Frame) -> (repr: Repr)
        requires
            FRAME_LEN <= frame@.len(),
        ensures
            repr == Repr::from_bytes(frame@),
    {
        let repr = Repr {
            under_inflation_failure: frame.read_bit::<FLAGS_1, 0>(),
            cold_engine_alert: frame.read_bit::<FLAGS_1, 1>(),
            low_brake_fluid_level_alert: frame.read_bit::<FLAGS_1, 2>(),
            low_oil_pressure_alert: frame.read_bit::<FLAGS_1, 3>(),
            low_oil_level_alert: frame.read_bit::<FLAGS_1, 4>(),
            low_coolant_level_alert: frame.read_bit::<FLAGS_1, 5>(),
            gearbox_has_more_than_six_speed: frame.read_bit::<FLAGS_1, 6>(),
            coolant_temperature_alert: frame.read_bit::<FLAGS_1, 7>(),
            automatic_wipers_enabled: frame.read_bit::<FLAGS_2, 3>(),
            particulate_filter_indicator: frame.read_bit::<FLAGS_2, 4>(),
            anti_emission_fault: frame.read_bit::<FLAGS_2, 5>(),
            tyre_puncture_alert: frame.read_bit::<FLAGS_2, 6>(),
            under_inflation_alert_flag: frame.read_bit::<FLAGS_2, 7>(),
            electrical_generator_fault: frame.read_bit::<FLAGS_3, 0>(),
            battery_charge_fault: frame.read_bit::<FLAGS_3, 1>(),
            ebd_fault: frame.read_bit::<FLAGS_3, 3>(),
            obd_fault: frame.read_bit::<FLAGS_4, 1>(),
            worn_brake_pad_fault: frame.read_bit::<FLAGS_4, 2>(),
            gearbox_fault: frame.read_bit::<FLAGS_4, 3>(),
            esp_asr_fault: frame.read_bit::<FLAGS_4, 4>(),
            abs_fault: frame.read_bit::<FLAGS_4, 5>(),
            steering_assistance_fault: frame.read_bit::<FLAGS_5, 2>(),
            passive_safety_fault: frame.read_bit::<FLAGS_5, 5>(),
            turn_lights_fault: frame.read_bit::<FLAGS_5, 6>(),
            water_in_diesel: frame.read_bit::<FLAGS_5, 7>(),
            steering_assistance_fault_type_validity: frame.read_bit::<FLAGS_6, 2>(),
            steering_assistance_fault_type: frame.steering_assistance_fault_type(),
            steering_assistance_indicator_validity: frame.read_bit::<FLAGS_6, 5>(),
            steering_assistance_indicator: frame.steering_assistance_indicator(),
            braking_assistance_fault: frame.read_bit::<FLAGS_7, 0>(),
            gearbox_drive_mode_gear: frame.gearbox_drive_mode_gear(),
            lane_centering_indicator: frame.lane_centering_indicator(),
            automatic_emergency_braking_indicator: frame.automatic_emergency_braking_indicator(),
        };
        proof {
            Repr::lemma_from_fields(repr, frame@);
        }
        repr
    }

    /// A representation whose every field holds what `bytes` carry is the
    /// representation that `bytes` carry.
    proof fn lemma_from_fields(repr: Repr, bytes: Seq<u8>)
        requires
            repr.under_inflation_failure == flag(bytes[field::FLAGS_1 as int], 0),
            repr.cold_engine_alert == flag(bytes[field::FLAGS_1 as int], 1),
            repr.low_brake_fluid_level_alert == flag(bytes[field::FLAGS_1 as int], 2),
            repr.low_oil_pressure_alert == flag(bytes[field::FLAGS_1 as int], 3),
            repr.low_oil_level_alert == flag(bytes[field::FLAGS_1 as int], 4),
            repr.low_coolant_level_alert == flag(bytes[field::FLAGS_1 as int], 5),
            repr.gearbox_has_more_than_six_speed == flag(bytes[field::FLAGS_1 as int], 6),
            repr.coolant_temperature_alert == flag(bytes[field::FLAGS_1 as int], 7),
            repr.automatic_wipers_enabled == flag(bytes[field::FLAGS_2 as int], 3),
            repr.particulate_filter_indicator == flag(bytes[field::FLAGS_2 as int], 4),
            repr.anti_emission_fault == flag(bytes[field::FLAGS_2 as int], 5),
            repr.tyre_puncture_alert == flag(bytes[field::FLAGS_2 as int], 6),
            repr.under_inflation_alert_flag == flag(bytes[field::FLAGS_2 as int], 7),
            repr.electrical_generator_fault == flag(bytes[field::FLAGS_3 as int], 0),
            repr.battery_charge_fault == flag(bytes[field::FLAGS_3 as int], 1),
            repr.ebd_fault == flag(bytes[field::FLAGS_3 as int], 3),
            repr.obd_fault == flag(bytes[field::FLAGS_4 as int], 1),
            repr.worn_brake_pad_fault == flag(bytes[field::FLAGS_4 as int], 2),
            repr.gearbox_fault == flag(bytes[field::FLAGS_4 as int], 3),
            repr.esp_asr_fault == flag(bytes[field::FLAGS_4 as int], 4),
            repr.abs_fault == flag(bytes[field::FLAGS_4 as int], 5),
            repr.steering_assistance_fault == flag(bytes[field::FLAGS_5 as int], 2),
            repr.passive_safety_fault == flag(bytes[field::FLAGS_5 as int], 5),
            repr.turn_lights_fault == flag(bytes[field::FLAGS_5 as int], 6),
            repr.water_in_diesel == flag(bytes[field::FLAGS_5 as int], 7),
            repr.steering_assistance_fault_type_validity == flag(bytes[field::FLAGS_6 as int], 2),
            repr.steering_assistance_fault_type == SteeringAssistanceFaultType::from_raw(bits(bytes[field::FLAGS_6 as int], 3, 2)),
            repr.steering_assistance_indicator_validity == flag(bytes[field::FLAGS_6 as int], 5),
            repr.steering_assistance_indicator == SteeringAssistanceIndicatorState::from_raw(bits(bytes[field::FLAGS_6 as int], 6, 2)),
            repr.braking_assistance_fault == flag(bytes[field::FLAGS_7 as int], 0),
            repr.gearbox_drive_mode_gear == GearboxDriveModeGear::from_raw(bits(bytes[field::FLAGS_7 as int], 1, 4)),
            repr.lane_centering_indicator == LaneCenteringIndicatorState::from_raw(bits(bytes[field::FLAGS_8 as int], 2, 2)),
            repr.automatic_emergency_braking_indicator == IndicatorState::from_raw(bits(bytes[field::FLAGS_8 as int], 6, 2)),
        ensures
            repr == Repr::from_bytes(bytes),
    {
        reveal(Repr::from_bytes);
    }

    /// The text of `self`: each field by name, with its value.
    pub open spec fn text(self) -> Seq<char> {
        self.text_prefix_6()
    }

    /// The first part of the text of `self`, up to part 0.
    #[verifier::opaque]
    pub open spec fn text_prefix_0(self) -> Seq<char> {
        "x168\n under_inflation_failure="@
            + bool_text(self.under_inflation_failure)
            + "\n cold_engine_alert="@
            + bool_text(self.cold_engine_alert)
            + "\n low_brake_fluid_level_alert="@
            + bool_text(self.low_brake_fluid_level_alert)
            + "\n low_oil_pressure_alert="@
            + bool_text(self.low_oil_pressure_alert)
            + "\n low_oil_level_alert="@
            + bool_text(self.low_oil_level_alert)
    }

    /// The first parts of the text of `self`, up to part 1.
    #[verifier::opaque]
    pub open spec fn text_prefix_1(self) -> Seq<char> {
        self.text_prefix_0()
            + "\n low_coolant_level_alert="@
            + bool_text(self.low_coolant_level_alert)
            + "\n gearbox_has_more_than_six_speed="@
            + bool_text(self.gearbox_has_more_than_six_speed)
            + "\n coolant_temperature_alert="@
            + bool_text(self.coolant_temperature_alert)
            + "\n automatic_wipers_enabled="@
            + bool_text(self.automatic_wipers_enabled)
            + "\n particulate_filter_indicator="@
            + bool_text(self.particulate_filter_indicator)
    }

    /// The first parts of the text of `self`, up to part 2.
    #[verifier::opaque]
    pub open spec fn text_prefix_2(self) -> Seq<char> {
        self.text_prefix_1()
            + "\n anti_emission_fault="@
            + bool_text(self.anti_emission_fault)
            + "\n tyre_puncture_alert="@
            + bool_text(self.tyre_puncture_alert)
            + "\n under_inflation_alert_flag="@
            + bool_text(self.under_inflation_alert_flag)
            + "\n electrical_generator_fault="@
            + bool_text(self.electrical_generator_fault)
            + "\n battery_charge_fault="@
            + bool_text(self.battery_charge_fault)
    }

    /// The first parts of the text of `self`, up to part 3.
    #[verifier::opaque]
    pub open spec fn text_prefix_3(self) -> Seq<char> {
        self.text_prefix_2()
            + "\n ebd_fault="@
            + bool_text(self.ebd_fault)
            + "\n obd_fault="@
            + bool_text(self.obd_fault)
            + "\n worn_brake_pad_fault="@
            + bool_text(self.worn_brake_pad_fault)
            + "\n gearbox_fault="@
            + bool_text(self.gearbox_fault)
            + "\n esp_asr_fault="@
            + bool_text(self.esp_asr_fault)
    }

    /// The first parts of the text of `self`, up to part 4.
    #[verifier::opaque]
    pub open spec fn text_prefix_4(self) -> Seq<char> {
        self.text_prefix_3()
            + "\n abs_fault="@
            + bool_text(self.abs_fault)
            + "\n steering_assistance_fault="@
            + bool_text(self.steering_assistance_fault)
            + "\n passive_safety_fault="@
            + bool_text(self.passive_safety_fault)
            + "\n turn_lights_fault="@
            + bool_text(self.turn_lights_fault)
            + "\n water_in_diesel="@
            + bool_text(self.water_in_diesel)
    }

    /// The first parts of the text of `self`, up to part 5.
    #[verifier::opaque]
    pub open spec fn text_prefix_5(self) -> Seq<char> {
        self.text_prefix_4()
            + "\n steering_assistance_fault_type_validity="@
            + bool_text(self.steering_assistance_fault_type_validity)
            + "\n steering_assistance_fault_type="@
            + self.steering_assistance_fault_type.text()
            + "\n steering_assistance_indicator_validity="@
            + bool_text(self.steering_assistance_indicator_validity)
            + "\n steering_assistance_indicator="@
            + self.steering_assistance_indicator.text()
            + "\n braking_assistance_fault="@
            + bool_text(self.braking_assistance_fault)
    }

    /// The first parts of the text of `self`, up to part 6.
    #[verifier::opaque]
    pub open spec fn text_prefix_6(self) -> Seq<char> {
        self.text_prefix_5()
            + "\n gearbox_drive_mode_gear="@
            + self.gearbox_drive_mode_gear.text()
            + "\n lane_centering_indicator="@
            + self.lane_centering_indicator.text()
            + "\n automatic_emergency_braking_indicator="@
            + self.automatic_emergency_braking_indicator.text()
            + "\n"@
    }

    /// Return the text of `self`.
    pub fn to_text(&self) -> (s: String)
        ensures
            s@ == self.text(),
    {
        let mut s = self.text_start();
        self.push_text_part_1(&mut s);
        self.push_text_part_2(&mut s);
        self.push_text_part_3(&mut s);
        self.push_text_part_4(&mut s);
        self.push_text_part_5(&mut s);
        self.push_text_part_6(&mut s);
        s
    }

    /// The first part of the text of `self`.
    fn text_start(&self) -> (s: String)
        ensures
            s@ == self.text_prefix_0(),
    {
        proof {
            reveal(Repr::text_prefix_0);
        }
        let mut s = String::from_str("x168\n under_inflation_failure=");
        push_bool(&mut s, self.under_inflation_failure);
        s.append("\n cold_engine_alert=");
        push_bool(&mut s, self.cold_engine_alert);
        s.append("\n low_brake_fluid_level_alert=");
        push_bool(&mut s, self.low_brake_fluid_level_alert);
        s.append("\n low_oil_pressure_alert=");
        push_bool(&mut s, self.low_oil_pressure_alert);
        s.append("\n low_oil_level_alert=");
        push_bool(&mut s, self.low_oil_level_alert);
        s
    }

    /// Appends part 1 of the text of `self`.
    fn push_text_part_1(&self, s: &mut String)
        requires
            old(s)@ == self.text_prefix_0(),
        ensures
            final(s)@ == self.text_prefix_1(),
    {
        proof {
            reveal(Repr::text_prefix_1);
        }
        s.append("\n low_coolant_level_alert=");
        push_bool(s, self.low_coolant_level_alert);
        s.append("\n gearbox_has_more_than_six_speed=");
        push_bool(s, self.gearbox_has_more_than_six_speed);
        s.append("\n coolant_temperature_alert=");
        push_bool(s, self.coolant_temperature_alert);
        s.append("\n automatic_wipers_enabled=");
        push_bool(s, self.automatic_wipers_enabled);
        s.append("\n particulate_filter_indicator=");
        push_bool(s, self.particulate_filter_indicator);
    }

    /// Appends part 2 of the text of `self`.
    fn push_text_part_2(&self, s: &mut String)
        requires
            old(s)@ == self.text_prefix_1(),
        ensures
            final(s)@ == self.text_prefix_2(),
    {
        proof {
            reveal(Repr::text_prefix_2);
        }
        s.append("\n anti_emission_fault=");
        push_bool(s, self.anti_emission_fault);
        s.append("\n tyre_puncture_alert=");
        push_bool(s, self.tyre_puncture_alert);
        s.append("\n under_inflation_alert_flag=");
        push_bool(s, self.under_inflation_alert_flag);
        s.append("\n electrical_generator_fault=");
        push_bool(s, self.electrical_generator_fault);
        s.append("\n battery_charge_fault=");
        push_bool(s, self.battery_charge_fault);
    }

    /// Appends part 3 of the text of `self`.
    fn push_text_part_3(&self, s: &mut String)
        requires
            old(s)@ == self.text_prefix_2(),
        ensures
            final(s)@ == self.text_prefix_3(),
    {
        proof {
            reveal(Repr::text_prefix_3);
        }
        s.append("\n ebd_fault=");
        push_bool(s, self.ebd_fault);
        s.append("\n obd_fault=");
        push_bool(s, self.obd_fault);
        s.append("\n worn_brake_pad_fault=");
        push_bool(s, self.worn_brake_pad_fault);
        s.append("\n gearbox_fault=");
        push_bool(s, self.gearbox_fault);
        s.append("\n esp_asr_fault=");
        push_bool(s, self.esp_asr_fault);
    }

    /// Appends part 4 of the text of `self`.
    fn push_text_part_4(&self, s: &mut String)
        requires
            old(s)@ == self.text_prefix_3(),
        ensures
            final(s)@ == self.text_prefix_4(),
    {
        proof {
            reveal(Repr::text_prefix_4);
        }
        s.append("\n abs_fault=");
        push_bool(s, self.abs_fault);
        s.append("\n steering_assistance_fault=");
        push_bool(s, self.steering_assistance_fault);
        s.append("\n passive_safety_fault=");
        push_bool(s, self.passive_safety_fault);
        s.append("\n turn_lights_fault=");
        push_bool(s, self.turn_lights_fault);
        s.append("\n water_in_diesel=");
        push_bool(s, self.water_in_diesel);
    }

    /// Appends part 5 of the text of `self`.
    fn push_text_part_5(&self, s: &mut String)
        requires
            old(s)@ == self.text_prefix_4(),
        ensures
            final(s)@ == self.text_prefix_5(),
    {
        proof {
            reveal(Repr::text_prefix_5);
        }
        s.append("\n steering_assistance_fault_type_validity=");
        push_bool(s, self.steering_assistance_fault_type_validity);
        s.append("\n steering_assistance_fault_type=");
        self.steering_assistance_fault_type.push_text(s);
        s.append("\n steering_assistance_indicator_validity=");
        push_bool(s, self.steering_assistance_indicator_validity);
        s.append("\n steering_assistance_indicator=");
        self.steering_assistance_indicator.push_text(s);
        s.append("\n braking_assistance_fault=");
        push_bool(s, self.braking_assistance_fault);
    }

    /// Appends part 6 of the text of `self`.
    fn push_text_part_6(&self, s: &mut String)
        requires
            old(s)@ == self.text_prefix_5(),
        ensures
            final(s)@ == self.text_prefix_6(),
    {
        proof {
            reveal(Repr::text_prefix_6);
        }
        s.append("\n gearbox_drive_mode_gear=");
        self.gearbox_drive_mode_gear.push_text(s);
        s.append("\n lane_centering_indicator=");
        self.lane_centering_indicator.push_text(s);
        s.append("\n automatic_emergency_braking_indicator=");
        self.automatic_emergency_braking_indicator.push_text(s);
        s.append("\n");
    }

    /// Return the length of a frame that will be emitted from this high-level representation.
    pub fn buffer_len(&self) -> (len: usize)
        ensures
            len == FRAME_LEN,
    {
        FRAME_LEN
    }

    /// Emit a high-level representation into a x168 CAN frame.
    pub fn emit(&self, frame: &mut Frame)
        requires
            FRAME_LEN <= old(frame)@.len(),
        ensures
            final(frame)@ == self.emit_bytes(old(frame)@),
    {
        self.emit_flags_1(frame);
        self.emit_flags_2(frame);
        self.emit_flags_3(frame);
        self.emit_flags_4(frame);
        self.emit_flags_5(frame);
        self.emit_flags_6(frame);
        self.emit_flags_7(frame);
        self.emit_flags_8(frame);
    }

    /// Write the fields that the byte at `field::FLAGS_1` carries.
    fn emit_flags_1(&self, frame: &mut Frame)
        requires
            field::FLAGS_1 < old(frame)@.len(),
        ensures
            final(frame)@ == old(frame)@.update(field::FLAGS_1 as int, self.flags_1_byte(old(frame)@[field::FLAGS_1 as int])),
    {
        frame.write_bit::<FLAGS_1, 0>(self.under_inflation_failure);
        frame.write_bit::<FLAGS_1, 1>(self.cold_engine_alert);
        frame.write_bit::<FLAGS_1, 2>(self.low_brake_fluid_level_alert);
        frame.write_bit::<FLAGS_1, 3>(self.low_oil_pressure_alert);
        frame.write_bit::<FLAGS_1, 4>(self.low_oil_level_alert);
        frame.write_bit::<FLAGS_1, 5>(self.low_coolant_level_alert);
        frame.write_bit::<FLAGS_1, 6>(self.gearbox_has_more_than_six_speed);
        frame.write_bit::<FLAGS_1, 7>(self.coolant_temperature_alert);
    }

    /// Write the fields that the byte at `field::FLAGS_2` carries.
    fn emit_flags_2(&self, frame: &mut Frame)
        requires
            field::FLAGS_2 < old(frame)@.len(),
        ensures
            final(frame)@ == old(frame)@.update(field::FLAGS_2 as int, self.flags_2_byte(old(frame)@[field::FLAGS_2 as int])),
    {
        frame.write_bit::<FLAGS_2, 3>(self.automatic_wipers_enabled);
        frame.write_bit::<FLAGS_2, 4>(self.particulate_filter_indicator);
        frame.write_bit::<FLAGS_2, 5>(self.anti_emission_fault);
        frame.write_bit::<FLAGS_2, 6>(self.tyre_puncture_alert);
        frame.write_bit::<FLAGS_2, 7>(self.under_inflation_alert_flag);
    }

    /// Write the fields that the byte at `field::FLAGS_3` carries.
    fn emit_flags_3(&self, frame: &mut Frame)
        requires
            field::FLAGS_3 < old(frame)@.len(),
        ensures
            final(frame)@ == old(frame)@.update(field::FLAGS_3 as int, self.flags_3_byte(old(frame)@[field::FLAGS_3 as int])),
    {
        frame.write_bit::<FLAGS_3, 0>(self.electrical_generator_fault);
        frame.write_bit::<FLAGS_3, 1>(self.battery_charge_fault);
        frame.write_bit::<FLAGS_3, 3>(self.ebd_fault);
    }

    /// Write the fields that the byte at `field::FLAGS_4` carries.
    fn emit_flags_4(&self, frame: &mut Frame)
        requires
            field::FLAGS_4 < old(frame)@.len(),
        ensures
            final(frame)@ == old(frame)@.update(field::FLAGS_4 as int, self.flags_4_byte(old(frame)@[field::FLAGS_4 as int])),
    {
        frame.write_bit::<FLAGS_4, 1>(self.obd_fault);
        frame.write_bit::<FLAGS_4, 2>(self.worn_brake_pad_fault);
        frame.write_bit::<FLAGS_4, 3>(self.gearbox_fault);
        frame.write_bit::<FLAGS_4, 4>(self.esp_asr_fault);
        frame.write_bit::<FLAGS_4, 5>(self.abs_fault);
    }

    /// Write the fields that the byte at `field::FLAGS_5` carries.
    fn emit_flags_5(&self, frame: &mut Frame)
        requires
            field::FLAGS_5 < old(frame)@.len(),
        ensures
            final(frame)@ == old(frame)@.update(field::FLAGS_5 as int, self.flags_5_byte(old(frame)@[field::FLAGS_5 as int])),
    {
        frame.write_bit::<FLAGS_5, 2>(self.steering_assistance_fault);
        frame.write_bit::<FLAGS_5, 5>(self.passive_safety_fault);
        frame.write_bit::<FLAGS_5, 6>(self.turn_lights_fault);
        frame.write_bit::<FLAGS_5, 7>(self.water_in_diesel);
    }

    /// Write the fields that the byte at `field::FLAGS_6` carries.
    fn emit_flags_6(&self, frame: &mut Frame)
        requires
            field::FLAGS_6 < old(frame)@.len(),
        ensures
            final(frame)@ == old(frame)@.update(field::FLAGS_6 as int, self.flags_6_byte(old(frame)@[field::FLAGS_6 as int])),
    {
        frame.write_bit::<FLAGS_6, 2>(self.steering_assistance_fault_type_validity);
        frame.set_steering_assistance_fault_type(self.steering_assistance_fault_type);
        frame.write_bit::<FLAGS_6, 5>(self.steering_assistance_indicator_validity);
        frame.set_steering_assistance_indicator(self.steering_assistance_indicator);
    }

    /// Write the fields that the byte at `field::FLAGS_7` carries.
    fn emit_flags_7(&self, frame: &mut Frame)
        requires
            field::FLAGS_7 < old(frame)@.len(),
        ensures
            final(frame)@ == old(frame)@.update(field::FLAGS_7 as int, self.flags_7_byte(old(frame)@[field::FLAGS_7 as int])),
    {
        frame.write_bit::<FLAGS_7, 0>(self.braking_assistance_fault);
        frame.set_gearbox_drive_mode_gear(self.gearbox_drive_mode_gear);
    }

    /// Write the fields that the byte at `field::FLAGS_8` carries.
    fn emit_flags_8(&self, frame: &mut Frame)
        requires
            field::FLAGS_8 < old(frame)@.len(),
        ensures
            final(frame)@ == old(frame)@.update(field::FLAGS_8 as int, self.flags_8_byte(old(frame)@[field::FLAGS_8 as int])),
    {
        frame.set_lane_centering_indicator(self.lane_centering_indicator);
        frame.set_automatic_emergency_braking_indicator(self.automatic_emergency_braking_indicator);
    }
}

impl Frame {
    /// Return the text of the frame: that of the representation that it
    /// carries, or the error that parsing it gives.
    pub fn to_text(&self) -> (s: String)
        ensures
            s@ == (match length_check(self@.len(), FRAME_LEN as nat) {
                Ok(_) => Repr::from_bytes(self@).text(),
                Err(e) => "x168 ("@ + e.text() + ")"@,
            }),
    {
        match Repr::parse(self) {
            Ok(repr) => repr.to_text(),
            Err(e) => {
                let mut s = String::from_str("x168 (");
                s.append(e.description());
                s.append(")");
                s
            },
        }
    }
}

/// The fields that the byte at `field::FLAGS_1` carries read back as they were written.
proof fn lemma_flags_1_parse_emit(repr: Repr, b: u8)
    requires
        repr.fits(),
    ensures
        flag(repr.flags_1_byte(b), 0) == repr.under_inflation_failure,
        flag(repr.flags_1_byte(b), 1) == repr.cold_engine_alert,
        flag(repr.flags_1_byte(b), 2) == repr.low_brake_fluid_level_alert,
        flag(repr.flags_1_byte(b), 3) == repr.low_oil_pressure_alert,
        flag(repr.flags_1_byte(b), 4) == repr.low_oil_level_alert,
        flag(repr.flags_1_byte(b), 5) == repr.low_coolant_level_alert,
        flag(repr.flags_1_byte(b), 6) == repr.gearbox_has_more_than_six_speed,
        flag(repr.flags_1_byte(b), 7) == repr.coolant_temperature_alert,
{
    broadcast use group_frame_laws;

    lemma_low_mask_values();
}

/// Writing back the fields read from the byte at `field::FLAGS_1` leaves it unchanged.
proof fn lemma_flags_1_emit_parse(bytes: Seq<u8>)
    requires
        bytes.len() == FRAME_LEN,
    ensures
        Repr::from_bytes(bytes).flags_1_byte(bytes[field::FLAGS_1 as int]) == bytes[field::FLAGS_1 as int],
{
    reveal(Repr::from_bytes);
    broadcast use group_frame_laws;

    lemma_low_mask_values();
}

/// The fields that the byte at `field::FLAGS_2` carries read back as they were written.
proof fn lemma_flags_2_parse_emit(repr: Repr, b: u8)
    requires
        repr.fits(),
    ensures
        flag(repr.flags_2_byte(b), 3) == repr.automatic_wipers_enabled,
        flag(repr.flags_2_byte(b), 4) == repr.particulate_filter_indicator,
        flag(repr.flags_2_byte(b), 5) == repr.anti_emission_fault,
        flag(repr.flags_2_byte(b), 6) == repr.tyre_puncture_alert,
        flag(repr.flags_2_byte(b), 7) == repr.under_inflation_alert_flag,
{
    broadcast use group_frame_laws;

    lemma_low_mask_values();
}

/// Writing back the fields read from the byte at `field::FLAGS_2` leaves it unchanged.
proof fn lemma_flags_2_emit_parse(bytes: Seq<u8>)
    requires
        bytes.len() == FRAME_LEN,
    ensures
        Repr::from_bytes(bytes).flags_2_byte(bytes[field::FLAGS_2 as int]) == bytes[field::FLAGS_2 as int],
{
    reveal(Repr::from_bytes);
    broadcast use group_frame_laws;

    lemma_low_mask_values();
}

/// The fields that the byte at `field::FLAGS_3` carries read back as they were written.
proof fn lemma_flags_3_parse_emit(repr: Repr, b: u8)
    requires
        repr.fits(),
    ensures
        flag(repr.flags_3_byte(b), 0) == repr.electrical_generator_fault,
        flag(repr.flags_3_byte(b), 1) == repr.battery_charge_fault,
        flag(repr.flags_3_byte(b), 3) == repr.ebd_fault,
{
    broadcast use group_frame_laws;

    lemma_low_mask_values();
}

/// Writing back the fields read from the byte at `field::FLAGS_3` leaves it unchanged.
proof fn lemma_flags_3_emit_parse(bytes: Seq<u8>)
    requires
        bytes.len() == FRAME_LEN,
    ensures
        Repr::from_bytes(bytes).flags_3_byte(bytes[field::FLAGS_3 as int]) == bytes[field::FLAGS_3 as int],
{
    reveal(Repr::from_bytes);
    broadcast use group_frame_laws;

    lemma_low_mask_values();
}

/// The fields that the byte at `field::FLAGS_4` carries read back as they were written.
proof fn lemma_flags_4_parse_emit(repr: Repr, b: u8)
    requires
        repr.fits(),
    ensures
        flag(repr.flags_4_byte(b), 1) == repr.obd_fault,
        flag(repr.flags_4_byte(b), 2) == repr.worn_brake_pad_fault,
        flag(repr.flags_4_byte(b), 3) == repr.gearbox_fault,
        flag(repr.flags_4_byte(b), 4) == repr.esp_asr_fault,
        flag(repr.flags_4_byte(b), 5) == repr.abs_fault,
{
    broadcast use group_frame_laws;

    lemma_low_mask_values();
}

/// Writing back the fields read from the byte at `field::FLAGS_4` leaves it unchanged.
proof fn lemma_flags_4_emit_parse(bytes: Seq<u8>)
    requires
        bytes.len() == FRAME_LEN,
    ensures
        Repr::from_bytes(bytes).flags_4_byte(bytes[field::FLAGS_4 as int]) == bytes[field::FLAGS_4 as int],
{
    reveal(Repr::from_bytes);
    broadcast use group_frame_laws;

    lemma_low_mask_values();
}

/// The fields that the byte at `field::FLAGS_5` carries read back as they were written.
proof fn lemma_flags_5_parse_emit(repr: Repr, b: u8)
    requires
        repr.fits(),
    ensures
        flag(repr.flags_5_byte(b), 2) == repr.steering_assistance_fault,
        flag(repr.flags_5_byte(b), 5) == repr.passive_safety_fault,
        flag(repr.flags_5_byte(b), 6) == repr.turn_lights_fault,
        flag(repr.flags_5_byte(b), 7) == repr.water_in_diesel,
{
    broadcast use group_frame_laws;

    lemma_low_mask_values();
}

/// Writing back the fields read from the byte at `field::FLAGS_5` leaves it unchanged.
proof fn lemma_flags_5_emit_parse(bytes: Seq<u8>)
    requires
        bytes.len() == FRAME_LEN,
    ensures
        Repr::from_bytes(bytes).flags_5_byte(bytes[field::FLAGS_5 as int]) == bytes[field::FLAGS_5 as int],
{
    reveal(Repr::from_bytes);
    broadcast use group_frame_laws;

    lemma_low_mask_values();
}

/// The fields that the byte at `field::FLAGS_6` carries read back as they were written.
proof fn lemma_flags_6_parse_emit(repr: Repr, b: u8)
    requires
        repr.fits(),
    ensures
        flag(repr.flags_6_byte(b), 2) == repr.steering_assistance_fault_type_validity,
        SteeringAssistanceFaultType::from_raw(bits(repr.flags_6_byte(b), 3, 2)) == repr.steering_assistance_fault_type,
        flag(repr.flags_6_byte(b), 5) == repr.steering_assistance_indicator_validity,
        SteeringAssistanceIndicatorState::from_raw(bits(repr.flags_6_byte(b), 6, 2)) == repr.steering_assistance_indicator,
{
    broadcast use group_frame_laws;

    lemma_low_mask_values();
}

/// Writing back the fields read from the byte at `field::FLAGS_6` leaves it unchanged.
proof fn lemma_flags_6_emit_parse(bytes: Seq<u8>)
    requires
        bytes.len() == FRAME_LEN,
    ensures
        Repr::from_bytes(bytes).flags_6_byte(bytes[field::FLAGS_6 as int]) == bytes[field::FLAGS_6 as int],
{
    reveal(Repr::from_bytes);
    broadcast use group_frame_laws;

    lemma_low_mask_values();
}

/// The fields that the byte at `field::FLAGS_7` carries read back as they were written.
proof fn lemma_flags_7_parse_emit(repr: Repr, b: u8)
    requires
        repr.fits(),
    ensures
        flag(repr.flags_7_byte(b), 0) == repr.braking_assistance_fault,
        GearboxDriveModeGear::from_raw(bits(repr.flags_7_byte(b), 1, 4)) == repr.gearbox_drive_mode_gear,
{
    broadcast use group_frame_laws;

    lemma_low_mask_values();
}

/// Writing back the fields read from the byte at `field::FLAGS_7` leaves it unchanged.
proof fn lemma_flags_7_emit_parse(bytes: Seq<u8>)
    requires
        bytes.len() == FRAME_LEN,
    ensures
        Repr::from_bytes(bytes).flags_7_byte(bytes[field::FLAGS_7 as int]) == bytes[field::FLAGS_7 as int],
{
    reveal(Repr::from_bytes);
    broadcast use group_frame_laws;

    lemma_low_mask_values();
}

/// The fields that the byte at `field::FLAGS_8` carries read back as they were written.
proof fn lemma_flags_8_parse_emit(repr: Repr, b: u8)
    requires
        repr.fits(),
    ensures
        LaneCenteringIndicatorState::from_raw(bits(repr.flags_8_byte(b), 2, 2)) == repr.lane_centering_indicator,
        IndicatorState::from_raw(bits(repr.flags_8_byte(b), 6, 2)) == repr.automatic_emergency_braking_indicator,
{
    broadcast use group_frame_laws;

    lemma_low_mask_values();
}

/// Writing back the fields read from the byte at `field::FLAGS_8` leaves it unchanged.
proof fn lemma_flags_8_emit_parse(bytes: Seq<u8>)
    requires
        bytes.len() == FRAME_LEN,
    ensures
        Repr::from_bytes(bytes).flags_8_byte(bytes[field::FLAGS_8 as int]) == bytes[field::FLAGS_8 as int],
{
    reveal(Repr::from_bytes);
    broadcast use group_frame_laws;

    lemma_low_mask_values();
}

/// Emitting a representation whose fields fit into the bytes of a frame, then
/// parsing the bytes, gives the representation back.
pub proof fn lemma_parse_emit(repr: Repr, bytes: Seq<u8>)
    requires
        repr.fits(),
        bytes.len() == FRAME_LEN,
    ensures
        Repr::from_bytes(repr.emit_bytes(bytes)) == repr,
{
    let emitted = repr.emit_bytes(bytes);
    assert(emitted[field::FLAGS_1 as int] == repr.flags_1_byte(bytes[field::FLAGS_1 as int]));
    assert(emitted[field::FLAGS_2 as int] == repr.flags_2_byte(bytes[field::FLAGS_2 as int]));
    assert(emitted[field::FLAGS_3 as int] == repr.flags_3_byte(bytes[field::FLAGS_3 as int]));
    assert(emitted[field::FLAGS_4 as int] == repr.flags_4_byte(bytes[field::FLAGS_4 as int]));
    assert(emitted[field::FLAGS_5 as int] == repr.flags_5_byte(bytes[field::FLAGS_5 as int]));
    assert(emitted[field::FLAGS_6 as int] == repr.flags_6_byte(bytes[field::FLAGS_6 as int]));
    assert(emitted[field::FLAGS_7 as int] == repr.flags_7_byte(bytes[field::FLAGS_7 as int]));
    assert(emitted[field::FLAGS_8 as int] == repr.flags_8_byte(bytes[field::FLAGS_8 as int]));
    lemma_flags_1_parse_emit(repr, bytes[field::FLAGS_1 as int]);
    lemma_flags_2_parse_emit(repr, bytes[field::FLAGS_2 as int]);
    lemma_flags_3_parse_emit(repr, bytes[field::FLAGS_3 as int]);
    lemma_flags_4_parse_emit(repr, bytes[field::FLAGS_4 as int]);
    lemma_flags_5_parse_emit(repr, bytes[field::FLAGS_5 as int]);
    lemma_flags_6_parse_emit(repr, bytes[field::FLAGS_6 as int]);
    lemma_flags_7_parse_emit(repr, bytes[field::FLAGS_7 as int]);
    lemma_flags_8_parse_emit(repr, bytes[field::FLAGS_8 as int]);
    Repr::lemma_from_fields(repr, emitted);
}

/// Emitting the representation that the bytes of a frame carry leaves the
/// bytes unchanged.
pub proof fn lemma_emit_parse(bytes: Seq<u8>)
    requires
        bytes.len() == FRAME_LEN,
    ensures
        Repr::from_bytes(bytes).emit_bytes(bytes) == bytes,
{
    reveal(Repr::from_bytes);
    broadcast use group_frame_laws;

    lemma_low_mask_values();
    lemma_flags_1_emit_parse(bytes);
    lemma_flags_2_emit_parse(bytes);
    lemma_flags_3_emit_parse(bytes);
    lemma_flags_4_emit_parse(bytes);
    lemma_flags_5_emit_parse(bytes);
    lemma_flags_6_emit_parse(bytes);
    lemma_flags_7_emit_parse(bytes);
    lemma_flags_8_emit_parse(bytes);
}

/// Each field of a representation reads the bits of the frame that the
/// layout gives it: a word high byte first, a flag or a field through its
/// mask.
pub proof fn lemma_fields_from_bytes(bytes: Seq<u8>)
    requires
        bytes.len() == FRAME_LEN,
    ensures
        Repr::from_bytes(bytes).under_inflation_failure == ((bytes[field::FLAGS_1 as int] & 0x01) != 0),
        Repr::from_bytes(bytes).cold_engine_alert == ((bytes[field::FLAGS_1 as int] & 0x02) != 0),
        Repr::from_bytes(bytes).low_brake_fluid_level_alert == ((bytes[field::FLAGS_1 as int] & 0x04) != 0),
        Repr::from_bytes(bytes).low_oil_pressure_alert == ((bytes[field::FLAGS_1 as int] & 0x08) != 0),
        Repr::from_bytes(bytes).low_oil_level_alert == ((bytes[field::FLAGS_1 as int] & 0x10) != 0),
        Repr::from_bytes(bytes).low_coolant_level_alert == ((bytes[field::FLAGS_1 as int] & 0x20) != 0),
        Repr::from_bytes(bytes).gearbox_has_more_than_six_speed == ((bytes[field::FLAGS_1 as int] & 0x40) != 0),
        Repr::from_bytes(bytes).coolant_temperature_alert == ((bytes[field::FLAGS_1 as int] & 0x80) != 0),
        Repr::from_bytes(bytes).automatic_wipers_enabled == ((bytes[field::FLAGS_2 as int] & 0x08) != 0),
        Repr::from_bytes(bytes).particulate_filter_indicator == ((bytes[field::FLAGS_2 as int] & 0x10) != 0),
        Repr::from_bytes(bytes).anti_emission_fault == ((bytes[field::FLAGS_2 as int] & 0x20) != 0),
        Repr::from_bytes(bytes).tyre_puncture_alert == ((bytes[field::FLAGS_2 as int] & 0x40) != 0),
        Repr::from_bytes(bytes).under_inflation_alert_flag == ((bytes[field::FLAGS_2 as int] & 0x80) != 0),
        Repr::from_bytes(bytes).electrical_generator_fault == ((bytes[field::FLAGS_3 as int] & 0x01) != 0),
        Repr::from_bytes(bytes).battery_charge_fault == ((bytes[field::FLAGS_3 as int] & 0x02) != 0),
        Repr::from_bytes(bytes).ebd_fault == ((bytes[field::FLAGS_3 as int] & 0x08) != 0),
        Repr::from_bytes(bytes).obd_fault == ((bytes[field::FLAGS_4 as int] & 0x02) != 0),
        Repr::from_bytes(bytes).worn_brake_pad_fault == ((bytes[field::FLAGS_4 as int] & 0x04) != 0),
        Repr::from_bytes(bytes).gearbox_fault == ((bytes[field::FLAGS_4 as int] & 0x08) != 0),
        Repr::from_bytes(bytes).esp_asr_fault == ((bytes[field::FLAGS_4 as int] & 0x10) != 0),
        Repr::from_bytes(bytes).abs_fault == ((bytes[field::FLAGS_4 as int] & 0x20) != 0),
        Repr::from_bytes(bytes).steering_assistance_fault == ((bytes[field::FLAGS_5 as int] & 0x04) != 0),
        Repr::from_bytes(bytes).passive_safety_fault == ((bytes[field::FLAGS_5 as int] & 0x20) != 0),
        Repr::from_bytes(bytes).turn_lights_fault == ((bytes[field::FLAGS_5 as int] & 0x40) != 0),
        Repr::from_bytes(bytes).water_in_diesel == ((bytes[field::FLAGS_5 as int] & 0x80) != 0),
        Repr::from_bytes(bytes).steering_assistance_fault_type_validity == ((bytes[field::FLAGS_6 as int] & 0x04) != 0),
        Repr::from_bytes(bytes).steering_assistance_fault_type == SteeringAssistanceFaultType::from_raw((bytes[field::FLAGS_6 as int] >> 3u8) & 0x03),
        Repr::from_bytes(bytes).steering_assistance_indicator_validity == ((bytes[field::FLAGS_6 as int] & 0x20) != 0),
        Repr::from_bytes(bytes).steering_assistance_indicator == SteeringAssistanceIndicatorState::from_raw((bytes[field::FLAGS_6 as int] >> 6u8) & 0x03),
        Repr::from_bytes(bytes).braking_assistance_fault == ((bytes[field::FLAGS_7 as int] & 0x01) != 0),
        Repr::from_bytes(bytes).gearbox_drive_mode_gear == GearboxDriveModeGear::from_raw((bytes[field::FLAGS_7 as int] >> 1u8) & 0x0f),
        Repr::from_bytes(bytes).lane_centering_indicator == LaneCenteringIndicatorState::from_raw((bytes[field::FLAGS_8 as int] >> 2u8) & 0x03),
        Repr::from_bytes(bytes).automatic_emergency_braking_indicator == IndicatorState::from_raw((bytes[field::FLAGS_8 as int] >> 6u8) & 0x03),
{
    reveal(Repr::from_bytes);
    lemma_low_mask_values();
    lemma_bits_formula(bytes[field::FLAGS_6 as int], 3, 2);
    lemma_bits_formula(bytes[field::FLAGS_6 as int], 6, 2);
    lemma_bits_formula(bytes[field::FLAGS_7 as int], 1, 4);
    lemma_bits_formula(bytes[field::FLAGS_8 as int], 2, 2);
    lemma_bits_formula(bytes[field::FLAGS_8 as int], 6, 2);
    lemma_flag_masks(bytes[field::FLAGS_1 as int]);
    lemma_flag_masks(bytes[field::FLAGS_2 as int]);
    lemma_flag_masks(bytes[field::FLAGS_3 as int]);
    lemma_flag_masks(bytes[field::FLAGS_4 as int]);
    lemma_flag_masks(bytes[field::FLAGS_5 as int]);
    lemma_flag_masks(bytes[field::FLAGS_6 as int]);
    lemma_flag_masks(bytes[field::FLAGS_7 as int]);
}

/// Every representation that the bytes of a frame carry fits in the frame,
/// so that it can be emitted back.
pub proof fn lemma_parsed_fits(bytes: Seq<u8>)
    requires
        bytes.len() == FRAME_LEN,
    ensures
        Repr::from_bytes(bytes).fits(),
{
    reveal(Repr::from_bytes);
    broadcast use group_frame_laws;

    lemma_low_mask_values();
}

/// The text of a representation shows each field after its name and before
/// the name of the next field, so the fields stand in their order.
pub proof fn lemma_text_shows_fields(repr: Repr)
    ensures
        occurs("x168\n under_inflation_failure="@ + bool_text(repr.under_inflation_failure) + "\n cold_engine_alert="@, repr.text()),
        occurs("\n cold_engine_alert="@ + bool_text(repr.cold_engine_alert) + "\n low_brake_fluid_level_alert="@, repr.text()),
        occurs("\n low_brake_fluid_level_alert="@ + bool_text(repr.low_brake_fluid_level_alert) + "\n low_oil_pressure_alert="@, repr.text()),
        occurs("\n low_oil_pressure_alert="@ + bool_text(repr.low_oil_pressure_alert) + "\n low_oil_level_alert="@, repr.text()),
        occurs("\n low_oil_level_alert="@ + bool_text(repr.low_oil_level_alert) + "\n low_coolant_level_alert="@, repr.text()),
        occurs("\n low_coolant_level_alert="@ + bool_text(repr.low_coolant_level_alert) + "\n gearbox_has_more_than_six_speed="@, repr.text()),
        occurs("\n gearbox_has_more_than_six_speed="@ + bool_text(repr.gearbox_has_more_than_six_speed) + "\n coolant_temperature_alert="@, repr.text()),
        occurs("\n coolant_temperature_alert="@ + bool_text(repr.coolant_temperature_alert) + "\n automatic_wipers_enabled="@, repr.text()),
        occurs("\n automatic_wipers_enabled="@ + bool_text(repr.automatic_wipers_enabled) + "\n particulate_filter_indicator="@, repr.text()),
        occurs("\n particulate_filter_indicator="@ + bool_text(repr.particulate_filter_indicator) + "\n anti_emission_fault="@, repr.text()),
        occurs("\n anti_emission_fault="@ + bool_text(repr.anti_emission_fault) + "\n tyre_puncture_alert="@, repr.text()),
        occurs("\n tyre_puncture_alert="@ + bool_text(repr.tyre_puncture_alert) + "\n under_inflation_alert_flag="@, repr.text()),
        occurs("\n under_inflation_alert_flag="@ + bool_text(repr.under_inflation_alert_flag) + "\n electrical_generator_fault="@, repr.text()),
        occurs("\n electrical_generator_fault="@ + bool_text(repr.electrical_generator_fault) + "\n battery_charge_fault="@, repr.text()),
        occurs("\n battery_charge_fault="@ + bool_text(repr.battery_charge_fault) + "\n ebd_fault="@, repr.text()),
        occurs("\n ebd_fault="@ + bool_text(repr.ebd_fault) + "\n obd_fault="@, repr.text()),
        occurs("\n obd_fault="@ + bool_text(repr.obd_fault) + "\n worn_brake_pad_fault="@, repr.text()),
        occurs("\n worn_brake_pad_fault="@ + bool_text(repr.worn_brake_pad_fault) + "\n gearbox_fault="@, repr.text()),
        occurs("\n gearbox_fault="@ + bool_text(repr.gearbox_fault) + "\n esp_asr_fault="@, repr.text()),
        occurs("\n esp_asr_fault="@ + bool_text(repr.esp_asr_fault) + "\n abs_fault="@, repr.text()),
        occurs("\n abs_fault="@ + bool_text(repr.abs_fault) + "\n steering_assistance_fault="@, repr.text()),
        occurs("\n steering_assistance_fault="@ + bool_text(repr.steering_assistance_fault) + "\n passive_safety_fault="@, repr.text()),
        occurs("\n passive_safety_fault="@ + bool_text(repr.passive_safety_fault) + "\n turn_lights_fault="@, repr.text()),
        occurs("\n turn_lights_fault="@ + bool_text(repr.turn_lights_fault) + "\n water_in_diesel="@, repr.text()),
        occurs("\n water_in_diesel="@ + bool_text(repr.water_in_diesel) + "\n steering_assistance_fault_type_validity="@, repr.text()),
        occurs("\n steering_assistance_fault_type_validity="@ + bool_text(repr.steering_assistance_fault_type_validity) + "\n steering_assistance_fault_type="@, repr.text()),
        occurs("\n steering_assistance_fault_type="@ + repr.steering_assistance_fault_type.text() + "\n steering_assistance_indicator_validity="@, repr.text()),
        occurs("\n steering_assistance_indicator_validity="@ + bool_text(repr.steering_assistance_indicator_validity) + "\n steering_assistance_indicator="@, repr.text()),
        occurs("\n steering_assistance_indicator="@ + repr.steering_assistance_indicator.text() + "\n braking_assistance_fault="@, repr.text()),
        occurs("\n braking_assistance_fault="@ + bool_text(repr.braking_assistance_fault) + "\n gearbox_drive_mode_gear="@, repr.text()),
        occurs("\n gearbox_drive_mode_gear="@ + repr.gearbox_drive_mode_gear.text() + "\n lane_centering_indicator="@, repr.text()),
        occurs("\n lane_centering_indicator="@ + repr.lane_centering_indicator.text() + "\n automatic_emergency_braking_indicator="@, repr.text()),
        occurs("\n automatic_emergency_braking_indicator="@ + repr.automatic_emergency_braking_indicator.text() + "\n"@, repr.text()),
{
    lemma_text_part_0_shows_fields(repr);
    lemma_text_part_1_shows_fields(repr);
    lemma_text_prefix_0_grows(repr);
    lemma_text_part_2_shows_fields(repr);
    lemma_text_prefix_1_grows(repr);
    lemma_text_part_3_shows_fields(repr);
    lemma_text_prefix_2_grows(repr);
    lemma_text_part_4_shows_fields(repr);
    lemma_text_prefix_3_grows(repr);
    lemma_text_part_5_shows_fields(repr);
    lemma_text_prefix_4_grows(repr);
    lemma_text_part_6_shows_fields(repr);
    lemma_text_prefix_5_grows(repr);
}

/// Part 0 of the text of a representation shows each of its fields after
/// its name and before the name of the next field.
proof fn lemma_text_part_0_shows_fields(repr: Repr)
    ensures
        occurs("x168\n under_inflation_failure="@ + bool_text(repr.under_inflation_failure) + "\n cold_engine_alert="@, repr.text_prefix_0()),
        occurs("\n cold_engine_alert="@ + bool_text(repr.cold_engine_alert) + "\n low_brake_fluid_level_alert="@, repr.text_prefix_0()),
        occurs("\n low_brake_fluid_level_alert="@ + bool_text(repr.low_brake_fluid_level_alert) + "\n low_oil_pressure_alert="@, repr.text_prefix_0()),
        occurs("\n low_oil_pressure_alert="@ + bool_text(repr.low_oil_pressure_alert) + "\n low_oil_level_alert="@, repr.text_prefix_0()),
{
    reveal(Repr::text_prefix_0);
    broadcast use group_occurs;

}

/// Part 1 of the text of a representation shows each of its fields after
/// its name and before the name of the next field.
proof fn lemma_text_part_1_shows_fields(repr: Repr)
    ensures
        occurs("\n low_oil_level_alert="@ + bool_text(repr.low_oil_level_alert) + "\n low_coolant_level_alert="@, repr.text_prefix_1()),
        occurs("\n low_coolant_level_alert="@ + bool_text(repr.low_coolant_level_alert) + "\n gearbox_has_more_than_six_speed="@, repr.text_prefix_1()),
        occurs("\n gearbox_has_more_than_six_speed="@ + bool_text(repr.gearbox_has_more_than_six_speed) + "\n coolant_temperature_alert="@, repr.text_prefix_1()),
        occurs("\n coolant_temperature_alert="@ + bool_text(repr.coolant_temperature_alert) + "\n automatic_wipers_enabled="@, repr.text_prefix_1()),
        occurs("\n automatic_wipers_enabled="@ + bool_text(repr.automatic_wipers_enabled) + "\n particulate_filter_indicator="@, repr.text_prefix_1()),
{
    reveal(Repr::text_prefix_0);
    reveal(Repr::text_prefix_1);
    broadcast use group_occurs;

}

/// What occurs in the text of a representation up to part 0 occurs in its
/// text up to part 1.
proof fn lemma_text_prefix_0_grows(repr: Repr)
    ensures
        forall|t: Seq<char>| occurs(t, repr.text_prefix_0()) ==> #[trigger] occurs(t, repr.text_prefix_1()),
{
    reveal(Repr::text_prefix_1);
    broadcast use group_occurs;

}

/// Part 2 of the text of a representation shows each of its fields after
/// its name and before the name of the next field.
proof fn lemma_text_part_2_shows_fields(repr: Repr)
    ensures
        occurs("\n particulate_filter_indicator="@ + bool_text(repr.particulate_filter_indicator) + "\n anti_emission_fault="@, repr.text_prefix_2()),
        occurs("\n anti_emission_fault="@ + bool_text(repr.anti_emission_fault) + "\n tyre_puncture_alert="@, repr.text_prefix_2()),
        occurs("\n tyre_puncture_alert="@ + bool_text(repr.tyre_puncture_alert) + "\n under_inflation_alert_flag="@, repr.text_prefix_2()),
        occurs("\n under_inflation_alert_flag="@ + bool_text(repr.under_inflation_alert_flag) + "\n electrical_generator_fault="@, repr.text_prefix_2()),
        occurs("\n electrical_generator_fault="@ + bool_text(repr.electrical_generator_fault) + "\n battery_charge_fault="@, repr.text_prefix_2()),
{
    reveal(Repr::text_prefix_1);
    reveal(Repr::text_prefix_2);
    broadcast use group_occurs;

}

/// What occurs in the text of a representation up to part 1 occurs in its
/// text up to part 2.
proof fn lemma_text_prefix_1_grows(repr: Repr)
    ensures
        forall|t: Seq<char>| occurs(t, repr.text_prefix_1()) ==> #[trigger] occurs(t, repr.text_prefix_2()),
{
    reveal(Repr::text_prefix_2);
    broadcast use group_occurs;

}

/// Part 3 of the text of a representation shows each of its fields after
/// its name and before the name of the next field.
proof fn lemma_text_part_3_shows_fields(repr: Repr)
    ensures
        occurs("\n battery_charge_fault="@ + bool_text(repr.battery_charge_fault) + "\n ebd_fault="@, repr.text_prefix_3()),
        occurs("\n ebd_fault="@ + bool_text(repr.ebd_fault) + "\n obd_fault="@, repr.text_prefix_3()),
        occurs("\n obd_fault="@ + bool_text(repr.obd_fault) + "\n worn_brake_pad_fault="@, repr.text_prefix_3()),
        occurs("\n worn_brake_pad_fault="@ + bool_text(repr.worn_brake_pad_fault) + "\n gearbox_fault="@, repr.text_prefix_3()),
        occurs("\n gearbox_fault="@ + bool_text(repr.gearbox_fault) + "\n esp_asr_fault="@, repr.text_prefix_3()),
{
    reveal(Repr::text_prefix_2);
    reveal(Repr::text_prefix_3);
    broadcast use group_occurs;

}

/// What occurs in the text of a representation up to part 2 occurs in its
/// text up to part 3.
proof fn lemma_text_prefix_2_grows(repr: Repr)
    ensures
        forall|t: Seq<char>| occurs(t, repr.text_prefix_2()) ==> #[trigger] occurs(t, repr.text_prefix_3()),
{
    reveal(Repr::text_prefix_3);
    broadcast use group_occurs;

}

/// Part 4 of the text of a representation shows each of its fields after
/// its name and before the name of the next field.
proof fn lemma_text_part_4_shows_fields(repr: Repr)
    ensures
        occurs("\n esp_asr_fault="@ + bool_text(repr.esp_asr_fault) + "\n abs_fault="@, repr.text_prefix_4()),
        occurs("\n abs_fault="@ + bool_text(repr.abs_fault) + "\n steering_assistance_fault="@, repr.text_prefix_4()),
        occurs("\n steering_assistance_fault="@ + bool_text(repr.steering_assistance_fault) + "\n passive_safety_fault="@, repr.text_prefix_4()),
        occurs("\n passive_safety_fault="@ + bool_text(repr.passive_safety_fault) + "\n turn_lights_fault="@, repr.text_prefix_4()),
        occurs("\n turn_lights_fault="@ + bool_text(repr.turn_lights_fault) + "\n water_in_diesel="@, repr.text_prefix_4()),
{
    reveal(Repr::text_prefix_3);
    reveal(Repr::text_prefix_4);
    broadcast use group_occurs;

}

/// What occurs in the text of a representation up to part 3 occurs in its
/// text up to part 4.
proof fn lemma_text_prefix_3_grows(repr: Repr)
    ensures
        forall|t: Seq<char>| occurs(t, repr.text_prefix_3()) ==> #[trigger] occurs(t, repr.text_prefix_4()),
{
    reveal(Repr::text_prefix_4);
    broadcast use group_occurs;

}

/// Part 5 of the text of a representation shows each of its fields after
/// its name and before the name of the next field.
proof fn lemma_text_part_5_shows_fields(repr: Repr)
    ensures
        occurs("\n water_in_diesel="@ + bool_text(repr.water_in_diesel) + "\n steering_assistance_fault_type_validity="@, repr.text_prefix_5()),
        occurs("\n steering_assistance_fault_type_validity="@ + bool_text(repr.steering_assistance_fault_type_validity) + "\n steering_assistance_fault_type="@, repr.text_prefix_5()),
        occurs("\n steering_assistance_fault_type="@ + repr.steering_assistance_fault_type.text() + "\n steering_assistance_indicator_validity="@, repr.text_prefix_5()),
        occurs("\n steering_assistance_indicator_validity="@ + bool_text(repr.steering_assistance_indicator_validity) + "\n steering_assistance_indicator="@, repr.text_prefix_5()),
        occurs("\n steering_assistance_indicator="@ + repr.steering_assistance_indicator.text() + "\n braking_assistance_fault="@, repr.text_prefix_5()),
{
    reveal(Repr::text_prefix_4);
    reveal(Repr::text_prefix_5);
    broadcast use group_occurs;

}

/// What occurs in the text of a representation up to part 4 occurs in its
/// text up to part 5.
proof fn lemma_text_prefix_4_grows(repr: Repr)
    ensures
        forall|t: Seq<char>| occurs(t, repr.text_prefix_4()) ==> #[trigger] occurs(t, repr.text_prefix_5()),
{
    reveal(Repr::text_prefix_5);
    broadcast use group_occurs;

}

/// Part 6 of the text of a representation shows each of its fields after
/// its name and before the name of the next field.
proof fn lemma_text_part_6_shows_fields(repr: Repr)
    ensures
        occurs("\n braking_assistance_fault="@ + bool_text(repr.braking_assistance_fault) + "\n gearbox_drive_mode_gear="@, repr.text_prefix_6()),
        occurs("\n gearbox_drive_mode_gear="@ + repr.gearbox_drive_mode_gear.text() + "\n lane_centering_indicator="@, repr.text_prefix_6()),
        occurs("\n lane_centering_indicator="@ + repr.lane_centering_indicator.text() + "\n automatic_emergency_braking_indicator="@, repr.text_prefix_6()),
        occurs("\n automatic_emergency_braking_indicator="@ + repr.automatic_emergency_braking_indicator.text() + "\n"@, repr.text_prefix_6()),
{
    reveal(Repr::text_prefix_5);
    reveal(Repr::text_prefix_6);
    broadcast use group_occurs;

}

/// What occurs in the text of a representation up to part 5 occurs in its
/// text up to part 6.
proof fn lemma_text_prefix_5_grows(repr: Repr)
    ensures
        forall|t: Seq<char>| occurs(t, repr.text_prefix_5()) ==> #[trigger] occurs(t, repr.text_prefix_6()),
{
    reveal(Repr::text_prefix_6);
    broadcast use group_occurs;

}

} // verus!
