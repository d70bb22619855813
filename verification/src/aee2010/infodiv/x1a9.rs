//! The x1a9 CAN frame: display requests to the vehicle.
use crate::bitfield::{bits, bits16, flag, flag16, lemma_bits16_arith, lemma_bits_formula, lemma_bits_low_formula, lemma_flag_masks, lemma_low_mask16_values, lemma_low_mask_values, put_bits, put_bits16, put_flag, put_flag16, read_bits, read_bits16, read_flag, read_flag16, write_bits, write_bits16, write_flag, write_flag16};
use crate::endian::{be_u16, lemma_be_u16_roundtrip, put_be_u16, read_u16, write_u16};
use crate::vehicle::AutomaticParkingMode;
use crate::vehicle::CruiseControlCustomSettingPosition;
use crate::{check_frame_len, group_frame_laws, length_check, Error};
use crate::text::{bool_text, decimal_text, group_occurs, occurs, push_bool, push_decimal};
use vstd::prelude::*;

pub mod field;

verus! {

/// A read/write wrapper around a x1a9 CAN frame buffer.
#[derive(Debug, PartialEq, Clone)]
pub struct Frame {
    buffer: Vec<u8>,
}

impl View for Frame {
    type V = Seq<u8>;

    closed spec fn view(&self) -> Seq<u8> {
        self.buffer@
    }
}

impl AsRef<[u8]> for Frame {
    /// The bytes of the frame.
    fn as_ref(&self) -> (bytes: &[u8])
        ensures
            bytes@ == self@,
    {
        self.buffer.as_slice()
    }
}

/// Raw x1a9 CAN frame identifier.
pub const FRAME_ID: u16 = 0x1a9;

/// Length of a x1a9 CAN frame.
pub const FRAME_LEN: usize = field::REQ_4 + 1;

/// Periodicity of a x1a9 CAN frame, in milliseconds.
pub const PERIODICITY_MS: u64 = 200;

impl Frame {
    /// Create a raw octet buffer with a CAN frame structure.
    pub fn new_unchecked(buffer: Vec<u8>) -> (frame: Frame)
        ensures
            frame@ == buffer@,
    {
        Frame { buffer }
    }

    /// Shorthand for a combination of `new_unchecked` and `check_len`.
    pub fn new_checked(buffer: Vec<u8>) -> (r: Result<Frame, Error>)
        ensures
            r is Ok <==> buffer@.len() == FRAME_LEN,
            r matches Ok(frame) ==> frame@ == buffer@,
            r matches Err(e) ==> length_check(buffer@.len(), FRAME_LEN as nat) == Err::<(), Error>(e),
    {
        let frame = Self::new_unchecked(buffer);
        match frame.check_len() {
            Ok(()) => Ok(frame),
            Err(e) => Err(e),
        }
    }

    /// Ensure that no accessor method will panic if called.
    /// Returns `Err(Error::Truncated)` if the buffer is too short and
    /// `Err(Error::Overlong)` if it is too long.
    pub fn check_len(&self) -> (r: Result<(), Error>)
        ensures
            r == length_check(self@.len(), FRAME_LEN as nat),
    {
        check_frame_len(self.buffer.len(), FRAME_LEN)
    }

    /// Consume the frame, returning the underlying buffer.
    pub fn into_inner(self) -> (buffer: Vec<u8>)
        ensures
            buffer@ == self@,
    {
        self.buffer
    }

    /// Return the frame length.
    pub fn frame_len(&self) -> (len: usize)
        ensures
            len == FRAME_LEN,
    {
        FRAME_LEN
    }

    /// Return the trip computer secondary trip reset request flag.
    pub fn trip_computer_secondary_trip_reset_request(&self) -> (value: bool)
        requires
            field::REQ_0 < self@.len(),
        ensures
            value == flag(self@[field::REQ_0 as int], 0),
    {
        read_flag(self.buffer[field::REQ_0], 0)
    }

    /// Return the trip computer primary trip reset request flag.
    pub fn trip_computer_primary_trip_reset_request(&self) -> (value: bool)
        requires
            field::REQ_0 < self@.len(),
        ensures
            value == flag(self@[field::REQ_0 as int], 1),
    {
        read_flag(self.buffer[field::REQ_0], 1)
    }

    /// Return the adaptive cruise-control push button state flag.
    pub fn adaptive_cruise_control_button_state(&self) -> (value: bool)
        requires
            field::REQ_0 < self@.len(),
        ensures
            value == flag(self@[field::REQ_0 as int], 2),
    {
        read_flag(self.buffer[field::REQ_0], 2)
    }

    /// Return the automatic parking mode selection field.
    pub fn auto_parking_mode(&self) -> (value: AutomaticParkingMode)
        requires
            field::REQ_0 < self@.len(),
        ensures
            value == AutomaticParkingMode::from_raw(bits(self@[field::REQ_0 as int], 3, 2)),
    {
        AutomaticParkingMode::from(read_bits(self.buffer[field::REQ_0], 3, 2))
    }

    /// Return the telematics enabled flag.
    pub fn telematics_enabled(&self) -> (value: bool)
        requires
            field::REQ_0 < self@.len(),
        ensures
            value == flag(self@[field::REQ_0 as int], 5),
    {
        read_flag(self.buffer[field::REQ_0], 5)
    }

    /// Return the black panel function state flag.
    pub fn black_panel_enabled(&self) -> (value: bool)
        requires
            field::REQ_0 < self@.len(),
        ensures
            value == flag(self@[field::REQ_0 as int], 7),
    {
        read_flag(self.buffer[field::REQ_0], 7)
    }

    /// Return the interactive message field.
    pub fn interactive_message(&self) -> (value: u16)
        requires
            field::INTERACTIVE_MSG_STOP_CHK + 2 <= self@.len(),
        ensures
            value == bits16(be_u16(self@, field::INTERACTIVE_MSG_STOP_CHK as int), 0, 15),
    {
        read_bits16(read_u16(self.buffer.as_slice(), field::INTERACTIVE_MSG_STOP_CHK), 0, 15)
    }

    /// Return the MFD stop check request field.
    pub fn stop_check_request(&self) -> (value: bool)
        requires
            field::INTERACTIVE_MSG_STOP_CHK + 2 <= self@.len(),
        ensures
            value == flag16(be_u16(self@, field::INTERACTIVE_MSG_STOP_CHK as int), 15),
    {
        read_flag16(read_u16(self.buffer.as_slice(), field::INTERACTIVE_MSG_STOP_CHK), 15)
    }

    /// Return the cruise-control custom speed memorization request flag.
    pub fn cruise_control_custom_speed_mem_request(&self) -> (value: bool)
        requires
            field::REQ_1 < self@.len(),
        ensures
            value == flag(self@[field::REQ_1 as int], 0),
    {
        read_flag(self.buffer[field::REQ_1], 0)
    }

    /// Return the available space measurement push button state flag.
    pub fn available_space_measurement_button_state(&self) -> (value: bool)
        requires
            field::REQ_1 < self@.len(),
        ensures
            value == flag(self@[field::REQ_1 as int], 1),
    {
        read_flag(self.buffer[field::REQ_1], 1)
    }

    /// Return the parking sensors push button state flag.
    pub fn parking_sensors_button_state(&self) -> (value: bool)
        requires
            field::REQ_1 < self@.len(),
        ensures
            value == flag(self@[field::REQ_1 as int], 2),
    {
        read_flag(self.buffer[field::REQ_1], 2)
    }

    /// Return the automatic main beam push button state flag.
    pub fn auto_main_beam_button_state(&self) -> (value: bool)
        requires
            field::REQ_1 < self@.len(),
        ensures
            value == flag(self@[field::REQ_1 as int], 3),
    {
        read_flag(self.buffer[field::REQ_1], 3)
    }

    /// Return the lane centering push button state flag.
    pub fn lane_centering_button_state(&self) -> (value: bool)
        requires
            field::REQ_1 < self@.len(),
        ensures
            value == flag(self@[field::REQ_1 as int], 4),
    {
        read_flag(self.buffer[field::REQ_1], 4)
    }

    /// Return the blind spot monitoring push button state flag.
    pub fn blind_spot_monitoring_button_state(&self) -> (value: bool)
        requires
            field::REQ_1 < self@.len(),
        ensures
            value == flag(self@[field::REQ_1 as int], 5),
    {
        read_flag(self.buffer[field::REQ_1], 5)
    }

    /// Return the adaptive cruise-control '+' push button state flag.
    pub fn adaptive_cruise_control_plus_button_state(&self) -> (value: bool)
        requires
            field::REQ_1 < self@.len(),
        ensures
            value == flag(self@[field::REQ_1 as int], 6),
    {
        read_flag(self.buffer[field::REQ_1], 6)
    }

    /// Return the adaptive cruise-control '-' push button state flag.
    pub fn adaptive_cruise_control_minus_button_state(&self) -> (value: bool)
        requires
            field::REQ_1 < self@.len(),
        ensures
            value == flag(self@[field::REQ_1 as int], 7),
    {
        read_flag(self.buffer[field::REQ_1], 7)
    }

    /// Return the cruise-control speed instruction value field.
    pub fn cruise_control_speed_instruction(&self) -> (value: u8)
        requires
            field::CC_SPD < self@.len(),
        ensures
            value == self@[field::CC_SPD as int],
    {
        self.buffer[field::CC_SPD]
    }

    /// Return the indirect under-inflation push button state flag.
    pub fn indirect_under_inflation_button_state(&self) -> (value: bool)
        requires
            field::REQ_2 < self@.len(),
        ensures
            value == flag(self@[field::REQ_2 as int], 0),
    {
        read_flag(self.buffer[field::REQ_2], 0)
    }

    /// Return the automatic parking state change request flag.
    pub fn auto_parking_state_change_request(&self) -> (value: bool)
        requires
            field::REQ_2 < self@.len(),
        ensures
            value == flag(self@[field::REQ_2 as int], 2),
    {
        read_flag(self.buffer[field::REQ_2], 2)
    }

    /// Return the collision alert failure display request flag.
    pub fn collision_alert_failure_display_request(&self) -> (value: bool)
        requires
            field::REQ_2 < self@.len(),
        ensures
            value == flag(self@[field::REQ_2 as int], 3),
    {
        read_flag(self.buffer[field::REQ_2], 3)
    }

    /// Return the cruise-control speed setting instruction position field.
    pub fn cruise_control_spd_setting_instruction_pos(&self) -> (value: CruiseControlCustomSettingPosition)
        requires
            field::REQ_2 < self@.len(),
        ensures
            value == CruiseControlCustomSettingPosition::from_raw(bits(self@[field::REQ_2 as int], 4, 3)),
    {
        CruiseControlCustomSettingPosition::from(read_bits(self.buffer[field::REQ_2], 4, 3))
    }

    /// Return the fault check request flag.
    pub fn fault_check_request(&self) -> (value: bool)
        requires
            field::REQ_3 < self@.len(),
        ensures
            value == flag(self@[field::REQ_3 as int], 0),
    {
        read_flag(self.buffer[field::REQ_3], 0)
    }

    /// Return the telematic screen lighting level value field.
    pub fn telematic_screen_lighting_level(&self) -> (value: u8)
        requires
            field::REQ_3 < self@.len(),
        ensures
            value == bits(self@[field::REQ_3 as int], 1, 4),
    {
        read_bits(self.buffer[field::REQ_3], 1, 4)
    }

    /// Return the telematic unit life state field.
    pub fn telematic_unit_life_state(&self) -> (value: u8)
        requires
            field::REQ_3 < self@.len(),
        ensures
            value == bits(self@[field::REQ_3 as int], 5, 2),
    {
        read_bits(self.buffer[field::REQ_3], 5, 2)
    }

    /// Return the Stop & Start push button state flag.
    pub fn stop_start_button_state(&self) -> (value: bool)
        requires
            field::REQ_3 < self@.len(),
        ensures
            value == flag(self@[field::REQ_3 as int], 7),
    {
        read_flag(self.buffer[field::REQ_3], 7)
    }

    /// Return the 'visiopark' visual parking assistance push button state field.
    pub fn visual_parking_assistance_button_state(&self) -> (value: u8)
        requires
            field::REQ_4 < self@.len(),
        ensures
            value == bits(self@[field::REQ_4 as int], 0, 3),
    {
        read_bits(self.buffer[field::REQ_4], 0, 3)
    }

    /// Return the cruise-control speed instruction value request flag.
    pub fn cruise_control_spd_instruction_val_request(&self) -> (value: bool)
        requires
            field::REQ_4 < self@.len(),
        ensures
            value == flag(self@[field::REQ_4 as int], 3),
    {
        read_flag(self.buffer[field::REQ_4], 3)
    }

    /// Return the visual parking assistance panoramic view push button state flag.
    pub fn visual_parking_assistance_panoramic_view_button_state(&self) -> (value: bool)
        requires
            field::REQ_4 < self@.len(),
        ensures
            value == flag(self@[field::REQ_4 as int], 4),
    {
        read_flag(self.buffer[field::REQ_4], 4)
    }

    /// Return the front visual parking assistance push button state flag.
    pub fn front_visual_parking_assistance_button_state(&self) -> (value: bool)
        requires
            field::REQ_4 < self@.len(),
        ensures
            value == flag(self@[field::REQ_4 as int], 5),
    {
        read_flag(self.buffer[field::REQ_4], 5)
    }

    /// Return the rear visual parking assistance push button state flag.
    pub fn rear_visual_parking_assistance_button_state(&self) -> (value: bool)
        requires
            field::REQ_4 < self@.len(),
        ensures
            value == flag(self@[field::REQ_4 as int], 6),
    {
        read_flag(self.buffer[field::REQ_4], 6)
    }

    /// Return the visual parking assistance activation request flag.
    pub fn visual_parking_assistance_activation_request(&self) -> (value: bool)
        requires
            field::REQ_4 < self@.len(),
        ensures
            value == flag(self@[field::REQ_4 as int], 7),
    {
        read_flag(self.buffer[field::REQ_4], 7)
    }

    /// Set the trip computer secondary trip reset request flag.
    pub fn set_trip_computer_secondary_trip_reset_request(&mut self, value: bool)
        requires
            field::REQ_0 < old(self)@.len(),
        ensures
            final(self)@ == old(self)@.update(field::REQ_0 as int, put_flag(old(self)@[field::REQ_0 as int], 0, value)),
    {
        let raw = write_flag(self.buffer[field::REQ_0], 0, value);
        self.buffer.set(field::REQ_0, raw);
    }

    /// Set the trip computer primary trip reset request flag.
    pub fn set_trip_computer_primary_trip_reset_request(&mut self, value: bool)
        requires
            field::REQ_0 < old(self)@.len(),
        ensures
            final(self)@ == old(self)@.update(field::REQ_0 as int, put_flag(old(self)@[field::REQ_0 as int], 1, value)),
    {
        let raw = write_flag(self.buffer[field::REQ_0], 1, value);
        self.buffer.set(field::REQ_0, raw);
    }

    /// Set the adaptive cruise-control push button state flag.
    pub fn set_adaptive_cruise_control_button_state(&mut self, value: bool)
        requires
            field::REQ_0 < old(self)@.len(),
        ensures
            final(self)@ == old(self)@.update(field::REQ_0 as int, put_flag(old(self)@[field::REQ_0 as int], 2, value)),
    {
        let raw = write_flag(self.buffer[field::REQ_0], 2, value);
        self.buffer.set(field::REQ_0, raw);
    }

    /// Set the automatic parking mode selection field.
    pub fn set_auto_parking_mode(&mut self, value: AutomaticParkingMode)
        requires
            field::REQ_0 < old(self)@.len(),
        ensures
            final(self)@ == old(self)@.update(field::REQ_0 as int, put_bits(old(self)@[field::REQ_0 as int], 3, 2, value.raw())),
    {
        let raw = write_bits(self.buffer[field::REQ_0], 3, 2, u8::from(value));
        self.buffer.set(field::REQ_0, raw);
    }

    /// Set the telematics enabled flag.
    pub fn set_telematics_enabled(&mut self, value: bool)
        requires
            field::REQ_0 < old(self)@.len(),
        ensures
            final(self)@ == old(self)@.update(field::REQ_0 as int, put_flag(old(self)@[field::REQ_0 as int], 5, value)),
    {
        let raw = write_flag(self.buffer[field::REQ_0], 5, value);
        self.buffer.set(field::REQ_0, raw);
    }

    /// Set the black panel function state flag.
    pub fn set_black_panel_enabled(&mut self, value: bool)
        requires
            field::REQ_0 < old(self)@.len(),
        ensures
            final(self)@ == old(self)@.update(field::REQ_0 as int, put_flag(old(self)@[field::REQ_0 as int], 7, value)),
    {
        let raw = write_flag(self.buffer[field::REQ_0], 7, value);
        self.buffer.set(field::REQ_0, raw);
    }

    /// Set the interactive message field.
    pub fn set_interactive_message(&mut self, value: u16)
        requires
            field::INTERACTIVE_MSG_STOP_CHK + 2 <= old(self)@.len(),
        ensures
            final(self)@ == put_be_u16(
                old(self)@,
                field::INTERACTIVE_MSG_STOP_CHK as int,
                put_bits16(be_u16(old(self)@, field::INTERACTIVE_MSG_STOP_CHK as int), 0, 15, value),
            ),
    {
        let raw = read_u16(self.buffer.as_slice(), field::INTERACTIVE_MSG_STOP_CHK);
        write_u16(&mut self.buffer, field::INTERACTIVE_MSG_STOP_CHK, write_bits16(raw, 0, 15, value));
    }

    /// Set the MFD stop check request field.
    pub fn set_stop_check_request(&mut self, value: bool)
        requires
            field::INTERACTIVE_MSG_STOP_CHK + 2 <= old(self)@.len(),
        ensures
            final(self)@ == put_be_u16(
                old(self)@,
                field::INTERACTIVE_MSG_STOP_CHK as int,
                put_flag16(be_u16(old(self)@, field::INTERACTIVE_MSG_STOP_CHK as int), 15, value),
            ),
    {
        let raw = read_u16(self.buffer.as_slice(), field::INTERACTIVE_MSG_STOP_CHK);
        write_u16(&mut self.buffer, field::INTERACTIVE_MSG_STOP_CHK, write_flag16(raw, 15, value));
    }

    /// Set the cruise-control custom speed memorization request field.
    pub fn set_cruise_control_custom_speed_mem_request(&mut self, value: bool)
        requires
            field::REQ_1 < old(self)@.len(),
        ensures
            final(self)@ == old(self)@.update(field::REQ_1 as int, put_flag(old(self)@[field::REQ_1 as int], 0, value)),
    {
        let raw = write_flag(self.buffer[field::REQ_1], 0, value);
        self.buffer.set(field::REQ_1, raw);
    }

    /// Set the available space measurement push button state flag.
    pub fn set_available_space_measurement_button_state(&mut self, value: bool)
        requires
            field::REQ_1 < old(self)@.len(),
        ensures
            final(self)@ == old(self)@.update(field::REQ_1 as int, put_flag(old(self)@[field::REQ_1 as int], 1, value)),
    {
        let raw = write_flag(self.buffer[field::REQ_1], 1, value);
        self.buffer.set(field::REQ_1, raw);
    }

    /// Set the parking sensors push button state flag.
    pub fn set_parking_sensors_button_state(&mut self, value: bool)
        requires
            field::REQ_1 < old(self)@.len(),
        ensures
            final(self)@ == old(self)@.update(field::REQ_1 as int, put_flag(old(self)@[field::REQ_1 as int], 2, value)),
    {
        let raw = write_flag(self.buffer[field::REQ_1], 2, value);
        self.buffer.set(field::REQ_1, raw);
    }

    /// Set the automatic main beam push button state flag.
    pub fn set_auto_main_beam_button_state(&mut self, value: bool)
        requires
            field::REQ_1 < old(self)@.len(),
        ensures
            final(self)@ == old(self)@.update(field::REQ_1 as int, put_flag(old(self)@[field::REQ_1 as int], 3, value)),
    {
        let raw = write_flag(self.buffer[field::REQ_1], 3, value);
        self.buffer.set(field::REQ_1, raw);
    }

    /// Set the lane centering push button state flag.
    pub fn set_lane_centering_button_state(&mut self, value: bool)
        requires
            field::REQ_1 < old(self)@.len(),
        ensures
            final(self)@ == old(self)@.update(field::REQ_1 as int, put_flag(old(self)@[field::REQ_1 as int], 4, value)),
    {
        let raw = write_flag(self.buffer[field::REQ_1], 4, value);
        self.buffer.set(field::REQ_1, raw);
    }

    /// Set the blind spot monitoring push button state flag.
    pub fn set_blind_spot_monitoring_button_state(&mut self, value: bool)
        requires
            field::REQ_1 < old(self)@.len(),
        ensures
            final(self)@ == old(self)@.update(field::REQ_1 as int, put_flag(old(self)@[field::REQ_1 as int], 5, value)),
    {
        let raw = write_flag(self.buffer[field::REQ_1], 5, value);
        self.buffer.set(field::REQ_1, raw);
    }

    /// Set the adaptive cruise-control '+' push button state flag.
    pub fn set_adaptive_cruise_control_plus_button_state(&mut self, value: bool)
        requires
            field::REQ_1 < old(self)@.len(),
        ensures
            final(self)@ == old(self)@.update(field::REQ_1 as int, put_flag(old(self)@[field::REQ_1 as int], 6, value)),
    {
        let raw = write_flag(self.buffer[field::REQ_1], 6, value);
        self.buffer.set(field::REQ_1, raw);
    }

    /// Set the adaptive cruise-control '-' push button state flag.
    pub fn set_adaptive_cruise_control_minus_button_state(&mut self, value: bool)
        requires
            field::REQ_1 < old(self)@.len(),
        ensures
            final(self)@ == old(self)@.update(field::REQ_1 as int, put_flag(old(self)@[field::REQ_1 as int], 7, value)),
    {
        let raw = write_flag(self.buffer[field::REQ_1], 7, value);
        self.buffer.set(field::REQ_1, raw);
    }

    /// Set the cruise-control speed instruction value field.
    pub fn set_cruise_control_speed_instruction(&mut self, value: u8)
        requires
            field::CC_SPD < old(self)@.len(),
        ensures
            final(self)@ == old(self)@.update(field::CC_SPD as int, value),
    {
        self.buffer.set(field::CC_SPD, value);
    }

    /// Set the indirect under-inflation push button state flag.
    pub fn set_indirect_under_inflation_button_state(&mut self, value: bool)
        requires
            field::REQ_2 < old(self)@.len(),
        ensures
            final(self)@ == old(self)@.update(field::REQ_2 as int, put_flag(old(self)@[field::REQ_2 as int], 0, value)),
    {
        let raw = write_flag(self.buffer[field::REQ_2], 0, value);
        self.buffer.set(field::REQ_2, raw);
    }

    /// Set the automatic parking state change request flag.
    pub fn set_auto_parking_state_change_request(&mut self, value: bool)
        requires
            field::REQ_2 < old(self)@.len(),
        ensures
            final(self)@ == old(self)@.update(field::REQ_2 as int, put_flag(old(self)@[field::REQ_2 as int], 2, value)),
    {
        let raw = write_flag(self.buffer[field::REQ_2], 2, value);
        self.buffer.set(field::REQ_2, raw);
    }

    /// Set the collision alert failure display request flag.
    pub fn set_collision_alert_failure_display_request(&mut self, value: bool)
        requires
            field::REQ_2 < old(self)@.len(),
        ensures
            final(self)@ == old(self)@.update(field::REQ_2 as int, put_flag(old(self)@[field::REQ_2 as int], 3, value)),
    {
        let raw = write_flag(self.buffer[field::REQ_2], 3, value);
        self.buffer.set(field::REQ_2, raw);
    }

    /// Set the cruise-control speed setting instruction position field.
    pub fn set_cruise_control_spd_setting_instruction_pos(&mut self, value: CruiseControlCustomSettingPosition)
        requires
            field::REQ_2 < old(self)@.len(),
        ensures
            final(self)@ == old(self)@.update(
                field::REQ_2 as int,
                put_bits(old(self)@[field::REQ_2 as int], 4, 3, value.raw()),
            ),
    {
        let raw = write_bits(self.buffer[field::REQ_2], 4, 3, u8::from(value));
        self.buffer.set(field::REQ_2, raw);
    }

    /// Set the fault check request flag.
    pub fn set_fault_check_request(&mut self, value: bool)
        requires
            field::REQ_3 < old(self)@.len(),
        ensures
            final(self)@ == old(self)@.update(field::REQ_3 as int, put_flag(old(self)@[field::REQ_3 as int], 0, value)),
    {
        let raw = write_flag(self.buffer[field::REQ_3], 0, value);
        self.buffer.set(field::REQ_3, raw);
    }

    /// Set the telematic screen lighting level value field.
    pub fn set_telematic_screen_lighting_level(&mut self, value: u8)
        requires
            field::REQ_3 < old(self)@.len(),
        ensures
            final(self)@ == old(self)@.update(field::REQ_3 as int, put_bits(old(self)@[field::REQ_3 as int], 1, 4, value)),
    {
        let raw = write_bits(self.buffer[field::REQ_3], 1, 4, value);
        self.buffer.set(field::REQ_3, raw);
    }

    /// Set the telematic unit life state field.
    pub fn set_telematic_unit_life_state(&mut self, value: u8)
        requires
            field::REQ_3 < old(self)@.len(),
        ensures
            final(self)@ == old(self)@.update(field::REQ_3 as int, put_bits(old(self)@[field::REQ_3 as int], 5, 2, value)),
    {
        let raw = write_bits(self.buffer[field::REQ_3], 5, 2, value);
        self.buffer.set(field::REQ_3, raw);
    }

    /// Set the indirect under-inflation detection reset request flag.
    pub fn set_stop_start_button_state(&mut self, value: bool)
        requires
            field::REQ_3 < old(self)@.len(),
        ensures
            final(self)@ == old(self)@.update(field::REQ_3 as int, put_flag(old(self)@[field::REQ_3 as int], 7, value)),
    {
        let raw = write_flag(self.buffer[field::REQ_3], 7, value);
        self.buffer.set(field::REQ_3, raw);
    }

    /// Set the 'visiopark' visual parking assistance push button state field.
    pub fn set_visual_parking_assistance_button_state(&mut self, value: u8)
        requires
            field::REQ_4 < old(self)@.len(),
        ensures
            final(self)@ == old(self)@.update(field::REQ_4 as int, put_bits(old(self)@[field::REQ_4 as int], 0, 3, value)),
    {
        let raw = write_bits(self.buffer[field::REQ_4], 0, 3, value);
        self.buffer.set(field::REQ_4, raw);
    }

    /// Set the cruise-control speed instruction value request flag.
    pub fn set_cruise_control_spd_instruction_val_request(&mut self, value: bool)
        requires
            field::REQ_4 < old(self)@.len(),
        ensures
            final(self)@ == old(self)@.update(field::REQ_4 as int, put_flag(old(self)@[field::REQ_4 as int], 3, value)),
    {
        let raw = write_flag(self.buffer[field::REQ_4], 3, value);
        self.buffer.set(field::REQ_4, raw);
    }

    /// Set the visual parking assistance panoramic view push button state flag.
    pub fn set_visual_parking_assistance_panoramic_view_button_state(&mut self, value: bool)
        requires
            field::REQ_4 < old(self)@.len(),
        ensures
            final(self)@ == old(self)@.update(field::REQ_4 as int, put_flag(old(self)@[field::REQ_4 as int], 4, value)),
    {
        let raw = write_flag(self.buffer[field::REQ_4], 4, value);
        self.buffer.set(field::REQ_4, raw);
    }

    /// Set the front visual parking assistance push button state flag.
    pub fn set_front_visual_parking_assistance_button_state(&mut self, value: bool)
        requires
            field::REQ_4 < old(self)@.len(),
        ensures
            final(self)@ == old(self)@.update(field::REQ_4 as int, put_flag(old(self)@[field::REQ_4 as int], 5, value)),
    {
        let raw = write_flag(self.buffer[field::REQ_4], 5, value);
        self.buffer.set(field::REQ_4, raw);
    }

    /// Set the rear visual parking assistance push button state flag.
    pub fn set_rear_visual_parking_assistance_button_state(&mut self, value: bool)
        requires
            field::REQ_4 < old(self)@.len(),
        ensures
            final(self)@ == old(self)@.update(field::REQ_4 as int, put_flag(old(self)@[field::REQ_4 as int], 6, value)),
    {
        let raw = write_flag(self.buffer[field::REQ_4], 6, value);
        self.buffer.set(field::REQ_4, raw);
    }

    /// Set the visual parking assistance activation request flag.
    pub fn set_visual_parking_assistance_activation_request(&mut self, value: bool)
        requires
            field::REQ_4 < old(self)@.len(),
        ensures
            final(self)@ == old(self)@.update(field::REQ_4 as int, put_flag(old(self)@[field::REQ_4 as int], 7, value)),
    {
        let raw = write_flag(self.buffer[field::REQ_4], 7, value);
        self.buffer.set(field::REQ_4, raw);
    }
}

/// A high-level representation of a x1a9 CAN frame.
#[derive(Debug, PartialEq, Eq, Clone, Copy)]
pub struct Repr {
    pub trip_computer_secondary_trip_reset_request: bool,
    pub trip_computer_primary_trip_reset_request: bool,
    pub adaptive_cruise_control_button_state: bool,
    pub automatic_parking_mode: AutomaticParkingMode,
    pub telematics_enabled: bool,
    pub black_panel_enabled: bool,
    pub interactive_message: u16,
    pub stop_check_request: bool,
    pub cruise_control_custom_speed_memorization_request: bool,
    pub available_space_measurement_button_state: bool,
    pub parking_sensors_button_state: bool,
    pub auto_main_beam_button_state: bool,
    pub lane_centering_button_state: bool,
    pub blind_spot_monitoring_button_state: bool,
    pub adaptive_cruise_control_plus_button_state: bool,
    pub adaptive_cruise_control_minus_button_state: bool,
    pub cruise_control_speed_instruction: u8,
    pub indirect_under_inflation_button_state: bool,
    pub automatic_parking_state_change_request: bool,
    pub collision_alert_failure_display_request: bool,
    pub cruise_control_speed_setting_instruction_position: CruiseControlCustomSettingPosition,
    pub fault_check_request: bool,
    pub telematic_screen_lighting_level: u8,
    pub telematic_unit_life_state: u8,
    pub stop_start_button_state: bool,
    pub visual_parking_assistance_button_state: u8,
    pub cruise_control_speed_instruction_value_request: bool,
    pub visual_parking_assistance_panoramic_view_button_state: bool,
    pub front_visual_parking_assistance_button_state: bool,
    pub rear_visual_parking_assistance_button_state: bool,
    pub visual_parking_assistance_activation_request: bool,
}

impl Repr {
    /// The representation that the bytes of a frame carry.
    #[verifier::opaque]
    pub open spec fn from_bytes(bytes: Seq<u8>) -> Repr {
        Repr {
            trip_computer_secondary_trip_reset_request: flag(bytes[field::REQ_0 as int], 0),
            trip_computer_primary_trip_reset_request: flag(bytes[field::REQ_0 as int], 1),
            adaptive_cruise_control_button_state: flag(bytes[field::REQ_0 as int], 2),
            automatic_parking_mode: AutomaticParkingMode::from_raw(bits(bytes[field::REQ_0 as int], 3, 2)),
            telematics_enabled: flag(bytes[field::REQ_0 as int], 5),
            black_panel_enabled: flag(bytes[field::REQ_0 as int], 7),
            interactive_message: bits16(be_u16(bytes, field::INTERACTIVE_MSG_STOP_CHK as int), 0, 15),
            stop_check_request: flag16(be_u16(bytes, field::INTERACTIVE_MSG_STOP_CHK as int), 15),
            cruise_control_custom_speed_memorization_request: flag(bytes[field::REQ_1 as int], 0),
            available_space_measurement_button_state: flag(bytes[field::REQ_1 as int], 1),
            parking_sensors_button_state: flag(bytes[field::REQ_1 as int], 2),
            auto_main_beam_button_state: flag(bytes[field::REQ_1 as int], 3),
            lane_centering_button_state: flag(bytes[field::REQ_1 as int], 4),
            blind_spot_monitoring_button_state: flag(bytes[field::REQ_1 as int], 5),
            adaptive_cruise_control_plus_button_state: flag(bytes[field::REQ_1 as int], 6),
            adaptive_cruise_control_minus_button_state: flag(bytes[field::REQ_1 as int], 7),
            cruise_control_speed_instruction: bytes[field::CC_SPD as int],
            indirect_under_inflation_button_state: flag(bytes[field::REQ_2 as int], 0),
            automatic_parking_state_change_request: flag(bytes[field::REQ_2 as int], 2),
            collision_alert_failure_display_request: flag(bytes[field::REQ_2 as int], 3),
            cruise_control_speed_setting_instruction_position: CruiseControlCustomSettingPosition::from_raw(bits(bytes[field::REQ_2 as int], 4, 3)),
            fault_check_request: flag(bytes[field::REQ_3 as int], 0),
            telematic_screen_lighting_level: bits(bytes[field::REQ_3 as int], 1, 4),
            telematic_unit_life_state: bits(bytes[field::REQ_3 as int], 5, 2),
            stop_start_button_state: flag(bytes[field::REQ_3 as int], 7),
            visual_parking_assistance_button_state: bits(bytes[field::REQ_4 as int], 0, 3),
            cruise_control_speed_instruction_value_request: flag(bytes[field::REQ_4 as int], 3),
            visual_parking_assistance_panoramic_view_button_state: flag(bytes[field::REQ_4 as int], 4),
            front_visual_parking_assistance_button_state: flag(bytes[field::REQ_4 as int], 5),
            rear_visual_parking_assistance_button_state: flag(bytes[field::REQ_4 as int], 6),
            visual_parking_assistance_activation_request: flag(bytes[field::REQ_4 as int], 7),
        }
    }

    /// The byte at `field::REQ_0` once the fields that it carries are written into `b`.
    pub open spec fn req_0_byte(self, b: u8) -> u8 {
        put_flag(put_flag(put_bits(put_flag(put_flag(put_flag(b, 0, self.trip_computer_secondary_trip_reset_request), 1, self.trip_computer_primary_trip_reset_request), 2, self.adaptive_cruise_control_button_state), 3, 2, self.automatic_parking_mode.raw()), 5, self.telematics_enabled), 7, self.black_panel_enabled)
    }

    /// The byte at `field::REQ_1` once the fields that it carries are written into `b`.
    pub open spec fn req_1_byte(self, b: u8) -> u8 {
        put_flag(put_flag(put_flag(put_flag(put_flag(put_flag(put_flag(put_flag(b, 0, self.cruise_control_custom_speed_memorization_request), 1, self.available_space_measurement_button_state), 2, self.parking_sensors_button_state), 3, self.auto_main_beam_button_state), 4, self.lane_centering_button_state), 5, self.blind_spot_monitoring_button_state), 6, self.adaptive_cruise_control_plus_button_state), 7, self.adaptive_cruise_control_minus_button_state)
    }

    /// The byte at `field::REQ_2` once the fields that it carries are written into `b`.
    pub open spec fn req_2_byte(self, b: u8) -> u8 {
        put_bits(put_flag(put_flag(put_flag(b, 0, self.indirect_under_inflation_button_state), 2, self.automatic_parking_state_change_request), 3, self.collision_alert_failure_display_request), 4, 3, self.cruise_control_speed_setting_instruction_position.raw())
    }

    /// The byte at `field::REQ_3` once the fields that it carries are written into `b`.
    pub open spec fn req_3_byte(self, b: u8) -> u8 {
        put_flag(put_bits(put_bits(put_flag(b, 0, self.fault_check_request), 1, 4, self.telematic_screen_lighting_level), 5, 2, self.telematic_unit_life_state), 7, self.stop_start_button_state)
    }

    /// The byte at `field::REQ_4` once the fields that it carries are written into `b`.
    pub open spec fn req_4_byte(self, b: u8) -> u8 {
        put_flag(put_flag(put_flag(put_flag(put_flag(put_bits(b, 0, 3, self.visual_parking_assistance_button_state), 3, self.cruise_control_speed_instruction_value_request), 4, self.visual_parking_assistance_panoramic_view_button_state), 5, self.front_visual_parking_assistance_button_state), 6, self.rear_visual_parking_assistance_button_state), 7, self.visual_parking_assistance_activation_request)
    }

    /// The bytes of a frame once `self` is emitted into them.
    pub open spec fn emit_bytes(self, bytes: Seq<u8>) -> Seq<u8> {
        let words = put_be_u16(bytes, field::INTERACTIVE_MSG_STOP_CHK as int, put_flag16(put_bits16(be_u16(bytes, field::INTERACTIVE_MSG_STOP_CHK as int), 0, 15, self.interactive_message), 15, self.stop_check_request));
        words.update(
            field::REQ_0 as int,
            self.req_0_byte(bytes[field::REQ_0 as int]),
        ).update(
            field::REQ_1 as int,
            self.req_1_byte(bytes[field::REQ_1 as int]),
        ).update(
            field::CC_SPD as int,
            self.cruise_control_speed_instruction,
        ).update(
            field::REQ_2 as int,
            self.req_2_byte(bytes[field::REQ_2 as int]),
        ).update(
            field::REQ_3 as int,
            self.req_3_byte(bytes[field::REQ_3 as int]),
        ).update(
            field::REQ_4 as int,
            self.req_4_byte(bytes[field::REQ_4 as int]),
        )
    }

    /// Every field of `self` fits in the bits that the frame gives it.
    pub open spec fn fits(self) -> bool {
        &&& AutomaticParkingMode::from_raw(self.automatic_parking_mode.raw()) == self.automatic_parking_mode && self.automatic_parking_mode.raw() < 4
        &&& self.interactive_message < 32768
        &&& CruiseControlCustomSettingPosition::from_raw(self.cruise_control_speed_setting_instruction_position.raw()) == self.cruise_control_speed_setting_instruction_position && self.cruise_control_speed_setting_instruction_position.raw() < 8
        &&& self.telematic_screen_lighting_level < 16
        &&& self.telematic_unit_life_state < 4
        &&& self.visual_parking_assistance_button_state < 8
    }

    /// Parse a x1a9 CAN frame into its high-level representation.
    pub fn parse(frame: &Frame) -> (r: Result<Repr, Error>)
        ensures
            r is Ok <==> frame@.len() == FRAME_LEN,
            r matches Ok(repr) ==> repr == Repr::from_bytes(frame@),
            r matches Err(e) ==> length_check(frame@.len(), FRAME_LEN as nat) == Err::<(), Error>(e),
    {
        if let Err(e) = frame.check_len() {
            return Err(e);
        }
        Ok(Self::read_fields(frame))
    }

    /// The representation that the bytes of `frame` carry.
    fn read_fields(frame: &Frame) -> (repr: Repr)
        requires
            FRAME_LEN <= frame@.len(),
        ensures
            repr == Repr::from_bytes(frame@),
    {
        let repr = Repr {
            trip_computer_secondary_trip_reset_request: frame.trip_computer_secondary_trip_reset_request(),
            trip_computer_primary_trip_reset_request: frame.trip_computer_primary_trip_reset_request(),
            adaptive_cruise_control_button_state: frame.adaptive_cruise_control_button_state(),
            automatic_parking_mode: frame.auto_parking_mode(),
            telematics_enabled: frame.telematics_enabled(),
            black_panel_enabled: frame.black_panel_enabled(),
            interactive_message: frame.interactive_message(),
            stop_check_request: frame.stop_check_request(),
            cruise_control_custom_speed_memorization_request: frame.cruise_control_custom_speed_mem_request(),
            available_space_measurement_button_state: frame.available_space_measurement_button_state(),
            parking_sensors_button_state: frame.parking_sensors_button_state(),
            auto_main_beam_button_state: frame.auto_main_beam_button_state(),
            lane_centering_button_state: frame.lane_centering_button_state(),
            blind_spot_monitoring_button_state: frame.blind_spot_monitoring_button_state(),
            adaptive_cruise_control_plus_button_state: frame.adaptive_cruise_control_plus_button_state(),
            adaptive_cruise_control_minus_button_state: frame.adaptive_cruise_control_minus_button_state(),
            cruise_control_speed_instruction: frame.cruise_control_speed_instruction(),
            indirect_under_inflation_button_state: frame.indirect_under_inflation_button_state(),
            automatic_parking_state_change_request: frame.auto_parking_state_change_request(),
            collision_alert_failure_display_request: frame.collision_alert_failure_display_request(),
            cruise_control_speed_setting_instruction_position: frame.cruise_control_spd_setting_instruction_pos(),
            fault_check_request: frame.fault_check_request(),
            telematic_screen_lighting_level: frame.telematic_screen_lighting_level(),
            telematic_unit_life_state: frame.telematic_unit_life_state(),
            stop_start_button_state: frame.stop_start_button_state(),
            visual_parking_assistance_button_state: frame.visual_parking_assistance_button_state(),
            cruise_control_speed_instruction_value_request: frame.cruise_control_spd_instruction_val_request(),
            visual_parking_assistance_panoramic_view_button_state: frame.visual_parking_assistance_panoramic_view_button_state(),
            front_visual_parking_assistance_button_state: frame.front_visual_parking_assistance_button_state(),
            rear_visual_parking_assistance_button_state: frame.rear_visual_parking_assistance_button_state(),
            visual_parking_assistance_activation_request: frame.visual_parking_assistance_activation_request(),
        };
        proof {
            Repr::lemma_from_fields(repr, frame@);
        }
        repr
    }

    /// A representation whose every field holds what `bytes` carry is the
    /// representation that `bytes` carry.
    proof fn lemma_from_fields(repr: Repr, bytes: Seq<u8>)
        requires
            repr.trip_computer_secondary_trip_reset_request == flag(bytes[field::REQ_0 as int], 0),
            repr.trip_computer_primary_trip_reset_request == flag(bytes[field::REQ_0 as int], 1),
            repr.adaptive_cruise_control_button_state == flag(bytes[field::REQ_0 as int], 2),
            repr.automatic_parking_mode == AutomaticParkingMode::from_raw(bits(bytes[field::REQ_0 as int], 3, 2)),
            repr.telematics_enabled == flag(bytes[field::REQ_0 as int], 5),
            repr.black_panel_enabled == flag(bytes[field::REQ_0 as int], 7),
            repr.interactive_message == bits16(be_u16(bytes, field::INTERACTIVE_MSG_STOP_CHK as int), 0, 15),
            repr.stop_check_request == flag16(be_u16(bytes, field::INTERACTIVE_MSG_STOP_CHK as int), 15),
            repr.cruise_control_custom_speed_memorization_request == flag(bytes[field::REQ_1 as int], 0),
            repr.available_space_measurement_button_state == flag(bytes[field::REQ_1 as int], 1),
            repr.parking_sensors_button_state == flag(bytes[field::REQ_1 as int], 2),
            repr.auto_main_beam_button_state == flag(bytes[field::REQ_1 as int], 3),
            repr.lane_centering_button_state == flag(bytes[field::REQ_1 as int], 4),
            repr.blind_spot_monitoring_button_state == flag(bytes[field::REQ_1 as int], 5),
            repr.adaptive_cruise_control_plus_button_state == flag(bytes[field::REQ_1 as int], 6),
            repr.adaptive_cruise_control_minus_button_state == flag(bytes[field::REQ_1 as int], 7),
            repr.cruise_control_speed_instruction == bytes[field::CC_SPD as int],
            repr.indirect_under_inflation_button_state == flag(bytes[field::REQ_2 as int], 0),
            repr.automatic_parking_state_change_request == flag(bytes[field::REQ_2 as int], 2),
            repr.collision_alert_failure_display_request == flag(bytes[field::REQ_2 as int], 3),
            repr.cruise_control_speed_setting_instruction_position == CruiseControlCustomSettingPosition::from_raw(bits(bytes[field::REQ_2 as int], 4, 3)),
            repr.fault_check_request == flag(bytes[field::REQ_3 as int], 0),
            repr.telematic_screen_lighting_level == bits(bytes[field::REQ_3 as int], 1, 4),
            repr.telematic_unit_life_state == bits(bytes[field::REQ_3 as int], 5, 2),
            repr.stop_start_button_state == flag(bytes[field::REQ_3 as int], 7),
            repr.visual_parking_assistance_button_state == bits(bytes[field::REQ_4 as int], 0, 3),
            repr.cruise_control_speed_instruction_value_request == flag(bytes[field::REQ_4 as int], 3),
            repr.visual_parking_assistance_panoramic_view_button_state == flag(bytes[field::REQ_4 as int], 4),
            repr.front_visual_parking_assistance_button_state == flag(bytes[field::REQ_4 as int], 5),
            repr.rear_visual_parking_assistance_button_state == flag(bytes[field::REQ_4 as int], 6),
            repr.visual_parking_assistance_activation_request == flag(bytes[field::REQ_4 as int], 7),
        ensures
            repr == Repr::from_bytes(bytes),
    {
        reveal(Repr::from_bytes);
    }

    /// The text of `self`: each field by name, with its value.
    pub open spec fn text(self) -> Seq<char> {
        self.text_prefix_6()
    }

    /// The first part of the text of `self`, up to part 0.
    #[verifier::opaque]
    pub open spec fn text_prefix_0(self) -> Seq<char> {
        "x1a9 trip_computer_secondary_trip_reset_request="@
            + bool_text(self.trip_computer_secondary_trip_reset_request)
            + "\n trip_computer_primary_trip_reset_request="@
            + bool_text(self.trip_computer_primary_trip_reset_request)
            + "\n adaptive_cruise_control_button_state="@
            + bool_text(self.adaptive_cruise_control_button_state)
            + "\n automatic_parking_mode="@
            + self.automatic_parking_mode.text()
            + "\n telematics_enabled="@
            + bool_text(self.telematics_enabled)
    }

    /// The first parts of the text of `self`, up to part 1.
    #[verifier::opaque]
    pub open spec fn text_prefix_1(self) -> Seq<char> {
        self.text_prefix_0()
            + "\n black_panel_enabled="@
            + bool_text(self.black_panel_enabled)
            + "\n interactive_message="@
            + decimal_text(self.interactive_message as nat)
            + "\n stop_check_request="@
            + bool_text(self.stop_check_request)
            + "\n cruise_control_custom_speed_memorization_request="@
            + bool_text(self.cruise_control_custom_speed_memorization_request)
            + "\n available_space_measurement_button_state="@
            + bool_text(self.available_space_measurement_button_state)
    }

    /// The first parts of the text of `self`, up to part 2.
    #[verifier::opaque]
    pub open spec fn text_prefix_2(self) -> Seq<char> {
        self.text_prefix_1()
            + "\n parking_sensors_button_state="@
            + bool_text(self.parking_sensors_button_state)
            + "\n auto_main_beam_button_state="@
            + bool_text(self.auto_main_beam_button_state)
            + "\n lane_centering_button_state="@
            + bool_text(self.lane_centering_button_state)
            + "\n blind_spot_monitoring_button_state="@
            + bool_text(self.blind_spot_monitoring_button_state)
            + "\n adaptive_cruise_control_plus_button_state="@
            + bool_text(self.adaptive_cruise_control_plus_button_state)
    }

    /// The first parts of the text of `self`, up to part 3.
    #[verifier::opaque]
    pub open spec fn text_prefix_3(self) -> Seq<char> {
        self.text_prefix_2()
            + "\n adaptive_cruise_control_minus_button_state="@
            + bool_text(self.adaptive_cruise_control_minus_button_state)
            + "\n cruise_control_speed_instruction="@
            + decimal_text(self.cruise_control_speed_instruction as nat)
            + "\n indirect_under_inflation_button_state="@
            + bool_text(self.indirect_under_inflation_button_state)
            + "\n automatic_parking_state_change_request="@
            + bool_text(self.automatic_parking_state_change_request)
            + "\n collision_alert_failure_display_request="@
            + bool_text(self.collision_alert_failure_display_request)
    }

    /// The first parts of the text of `self`, up to part 4.
    #[verifier::opaque]
    pub open spec fn text_prefix_4(self) -> Seq<char> {
        self.text_prefix_3()
            + "\n cruise_control_speed_setting_instruction_position="@
            + self.cruise_control_speed_setting_instruction_position.text()
            + "\n fault_check_request="@
            + bool_text(self.fault_check_request)
            + "\n telematic_screen_lighting_level="@
            + decimal_text(self.telematic_screen_lighting_level as nat)
            + "\n telematic_unit_life_state="@
            + decimal_text(self.telematic_unit_life_state as nat)
            + "\n stop_start_button_state="@
            + bool_text(self.stop_start_button_state)
    }

    /// The first parts of the text of `self`, up to part 5.
    #[verifier::opaque]
    pub open spec fn text_prefix_5(self) -> Seq<char> {
        self.text_prefix_4()
            + "\n visual_parking_assistance_button_state="@
            + decimal_text(self.visual_parking_assistance_button_state as nat)
            + "\n cruise_control_speed_instruction_value_request="@
            + bool_text(self.cruise_control_speed_instruction_value_request)
            + "\n visual_parking_assistance_panoramic_view_button_state="@
            + bool_text(self.visual_parking_assistance_panoramic_view_button_state)
            + "\n front_visual_parking_assistance_button_state="@
            + bool_text(self.front_visual_parking_assistance_button_state)
            + "\n rear_visual_parking_assistance_button_state="@
            + bool_text(self.rear_visual_parking_assistance_button_state)
    }

    /// The first parts of the text of `self`, up to part 6.
    #[verifier::opaque]
    pub open spec fn text_prefix_6(self) -> Seq<char> {
        self.text_prefix_5()
            + "\n visual_parking_assistance_activation_request="@
            + bool_text(self.visual_parking_assistance_activation_request)
            + "\n"@
    }

    /// Return the text of `self`.
    pub fn to_text(&self) -> (s: String)
        ensures
            s@ == self.text(),
    {
        let mut s = self.text_start();
        self.push_text_part_1(&mut s);
        self.push_text_part_2(&mut s);
        self.push_text_part_3(&mut s);
        self.push_text_part_4(&mut s);
        self.push_text_part_5(&mut s);
        self.push_text_part_6(&mut s);
        s
    }

    /// The first part of the text of `self`.
    fn text_start(&self) -> (s: String)
        ensures
            s@ == self.text_prefix_0(),
    {
        proof {
            reveal(Repr::text_prefix_0);
        }
        let mut s = String::from_str("x1a9 trip_computer_secondary_trip_reset_request=");
        push_bool(&mut s, self.trip_computer_secondary_trip_reset_request);
        s.append("\n trip_computer_primary_trip_reset_request=");
        push_bool(&mut s, self.trip_computer_primary_trip_reset_request);
        s.append("\n adaptive_cruise_control_button_state=");
        push_bool(&mut s, self.adaptive_cruise_control_button_state);
        s.append("\n automatic_parking_mode=");
        self.automatic_parking_mode.push_text(&mut s);
        s.append("\n telematics_enabled=");
        push_bool(&mut s, self.telematics_enabled);
        s
    }

    /// Appends part 1 of the text of `self`.
    fn push_text_part_1(&self, s: &mut String)
        requires
            old(s)@ == self.text_prefix_0(),
        ensures
            final(s)@ == self.text_prefix_1(),
    {
        proof {
            reveal(Repr::text_prefix_1);
        }
        s.append("\n black_panel_enabled=");
        push_bool(s, self.black_panel_enabled);
        s.append("\n interactive_message=");
        push_decimal(s, self.interactive_message as u64);
        s.append("\n stop_check_request=");
        push_bool(s, self.stop_check_request);
        s.append("\n cruise_control_custom_speed_memorization_request=");
        push_bool(s, self.cruise_control_custom_speed_memorization_request);
        s.append("\n available_space_measurement_button_state=");
        push_bool(s, self.available_space_measurement_button_state);
    }

    /// Appends part 2 of the text of `self`.
    fn push_text_part_2(&self, s: &mut String)
        requires
            old(s)@ == self.text_prefix_1(),
        ensures
            final(s)@ == self.text_prefix_2(),
    {
        proof {
            reveal(Repr::text_prefix_2);
        }
        s.append("\n parking_sensors_button_state=");
        push_bool(s, self.parking_sensors_button_state);
        s.append("\n auto_main_beam_button_state=");
        push_bool(s, self.auto_main_beam_button_state);
        s.append("\n lane_centering_button_state=");
        push_bool(s, self.lane_centering_button_state);
        s.append("\n blind_spot_monitoring_button_state=");
        push_bool(s, self.blind_spot_monitoring_button_state);
        s.append("\n adaptive_cruise_control_plus_button_state=");
        push_bool(s, self.adaptive_cruise_control_plus_button_state);
    }

    /// Appends part 3 of the text of `self`.
    fn push_text_part_3(&self, s: &mut String)
        requires
            old(s)@ == self.text_prefix_2(),
        ensures
            final(s)@ == self.text_prefix_3(),
    {
        proof {
            reveal(Repr::text_prefix_3);
        }
        s.append("\n adaptive_cruise_control_minus_button_state=");
        push_bool(s, self.adaptive_cruise_control_minus_button_state);
        s.append("\n cruise_control_speed_instruction=");
        push_decimal(s, self.cruise_control_speed_instruction as u64);
        s.append("\n indirect_under_inflation_button_state=");
        push_bool(s, self.indirect_under_inflation_button_state);
        s.append("\n automatic_parking_state_change_request=");
        push_bool(s, self.automatic_parking_state_change_request);
        s.append("\n collision_alert_failure_display_request=");
        push_bool(s, self.collision_alert_failure_display_request);
    }

    /// Appends part 4 of the text of `self`.
    fn push_text_part_4(&self, s: &mut String)
        requires
            old(s)@ == self.text_prefix_3(),
        ensures
            final(s)@ == self.text_prefix_4(),
    {
        proof {
            reveal(Repr::text_prefix_4);
        }
        s.append("\n cruise_control_speed_setting_instruction_position=");
        self.cruise_control_speed_setting_instruction_position.push_text(s);
        s.append("\n fault_check_request=");
        push_bool(s, self.fault_check_request);
        s.append("\n telematic_screen_lighting_level=");
        push_decimal(s, self.telematic_screen_lighting_level as u64);
        s.append("\n telematic_unit_life_state=");
        push_decimal(s, self.telematic_unit_life_state as u64);
        s.append("\n stop_start_button_state=");
        push_bool(s, self.stop_start_button_state);
    }

    /// Appends part 5 of the text of `self`.
    fn push_text_part_5(&self, s: &mut String)
        requires
            old(s)@ == self.text_prefix_4(),
        ensures
            final(s)@ == self.text_prefix_5(),
    {
        proof {
            reveal(Repr::text_prefix_5);
        }
        s.append("\n visual_parking_assistance_button_state=");
        push_decimal(s, self.visual_parking_assistance_button_state as u64);
        s.append("\n cruise_control_speed_instruction_value_request=");
        push_bool(s, self.cruise_control_speed_instruction_value_request);
        s.append("\n visual_parking_assistance_panoramic_view_button_state=");
        push_bool(s, self.visual_parking_assistance_panoramic_view_button_state);
        s.append("\n front_visual_parking_assistance_button_state=");
        push_bool(s, self.front_visual_parking_assistance_button_state);
        s.append("\n rear_visual_parking_assistance_button_state=");
        push_bool(s, self.rear_visual_parking_assistance_button_state);
    }

    /// Appends part 6 of the text of `self`.
    fn push_text_part_6(&self, s: &mut String)
        requires
            old(s)@ == self.text_prefix_5(),
        ensures
            final(s)@ == self.text_prefix_6(),
    {
        proof {
            reveal(Repr::text_prefix_6);
        }
        s.append("\n visual_parking_assistance_activation_request=");
        push_bool(s, self.visual_parking_assistance_activation_request);
        s.append("\n");
    }

    /// Return the length of a frame that will be emitted from this high-level representation.
    pub fn buffer_len(&self) -> (len: usize)
        ensures
            len == FRAME_LEN,
    {
        FRAME_LEN
    }

    /// Emit a high-level representation into a x1a9 CAN frame.
    pub fn emit(&self, frame: &mut Frame)
        requires
            FRAME_LEN <= old(frame)@.len(),
        ensures
            final(frame)@ == self.emit_bytes(old(frame)@),
    {
        self.emit_interactive_msg_stop_chk(frame);
        self.emit_req_0(frame);
        self.emit_req_1(frame);
        frame.set_cruise_control_speed_instruction(self.cruise_control_speed_instruction);
        self.emit_req_2(frame);
        self.emit_req_3(frame);
        self.emit_req_4(frame);
    }

    /// Write the fields that the byte at `field::REQ_0` carries.
    fn emit_req_0(&self, frame: &mut Frame)
        requires
            field::REQ_0 < old(frame)@.len(),
        ensures
            final(frame)@ == old(frame)@.update(field::REQ_0 as int, self.req_0_byte(old(frame)@[field::REQ_0 as int])),
    {
        frame.set_trip_computer_secondary_trip_reset_request(self.trip_computer_secondary_trip_reset_request);
        frame.set_trip_computer_primary_trip_reset_request(self.trip_computer_primary_trip_reset_request);
        frame.set_adaptive_cruise_control_button_state(self.adaptive_cruise_control_button_state);
        frame.set_auto_parking_mode(self.automatic_parking_mode);
        frame.set_telematics_enabled(self.telematics_enabled);
        frame.set_black_panel_enabled(self.black_panel_enabled);
    }

    /// Write the fields that the word at `field::INTERACTIVE_MSG_STOP_CHK` carries.
    fn emit_interactive_msg_stop_chk(&self, frame: &mut Frame)
        requires
            field::INTERACTIVE_MSG_STOP_CHK + 2 <= old(frame)@.len(),
        ensures
            final(frame)@ == put_be_u16(
                old(frame)@,
                field::INTERACTIVE_MSG_STOP_CHK as int,
                put_flag16(put_bits16(be_u16(old(frame)@, field::INTERACTIVE_MSG_STOP_CHK as int), 0, 15, self.interactive_message), 15, self.stop_check_request),
            ),
    {
        frame.set_interactive_message(self.interactive_message);
        frame.set_stop_check_request(self.stop_check_request);
    }

    /// Write the fields that the byte at `field::REQ_1` carries.
    fn emit_req_1(&self, frame: &mut Frame)
        requires
            field::REQ_1 < old(frame)@.len(),
        ensures
            final(frame)@ == old(frame)@.update(field::REQ_1 as int, self.req_1_byte(old(frame)@[field::REQ_1 as int])),
    {
        frame.set_cruise_control_custom_speed_mem_request(self.cruise_control_custom_speed_memorization_request);
        frame.set_available_space_measurement_button_state(self.available_space_measurement_button_state);
        frame.set_parking_sensors_button_state(self.parking_sensors_button_state);
        frame.set_auto_main_beam_button_state(self.auto_main_beam_button_state);
        frame.set_lane_centering_button_state(self.lane_centering_button_state);
        frame.set_blind_spot_monitoring_button_state(self.blind_spot_monitoring_button_state);
        frame.set_adaptive_cruise_control_plus_button_state(self.adaptive_cruise_control_plus_button_state);
        frame.set_adaptive_cruise_control_minus_button_state(self.adaptive_cruise_control_minus_button_state);
    }

    /// Write the fields that the byte at `field::REQ_2` carries.
    fn emit_req_2(&self, frame: &mut Frame)
        requires
            field::REQ_2 < old(frame)@.len(),
        ensures
            final(frame)@ == old(frame)@.update(field::REQ_2 as int, self.req_2_byte(old(frame)@[field::REQ_2 as int])),
    {
        frame.set_indirect_under_inflation_button_state(self.indirect_under_inflation_button_state);
        frame.set_auto_parking_state_change_request(self.automatic_parking_state_change_request);
        frame.set_collision_alert_failure_display_request(self.collision_alert_failure_display_request);
        frame.set_cruise_control_spd_setting_instruction_pos(self.cruise_control_speed_setting_instruction_position);
    }

    /// Write the fields that the byte at `field::REQ_3` carries.
    fn emit_req_3(&self, frame: &mut Frame)
        requires
            field::REQ_3 < old(frame)@.len(),
        ensures
            final(frame)@ == old(frame)@.update(field::REQ_3 as int, self.req_3_byte(old(frame)@[field::REQ_3 as int])),
    {
        frame.set_fault_check_request(self.fault_check_request);
        frame.set_telematic_screen_lighting_level(self.telematic_screen_lighting_level);
        frame.set_telematic_unit_life_state(self.telematic_unit_life_state);
        frame.set_stop_start_button_state(self.stop_start_button_state);
    }

    /// Write the fields that the byte at `field::REQ_4` carries.
    fn emit_req_4(&self, frame: &mut Frame)
        requires
            field::REQ_4 < old(frame)@.len(),
        ensures
            final(frame)@ == old(frame)@.update(field::REQ_4 as int, self.req_4_byte(old(frame)@[field::REQ_4 as int])),
    {
        frame.set_visual_parking_assistance_button_state(self.visual_parking_assistance_button_state);
        frame.set_cruise_control_spd_instruction_val_request(self.cruise_control_speed_instruction_value_request);
        frame.set_visual_parking_assistance_panoramic_view_button_state(self.visual_parking_assistance_panoramic_view_button_state);
        frame.set_front_visual_parking_assistance_button_state(self.front_visual_parking_assistance_button_state);
        frame.set_rear_visual_parking_assistance_button_state(self.rear_visual_parking_assistance_button_state);
        frame.set_visual_parking_assistance_activation_request(self.visual_parking_assistance_activation_request);
    }
}

impl Frame {
    /// Return the text of the frame: that of the representation that it
    /// carries, or the error that parsing it gives.
    pub fn to_text(&self) -> (s: String)
        ensures
            s@ == (match length_check(self@.len(), FRAME_LEN as nat) {
                Ok(_) => Repr::from_bytes(self@).text(),
                Err(e) => "x1a9 ("@ + e.text() + ")"@,
            }),
    {
        match Repr::parse(self) {
            Ok(repr) => repr.to_text(),
            Err(e) => {
                let mut s = String::from_str("x1a9 (");
                s.append(e.description());
                s.append(")");
                s
            },
        }
    }
}

/// The fields that the byte at `field::REQ_0` carries read back as they were written.
proof fn lemma_req_0_parse_emit(repr: Repr, b: u8)
    requires
        repr.fits(),
    ensures
        flag(repr.req_0_byte(b), 0) == repr.trip_computer_secondary_trip_reset_request,
        flag(repr.req_0_byte(b), 1) == repr.trip_computer_primary_trip_reset_request,
        flag(repr.req_0_byte(b), 2) == repr.adaptive_cruise_control_button_state,
        AutomaticParkingMode::from_raw(bits(repr.req_0_byte(b), 3, 2)) == repr.automatic_parking_mode,
        flag(repr.req_0_byte(b), 5) == repr.telematics_enabled,
        flag(repr.req_0_byte(b), 7) == repr.black_panel_enabled,
{
    broadcast use group_frame_laws;

    lemma_low_mask_values();
    lemma_low_mask16_values();
}

/// Writing back the fields read from the byte at `field::REQ_0` leaves it unchanged.
proof fn lemma_req_0_emit_parse(bytes: Seq<u8>)
    requires
        bytes.len() == FRAME_LEN,
    ensures
        Repr::from_bytes(bytes).req_0_byte(bytes[field::REQ_0 as int]) == bytes[field::REQ_0 as int],
{
    reveal(Repr::from_bytes);
    broadcast use group_frame_laws;

    lemma_low_mask_values();
    lemma_low_mask16_values();
}

/// The fields that the byte at `field::REQ_1` carries read back as they were written.
proof fn lemma_req_1_parse_emit(repr: Repr, b: u8)
    requires
        repr.fits(),
    ensures
        flag(repr.req_1_byte(b), 0) == repr.cruise_control_custom_speed_memorization_request,
        flag(repr.req_1_byte(b), 1) == repr.available_space_measurement_button_state,
        flag(repr.req_1_byte(b), 2) == repr.parking_sensors_button_state,
        flag(repr.req_1_byte(b), 3) == repr.auto_main_beam_button_state,
        flag(repr.req_1_byte(b), 4) == repr.lane_centering_button_state,
        flag(repr.req_1_byte(b), 5) == repr.blind_spot_monitoring_button_state,
        flag(repr.req_1_byte(b), 6) == repr.adaptive_cruise_control_plus_button_state,
        flag(repr.req_1_byte(b), 7) == repr.adaptive_cruise_control_minus_button_state,
{
    broadcast use group_frame_laws;

    lemma_low_mask_values();
    lemma_low_mask16_values();
}

/// Writing back the fields read from the byte at `field::REQ_1` leaves it unchanged.
proof fn lemma_req_1_emit_parse(bytes: Seq<u8>)
    requires
        bytes.len() == FRAME_LEN,
    ensures
        Repr::from_bytes(bytes).req_1_byte(bytes[field::REQ_1 as int]) == bytes[field::REQ_1 as int],
{
    reveal(Repr::from_bytes);
    broadcast use group_frame_laws;

    lemma_low_mask_values();
    lemma_low_mask16_values();
}

/// The fields that the byte at `field::REQ_2` carries read back as they were written.
proof fn lemma_req_2_parse_emit(repr: Repr, b: u8)
    requires
        repr.fits(),
    ensures
        flag(repr.req_2_byte(b), 0) == repr.indirect_under_inflation_button_state,
        flag(repr.req_2_byte(b), 2) == repr.automatic_parking_state_change_request,
        flag(repr.req_2_byte(b), 3) == repr.collision_alert_failure_display_request,
        CruiseControlCustomSettingPosition::from_raw(bits(repr.req_2_byte(b), 4, 3)) == repr.cruise_control_speed_setting_instruction_position,
{
    broadcast use group_frame_laws;

    lemma_low_mask_values();
    lemma_low_mask16_values();
}

/// Writing back the fields read from the byte at `field::REQ_2` leaves it unchanged.
proof fn lemma_req_2_emit_parse(bytes: Seq<u8>)
    requires
        bytes.len() == FRAME_LEN,
    ensures
        Repr::from_bytes(bytes).req_2_byte(bytes[field::REQ_2 as int]) == bytes[field::REQ_2 as int],
{
    reveal(Repr::from_bytes);
    broadcast use group_frame_laws;

    lemma_low_mask_values();
    lemma_low_mask16_values();
}

/// The fields that the byte at `field::REQ_3` carries read back as they were written.
proof fn lemma_req_3_parse_emit(repr: Repr, b: u8)
    requires
        repr.fits(),
    ensures
        flag(repr.req_3_byte(b), 0) == repr.fault_check_request,
        bits(repr.req_3_byte(b), 1, 4) == repr.telematic_screen_lighting_level,
        bits(repr.req_3_byte(b), 5, 2) == repr.telematic_unit_life_state,
        flag(repr.req_3_byte(b), 7) == repr.stop_start_button_state,
{
    broadcast use group_frame_laws;

    lemma_low_mask_values();
    lemma_low_mask16_values();
}

/// Writing back the fields read from the byte at `field::REQ_3` leaves it unchanged.
proof fn lemma_req_3_emit_parse(bytes: Seq<u8>)
    requires
        bytes.len() == FRAME_LEN,
    ensures
        Repr::from_bytes(bytes).req_3_byte(bytes[field::REQ_3 as int]) == bytes[field::REQ_3 as int],
{
    reveal(Repr::from_bytes);
    broadcast use group_frame_laws;

    lemma_low_mask_values();
    lemma_low_mask16_values();
}

/// The fields that the byte at `field::REQ_4` carries read back as they were written.
proof fn lemma_req_4_parse_emit(repr: Repr, b: u8)
    requires
        repr.fits(),
    ensures
        bits(repr.req_4_byte(b), 0, 3) == repr.visual_parking_assistance_button_state,
        flag(repr.req_4_byte(b), 3) == repr.cruise_control_speed_instruction_value_request,
        flag(repr.req_4_byte(b), 4) == repr.visual_parking_assistance_panoramic_view_button_state,
        flag(repr.req_4_byte(b), 5) == repr.front_visual_parking_assistance_button_state,
        flag(repr.req_4_byte(b), 6) == repr.rear_visual_parking_assistance_button_state,
        flag(repr.req_4_byte(b), 7) == repr.visual_parking_assistance_activation_request,
{
    broadcast use group_frame_laws;

    lemma_low_mask_values();
    lemma_low_mask16_values();
}

/// Writing back the fields read from the byte at `field::REQ_4` leaves it unchanged.
proof fn lemma_req_4_emit_parse(bytes: Seq<u8>)
    requires
        bytes.len() == FRAME_LEN,
    ensures
        Repr::from_bytes(bytes).req_4_byte(bytes[field::REQ_4 as int]) == bytes[field::REQ_4 as int],
{
    reveal(Repr::from_bytes);
    broadcast use group_frame_laws;

    lemma_low_mask_values();
    lemma_low_mask16_values();
}

/// The fields that the word at `field::INTERACTIVE_MSG_STOP_CHK` carries read back as they were written.
proof fn lemma_interactive_msg_stop_chk_parse_emit(repr: Repr, w: u16)
    requires
        repr.fits(),
    ensures
        bits16(put_flag16(put_bits16(w, 0, 15, repr.interactive_message), 15, repr.stop_check_request), 0, 15) == repr.interactive_message,
        flag16(put_flag16(put_bits16(w, 0, 15, repr.interactive_message), 15, repr.stop_check_request), 15) == repr.stop_check_request,
{
    broadcast use group_frame_laws;

    lemma_low_mask_values();
    lemma_low_mask16_values();
}

/// Emitting a representation whose fields fit into the bytes of a frame, then
/// parsing the bytes, gives the representation back.
pub proof fn lemma_parse_emit(repr: Repr, bytes: Seq<u8>)
    requires
        repr.fits(),
        bytes.len() == FRAME_LEN,
    ensures
        Repr::from_bytes(repr.emit_bytes(bytes)) == repr,
{
    let emitted = repr.emit_bytes(bytes);
    assert(emitted[field::REQ_0 as int] == repr.req_0_byte(bytes[field::REQ_0 as int]));
    assert(emitted[field::REQ_1 as int] == repr.req_1_byte(bytes[field::REQ_1 as int]));
    assert(emitted[field::CC_SPD as int] == repr.cruise_control_speed_instruction);
    assert(emitted[field::REQ_2 as int] == repr.req_2_byte(bytes[field::REQ_2 as int]));
    assert(emitted[field::REQ_3 as int] == repr.req_3_byte(bytes[field::REQ_3 as int]));
    assert(emitted[field::REQ_4 as int] == repr.req_4_byte(bytes[field::REQ_4 as int]));
    lemma_be_u16_roundtrip(bytes, field::INTERACTIVE_MSG_STOP_CHK as int, put_flag16(put_bits16(be_u16(bytes, field::INTERACTIVE_MSG_STOP_CHK as int), 0, 15, repr.interactive_message), 15, repr.stop_check_request));
    let words = put_be_u16(bytes, field::INTERACTIVE_MSG_STOP_CHK as int, put_flag16(put_bits16(be_u16(bytes, field::INTERACTIVE_MSG_STOP_CHK as int), 0, 15, repr.interactive_message), 15, repr.stop_check_request));
    assert(be_u16(emitted, field::INTERACTIVE_MSG_STOP_CHK as int) == be_u16(words, field::INTERACTIVE_MSG_STOP_CHK as int));
    assert(be_u16(emitted, field::INTERACTIVE_MSG_STOP_CHK as int) == put_flag16(put_bits16(be_u16(bytes, field::INTERACTIVE_MSG_STOP_CHK as int), 0, 15, repr.interactive_message), 15, repr.stop_check_request));
    lemma_req_0_parse_emit(repr, bytes[field::REQ_0 as int]);
    lemma_req_1_parse_emit(repr, bytes[field::REQ_1 as int]);
    lemma_req_2_parse_emit(repr, bytes[field::REQ_2 as int]);
    lemma_req_3_parse_emit(repr, bytes[field::REQ_3 as int]);
    lemma_req_4_parse_emit(repr, bytes[field::REQ_4 as int]);
    lemma_interactive_msg_stop_chk_parse_emit(repr, be_u16(bytes, field::INTERACTIVE_MSG_STOP_CHK as int));
    Repr::lemma_from_fields(repr, emitted);
}

/// Emitting the representation that the bytes of a frame carry leaves the
/// bytes unchanged.
pub proof fn lemma_emit_parse(bytes: Seq<u8>)
    requires
        bytes.len() == FRAME_LEN,
    ensures
        Repr::from_bytes(bytes).emit_bytes(bytes) == bytes,
{
    reveal(Repr::from_bytes);
    broadcast use group_frame_laws;

    lemma_low_mask_values();
    lemma_low_mask16_values();
    lemma_req_0_emit_parse(bytes);
    lemma_req_1_emit_parse(bytes);
    lemma_req_2_emit_parse(bytes);
    lemma_req_3_emit_parse(bytes);
    lemma_req_4_emit_parse(bytes);
}

/// Writing the stop check flag changes bit 7 of the byte at
/// `field::INTERACTIVE_MSG_STOP_CHK` and no other bit of the frame.
pub proof fn lemma_stop_check_flag_is_high_bit(bytes: Seq<u8>, value: bool)
    requires
        field::INTERACTIVE_MSG_STOP_CHK + 2 <= bytes.len(),
    ensures
        put_be_u16(
            bytes,
            field::INTERACTIVE_MSG_STOP_CHK as int,
            put_flag16(be_u16(bytes, field::INTERACTIVE_MSG_STOP_CHK as int), 15, value),
        ) == bytes.update(
            field::INTERACTIVE_MSG_STOP_CHK as int,
            put_flag(bytes[field::INTERACTIVE_MSG_STOP_CHK as int], 7, value),
        ),
{
    let pos = field::INTERACTIVE_MSG_STOP_CHK as int;
    let hi = bytes[pos];
    let lo = bytes[pos + 1];
    let w = be_u16(bytes, pos);
    assert(w == ((hi as u16) << 8u16) | (lo as u16)) by (bit_vector)
        requires
            w == ((hi as int * 0x100 + lo as int) as u16),
    ;
    crate::bitfield::lemma_put_flag16_formula(w, 15, value);
    crate::bitfield::lemma_put_flag_formula(hi, 7, value);
    let w2 = put_flag16(w, 15, value);
    let hf = put_flag(hi, 7, value);
    assert(((w2 / 0x100) as u8) == hf && ((w2 % 0x100) as u8) == lo) by (bit_vector)
        requires
            w == ((hi as u16) << 8u16) | (lo as u16),
            w2 == (if value {
                w | (1u16 << 15u16)
            } else {
                w & !(1u16 << 15u16)
            }),
            hf == (if value {
                hi | (1u8 << 7u8)
            } else {
                hi & !(1u8 << 7u8)
            }),
    ;
    assert(put_be_u16(bytes, pos, w2) =~= bytes.update(pos, put_flag(hi, 7, value)));
}

/// Each field of a representation reads the bits of the frame that the
/// layout gives it: a word high byte first, a flag or a field through its
/// mask.
pub proof fn lemma_fields_from_bytes(bytes: Seq<u8>)
    requires
        bytes.len() == FRAME_LEN,
    ensures
        Repr::from_bytes(bytes).trip_computer_secondary_trip_reset_request == ((bytes[field::REQ_0 as int] & 0x01) != 0),
        Repr::from_bytes(bytes).trip_computer_primary_trip_reset_request == ((bytes[field::REQ_0 as int] & 0x02) != 0),
        Repr::from_bytes(bytes).adaptive_cruise_control_button_state == ((bytes[field::REQ_0 as int] & 0x04) != 0),
        Repr::from_bytes(bytes).automatic_parking_mode == AutomaticParkingMode::from_raw((bytes[field::REQ_0 as int] >> 3u8) & 0x03),
        Repr::from_bytes(bytes).telematics_enabled == ((bytes[field::REQ_0 as int] & 0x20) != 0),
        Repr::from_bytes(bytes).black_panel_enabled == ((bytes[field::REQ_0 as int] & 0x80) != 0),
        Repr::from_bytes(bytes).interactive_message as int == (bytes[field::INTERACTIVE_MSG_STOP_CHK as int] as int * 0x100 + bytes[field::INTERACTIVE_MSG_STOP_CHK + 1] as int) % 0x8000,
        Repr::from_bytes(bytes).stop_check_request == (bytes[field::INTERACTIVE_MSG_STOP_CHK as int] >= 0x80),
        Repr::from_bytes(bytes).cruise_control_custom_speed_memorization_request == ((bytes[field::REQ_1 as int] & 0x01) != 0),
        Repr::from_bytes(bytes).available_space_measurement_button_state == ((bytes[field::REQ_1 as int] & 0x02) != 0),
        Repr::from_bytes(bytes).parking_sensors_button_state == ((bytes[field::REQ_1 as int] & 0x04) != 0),
        Repr::from_bytes(bytes).auto_main_beam_button_state == ((bytes[field::REQ_1 as int] & 0x08) != 0),
        Repr::from_bytes(bytes).lane_centering_button_state == ((bytes[field::REQ_1 as int] & 0x10) != 0),
        Repr::from_bytes(bytes).blind_spot_monitoring_button_state == ((bytes[field::REQ_1 as int] & 0x20) != 0),
        Repr::from_bytes(bytes).adaptive_cruise_control_plus_button_state == ((bytes[field::REQ_1 as int] & 0x40) != 0),
        Repr::from_bytes(bytes).adaptive_cruise_control_minus_button_state == ((bytes[field::REQ_1 as int] & 0x80) != 0),
        Repr::from_bytes(bytes).cruise_control_speed_instruction == bytes[field::CC_SPD as int],
        Repr::from_bytes(bytes).indirect_under_inflation_button_state == ((bytes[field::REQ_2 as int] & 0x01) != 0),
        Repr::from_bytes(bytes).automatic_parking_state_change_request == ((bytes[field::REQ_2 as int] & 0x04) != 0),
        Repr::from_bytes(bytes).collision_alert_failure_display_request == ((bytes[field::REQ_2 as int] & 0x08) != 0),
        Repr::from_bytes(bytes).cruise_control_speed_setting_instruction_position == CruiseControlCustomSettingPosition::from_raw((bytes[field::REQ_2 as int] >> 4u8) & 0x07),
        Repr::from_bytes(bytes).fault_check_request == ((bytes[field::REQ_3 as int] & 0x01) != 0),
        Repr::from_bytes(bytes).telematic_screen_lighting_level == (bytes[field::REQ_3 as int] >> 1u8) & 0x0f,
        Repr::from_bytes(bytes).telematic_unit_life_state == (bytes[field::REQ_3 as int] >> 5u8) & 0x03,
        Repr::from_bytes(bytes).stop_start_button_state == ((bytes[field::REQ_3 as int] & 0x80) != 0),
        Repr::from_bytes(bytes).visual_parking_assistance_button_state == bytes[field::REQ_4 as int] & 0x07,
        Repr::from_bytes(bytes).cruise_control_speed_instruction_value_request == ((bytes[field::REQ_4 as int] & 0x08) != 0),
        Repr::from_bytes(bytes).visual_parking_assistance_panoramic_view_button_state == ((bytes[field::REQ_4 as int] & 0x10) != 0),
        Repr::from_bytes(bytes).front_visual_parking_assistance_button_state == ((bytes[field::REQ_4 as int] & 0x20) != 0),
        Repr::from_bytes(bytes).rear_visual_parking_assistance_button_state == ((bytes[field::REQ_4 as int] & 0x40) != 0),
        Repr::from_bytes(bytes).visual_parking_assistance_activation_request == ((bytes[field::REQ_4 as int] & 0x80) != 0),
{
    reveal(Repr::from_bytes);
    lemma_low_mask_values();
    lemma_bits16_arith(be_u16(bytes, field::INTERACTIVE_MSG_STOP_CHK as int));
    lemma_bits_formula(bytes[field::REQ_0 as int], 3, 2);
    lemma_bits_formula(bytes[field::REQ_2 as int], 4, 3);
    lemma_bits_formula(bytes[field::REQ_3 as int], 1, 4);
    lemma_bits_formula(bytes[field::REQ_3 as int], 5, 2);
    lemma_bits_low_formula(bytes[field::REQ_4 as int], 3);
    lemma_flag_masks(bytes[field::REQ_0 as int]);
    lemma_flag_masks(bytes[field::REQ_1 as int]);
    lemma_flag_masks(bytes[field::REQ_2 as int]);
    lemma_flag_masks(bytes[field::REQ_3 as int]);
    lemma_flag_masks(bytes[field::REQ_4 as int]);
}

/// Every representation that the bytes of a frame carry fits in the frame,
/// so that it can be emitted back.
pub proof fn lemma_parsed_fits(bytes: Seq<u8>)
    requires
        bytes.len() == FRAME_LEN,
    ensures
        Repr::from_bytes(bytes).fits(),
{
    reveal(Repr::from_bytes);
    broadcast use group_frame_laws;

    lemma_low_mask_values();
    lemma_low_mask16_values();
}

/// The text of a representation shows each field after its name and before
/// the name of the next field, so the fields stand in their order.
pub proof fn lemma_text_shows_fields(repr: Repr)
    ensures
        occurs("x1a9 trip_computer_secondary_trip_reset_request="@ + bool_text(repr.trip_computer_secondary_trip_reset_request) + "\n trip_computer_primary_trip_reset_request="@, repr.text()),
        occurs("\n trip_computer_primary_trip_reset_request="@ + bool_text(repr.trip_computer_primary_trip_reset_request) + "\n adaptive_cruise_control_button_state="@, repr.text()),
        occurs("\n adaptive_cruise_control_button_state="@ + bool_text(repr.adaptive_cruise_control_button_state) + "\n automatic_parking_mode="@, repr.text()),
        occurs("\n automatic_parking_mode="@ + repr.automatic_parking_mode.text() + "\n telematics_enabled="@, repr.text()),
        occurs("\n telematics_enabled="@ + bool_text(repr.telematics_enabled) + "\n black_panel_enabled="@, repr.text()),
        occurs("\n black_panel_enabled="@ + bool_text(repr.black_panel_enabled) + "\n interactive_message="@, repr.text()),
        occurs("\n interactive_message="@ + decimal_text(repr.interactive_message as nat) + "\n stop_check_request="@, repr.text()),
        occurs("\n stop_check_request="@ + bool_text(repr.stop_check_request) + "\n cruise_control_custom_speed_memorization_request="@, repr.text()),
        occurs("\n cruise_control_custom_speed_memorization_request="@ + bool_text(repr.cruise_control_custom_speed_memorization_request) + "\n available_space_measurement_button_state="@, repr.text()),
        occurs("\n available_space_measurement_button_state="@ + bool_text(repr.available_space_measurement_button_state) + "\n parking_sensors_button_state="@, repr.text()),
        occurs("\n parking_sensors_button_state="@ + bool_text(repr.parking_sensors_button_state) + "\n auto_main_beam_button_state="@, repr.text()),
        occurs("\n auto_main_beam_button_state="@ + bool_text(repr.auto_main_beam_button_state) + "\n lane_centering_button_state="@, repr.text()),
        occurs("\n lane_centering_button_state="@ + bool_text(repr.lane_centering_button_state) + "\n blind_spot_monitoring_button_state="@, repr.text()),
        occurs("\n blind_spot_monitoring_button_state="@ + bool_text(repr.blind_spot_monitoring_button_state) + "\n adaptive_cruise_control_plus_button_state="@, repr.text()),
        occurs("\n adaptive_cruise_control_plus_button_state="@ + bool_text(repr.adaptive_cruise_control_plus_button_state) + "\n adaptive_cruise_control_minus_button_state="@, repr.text()),
        occurs("\n adaptive_cruise_control_minus_button_state="@ + bool_text(repr.adaptive_cruise_control_minus_button_state) + "\n cruise_control_speed_instruction="@, repr.text()),
        occurs("\n cruise_control_speed_instruction="@ + decimal_text(repr.cruise_control_speed_instruction as nat) + "\n indirect_under_inflation_button_state="@, repr.text()),
        occurs("\n indirect_under_inflation_button_state="@ + bool_text(repr.indirect_under_inflation_button_state) + "\n automatic_parking_state_change_request="@, repr.text()),
        occurs("\n automatic_parking_state_change_request="@ + bool_text(repr.automatic_parking_state_change_request) + "\n collision_alert_failure_display_request="@, repr.text()),
        occurs("\n collision_alert_failure_display_request="@ + bool_text(repr.collision_alert_failure_display_request) + "\n cruise_control_speed_setting_instruction_position="@, repr.text()),
        occurs("\n cruise_control_speed_setting_instruction_position="@ + repr.cruise_control_speed_setting_instruction_position.text() + "\n fault_check_request="@, repr.text()),
        occurs("\n fault_check_request="@ + bool_text(repr.fault_check_request) + "\n telematic_screen_lighting_level="@, repr.text()),
        occurs("\n telematic_screen_lighting_level="@ + decimal_text(repr.telematic_screen_lighting_level as nat) + "\n telematic_unit_life_state="@, repr.text()),
        occurs("\n telematic_unit_life_state="@ + decimal_text(repr.telematic_unit_life_state as nat) + "\n stop_start_button_state="@, repr.text()),
        occurs("\n stop_start_button_state="@ + bool_text(repr.stop_start_button_state) + "\n visual_parking_assistance_button_state="@, repr.text()),
        occurs("\n visual_parking_assistance_button_state="@ + decimal_text(repr.visual_parking_assistance_button_state as nat) + "\n cruise_control_speed_instruction_value_request="@, repr.text()),
        occurs("\n cruise_control_speed_instruction_value_request="@ + bool_text(repr.cruise_control_speed_instruction_value_request) + "\n visual_parking_assistance_panoramic_view_button_state="@, repr.text()),
        occurs("\n visual_parking_assistance_panoramic_view_button_state="@ + bool_text(repr.visual_parking_assistance_panoramic_view_button_state) + "\n front_visual_parking_assistance_button_state="@, repr.text()),
        occurs("\n front_visual_parking_assistance_button_state="@ + bool_text(repr.front_visual_parking_assistance_button_state) + "\n rear_visual_parking_assistance_button_state="@, repr.text()),
        occurs("\n rear_visual_parking_assistance_button_state="@ + bool_text(repr.rear_visual_parking_assistance_button_state) + "\n visual_parking_assistance_activation_request="@, repr.text()),
        occurs("\n visual_parking_assistance_activation_request="@ + bool_text(repr.visual_parking_assistance_activation_request) + "\n"@, repr.text()),
{
    lemma_text_part_0_shows_fields(repr);
    lemma_text_part_1_shows_fields(repr);
    lemma_text_prefix_0_grows(repr);
    lemma_text_part_2_shows_fields(repr);
    lemma_text_prefix_1_grows(repr);
    lemma_text_part_3_shows_fields(repr);
    lemma_text_prefix_2_grows(repr);
    lemma_text_part_4_shows_fields(repr);
    lemma_text_prefix_3_grows(repr);
    lemma_text_part_5_shows_fields(repr);
    lemma_text_prefix_4_grows(repr);
    lemma_text_part_6_shows_fields(repr);
    lemma_text_prefix_5_grows(repr);
}

/// Part 0 of the text of a representation shows each of its fields after
/// its name and before the name of the next field.
proof fn lemma_text_part_0_shows_fields(repr: Repr)
    ensures
        occurs("x1a9 trip_computer_secondary_trip_reset_request="@ + bool_text(repr.trip_computer_secondary_trip_reset_request) + "\n trip_computer_primary_trip_reset_request="@, repr.text_prefix_0()),
        occurs("\n trip_computer_primary_trip_reset_request="@ + bool_text(repr.trip_computer_primary_trip_reset_request) + "\n adaptive_cruise_control_button_state="@, repr.text_prefix_0()),
        occurs("\n adaptive_cruise_control_button_state="@ + bool_text(repr.adaptive_cruise_control_button_state) + "\n automatic_parking_mode="@, repr.text_prefix_0()),
        occurs("\n automatic_parking_mode="@ + repr.automatic_parking_mode.text() + "\n telematics_enabled="@, repr.text_prefix_0()),
{
    reveal(Repr::text_prefix_0);
    broadcast use group_occurs;

}

/// Part 1 of the text of a representation shows each of its fields after
/// its name and before the name of the next field.
proof fn lemma_text_part_1_shows_fields(repr: Repr)
    ensures
        occurs("\n telematics_enabled="@ + bool_text(repr.telematics_enabled) + "\n black_panel_enabled="@, repr.text_prefix_1()),
        occurs("\n black_panel_enabled="@ + bool_text(repr.black_panel_enabled) + "\n interactive_message="@, repr.text_prefix_1()),
        occurs("\n interactive_message="@ + decimal_text(repr.interactive_message as nat) + "\n stop_check_request="@, repr.text_prefix_1()),
        occurs("\n stop_check_request="@ + bool_text(repr.stop_check_request) + "\n cruise_control_custom_speed_memorization_request="@, repr.text_prefix_1()),
        occurs("\n cruise_control_custom_speed_memorization_request="@ + bool_text(repr.cruise_control_custom_speed_memorization_request) + "\n available_space_measurement_button_state="@, repr.text_prefix_1()),
{
    reveal(Repr::text_prefix_0);
    reveal(Repr::text_prefix_1);
    broadcast use group_occurs;

}

/// What occurs in the text of a representation up to part 0 occurs in its
/// text up to part 1.
proof fn lemma_text_prefix_0_grows(repr: Repr)
    ensures
        forall|t: Seq<char>| occurs(t, repr.text_prefix_0()) ==> #[trigger] occurs(t, repr.text_prefix_1()),
{
    reveal(Repr::text_prefix_1);
    broadcast use group_occurs;

}

/// Part 2 of the text of a representation shows each of its fields after
/// its name and before the name of the next field.
proof fn lemma_text_part_2_shows_fields(repr: Repr)
    ensures
        occurs("\n available_space_measurement_button_state="@ + bool_text(repr.available_space_measurement_button_state) + "\n parking_sensors_button_state="@, repr.text_prefix_2()),
        occurs("\n parking_sensors_button_state="@ + bool_text(repr.parking_sensors_button_state) + "\n auto_main_beam_button_state="@, repr.text_prefix_2()),
        occurs("\n auto_main_beam_button_state="@ + bool_text(repr.auto_main_beam_button_state) + "\n lane_centering_button_state="@, repr.text_prefix_2()),
        occurs("\n lane_centering_button_state="@ + bool_text(repr.lane_centering_button_state) + "\n blind_spot_monitoring_button_state="@, repr.text_prefix_2()),
        occurs("\n blind_spot_monitoring_button_state="@ + bool_text(repr.blind_spot_monitoring_button_state) + "\n adaptive_cruise_control_plus_button_state="@, repr.text_prefix_2()),
{
    reveal(Repr::text_prefix_1);
    reveal(Repr::text_prefix_2);
    broadcast use group_occurs;

}

/// What occurs in the text of a representation up to part 1 occurs in its
/// text up to part 2.
proof fn lemma_text_prefix_1_grows(repr: Repr)
    ensures
        forall|t: Seq<char>| occurs(t, repr.text_prefix_1()) ==> #[trigger] occurs(t, repr.text_prefix_2()),
{
    reveal(Repr::text_prefix_2);
    broadcast use group_occurs;

}

/// Part 3 of the text of a representation shows each of its fields after
/// its name and before the name of the next field.
proof fn lemma_text_part_3_shows_fields(repr: Repr)
    ensures
        occurs("\n adaptive_cruise_control_plus_button_state="@ + bool_text(repr.adaptive_cruise_control_plus_button_state) + "\n adaptive_cruise_control_minus_button_state="@, repr.text_prefix_3()),
        occurs("\n adaptive_cruise_control_minus_button_state="@ + bool_text(repr.adaptive_cruise_control_minus_button_state) + "\n cruise_control_speed_instruction="@, repr.text_prefix_3()),
        occurs("\n cruise_control_speed_instruction="@ + decimal_text(repr.cruise_control_speed_instruction as nat) + "\n indirect_under_inflation_button_state="@, repr.text_prefix_3()),
        occurs("\n indirect_under_inflation_button_state="@ + bool_text(repr.indirect_under_inflation_button_state) + "\n automatic_parking_state_change_request="@, repr.text_prefix_3()),
        occurs("\n automatic_parking_state_change_request="@ + bool_text(repr.automatic_parking_state_change_request) + "\n collision_alert_failure_display_request="@, repr.text_prefix_3()),
{
    reveal(Repr::text_prefix_2);
    reveal(Repr::text_prefix_3);
    broadcast use group_occurs;

}

/// What occurs in the text of a representation up to part 2 occurs in its
/// text up to part 3.
proof fn lemma_text_prefix_2_grows(repr: Repr)
    ensures
        forall|t: Seq<char>| occurs(t, repr.text_prefix_2()) ==> #[trigger] occurs(t, repr.text_prefix_3()),
{
    reveal(Repr::text_prefix_3);
    broadcast use group_occurs;

}

/// Part 4 of the text of a representation shows each of its fields after
/// its name and before the name of the next field.
proof fn lemma_text_part_4_shows_fields(repr: Repr)
    ensures
        occurs("\n collision_alert_failure_display_request="@ + bool_text(repr.collision_alert_failure_display_request) + "\n cruise_control_speed_setting_instruction_position="@, repr.text_prefix_4()),
        occurs("\n cruise_control_speed_setting_instruction_position="@ + repr.cruise_control_speed_setting_instruction_position.text() + "\n fault_check_request="@, repr.text_prefix_4()),
        occurs("\n fault_check_request="@ + bool_text(repr.fault_check_request) + "\n telematic_screen_lighting_level="@, repr.text_prefix_4()),
        occurs("\n telematic_screen_lighting_level="@ + decimal_text(repr.telematic_screen_lighting_level as nat) + "\n telematic_unit_life_state="@, repr.text_prefix_4()),
        occurs("\n telematic_unit_life_state="@ + decimal_text(repr.telematic_unit_life_state as nat) + "\n stop_start_button_state="@, repr.text_prefix_4()),
{
    reveal(Repr::text_prefix_3);
    reveal(Repr::text_prefix_4);
    broadcast use group_occurs;

}

/// What occurs in the text of a representation up to part 3 occurs in its
/// text up to part 4.
proof fn lemma_text_prefix_3_grows(repr: Repr)
    ensures
        forall|t: Seq<char>| occurs(t, repr.text_prefix_3()) ==> #[trigger] occurs(t, repr.text_prefix_4()),
{
    reveal(Repr::text_prefix_4);
    broadcast use group_occurs;

}

/// Part 5 of the text of a representation shows each of its fields after
/// its name and before the name of the next field.
proof fn lemma_text_part_5_shows_fields(repr: Repr)
    ensures
        occurs("\n stop_start_button_state="@ + bool_text(repr.stop_start_button_state) + "\n visual_parking_assistance_button_state="@, repr.text_prefix_5()),
        occurs("\n visual_parking_assistance_button_state="@ + decimal_text(repr.visual_parking_assistance_button_state as nat) + "\n cruise_control_speed_instruction_value_request="@, repr.text_prefix_5()),
        occurs("\n cruise_control_speed_instruction_value_request="@ + bool_text(repr.cruise_control_speed_instruction_value_request) + "\n visual_parking_assistance_panoramic_view_button_state="@, repr.text_prefix_5()),
        occurs("\n visual_parking_assistance_panoramic_view_button_state="@ + bool_text(repr.visual_parking_assistance_panoramic_view_button_state) + "\n front_visual_parking_assistance_button_state="@, repr.text_prefix_5()),
        occurs("\n front_visual_parking_assistance_button_state="@ + bool_text(repr.front_visual_parking_assistance_button_state) + "\n rear_visual_parking_assistance_button_state="@, repr.text_prefix_5()),
{
    reveal(Repr::text_prefix_4);
    reveal(Repr::text_prefix_5);
    broadcast use group_occurs;

}

/// What occurs in the text of a representation up to part 4 occurs in its
/// text up to part 5.
proof fn lemma_text_prefix_4_grows(repr: Repr)
    ensures
        forall|t: Seq<char>| occurs(t, repr.text_prefix_4()) ==> #[trigger] occurs(t, repr.text_prefix_5()),
{
    reveal(Repr::text_prefix_5);
    broadcast use group_occurs;

}

/// Part 6 of the text of a representation shows each of its fields after
/// its name and before the name of the next field.
proof fn lemma_text_part_6_shows_fields(repr: Repr)
    ensures
        occurs("\n rear_visual_parking_assistance_button_state="@ + bool_text(repr.rear_visual_parking_assistance_button_state) + "\n visual_parking_assistance_activation_request="@, repr.text_prefix_6()),
        occurs("\n visual_parking_assistance_activation_request="@ + bool_text(repr.visual_parking_assistance_activation_request) + "\n"@, repr.text_prefix_6()),
{
    reveal(Repr::text_prefix_5);
    reveal(Repr::text_prefix_6);
    broadcast use group_occurs;

}

/// What occurs in the text of a representation up to part 5 occurs in its
/// text up to part 6.
proof fn lemma_text_prefix_5_grows(repr: Repr)
    ensures
        forall|t: Seq<char>| occurs(t, repr.text_prefix_5()) ==> #[trigger] occurs(t, repr.text_prefix_6()),
{
    reveal(Repr::text_prefix_6);
    broadcast use group_occurs;

}

} // verus!
