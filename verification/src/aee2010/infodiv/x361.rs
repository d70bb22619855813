//! The x361 CAN frame: vehicle configuration options.
use crate::bitfield::{bits, flag, lemma_bits_low_formula, lemma_flag_masks, lemma_low_mask_values, put_bits, put_flag, read_bits, read_flag, write_bits, write_flag};
use crate::config::UnderInflationDetectionSystem;
use crate::{check_frame_len, group_frame_laws, length_check, Error};
use crate::text::{bool_text, group_occurs, occurs, push_bool};
use vstd::prelude::*;

pub mod field;

verus! {

/// A read/write wrapper around a x361 CAN frame buffer.
#[derive(Debug, PartialEq, Clone)]
pub struct Frame {
    buffer: Vec<u8>,
}

impl View for Frame {
    type V = Seq<u8>;

    closed spec fn view(&self) -> Seq<u8> {
        self.buffer@
    }
}

impl AsRef<[u8]> for Frame {
    /// The bytes of the frame.
    fn as_ref(&self) -> (bytes: &[u8])
        ensures
            bytes@ == self@,
    {
        self.buffer.as_slice()
    }
}

/// Length of a x361 CAN frame.
pub const FRAME_LEN: usize = field::OPT_5 + 1;

/// Periodicity of a x361 CAN frame, in milliseconds.
pub const PERIODICITY_MS: u64 = 1000;

impl Frame {
    /// Create a raw octet buffer with a CAN frame structure.
    pub fn new_unchecked(buffer: Vec<u8>) -> (frame: Frame)
        ensures
            frame@ == buffer@,
    {
        Frame { buffer }
    }

    /// Shorthand for a combination of `new_unchecked` and `check_len`.
    pub fn new_checked(buffer: Vec<u8>) -> (r: Result<Frame, Error>)
        ensures
            r is Ok <==> buffer@.len() == FRAME_LEN,
            r matches Ok(frame) ==> frame@ == buffer@,
            r matches Err(e) ==> length_check(buffer@.len(), FRAME_LEN as nat) == Err::<(), Error>(e),
    {
        let frame = Self::new_unchecked(buffer);
        match frame.check_len() {
            Ok(()) => Ok(frame),
            Err(e) => Err(e),
        }
    }

    /// Ensure that no accessor method will panic if called.
    /// Returns `Err(Error::Truncated)` if the buffer is too short and
    /// `Err(Error::Overlong)` if it is too long.
    pub fn check_len(&self) -> (r: Result<(), Error>)
        ensures
            r == length_check(self@.len(), FRAME_LEN as nat),
    {
        check_frame_len(self.buffer.len(), FRAME_LEN)
    }

    /// Consume the frame, returning the underlying buffer.
    pub fn into_inner(self) -> (buffer: Vec<u8>)
        ensures
            buffer@ == self@,
    {
        self.buffer
    }

    /// Return the frame length.
    pub fn frame_len(&self) -> (len: usize)
        ensures
            len == FRAME_LEN,
    {
        FRAME_LEN
    }

    /// Return the daytime running lamps option presence flag.
    pub fn daytime_running_lamps_presence(&self) -> (value: bool)
        requires
            field::OPT_0 < self@.len(),
        ensures
            value == flag(self@[field::OPT_0 as int], 0),
    {
        read_flag(self.buffer[field::OPT_0], 0)
    }

    /// Return the automatic headlamps option presence flag.
    pub fn automatic_headlamps_presence(&self) -> (value: bool)
        requires
            field::OPT_0 < self@.len(),
        ensures
            value == flag(self@[field::OPT_0 as int], 1),
    {
        read_flag(self.buffer[field::OPT_0], 1)
    }

    /// Return the mood lighting option presence flag.
    pub fn mood_lighting_presence(&self) -> (value: bool)
        requires
            field::OPT_0 < self@.len(),
        ensures
            value == flag(self@[field::OPT_0 as int], 2),
    {
        read_flag(self.buffer[field::OPT_0], 2)
    }

    /// Return the blind spot monitoring option presence flag.
    pub fn blind_spot_monitoring_presence(&self) -> (value: bool)
        requires
            field::OPT_0 < self@.len(),
        ensures
            value == flag(self@[field::OPT_0 as int], 3),
    {
        read_flag(self.buffer[field::OPT_0], 3)
    }

    /// Return the adaptive lamps option presence flag.
    pub fn adaptive_lamps_presence(&self) -> (value: bool)
        requires
            field::OPT_0 < self@.len(),
        ensures
            value == flag(self@[field::OPT_0 as int], 4),
    {
        read_flag(self.buffer[field::OPT_0], 4)
    }

    /// Return the welcome lighting option presence flag.
    pub fn welcome_lighting_presence(&self) -> (value: bool)
        requires
            field::OPT_0 < self@.len(),
        ensures
            value == flag(self@[field::OPT_0 as int], 5),
    {
        read_flag(self.buffer[field::OPT_0], 5)
    }

    /// Return the motorway lighting option presence flag.
    pub fn motorway_lighting_presence(&self) -> (value: bool)
        requires
            field::OPT_0 < self@.len(),
        ensures
            value == flag(self@[field::OPT_0 as int], 6),
    {
        read_flag(self.buffer[field::OPT_0], 6)
    }

    /// Return the configuration menu information global availability flag.
    pub fn config_menu_information_availability(&self) -> (value: bool)
        requires
            field::OPT_0 < self@.len(),
        ensures
            value == flag(self@[field::OPT_0 as int], 7),
    {
        read_flag(self.buffer[field::OPT_0], 7)
    }

    /// Return the selective unlocking option presence flag.
    pub fn selective_unlocking_presence(&self) -> (value: bool)
        requires
            field::OPT_1 < self@.len(),
        ensures
            value == flag(self@[field::OPT_1 as int], 0),
    {
        read_flag(self.buffer[field::OPT_1], 0)
    }

    /// Return the key selective unlocking option presence flag.
    pub fn key_selective_unlocking_presence(&self) -> (value: bool)
        requires
            field::OPT_1 < self@.len(),
        ensures
            value == flag(self@[field::OPT_1 as int], 1),
    {
        read_flag(self.buffer[field::OPT_1], 1)
    }

    /// Return the boot selective unlocking option presence flag.
    pub fn boot_selective_unlocking_presence(&self) -> (value: bool)
        requires
            field::OPT_1 < self@.len(),
        ensures
            value == flag(self@[field::OPT_1 as int], 2),
    {
        read_flag(self.buffer[field::OPT_1], 2)
    }

    /// Return the motorized tailgate option presence flag.
    pub fn motorized_tailgate_presence(&self) -> (value: bool)
        requires
            field::OPT_1 < self@.len(),
        ensures
            value == flag(self@[field::OPT_1 as int], 3),
    {
        read_flag(self.buffer[field::OPT_1], 3)
    }

    /// Return the welcome function option presence flag.
    pub fn welcome_function_presence(&self) -> (value: bool)
        requires
            field::OPT_1 < self@.len(),
        ensures
            value == flag(self@[field::OPT_1 as int], 4),
    {
        read_flag(self.buffer[field::OPT_1], 4)
    }

    /// Return the follow-me-home option presence flag.
    pub fn follow_me_home_presence(&self) -> (value: bool)
        requires
            field::OPT_1 < self@.len(),
        ensures
            value == flag(self@[field::OPT_1 as int], 5),
    {
        read_flag(self.buffer[field::OPT_1], 5)
    }

    /// Return the rear wiper in reverse gear option presence flag.
    pub fn rear_wiper_in_reverse_gear_presence(&self) -> (value: bool)
        requires
            field::OPT_1 < self@.len(),
        ensures
            value == flag(self@[field::OPT_1 as int], 6),
    {
        read_flag(self.buffer[field::OPT_1], 6)
    }

    /// Return the parking sensors inhibition option presence flag.
    pub fn park_sensors_inhibition_presence(&self) -> (value: bool)
        requires
            field::OPT_1 < self@.len(),
        ensures
            value == flag(self@[field::OPT_1 as int], 7),
    {
        read_flag(self.buffer[field::OPT_1], 7)
    }

    /// Return the extended traffic sign recognition option presence flag.
    pub fn extended_traffic_sign_recognition_presence(&self) -> (value: bool)
        requires
            field::OPT_2 < self@.len(),
        ensures
            value == flag(self@[field::OPT_2 as int], 1),
    {
        read_flag(self.buffer[field::OPT_2], 1)
    }

    /// Return the mirrors tilting in reverse option presence flag.
    pub fn mirror_tilt_in_reverse_presence(&self) -> (value: bool)
        requires
            field::OPT_2 < self@.len(),
        ensures
            value == flag(self@[field::OPT_2 as int], 2),
    {
        read_flag(self.buffer[field::OPT_2], 2)
    }

    /// Return the sound harmony option presence flag.
    pub fn sound_harmony_presence(&self) -> (value: bool)
        requires
            field::OPT_2 < self@.len(),
        ensures
            value == flag(self@[field::OPT_2 as int], 3),
    {
        read_flag(self.buffer[field::OPT_2], 3)
    }

    /// Return the automatic electrical parking brake application option presence flag.
    pub fn auto_elec_parking_brake_application_presence(&self) -> (value: bool)
        requires
            field::OPT_2 < self@.len(),
        ensures
            value == flag(self@[field::OPT_2 as int], 4),
    {
        read_flag(self.buffer[field::OPT_2], 4)
    }

    /// Return the configurable button/key option presence flag.
    pub fn configurable_key_presence(&self) -> (value: bool)
        requires
            field::OPT_2 < self@.len(),
        ensures
            value == flag(self@[field::OPT_2 as int], 5),
    {
        read_flag(self.buffer[field::OPT_2], 5)
    }

    /// Return the cruise-control custom limits option presence flag.
    pub fn cruise_control_custom_limits_presence(&self) -> (value: bool)
        requires
            field::OPT_2 < self@.len(),
        ensures
            value == flag(self@[field::OPT_2 as int], 6),
    {
        read_flag(self.buffer[field::OPT_2], 6)
    }

    /// Return the seat belt not fastened / unfastened warning lamps presence flag.
    pub fn seat_belt_status_lamps_presence(&self) -> (value: bool)
        requires
            field::OPT_2 < self@.len(),
        ensures
            value == flag(self@[field::OPT_2 as int], 7),
    {
        read_flag(self.buffer[field::OPT_2], 7)
    }

    /// Return the under-inflation detection option system type field.
    pub fn under_inflation_detection(&self) -> (value: UnderInflationDetectionSystem)
        requires
            field::OPT_3 < self@.len(),
        ensures
            value == UnderInflationDetectionSystem::from_raw(bits(self@[field::OPT_3 as int], 0, 3)),
    {
        UnderInflationDetectionSystem::from(read_bits(self.buffer[field::OPT_3], 0, 3))
    }

    /// Return the gear efficiency indicator option presence flag.
    pub fn gear_efficiency_indicator_presence(&self) -> (value: bool)
        requires
            field::OPT_3 < self@.len(),
        ensures
            value == flag(self@[field::OPT_3 as int], 3),
    {
        read_flag(self.buffer[field::OPT_3], 3)
    }

    /// Return the cruise-control custom limits setting menu option presence flag.
    pub fn cruise_control_custom_limits_menu_presence(&self) -> (value: bool)
        requires
            field::OPT_3 < self@.len(),
        ensures
            value == flag(self@[field::OPT_3 as int], 4),
    {
        read_flag(self.buffer[field::OPT_3], 4)
    }

    /// Return the collision alert sensibility setting menu option presence flag.
    pub fn collision_alert_sensibility_menu_presence(&self) -> (value: bool)
        requires
            field::OPT_3 < self@.len(),
        ensures
            value == flag(self@[field::OPT_3 as int], 5),
    {
        read_flag(self.buffer[field::OPT_3], 5)
    }

    /// Return the automatic emergency braking option presence flag.
    pub fn automatic_emergency_braking_presence(&self) -> (value: bool)
        requires
            field::OPT_3 < self@.len(),
        ensures
            value == flag(self@[field::OPT_3 as int], 6),
    {
        read_flag(self.buffer[field::OPT_3], 6)
    }

    /// Return the under-inflation detection reset menu option presence flag.
    pub fn under_inflation_detection_reset_menu_presence(&self) -> (value: bool)
        requires
            field::OPT_3 < self@.len(),
        ensures
            value == flag(self@[field::OPT_3 as int], 7),
    {
        read_flag(self.buffer[field::OPT_3], 7)
    }

    /// Return the hands-free tailgate automatic locking menu option presence flag.
    pub fn hands_free_tailgate_auto_lock_menu_presence(&self) -> (value: bool)
        requires
            field::OPT_4 < self@.len(),
        ensures
            value == flag(self@[field::OPT_4 as int], 0),
    {
        read_flag(self.buffer[field::OPT_4], 0)
    }

    /// Return the hands-free tailgate option presence flag.
    pub fn hands_free_tailgate_presence(&self) -> (value: bool)
        requires
            field::OPT_4 < self@.len(),
        ensures
            value == flag(self@[field::OPT_4 as int], 2),
    {
        read_flag(self.buffer[field::OPT_4], 2)
    }

    /// Return the speed limit recognition option presence flag.
    pub fn speed_limit_recognition_presence(&self) -> (value: bool)
        requires
            field::OPT_4 < self@.len(),
        ensures
            value == flag(self@[field::OPT_4 as int], 3),
    {
        read_flag(self.buffer[field::OPT_4], 3)
    }

    /// Return the radiator grill lamps option presence flag (maybe anti-fog lights).
    pub fn radiator_grill_lamps_presence(&self) -> (value: bool)
        requires
            field::OPT_4 < self@.len(),
        ensures
            value == flag(self@[field::OPT_4 as int], 4),
    {
        read_flag(self.buffer[field::OPT_4], 4)
    }

    /// Return the 'CFC' option presence flag.
    pub fn cfc_presence(&self) -> (value: bool)
        requires
            field::OPT_4 < self@.len(),
        ensures
            value == flag(self@[field::OPT_4 as int], 5),
    {
        read_flag(self.buffer[field::OPT_4], 5)
    }

    /// Return the automatic mirrors folding option presence flag.
    pub fn auto_mirrors_folding_inhibit_presence(&self) -> (value: bool)
        requires
            field::OPT_5 < self@.len(),
        ensures
            value == flag(self@[field::OPT_5 as int], 0),
    {
        read_flag(self.buffer[field::OPT_5], 0)
    }

    /// Return the automatic main beam option presence flag.
    pub fn automatic_main_beam_presence(&self) -> (value: bool)
        requires
            field::OPT_5 < self@.len(),
        ensures
            value == flag(self@[field::OPT_5 as int], 5),
    {
        read_flag(self.buffer[field::OPT_5], 5)
    }

    /// Return the electric child lock security option presence flag.
    pub fn electric_child_security_presence(&self) -> (value: bool)
        requires
            field::OPT_5 < self@.len(),
        ensures
            value == flag(self@[field::OPT_5 as int], 6),
    {
        read_flag(self.buffer[field::OPT_5], 6)
    }

    /// Return the driver alert assist option presence flag.
    pub fn driver_alert_assist_presence(&self) -> (value: bool)
        requires
            field::OPT_5 < self@.len(),
        ensures
            value == flag(self@[field::OPT_5 as int], 7),
    {
        read_flag(self.buffer[field::OPT_5], 7)
    }

    /// Set the daytime running lamps option presence flag.
    pub fn set_daytime_running_lamps_presence(&mut self, value: bool)
        requires
            field::OPT_0 < old(self)@.len(),
        ensures
            final(self)@ == old(self)@.update(field::OPT_0 as int, put_flag(old(self)@[field::OPT_0 as int], 0, value)),
    {
        let raw = write_flag(self.buffer[field::OPT_0], 0, value);
        self.buffer.set(field::OPT_0, raw);
    }

    /// Set the automatic headlamps option presence flag.
    pub fn set_automatic_headlamps_presence(&mut self, value: bool)
        requires
            field::OPT_0 < old(self)@.len(),
        ensures
            final(self)@ == old(self)@.update(field::OPT_0 as int, put_flag(old(self)@[field::OPT_0 as int], 1, value)),
    {
        let raw = write_flag(self.buffer[field::OPT_0], 1, value);
        self.buffer.set(field::OPT_0, raw);
    }

    /// Set the mood lighting option presence flag.
    pub fn set_mood_lighting_presence(&mut self, value: bool)
        requires
            field::OPT_0 < old(self)@.len(),
        ensures
            final(self)@ == old(self)@.update(field::OPT_0 as int, put_flag(old(self)@[field::OPT_0 as int], 2, value)),
    {
        let raw = write_flag(self.buffer[field::OPT_0], 2, value);
        self.buffer.set(field::OPT_0, raw);
    }

    /// Set the blind spot monitoring option presence flag.
    pub fn set_blind_spot_monitoring_presence(&mut self, value: bool)
        requires
            field::OPT_0 < old(self)@.len(),
        ensures
            final(self)@ == old(self)@.update(field::OPT_0 as int, put_flag(old(self)@[field::OPT_0 as int], 3, value)),
    {
        let raw = write_flag(self.buffer[field::OPT_0], 3, value);
        self.buffer.set(field::OPT_0, raw);
    }

    /// Set the adaptive lamps option presence flag.
    pub fn set_adaptive_lamps_presence(&mut self, value: bool)
        requires
            field::OPT_0 < old(self)@.len(),
        ensures
            final(self)@ == old(self)@.update(field::OPT_0 as int, put_flag(old(self)@[field::OPT_0 as int], 4, value)),
    {
        let raw = write_flag(self.buffer[field::OPT_0], 4, value);
        self.buffer.set(field::OPT_0, raw);
    }

    /// Set the welcome lighting option presence flag.
    pub fn set_welcome_lighting_presence(&mut self, value: bool)
        requires
            field::OPT_0 < old(self)@.len(),
        ensures
            final(self)@ == old(self)@.update(field::OPT_0 as int, put_flag(old(self)@[field::OPT_0 as int], 5, value)),
    {
        let raw = write_flag(self.buffer[field::OPT_0], 5, value);
        self.buffer.set(field::OPT_0, raw);
    }

    /// Set the motorway lighting option presence flag.
    pub fn set_motorway_lighting_presence(&mut self, value: bool)
        requires
            field::OPT_0 < old(self)@.len(),
        ensures
            final(self)@ == old(self)@.update(field::OPT_0 as int, put_flag(old(self)@[field::OPT_0 as int], 6, value)),
    {
        let raw = write_flag(self.buffer[field::OPT_0], 6, value);
        self.buffer.set(field::OPT_0, raw);
    }

    /// Set the configuration menu information global availability flag.
    pub fn set_config_menu_information_availability(&mut self, value: bool)
        requires
            field::OPT_0 < old(self)@.len(),
        ensures
            final(self)@ == old(self)@.update(field::OPT_0 as int, put_flag(old(self)@[field::OPT_0 as int], 7, value)),
    {
        let raw = write_flag(self.buffer[field::OPT_0], 7, value);
        self.buffer.set(field::OPT_0, raw);
    }

    /// Set the selective unlocking option presence flag.
    pub fn set_selective_unlocking_presence(&mut self, value: bool)
        requires
            field::OPT_1 < old(self)@.len(),
        ensures
            final(self)@ == old(self)@.update(field::OPT_1 as int, put_flag(old(self)@[field::OPT_1 as int], 0, value)),
    {
        let raw = write_flag(self.buffer[field::OPT_1], 0, value);
        self.buffer.set(field::OPT_1, raw);
    }

    /// Set the key selective unlocking option presence flag.
    pub fn set_key_selective_unlocking_presence(&mut self, value: bool)
        requires
            field::OPT_1 < old(self)@.len(),
        ensures
            final(self)@ == old(self)@.update(field::OPT_1 as int, put_flag(old(self)@[field::OPT_1 as int], 1, value)),
    {
        let raw = write_flag(self.buffer[field::OPT_1], 1, value);
        self.buffer.set(field::OPT_1, raw);
    }

    /// Set the boot selective unlocking option presence flag.
    pub fn set_boot_selective_unlocking_presence(&mut self, value: bool)
        requires
            field::OPT_1 < old(self)@.len(),
        ensures
            final(self)@ == old(self)@.update(field::OPT_1 as int, put_flag(old(self)@[field::OPT_1 as int], 2, value)),
    {
        let raw = write_flag(self.buffer[field::OPT_1], 2, value);
        self.buffer.set(field::OPT_1, raw);
    }

    /// Set the motorized tailgate option presence flag.
    pub fn set_motorized_tailgate_presence(&mut self, value: bool)
        requires
            field::OPT_1 < old(self)@.len(),
        ensures
            final(self)@ == old(self)@.update(field::OPT_1 as int, put_flag(old(self)@[field::OPT_1 as int], 3, value)),
    {
        let raw = write_flag(self.buffer[field::OPT_1], 3, value);
        self.buffer.set(field::OPT_1, raw);
    }

    /// Set the welcome function option presence flag.
    pub fn set_welcome_function_presence(&mut self, value: bool)
        requires
            field::OPT_1 < old(self)@.len(),
        ensures
            final(self)@ == old(self)@.update(field::OPT_1 as int, put_flag(old(self)@[field::OPT_1 as int], 4, value)),
    {
        let raw = write_flag(self.buffer[field::OPT_1], 4, value);
        self.buffer.set(field::OPT_1, raw);
    }

    /// Set the follow-me-home option presence flag.
    pub fn set_follow_me_home_presence(&mut self, value: bool)
        requires
            field::OPT_1 < old(self)@.len(),
        ensures
            final(self)@ == old(self)@.update(field::OPT_1 as int, put_flag(old(self)@[field::OPT_1 as int], 5, value)),
    {
        let raw = write_flag(self.buffer[field::OPT_1], 5, value);
        self.buffer.set(field::OPT_1, raw);
    }

    /// Set the rear wiper in reverse gear option presence flag.
    pub fn set_rear_wiper_in_reverse_gear_presence(&mut self, value: bool)
        requires
            field::OPT_1 < old(self)@.len(),
        ensures
            final(self)@ == old(self)@.update(field::OPT_1 as int, put_flag(old(self)@[field::OPT_1 as int], 6, value)),
    {
        let raw = write_flag(self.buffer[field::OPT_1], 6, value);
        self.buffer.set(field::OPT_1, raw);
    }

    /// Set the parking sensors inhibition option presence flag.
    pub fn set_park_sensors_inhibition_presence(&mut self, value: bool)
        requires
            field::OPT_1 < old(self)@.len(),
        ensures
            final(self)@ == old(self)@.update(field::OPT_1 as int, put_flag(old(self)@[field::OPT_1 as int], 7, value)),
    {
        let raw = write_flag(self.buffer[field::OPT_1], 7, value);
        self.buffer.set(field::OPT_1, raw);
    }

    /// Set the extended traffic sign recognition option presence flag.
    pub fn set_extended_traffic_sign_recognition_presence(&mut self, value: bool)
        requires
            field::OPT_2 < old(self)@.len(),
        ensures
            final(self)@ == old(self)@.update(field::OPT_2 as int, put_flag(old(self)@[field::OPT_2 as int], 1, value)),
    {
        let raw = write_flag(self.buffer[field::OPT_2], 1, value);
        self.buffer.set(field::OPT_2, raw);
    }

    /// Set the mirrors tilting in reverse option presence flag.
    pub fn set_mirror_tilt_in_reverse_presence(&mut self, value: bool)
        requires
            field::OPT_2 < old(self)@.len(),
        ensures
            final(self)@ == old(self)@.update(field::OPT_2 as int, put_flag(old(self)@[field::OPT_2 as int], 2, value)),
    {
        let raw = write_flag(self.buffer[field::OPT_2], 2, value);
        self.buffer.set(field::OPT_2, raw);
    }

    /// Set the sound harmony option presence flag.
    pub fn set_sound_harmony_presence(&mut self, value: bool)
        requires
            field::OPT_2 < old(self)@.len(),
        ensures
            final(self)@ == old(self)@.update(field::OPT_2 as int, put_flag(old(self)@[field::OPT_2 as int], 3, value)),
    {
        let raw = write_flag(self.buffer[field::OPT_2], 3, value);
        self.buffer.set(field::OPT_2, raw);
    }

    /// Set the automatic electrical parking brake application option presence flag.
    pub fn set_auto_elec_parking_brake_application_presence(&mut self, value: bool)
        requires
            field::OPT_2 < old(self)@.len(),
        ensures
            final(self)@ == old(self)@.update(field::OPT_2 as int, put_flag(old(self)@[field::OPT_2 as int], 4, value)),
    {
        let raw = write_flag(self.buffer[field::OPT_2], 4, value);
        self.buffer.set(field::OPT_2, raw);
    }

    /// Set the configurable button/key option presence flag.
    pub fn set_configurable_key_presence(&mut self, value: bool)
        requires
            field::OPT_2 < old(self)@.len(),
        ensures
            final(self)@ == old(self)@.update(field::OPT_2 as int, put_flag(old(self)@[field::OPT_2 as int], 5, value)),
    {
        let raw = write_flag(self.buffer[field::OPT_2], 5, value);
        self.buffer.set(field::OPT_2, raw);
    }

    /// Set the cruise-control custom limits option presence flag.
    pub fn set_cruise_control_custom_limits_presence(&mut self, value: bool)
        requires
            field::OPT_2 < old(self)@.len(),
        ensures
            final(self)@ == old(self)@.update(field::OPT_2 as int, put_flag(old(self)@[field::OPT_2 as int], 6, value)),
    {
        let raw = write_flag(self.buffer[field::OPT_2], 6, value);
        self.buffer.set(field::OPT_2, raw);
    }

    /// Set the seat belt not fastened / unfastened warning lamps presence flag.
    pub fn set_seat_belt_status_lamps_presence(&mut self, value: bool)
        requires
            field::OPT_2 < old(self)@.len(),
        ensures
            final(self)@ == old(self)@.update(field::OPT_2 as int, put_flag(old(self)@[field::OPT_2 as int], 7, value)),
    {
        let raw = write_flag(self.buffer[field::OPT_2], 7, value);
        self.buffer.set(field::OPT_2, raw);
    }

    /// Set the under-inflation detection option system type field.
    pub fn set_under_inflation_detection(&mut self, value: UnderInflationDetectionSystem)
        requires
            field::OPT_3 < old(self)@.len(),
        ensures
            final(self)@ == old(self)@.update(field::OPT_3 as int, put_bits(old(self)@[field::OPT_3 as int], 0, 3, value.raw())),
    {
        let raw = write_bits(self.buffer[field::OPT_3], 0, 3, u8::from(value));
        self.buffer.set(field::OPT_3, raw);
    }

    /// Set the gear efficiency indicator option presence flag.
    pub fn set_gear_efficiency_indicator_presence(&mut self, value: bool)
        requires
            field::OPT_3 < old(self)@.len(),
        ensures
            final(self)@ == old(self)@.update(field::OPT_3 as int, put_flag(old(self)@[field::OPT_3 as int], 3, value)),
    {
        let raw = write_flag(self.buffer[field::OPT_3], 3, value);
        self.buffer.set(field::OPT_3, raw);
    }

    /// Set the cruise-control custom limits setting menu option presence flag.
    pub fn set_cruise_control_custom_limits_menu_presence(&mut self, value: bool)
        requires
            field::OPT_3 < old(self)@.len(),
        ensures
            final(self)@ == old(self)@.update(field::OPT_3 as int, put_flag(old(self)@[field::OPT_3 as int], 4, value)),
    {
        let raw = write_flag(self.buffer[field::OPT_3], 4, value);
        self.buffer.set(field::OPT_3, raw);
    }

    /// Set the collision alert sensibility setting menu option presence flag.
    pub fn set_collision_alert_sensibility_menu_presence(&mut self, value: bool)
        requires
            field::OPT_3 < old(self)@.len(),
        ensures
            final(self)@ == old(self)@.update(field::OPT_3 as int, put_flag(old(self)@[field::OPT_3 as int], 5, value)),
    {
        let raw = write_flag(self.buffer[field::OPT_3], 5, value);
        self.buffer.set(field::OPT_3, raw);
    }

    /// Set the automatic emergency braking option presence flag.
    pub fn set_automatic_emergency_braking_presence(&mut self, value: bool)
        requires
            field::OPT_3 < old(self)@.len(),
        ensures
            final(self)@ == old(self)@.update(field::OPT_3 as int, put_flag(old(self)@[field::OPT_3 as int], 6, value)),
    {
        let raw = write_flag(self.buffer[field::OPT_3], 6, value);
        self.buffer.set(field::OPT_3, raw);
    }

    /// Set the under-inflation detection reset menu option presence flag.
    pub fn set_under_inflation_detection_reset_menu_presence(&mut self, value: bool)
        requires
            field::OPT_3 < old(self)@.len(),
        ensures
            final(self)@ == old(self)@.update(field::OPT_3 as int, put_flag(old(self)@[field::OPT_3 as int], 7, value)),
    {
        let raw = write_flag(self.buffer[field::OPT_3], 7, value);
        self.buffer.set(field::OPT_3, raw);
    }

    /// Set the hands-free tailgate automatic locking menu option presence flag.
    pub fn set_hands_free_tailgate_auto_lock_menu_presence(&mut self, value: bool)
        requires
            field::OPT_4 < old(self)@.len(),
        ensures
            final(self)@ == old(self)@.update(field::OPT_4 as int, put_flag(old(self)@[field::OPT_4 as int], 0, value)),
    {
        let raw = write_flag(self.buffer[field::OPT_4], 0, value);
        self.buffer.set(field::OPT_4, raw);
    }

    /// Set the hands-free tailgate option presence flag.
    pub fn set_hands_free_tailgate_presence(&mut self, value: bool)
        requires
            field::OPT_4 < old(self)@.len(),
        ensures
            final(self)@ == old(self)@.update(field::OPT_4 as int, put_flag(old(self)@[field::OPT_4 as int], 2, value)),
    {
        let raw = write_flag(self.buffer[field::OPT_4], 2, value);
        self.buffer.set(field::OPT_4, raw);
    }

    /// Set the speed limit recognition option presence flag.
    pub fn set_speed_limit_recognition_presence(&mut self, value: bool)
        requires
            field::OPT_4 < old(self)@.len(),
        ensures
            final(self)@ == old(self)@.update(field::OPT_4 as int, put_flag(old(self)@[field::OPT_4 as int], 3, value)),
    {
        let raw = write_flag(self.buffer[field::OPT_4], 3, value);
        self.buffer.set(field::OPT_4, raw);
    }

    /// Set the radiator grill lamps option presence flag (maybe anti-fog lights).
    pub fn set_radiator_grill_lamps_presence(&mut self, value: bool)
        requires
            field::OPT_4 < old(self)@.len(),
        ensures
            final(self)@ == old(self)@.update(field::OPT_4 as int, put_flag(old(self)@[field::OPT_4 as int], 4, value)),
    {
        let raw = write_flag(self.buffer[field::OPT_4], 4, value);
        self.buffer.set(field::OPT_4, raw);
    }

    /// Set the 'CFC' option presence flag.
    pub fn set_cfc_presence(&mut self, value: bool)
        requires
            field::OPT_4 < old(self)@.len(),
        ensures
            final(self)@ == old(self)@.update(field::OPT_4 as int, put_flag(old(self)@[field::OPT_4 as int], 5, value)),
    {
        let raw = write_flag(self.buffer[field::OPT_4], 5, value);
        self.buffer.set(field::OPT_4, raw);
    }

    /// Set the automatic mirrors folding inhibition option presence flag.
    pub fn set_auto_mirrors_folding_inhibit_presence(&mut self, value: bool)
        requires
            field::OPT_5 < old(self)@.len(),
        ensures
            final(self)@ == old(self)@.update(field::OPT_5 as int, put_flag(old(self)@[field::OPT_5 as int], 0, value)),
    {
        let raw = write_flag(self.buffer[field::OPT_5], 0, value);
        self.buffer.set(field::OPT_5, raw);
    }

    /// Set the automatic main beam option presence flag.
    pub fn set_automatic_main_beam_presence(&mut self, value: bool)
        requires
            field::OPT_5 < old(self)@.len(),
        ensures
            final(self)@ == old(self)@.update(field::OPT_5 as int, put_flag(old(self)@[field::OPT_5 as int], 5, value)),
    {
        let raw = write_flag(self.buffer[field::OPT_5], 5, value);
        self.buffer.set(field::OPT_5, raw);
    }

    /// Set the electric child lock security option presence flag.
    pub fn set_electric_child_security_presence(&mut self, value: bool)
        requires
            field::OPT_5 < old(self)@.len(),
        ensures
            final(self)@ == old(self)@.update(field::OPT_5 as int, put_flag(old(self)@[field::OPT_5 as int], 6, value)),
    {
        let raw = write_flag(self.buffer[field::OPT_5], 6, value);
        self.buffer.set(field::OPT_5, raw);
    }

    /// Set the driver alert assist option presence flag.
    pub fn set_driver_alert_assist_presence(&mut self, value: bool)
        requires
            field::OPT_5 < old(self)@.len(),
        ensures
            final(self)@ == old(self)@.update(field::OPT_5 as int, put_flag(old(self)@[field::OPT_5 as int], 7, value)),
    {
        let raw = write_flag(self.buffer[field::OPT_5], 7, value);
        self.buffer.set(field::OPT_5, raw);
    }
}

/// A high-level representation of a x361 CAN frame.
#[derive(Debug, PartialEq, Eq, Clone, Copy)]
pub struct Repr {
    pub daytime_running_lamps_present: bool,
    pub automatic_headlamps_present: bool,
    pub mood_lighting_present: bool,
    pub blind_spot_monitoring_present: bool,
    pub adaptive_lamps_present: bool,
    pub welcome_lighting_present: bool,
    pub motorway_lighting_present: bool,
    pub config_menu_info_available: bool,
    pub selective_unlocking_present: bool,
    pub key_selective_unlocking_present: bool,
    pub boot_selective_unlocking_present: bool,
    pub motorized_tailgate_present: bool,
    pub welcome_function_present: bool,
    pub follow_me_home_present: bool,
    pub rear_wiper_in_reverse_gear_present: bool,
    pub parking_sensors_inhibition_present: bool,
    pub extended_traffic_sign_recognition_present: bool,
    pub mirror_tilt_in_reverse_present: bool,
    pub sound_harmony_present: bool,
    pub automatic_electric_parking_brake_application_present: bool,
    pub configurable_key_present: bool,
    pub cruise_control_custom_limits_present: bool,
    pub seat_belt_status_lamps_present: bool,
    pub under_inflation_detection: UnderInflationDetectionSystem,
    pub gear_efficiency_indicator_present: bool,
    pub cruise_control_custom_limits_menu_present: bool,
    pub collision_alert_sensibility_menu_present: bool,
    pub automatic_emergency_braking_present: bool,
    pub under_inflation_detection_reset_menu_present: bool,
    pub hands_free_tailgate_auto_lock_menu_present: bool,
    pub hands_free_tailgate_present: bool,
    pub speed_limit_recognition_present: bool,
    pub radiator_grill_lamps_present: bool,
    pub cfc_present: bool,
    pub automatic_mirrors_folding_inhibit_present: bool,
    pub automatic_main_beam_present: bool,
    pub electric_child_security_present: bool,
    pub driver_alert_assist_present: bool,
}

impl Repr {
    /// The representation that the bytes of a frame carry.
    #[verifier::opaque]
    pub open spec fn from_bytes(bytes: Seq<u8>) -> Repr {
        Repr {
            daytime_running_lamps_present: flag(bytes[field::OPT_0 as int], 0),
            automatic_headlamps_present: flag(bytes[field::OPT_0 as int], 1),
            mood_lighting_present: flag(bytes[field::OPT_0 as int], 2),
            blind_spot_monitoring_present: flag(bytes[field::OPT_0 as int], 3),
            adaptive_lamps_present: flag(bytes[field::OPT_0 as int], 4),
            welcome_lighting_present: flag(bytes[field::OPT_0 as int], 5),
            motorway_lighting_present: flag(bytes[field::OPT_0 as int], 6),
            config_menu_info_available: flag(bytes[field::OPT_0 as int], 7),
            selective_unlocking_present: flag(bytes[field::OPT_1 as int], 0),
            key_selective_unlocking_present: flag(bytes[field::OPT_1 as int], 1),
            boot_selective_unlocking_present: flag(bytes[field::OPT_1 as int], 2),
            motorized_tailgate_present: flag(bytes[field::OPT_1 as int], 3),
            welcome_function_present: flag(bytes[field::OPT_1 as int], 4),
            follow_me_home_present: flag(bytes[field::OPT_1 as int], 5),
            rear_wiper_in_reverse_gear_present: flag(bytes[field::OPT_1 as int], 6),
            parking_sensors_inhibition_present: flag(bytes[field::OPT_1 as int], 7),
            extended_traffic_sign_recognition_present: flag(bytes[field::OPT_2 as int], 1),
            mirror_tilt_in_reverse_present: flag(bytes[field::OPT_2 as int], 2),
            sound_harmony_present: flag(bytes[field::OPT_2 as int], 3),
            automatic_electric_parking_brake_application_present: flag(bytes[field::OPT_2 as int], 4),
            configurable_key_present: flag(bytes[field::OPT_2 as int], 5),
            cruise_control_custom_limits_present: flag(bytes[field::OPT_2 as int], 6),
            seat_belt_status_lamps_present: flag(bytes[field::OPT_2 as int], 7),
            under_inflation_detection: UnderInflationDetectionSystem::from_raw(bits(bytes[field::OPT_3 as int], 0, 3)),
            gear_efficiency_indicator_present: flag(bytes[field::OPT_3 as int], 3),
            cruise_control_custom_limits_menu_present: flag(bytes[field::OPT_3 as int], 4),
            collision_alert_sensibility_menu_present: flag(bytes[field::OPT_3 as int], 5),
            automatic_emergency_braking_present: flag(bytes[field::OPT_3 as int], 6),
            under_inflation_detection_reset_menu_present: flag(bytes[field::OPT_3 as int], 7),
            hands_free_tailgate_auto_lock_menu_present: flag(bytes[field::OPT_4 as int], 0),
            hands_free_tailgate_present: flag(bytes[field::OPT_4 as int], 2),
            speed_limit_recognition_present: flag(bytes[field::OPT_4 as int], 3),
            radiator_grill_lamps_present: flag(bytes[field::OPT_4 as int], 4),
            cfc_present: flag(bytes[field::OPT_4 as int], 5),
            automatic_mirrors_folding_inhibit_present: flag(bytes[field::OPT_5 as int], 0),
            automatic_main_beam_present: flag(bytes[field::OPT_5 as int], 5),
            electric_child_security_present: flag(bytes[field::OPT_5 as int], 6),
            driver_alert_assist_present: flag(bytes[field::OPT_5 as int], 7),
        }
    }

    /// The byte at `field::OPT_0` once the fields that it carries are written into `b`.
    pub open spec fn opt_0_byte(self, b: u8) -> u8 {
        put_flag(put_flag(put_flag(put_flag(put_flag(put_flag(put_flag(put_flag(b, 0, self.daytime_running_lamps_present), 1, self.automatic_headlamps_present), 2, self.mood_lighting_present), 3, self.blind_spot_monitoring_present), 4, self.adaptive_lamps_present), 5, self.welcome_lighting_present), 6, self.motorway_lighting_present), 7, self.config_menu_info_available)
    }

    /// The byte at `field::OPT_1` once the fields that it carries are written into `b`.
    pub open spec fn opt_1_byte(self, b: u8) -> u8 {
        put_flag(put_flag(put_flag(put_flag(put_flag(put_flag(put_flag(put_flag(b, 0, self.selective_unlocking_present), 1, self.key_selective_unlocking_present), 2, self.boot_selective_unlocking_present), 3, self.motorized_tailgate_present), 4, self.welcome_function_present), 5, self.follow_me_home_present), 6, self.rear_wiper_in_reverse_gear_present), 7, self.parking_sensors_inhibition_present)
    }

    /// The byte at `field::OPT_2` once the fields that it carries are written into `b`.
    pub open spec fn opt_2_byte(self, b: u8) -> u8 {
        put_flag(put_flag(put_flag(put_flag(put_flag(put_flag(put_flag(b, 1, self.extended_traffic_sign_recognition_present), 2, self.mirror_tilt_in_reverse_present), 3, self.sound_harmony_present), 4, self.automatic_electric_parking_brake_application_present), 5, self.configurable_key_present), 6, self.cruise_control_custom_limits_present), 7, self.seat_belt_status_lamps_present)
    }

    /// The byte at `field::OPT_3` once the fields that it carries are written into `b`.
    pub open spec fn opt_3_byte(self, b: u8) -> u8 {
        put_flag(put_flag(put_flag(put_flag(put_flag(put_bits(b, 0, 3, self.under_inflation_detection.raw()), 3, self.gear_efficiency_indicator_present), 4, self.cruise_control_custom_limits_menu_present), 5, self.collision_alert_sensibility_menu_present), 6, self.automatic_emergency_braking_present), 7, self.under_inflation_detection_reset_menu_present)
    }

    /// The byte at `field::OPT_4` once the fields that it carries are written into `b`.
    pub open spec fn opt_4_byte(self, b: u8) -> u8 {
        put_flag(put_flag(put_flag(put_flag(put_flag(b, 0, self.hands_free_tailgate_auto_lock_menu_present), 2, self.hands_free_tailgate_present), 3, self.speed_limit_recognition_present), 4, self.radiator_grill_lamps_present), 5, self.cfc_present)
    }

    /// The byte at `field::OPT_5` once the fields that it carries are written into `b`.
    pub open spec fn opt_5_byte(self, b: u8) -> u8 {
        put_flag(put_flag(put_flag(put_flag(b, 0, self.automatic_mirrors_folding_inhibit_present), 5, self.automatic_main_beam_present), 6, self.electric_child_security_present), 7, self.driver_alert_assist_present)
    }

    /// The bytes of a frame once `self` is emitted into them.
    pub open spec fn emit_bytes(self, bytes: Seq<u8>) -> Seq<u8> {
        bytes.update(
            field::OPT_0 as int,
            self.opt_0_byte(bytes[field::OPT_0 as int]),
        ).update(
            field::OPT_1 as int,
            self.opt_1_byte(bytes[field::OPT_1 as int]),
        ).update(
            field::OPT_2 as int,
            self.opt_2_byte(bytes[field::OPT_2 as int]),
        ).update(
            field::OPT_3 as int,
            self.opt_3_byte(bytes[field::OPT_3 as int]),
        ).update(
            field::OPT_4 as int,
            self.opt_4_byte(bytes[field::OPT_4 as int]),
        ).update(
            field::OPT_5 as int,
            self.opt_5_byte(bytes[field::OPT_5 as int]),
        )
    }

    /// Every field of `self` fits in the bits that the frame gives it.
    pub open spec fn fits(self) -> bool {
        &&& UnderInflationDetectionSystem::from_raw(self.under_inflation_detection.raw()) == self.under_inflation_detection && self.under_inflation_detection.raw() < 8
    }

    /// Parse a x361 CAN frame into its high-level representation.
    pub fn parse(frame: &Frame) -> (r: Result<Repr, Error>)
        ensures
            r is Ok <==> frame@.len() == FRAME_LEN,
            r matches Ok(repr) ==> repr == Repr::from_bytes(frame@),
            r matches Err(e) ==> length_check(frame@.len(), FRAME_LEN as nat) == Err::<(), Error>(e),
    {
        if let Err(e) = frame.check_len() {
            return Err(e);
        }
        Ok(Self::read_fields(frame))
    }

    /// The representation that the bytes of `frame` carry.
    fn read_fields(frame: &Frame) -> (repr: Repr)
        requires
            FRAME_LEN <= frame@.len(),
        ensures
            repr == Repr::from_bytes(frame@),
    {
        let repr = Repr {
            daytime_running_lamps_present: frame.daytime_running_lamps_presence(),
            automatic_headlamps_present: frame.automatic_headlamps_presence(),
            mood_lighting_present: frame.mood_lighting_presence(),
            blind_spot_monitoring_present: frame.blind_spot_monitoring_presence(),
            adaptive_lamps_present: frame.adaptive_lamps_presence(),
            welcome_lighting_present: frame.welcome_lighting_presence(),
            motorway_lighting_present: frame.motorway_lighting_presence(),
            config_menu_info_available: frame.config_menu_information_availability(),
            selective_unlocking_present: frame.selective_unlocking_presence(),
            key_selective_unlocking_present: frame.key_selective_unlocking_presence(),
            boot_selective_unlocking_present: frame.boot_selective_unlocking_presence(),
            motorized_tailgate_present: frame.motorized_tailgate_presence(),
            welcome_function_present: frame.welcome_function_presence(),
            follow_me_home_present: frame.follow_me_home_presence(),
            rear_wiper_in_reverse_gear_present: frame.rear_wiper_in_reverse_gear_presence(),
            parking_sensors_inhibition_present: frame.park_sensors_inhibition_presence(),
            extended_traffic_sign_recognition_present: frame.extended_traffic_sign_recognition_presence(),
            mirror_tilt_in_reverse_present: frame.mirror_tilt_in_reverse_presence(),
            sound_harmony_present: frame.sound_harmony_presence(),
            automatic_electric_parking_brake_application_present: frame.auto_elec_parking_brake_application_presence(),
            configurable_key_present: frame.configurable_key_presence(),
            cruise_control_custom_limits_present: frame.cruise_control_custom_limits_presence(),
            seat_belt_status_lamps_present: frame.seat_belt_status_lamps_presence(),
            under_inflation_detection: frame.under_inflation_detection(),
            gear_efficiency_indicator_present: frame.gear_efficiency_indicator_presence(),
            cruise_control_custom_limits_menu_present: frame.cruise_control_custom_limits_menu_presence(),
            collision_alert_sensibility_menu_present: frame.collision_alert_sensibility_menu_presence(),
            automatic_emergency_braking_present: frame.automatic_emergency_braking_presence(),
            under_inflation_detection_reset_menu_present: frame.under_inflation_detection_reset_menu_presence(),
            hands_free_tailgate_auto_lock_menu_present: frame.hands_free_tailgate_auto_lock_menu_presence(),
            hands_free_tailgate_present: frame.hands_free_tailgate_presence(),
            speed_limit_recognition_present: frame.speed_limit_recognition_presence(),
            radiator_grill_lamps_present: frame.radiator_grill_lamps_presence(),
            cfc_present: frame.cfc_presence(),
            automatic_mirrors_folding_inhibit_present: frame.auto_mirrors_folding_inhibit_presence(),
            automatic_main_beam_present: frame.automatic_main_beam_presence(),
            electric_child_security_present: frame.electric_child_security_presence(),
            driver_alert_assist_present: frame.driver_alert_assist_presence(),
        };
        proof {
            Repr::lemma_from_fields(repr, frame@);
        }
        repr
    }

    /// A representation whose every field holds what `bytes` carry is the
    /// representation that `bytes` carry.
    proof fn lemma_from_fields(repr: Repr, bytes: Seq<u8>)
        requires
            repr.daytime_running_lamps_present == flag(bytes[field::OPT_0 as int], 0),
            repr.automatic_headlamps_present == flag(bytes[field::OPT_0 as int], 1),
            repr.mood_lighting_present == flag(bytes[field::OPT_0 as int], 2),
            repr.blind_spot_monitoring_present == flag(bytes[field::OPT_0 as int], 3),
            repr.adaptive_lamps_present == flag(bytes[field::OPT_0 as int], 4),
            repr.welcome_lighting_present == flag(bytes[field::OPT_0 as int], 5),
            repr.motorway_lighting_present == flag(bytes[field::OPT_0 as int], 6),
            repr.config_menu_info_available == flag(bytes[field::OPT_0 as int], 7),
            repr.selective_unlocking_present == flag(bytes[field::OPT_1 as int], 0),
            repr.key_selective_unlocking_present == flag(bytes[field::OPT_1 as int], 1),
            repr.boot_selective_unlocking_present == flag(bytes[field::OPT_1 as int], 2),
            repr.motorized_tailgate_present == flag(bytes[field::OPT_1 as int], 3),
            repr.welcome_function_present == flag(bytes[field::OPT_1 as int], 4),
            repr.follow_me_home_present == flag(bytes[field::OPT_1 as int], 5),
            repr.rear_wiper_in_reverse_gear_present == flag(bytes[field::OPT_1 as int], 6),
            repr.parking_sensors_inhibition_present == flag(bytes[field::OPT_1 as int], 7),
            repr.extended_traffic_sign_recognition_present == flag(bytes[field::OPT_2 as int], 1),
            repr.mirror_tilt_in_reverse_present == flag(bytes[field::OPT_2 as int], 2),
            repr.sound_harmony_present == flag(bytes[field::OPT_2 as int], 3),
            repr.automatic_electric_parking_brake_application_present == flag(bytes[field::OPT_2 as int], 4),
            repr.configurable_key_present == flag(bytes[field::OPT_2 as int], 5),
            repr.cruise_control_custom_limits_present == flag(bytes[field::OPT_2 as int], 6),
            repr.seat_belt_status_lamps_present == flag(bytes[field::OPT_2 as int], 7),
            repr.under_inflation_detection == UnderInflationDetectionSystem::from_raw(bits(bytes[field::OPT_3 as int], 0, 3)),
            repr.gear_efficiency_indicator_present == flag(bytes[field::OPT_3 as int], 3),
            repr.cruise_control_custom_limits_menu_present == flag(bytes[field::OPT_3 as int], 4),
            repr.collision_alert_sensibility_menu_present == flag(bytes[field::OPT_3 as int], 5),
            repr.automatic_emergency_braking_present == flag(bytes[field::OPT_3 as int], 6),
            repr.under_inflation_detection_reset_menu_present == flag(bytes[field::OPT_3 as int], 7),
            repr.hands_free_tailgate_auto_lock_menu_present == flag(bytes[field::OPT_4 as int], 0),
            repr.hands_free_tailgate_present == flag(bytes[field::OPT_4 as int], 2),
            repr.speed_limit_recognition_present == flag(bytes[field::OPT_4 as int], 3),
            repr.radiator_grill_lamps_present == flag(bytes[field::OPT_4 as int], 4),
            repr.cfc_present == flag(bytes[field::OPT_4 as int], 5),
            repr.automatic_mirrors_folding_inhibit_present == flag(bytes[field::OPT_5 as int], 0),
            repr.automatic_main_beam_present == flag(bytes[field::OPT_5 as int], 5),
            repr.electric_child_security_present == flag(bytes[field::OPT_5 as int], 6),
            repr.driver_alert_assist_present == flag(bytes[field::OPT_5 as int], 7),
        ensures
            repr == Repr::from_bytes(bytes),
    {
        reveal(Repr::from_bytes);
    }

    /// The text of `self`: each field by name, with its value.
    pub open spec fn text(self) -> Seq<char> {
        self.text_prefix_7()
    }

    /// The first part of the text of `self`, up to part 0.
    #[verifier::opaque]
    pub open spec fn text_prefix_0(self) -> Seq<char> {
        "x361 daytime_running_lamps_present="@
            + bool_text(self.daytime_running_lamps_present)
            + "\n automatic_headlamps_present="@
            + bool_text(self.automatic_headlamps_present)
            + "\n mood_lighting_present="@
            + bool_text(self.mood_lighting_present)
            + "\n blind_spot_monitoring_present="@
            + bool_text(self.blind_spot_monitoring_present)
            + "\n adaptive_lamps_present="@
            + bool_text(self.adaptive_lamps_present)
    }

    /// The first parts of the text of `self`, up to part 1.
    #[verifier::opaque]
    pub open spec fn text_prefix_1(self) -> Seq<char> {
        self.text_prefix_0()
            + "\n welcome_lighting_present="@
            + bool_text(self.welcome_lighting_present)
            + "\n motorway_lighting_present="@
            + bool_text(self.motorway_lighting_present)
            + "\n config_menu_info_available="@
            + bool_text(self.config_menu_info_available)
            + "\n selective_unlocking_present="@
            + bool_text(self.selective_unlocking_present)
            + "\n key_selective_unlocking_present="@
            + bool_text(self.key_selective_unlocking_present)
    }

    /// The first parts of the text of `self`, up to part 2.
    #[verifier::opaque]
    pub open spec fn text_prefix_2(self) -> Seq<char> {
        self.text_prefix_1()
            + "\n boot_selective_unlocking_present="@
            + bool_text(self.boot_selective_unlocking_present)
            + "\n motorized_tailgate_present="@
            + bool_text(self.motorized_tailgate_present)
            + "\n welcome_function_present="@
            + bool_text(self.welcome_function_present)
            + "\n follow_me_home_present="@
            + bool_text(self.follow_me_home_present)
            + "\n rear_wiper_in_reverse_gear_present="@
            + bool_text(self.rear_wiper_in_reverse_gear_present)
    }

    /// The first parts of the text of `self`, up to part 3.
    #[verifier::opaque]
    pub open spec fn text_prefix_3(self) -> Seq<char> {
        self.text_prefix_2()
            + "\n parking_sensors_inhibition_present="@
            + bool_text(self.parking_sensors_inhibition_present)
            + "\n extended_traffic_sign_recognition_present="@
            + bool_text(self.extended_traffic_sign_recognition_present)
            + "\n mirror_tilt_in_reverse_present="@
            + bool_text(self.mirror_tilt_in_reverse_present)
            + "\n sound_harmony_present="@
            + bool_text(self.sound_harmony_present)
            + "\n automatic_electric_parking_brake_application_present="@
            + bool_text(self.automatic_electric_parking_brake_application_present)
    }

    /// The first parts of the text of `self`, up to part 4.
    #[verifier::opaque]
    pub open spec fn text_prefix_4(self) -> Seq<char> {
        self.text_prefix_3()
            + "\n configurable_key_present="@
            + bool_text(self.configurable_key_present)
            + "\ncruise_control_custom_limits_present="@
            + bool_text(self.cruise_control_custom_limits_present)
            + "\n seat_belt_status_lamps_present="@
            + bool_text(self.seat_belt_status_lamps_present)
            + "\n under_inflation_detection="@
            + self.under_inflation_detection.text()
            + "\n gear_efficiency_indicator_present="@
            + bool_text(self.gear_efficiency_indicator_present)
    }

    /// The first parts of the text of `self`, up to part 5.
    #[verifier::opaque]
    pub open spec fn text_prefix_5(self) -> Seq<char> {
        self.text_prefix_4()
            + "\n cruise_control_custom_limits_menu_present="@
            + bool_text(self.cruise_control_custom_limits_menu_present)
            + "\n collision_alert_sensibility_menu_present="@
            + bool_text(self.collision_alert_sensibility_menu_present)
            + "\n automatic_emergency_braking_present="@
            + bool_text(self.automatic_emergency_braking_present)
            + "\n under_inflation_detection_reset_menu_present="@
            + bool_text(self.under_inflation_detection_reset_menu_present)
            + "\n hands_free_tailgate_auto_lock_menu_present="@
            + bool_text(self.hands_free_tailgate_auto_lock_menu_present)
    }

    /// The first parts of the text of `self`, up to part 6.
    #[verifier::opaque]
    pub open spec fn text_prefix_6(self) -> Seq<char> {
        self.text_prefix_5()
            + "\n hands_free_tailgate_present="@
            + bool_text(self.hands_free_tailgate_present)
            + "\n speed_limit_recognition_present="@
            + bool_text(self.speed_limit_recognition_present)
            + "\n radiator_grill_lamps_present="@
            + bool_text(self.radiator_grill_lamps_present)
            + "\n 'CFC' present="@
            + bool_text(self.cfc_present)
            + "\n automatic_mirrors_folding_inhibit_present="@
            + bool_text(self.automatic_mirrors_folding_inhibit_present)
    }

    /// The first parts of the text of `self`, up to part 7.
    #[verifier::opaque]
    pub open spec fn text_prefix_7(self) -> Seq<char> {
        self.text_prefix_6()
            + "\n automatic_main_beam_present="@
            + bool_text(self.automatic_main_beam_present)
            + "\n electric_child_security_presence present="@
            + bool_text(self.electric_child_security_present)
            + "\n driver_alert_assist_present="@
            + bool_text(self.driver_alert_assist_present)
            + "\n"@
    }

    /// Return the text of `self`.
    pub fn to_text(&self) -> (s: String)
        ensures
            s@ == self.text(),
    {
        let mut s = self.text_start();
        self.push_text_part_1(&mut s);
        self.push_text_part_2(&mut s);
        self.push_text_part_3(&mut s);
        self.push_text_part_4(&mut s);
        self.push_text_part_5(&mut s);
        self.push_text_part_6(&mut s);
        self.push_text_part_7(&mut s);
        s
    }

    /// The first part of the text of `self`.
    fn text_start(&self) -> (s: String)
        ensures
            s@ == self.text_prefix_0(),
    {
        proof {
            reveal(Repr::text_prefix_0);
        }
        let mut s = String::from_str("x361 daytime_running_lamps_present=");
        push_bool(&mut s, self.daytime_running_lamps_present);
        s.append("\n automatic_headlamps_present=");
        push_bool(&mut s, self.automatic_headlamps_present);
        s.append("\n mood_lighting_present=");
        push_bool(&mut s, self.mood_lighting_present);
        s.append("\n blind_spot_monitoring_present=");
        push_bool(&mut s, self.blind_spot_monitoring_present);
        s.append("\n adaptive_lamps_present=");
        push_bool(&mut s, self.adaptive_lamps_present);
        s
    }

    /// Appends part 1 of the text of `self`.
    fn push_text_part_1(&self, s: &mut String)
        requires
            old(s)@ == self.text_prefix_0(),
        ensures
            final(s)@ == self.text_prefix_1(),
    {
        proof {
            reveal(Repr::text_prefix_1);
        }
        s.append("\n welcome_lighting_present=");
        push_bool(s, self.welcome_lighting_present);
        s.append("\n motorway_lighting_present=");
        push_bool(s, self.motorway_lighting_present);
        s.append("\n config_menu_info_available=");
        push_bool(s, self.config_menu_info_available);
        s.append("\n selective_unlocking_present=");
        push_bool(s, self.selective_unlocking_present);
        s.append("\n key_selective_unlocking_present=");
        push_bool(s, self.key_selective_unlocking_present);
    }

    /// Appends part 2 of the text of `self`.
    fn push_text_part_2(&self, s: &mut String)
        requires
            old(s)@ == self.text_prefix_1(),
        ensures
            final(s)@ == self.text_prefix_2(),
    {
        proof {
            reveal(Repr::text_prefix_2);
        }
        s.append("\n boot_selective_unlocking_present=");
        push_bool(s, self.boot_selective_unlocking_present);
        s.append("\n motorized_tailgate_present=");
        push_bool(s, self.motorized_tailgate_present);
        s.append("\n welcome_function_present=");
        push_bool(s, self.welcome_function_present);
        s.append("\n follow_me_home_present=");
        push_bool(s, self.follow_me_home_present);
        s.append("\n rear_wiper_in_reverse_gear_present=");
        push_bool(s, self.rear_wiper_in_reverse_gear_present);
    }

    /// Appends part 3 of the text of `self`.
    fn push_text_part_3(&self, s: &mut String)
        requires
            old(s)@ == self.text_prefix_2(),
        ensures
            final(s)@ == self.text_prefix_3(),
    {
        proof {
            reveal(Repr::text_prefix_3);
        }
        s.append("\n parking_sensors_inhibition_present=");
        push_bool(s, self.parking_sensors_inhibition_present);
        s.append("\n extended_traffic_sign_recognition_present=");
        push_bool(s, self.extended_traffic_sign_recognition_present);
        s.append("\n mirror_tilt_in_reverse_present=");
        push_bool(s, self.mirror_tilt_in_reverse_present);
        s.append("\n sound_harmony_present=");
        push_bool(s, self.sound_harmony_present);
        s.append("\n automatic_electric_parking_brake_application_present=");
        push_bool(s, self.automatic_electric_parking_brake_application_present);
    }

    /// Appends part 4 of the text of `self`.
    fn push_text_part_4(&self, s: &mut String)
        requires
            old(s)@ == self.text_prefix_3(),
        ensures
            final(s)@ == self.text_prefix_4(),
    {
        proof {
            reveal(Repr::text_prefix_4);
        }
        s.append("\n configurable_key_present=");
        push_bool(s, self.configurable_key_present);
        s.append("\ncruise_control_custom_limits_present=");
        push_bool(s, self.cruise_control_custom_limits_present);
        s.append("\n seat_belt_status_lamps_present=");
        push_bool(s, self.seat_belt_status_lamps_present);
        s.append("\n under_inflation_detection=");
        self.under_inflation_detection.push_text(s);
        s.append("\n gear_efficiency_indicator_present=");
        push_bool(s, self.gear_efficiency_indicator_present);
    }

    /// Appends part 5 of the text of `self`.
    fn push_text_part_5(&self, s: &mut String)
        requires
            old(s)@ == self.text_prefix_4(),
        ensures
            final(s)@ == self.text_prefix_5(),
    {
        proof {
            reveal(Repr::text_prefix_5);
        }
        s.append("\n cruise_control_custom_limits_menu_present=");
        push_bool(s, self.cruise_control_custom_limits_menu_present);
        s.append("\n collision_alert_sensibility_menu_present=");
        push_bool(s, self.collision_alert_sensibility_menu_present);
        s.append("\n automatic_emergency_braking_present=");
        push_bool(s, self.automatic_emergency_braking_present);
        s.append("\n under_inflation_detection_reset_menu_present=");
        push_bool(s, self.under_inflation_detection_reset_menu_present);
        s.append("\n hands_free_tailgate_auto_lock_menu_present=");
        push_bool(s, self.hands_free_tailgate_auto_lock_menu_present);
    }

    /// Appends part 6 of the text of `self`.
    fn push_text_part_6(&self, s: &mut String)
        requires
            old(s)@ == self.text_prefix_5(),
        ensures
            final(s)@ == self.text_prefix_6(),
    {
        proof {
            reveal(Repr::text_prefix_6);
        }
        s.append("\n hands_free_tailgate_present=");
        push_bool(s, self.hands_free_tailgate_present);
        s.append("\n speed_limit_recognition_present=");
        push_bool(s, self.speed_limit_recognition_present);
        s.append("\n radiator_grill_lamps_present=");
        push_bool(s, self.radiator_grill_lamps_present);
        s.append("\n 'CFC' present=");
        push_bool(s, self.cfc_present);
        s.append("\n automatic_mirrors_folding_inhibit_present=");
        push_bool(s, self.automatic_mirrors_folding_inhibit_present);
    }

    /// Appends part 7 of the text of `self`.
    fn push_text_part_7(&self, s: &mut String)
        requires
            old(s)@ == self.text_prefix_6(),
        ensures
            final(s)@ == self.text_prefix_7(),
    {
        proof {
            reveal(Repr::text_prefix_7);
        }
        s.append("\n automatic_main_beam_present=");
        push_bool(s, self.automatic_main_beam_present);
        s.append("\n electric_child_security_presence present=");
        push_bool(s, self.electric_child_security_present);
        s.append("\n driver_alert_assist_present=");
        push_bool(s, self.driver_alert_assist_present);
        s.append("\n");
    }

    /// Return the length of a frame that will be emitted from this high-level representation.
    pub fn buffer_len(&self) -> (len: usize)
        ensures
            len == FRAME_LEN,
    {
        FRAME_LEN
    }

    /// Emit a high-level representation into a x361 CAN frame.
    pub fn emit(&self, frame: &mut Frame)
        requires
            FRAME_LEN <= old(frame)@.len(),
        ensures
            final(frame)@ == self.emit_bytes(old(frame)@),
    {
        self.emit_opt_0(frame);
        self.emit_opt_1(frame);
        self.emit_opt_2(frame);
        self.emit_opt_3(frame);
        self.emit_opt_4(frame);
        self.emit_opt_5(frame);
    }

    /// Write the fields that the byte at `field::OPT_0` carries.
    fn emit_opt_0(&self, frame: &mut Frame)
        requires
            field::OPT_0 < old(frame)@.len(),
        ensures
            final(frame)@ == old(frame)@.update(field::OPT_0 as int, self.opt_0_byte(old(frame)@[field::OPT_0 as int])),
    {
        frame.set_daytime_running_lamps_presence(self.daytime_running_lamps_present);
        frame.set_automatic_headlamps_presence(self.automatic_headlamps_present);
        frame.set_mood_lighting_presence(self.mood_lighting_present);
        frame.set_blind_spot_monitoring_presence(self.blind_spot_monitoring_present);
        frame.set_adaptive_lamps_presence(self.adaptive_lamps_present);
        frame.set_welcome_lighting_presence(self.welcome_lighting_present);
        frame.set_motorway_lighting_presence(self.motorway_lighting_present);
        frame.set_config_menu_information_availability(self.config_menu_info_available);
    }

    /// Write the fields that the byte at `field::OPT_1` carries.
    fn emit_opt_1(&self, frame: &mut Frame)
        requires
            field::OPT_1 < old(frame)@.len(),
        ensures
            final(frame)@ == old(frame)@.update(field::OPT_1 as int, self.opt_1_byte(old(frame)@[field::OPT_1 as int])),
    {
        frame.set_selective_unlocking_presence(self.selective_unlocking_present);
        frame.set_key_selective_unlocking_presence(self.key_selective_unlocking_present);
        frame.set_boot_selective_unlocking_presence(self.boot_selective_unlocking_present);
        frame.set_motorized_tailgate_presence(self.motorized_tailgate_present);
        frame.set_welcome_function_presence(self.welcome_function_present);
        frame.set_follow_me_home_presence(self.follow_me_home_present);
        frame.set_rear_wiper_in_reverse_gear_presence(self.rear_wiper_in_reverse_gear_present);
        frame.set_park_sensors_inhibition_presence(self.parking_sensors_inhibition_present);
    }

    /// Write the fields that the byte at `field::OPT_2` carries.
    fn emit_opt_2(&self, frame: &mut Frame)
        requires
            field::OPT_2 < old(frame)@.len(),
        ensures
            final(frame)@ == old(frame)@.update(field::OPT_2 as int, self.opt_2_byte(old(frame)@[field::OPT_2 as int])),
    {
        frame.set_extended_traffic_sign_recognition_presence(self.extended_traffic_sign_recognition_present);
        frame.set_mirror_tilt_in_reverse_presence(self.mirror_tilt_in_reverse_present);
        frame.set_sound_harmony_presence(self.sound_harmony_present);
        frame.set_auto_elec_parking_brake_application_presence(self.automatic_electric_parking_brake_application_present);
        frame.set_configurable_key_presence(self.configurable_key_present);
        frame.set_cruise_control_custom_limits_presence(self.cruise_control_custom_limits_present);
        frame.set_seat_belt_status_lamps_presence(self.seat_belt_status_lamps_present);
    }

    /// Write the fields that the byte at `field::OPT_3` carries.
    fn emit_opt_3(&self, frame: &mut Frame)
        requires
            field::OPT_3 < old(frame)@.len(),
        ensures
            final(frame)@ == old(frame)@.update(field::OPT_3 as int, self.opt_3_byte(old(frame)@[field::OPT_3 as int])),
    {
        frame.set_under_inflation_detection(self.under_inflation_detection);
        frame.set_gear_efficiency_indicator_presence(self.gear_efficiency_indicator_present);
        frame.set_cruise_control_custom_limits_menu_presence(self.cruise_control_custom_limits_menu_present);
        frame.set_collision_alert_sensibility_menu_presence(self.collision_alert_sensibility_menu_present);
        frame.set_automatic_emergency_braking_presence(self.automatic_emergency_braking_present);
        frame.set_under_inflation_detection_reset_menu_presence(self.under_inflation_detection_reset_menu_present);
    }

    /// Write the fields that the byte at `field::OPT_4` carries.
    fn emit_opt_4(&self, frame: &mut Frame)
        requires
            field::OPT_4 < old(frame)@.len(),
        ensures
            final(frame)@ == old(frame)@.update(field::OPT_4 as int, self.opt_4_byte(old(frame)@[field::OPT_4 as int])),
    {
        frame.set_hands_free_tailgate_auto_lock_menu_presence(self.hands_free_tailgate_auto_lock_menu_present);
        frame.set_hands_free_tailgate_presence(self.hands_free_tailgate_present);
        frame.set_speed_limit_recognition_presence(self.speed_limit_recognition_present);
        frame.set_radiator_grill_lamps_presence(self.radiator_grill_lamps_present);
        frame.set_cfc_presence(self.cfc_present);
    }

    /// Write the fields that the byte at `field::OPT_5` carries.
    fn emit_opt_5(&self, frame: &mut Frame)
        requires
            field::OPT_5 < old(frame)@.len(),
        ensures
            final(frame)@ == old(frame)@.update(field::OPT_5 as int, self.opt_5_byte(old(frame)@[field::OPT_5 as int])),
    {
        frame.set_auto_mirrors_folding_inhibit_presence(self.automatic_mirrors_folding_inhibit_present);
        frame.set_automatic_main_beam_presence(self.automatic_main_beam_present);
        frame.set_electric_child_security_presence(self.electric_child_security_present);
        frame.set_driver_alert_assist_presence(self.driver_alert_assist_present);
    }
}

impl Frame {
    /// Return the text of the frame: that of the representation that it
    /// carries, or the error that parsing it gives.
    pub fn to_text(&self) -> (s: String)
        ensures
            s@ == (match length_check(self@.len(), FRAME_LEN as nat) {
                Ok(_) => Repr::from_bytes(self@).text(),
                Err(e) => "x361 ("@ + e.text() + ")"@,
            }),
    {
        match Repr::parse(self) {
            Ok(repr) => repr.to_text(),
            Err(e) => {
                let mut s = String::from_str("x361 (");
                s.append(e.description());
                s.append(")");
                s
            },
        }
    }
}

/// The fields that the byte at `field::OPT_0` carries read back as they were written.
proof fn lemma_opt_0_parse_emit(repr: Repr, b: u8)
    requires
        repr.fits(),
    ensures
        flag(repr.opt_0_byte(b), 0) == repr.daytime_running_lamps_present,
        flag(repr.opt_0_byte(b), 1) == repr.automatic_headlamps_present,
        flag(repr.opt_0_byte(b), 2) == repr.mood_lighting_present,
        flag(repr.opt_0_byte(b), 3) == repr.blind_spot_monitoring_present,
        flag(repr.opt_0_byte(b), 4) == repr.adaptive_lamps_present,
        flag(repr.opt_0_byte(b), 5) == repr.welcome_lighting_present,
        flag(repr.opt_0_byte(b), 6) == repr.motorway_lighting_present,
        flag(repr.opt_0_byte(b), 7) == repr.config_menu_info_available,
{
    broadcast use group_frame_laws;

    lemma_low_mask_values();
}

/// Writing back the fields read from the byte at `field::OPT_0` leaves it unchanged.
proof fn lemma_opt_0_emit_parse(bytes: Seq<u8>)
    requires
        bytes.len() == FRAME_LEN,
    ensures
        Repr::from_bytes(bytes).opt_0_byte(bytes[field::OPT_0 as int]) == bytes[field::OPT_0 as int],
{
    reveal(Repr::from_bytes);
    broadcast use group_frame_laws;

    lemma_low_mask_values();
}

/// The fields that the byte at `field::OPT_1` carries read back as they were written.
proof fn lemma_opt_1_parse_emit(repr: Repr, b: u8)
    requires
        repr.fits(),
    ensures
        flag(repr.opt_1_byte(b), 0) == repr.selective_unlocking_present,
        flag(repr.opt_1_byte(b), 1) == repr.key_selective_unlocking_present,
        flag(repr.opt_1_byte(b), 2) == repr.boot_selective_unlocking_present,
        flag(repr.opt_1_byte(b), 3) == repr.motorized_tailgate_present,
        flag(repr.opt_1_byte(b), 4) == repr.welcome_function_present,
        flag(repr.opt_1_byte(b), 5) == repr.follow_me_home_present,
        flag(repr.opt_1_byte(b), 6) == repr.rear_wiper_in_reverse_gear_present,
        flag(repr.opt_1_byte(b), 7) == repr.parking_sensors_inhibition_present,
{
    broadcast use group_frame_laws;

    lemma_low_mask_values();
}

/// Writing back the fields read from the byte at `field::OPT_1` leaves it unchanged.
proof fn lemma_opt_1_emit_parse(bytes: Seq<u8>)
    requires
        bytes.len() == FRAME_LEN,
    ensures
        Repr::from_bytes(bytes).opt_1_byte(bytes[field::OPT_1 as int]) == bytes[field::OPT_1 as int],
{
    reveal(Repr::from_bytes);
    broadcast use group_frame_laws;

    lemma_low_mask_values();
}

/// The fields that the byte at `field::OPT_2` carries read back as they were written.
proof fn lemma_opt_2_parse_emit(repr: Repr, b: u8)
    requires
        repr.fits(),
    ensures
        flag(repr.opt_2_byte(b), 1) == repr.extended_traffic_sign_recognition_present,
        flag(repr.opt_2_byte(b), 2) == repr.mirror_tilt_in_reverse_present,
        flag(repr.opt_2_byte(b), 3) == repr.sound_harmony_present,
        flag(repr.opt_2_byte(b), 4) == repr.automatic_electric_parking_brake_application_present,
        flag(repr.opt_2_byte(b), 5) == repr.configurable_key_present,
        flag(repr.opt_2_byte(b), 6) == repr.cruise_control_custom_limits_present,
        flag(repr.opt_2_byte(b), 7) == repr.seat_belt_status_lamps_present,
{
    broadcast use group_frame_laws;

    lemma_low_mask_values();
}

/// Writing back the fields read from the byte at `field::OPT_2` leaves it unchanged.
proof fn lemma_opt_2_emit_parse(bytes: Seq<u8>)
    requires
        bytes.len() == FRAME_LEN,
    ensures
        Repr::from_bytes(bytes).opt_2_byte(bytes[field::OPT_2 as int]) == bytes[field::OPT_2 as int],
{
    reveal(Repr::from_bytes);
    broadcast use group_frame_laws;

    lemma_low_mask_values();
}

/// The fields that the byte at `field::OPT_3` carries read back as they were written.
proof fn lemma_opt_3_parse_emit(repr: Repr, b: u8)
    requires
        repr.fits(),
    ensures
        UnderInflationDetectionSystem::from_raw(bits(repr.opt_3_byte(b), 0, 3)) == repr.under_inflation_detection,
        flag(repr.opt_3_byte(b), 3) == repr.gear_efficiency_indicator_present,
        flag(repr.opt_3_byte(b), 4) == repr.cruise_control_custom_limits_menu_present,
        flag(repr.opt_3_byte(b), 5) == repr.collision_alert_sensibility_menu_present,
        flag(repr.opt_3_byte(b), 6) == repr.automatic_emergency_braking_present,
        flag(repr.opt_3_byte(b), 7) == repr.under_inflation_detection_reset_menu_present,
{
    broadcast use group_frame_laws;

    lemma_low_mask_values();
}

/// Writing back the fields read from the byte at `field::OPT_3` leaves it unchanged.
proof fn lemma_opt_3_emit_parse(bytes: Seq<u8>)
    requires
        bytes.len() == FRAME_LEN,
    ensures
        Repr::from_bytes(bytes).opt_3_byte(bytes[field::OPT_3 as int]) == bytes[field::OPT_3 as int],
{
    reveal(Repr::from_bytes);
    broadcast use group_frame_laws;

    lemma_low_mask_values();
}

/// The fields that the byte at `field::OPT_4` carries read back as they were written.
proof fn lemma_opt_4_parse_emit(repr: Repr, b: u8)
    requires
        repr.fits(),
    ensures
        flag(repr.opt_4_byte(b), 0) == repr.hands_free_tailgate_auto_lock_menu_present,
        flag(repr.opt_4_byte(b), 2) == repr.hands_free_tailgate_present,
        flag(repr.opt_4_byte(b), 3) == repr.speed_limit_recognition_present,
        flag(repr.opt_4_byte(b), 4) == repr.radiator_grill_lamps_present,
        flag(repr.opt_4_byte(b), 5) == repr.cfc_present,
{
    broadcast use group_frame_laws;

    lemma_low_mask_values();
}

/// Writing back the fields read from the byte at `field::OPT_4` leaves it unchanged.
proof fn lemma_opt_4_emit_parse(bytes: Seq<u8>)
    requires
        bytes.len() == FRAME_LEN,
    ensures
        Repr::from_bytes(bytes).opt_4_byte(bytes[field::OPT_4 as int]) == bytes[field::OPT_4 as int],
{
    reveal(Repr::from_bytes);
    broadcast use group_frame_laws;

    lemma_low_mask_values();
}

/// The fields that the byte at `field::OPT_5` carries read back as they were written.
proof fn lemma_opt_5_parse_emit(repr: Repr, b: u8)
    requires
        repr.fits(),
    ensures
        flag(repr.opt_5_byte(b), 0) == repr.automatic_mirrors_folding_inhibit_present,
        flag(repr.opt_5_byte(b), 5) == repr.automatic_main_beam_present,
        flag(repr.opt_5_byte(b), 6) == repr.electric_child_security_present,
        flag(repr.opt_5_byte(b), 7) == repr.driver_alert_assist_present,
{
    broadcast use group_frame_laws;

    lemma_low_mask_values();
}

/// Writing back the fields read from the byte at `field::OPT_5` leaves it unchanged.
proof fn lemma_opt_5_emit_parse(bytes: Seq<u8>)
    requires
        bytes.len() == FRAME_LEN,
    ensures
        Repr::from_bytes(bytes).opt_5_byte(bytes[field::OPT_5 as int]) == bytes[field::OPT_5 as int],
{
    reveal(Repr::from_bytes);
    broadcast use group_frame_laws;

    lemma_low_mask_values();
}

/// Emitting a representation whose fields fit into the bytes of a frame, then
/// parsing the bytes, gives the representation back.
pub proof fn lemma_parse_emit(repr: Repr, bytes: Seq<u8>)
    requires
        repr.fits(),
        bytes.len() == FRAME_LEN,
    ensures
        Repr::from_bytes(repr.emit_bytes(bytes)) == repr,
{
    let emitted = repr.emit_bytes(bytes);
    assert(emitted[field::OPT_0 as int] == repr.opt_0_byte(bytes[field::OPT_0 as int]));
    assert(emitted[field::OPT_1 as int] == repr.opt_1_byte(bytes[field::OPT_1 as int]));
    assert(emitted[field::OPT_2 as int] == repr.opt_2_byte(bytes[field::OPT_2 as int]));
    assert(emitted[field::OPT_3 as int] == repr.opt_3_byte(bytes[field::OPT_3 as int]));
    assert(emitted[field::OPT_4 as int] == repr.opt_4_byte(bytes[field::OPT_4 as int]));
    assert(emitted[field::OPT_5 as int] == repr.opt_5_byte(bytes[field::OPT_5 as int]));
    lemma_opt_0_parse_emit(repr, bytes[field::OPT_0 as int]);
    lemma_opt_1_parse_emit(repr, bytes[field::OPT_1 as int]);
    lemma_opt_2_parse_emit(repr, bytes[field::OPT_2 as int]);
    lemma_opt_3_parse_emit(repr, bytes[field::OPT_3 as int]);
    lemma_opt_4_parse_emit(repr, bytes[field::OPT_4 as int]);
    lemma_opt_5_parse_emit(repr, bytes[field::OPT_5 as int]);
    Repr::lemma_from_fields(repr, emitted);
}

/// Emitting the representation that the bytes of a frame carry leaves the
/// bytes unchanged.
pub proof fn lemma_emit_parse(bytes: Seq<u8>)
    requires
        bytes.len() == FRAME_LEN,
    ensures
        Repr::from_bytes(bytes).emit_bytes(bytes) == bytes,
{
    reveal(Repr::from_bytes);
    broadcast use group_frame_laws;

    lemma_low_mask_values();
    lemma_opt_0_emit_parse(bytes);
    lemma_opt_1_emit_parse(bytes);
    lemma_opt_2_emit_parse(bytes);
    lemma_opt_3_emit_parse(bytes);
    lemma_opt_4_emit_parse(bytes);
    lemma_opt_5_emit_parse(bytes);
}

/// Each field of a representation reads the bits of the frame that the
/// layout gives it: a word high byte first, a flag or a field through its
/// mask.
pub proof fn lemma_fields_from_bytes(bytes: Seq<u8>)
    requires
        bytes.len() == FRAME_LEN,
    ensures
        Repr::from_bytes(bytes).daytime_running_lamps_present == ((bytes[field::OPT_0 as int] & 0x01) != 0),
        Repr::from_bytes(bytes).automatic_headlamps_present == ((bytes[field::OPT_0 as int] & 0x02) != 0),
        Repr::from_bytes(bytes).mood_lighting_present == ((bytes[field::OPT_0 as int] & 0x04) != 0),
        Repr::from_bytes(bytes).blind_spot_monitoring_present == ((bytes[field::OPT_0 as int] & 0x08) != 0),
        Repr::from_bytes(bytes).adaptive_lamps_present == ((bytes[field::OPT_0 as int] & 0x10) != 0),
        Repr::from_bytes(bytes).welcome_lighting_present == ((bytes[field::OPT_0 as int] & 0x20) != 0),
        Repr::from_bytes(bytes).motorway_lighting_present == ((bytes[field::OPT_0 as int] & 0x40) != 0),
        Repr::from_bytes(bytes).config_menu_info_available == ((bytes[field::OPT_0 as int] & 0x80) != 0),
        Repr::from_bytes(bytes).selective_unlocking_present == ((bytes[field::OPT_1 as int] & 0x01) != 0),
        Repr::from_bytes(bytes).key_selective_unlocking_present == ((bytes[field::OPT_1 as int] & 0x02) != 0),
        Repr::from_bytes(bytes).boot_selective_unlocking_present == ((bytes[field::OPT_1 as int] & 0x04) != 0),
        Repr::from_bytes(bytes).motorized_tailgate_present == ((bytes[field::OPT_1 as int] & 0x08) != 0),
        Repr::from_bytes(bytes).welcome_function_present == ((bytes[field::OPT_1 as int] & 0x10) != 0),
        Repr::from_bytes(bytes).follow_me_home_present == ((bytes[field::OPT_1 as int] & 0x20) != 0),
        Repr::from_bytes(bytes).rear_wiper_in_reverse_gear_present == ((bytes[field::OPT_1 as int] & 0x40) != 0),
        Repr::from_bytes(bytes).parking_sensors_inhibition_present == ((bytes[field::OPT_1 as int] & 0x80) != 0),
        Repr::from_bytes(bytes).extended_traffic_sign_recognition_present == ((bytes[field::OPT_2 as int] & 0x02) != 0),
        Repr::from_bytes(bytes).mirror_tilt_in_reverse_present == ((bytes[field::OPT_2 as int] & 0x04) != 0),
        Repr::from_bytes(bytes).sound_harmony_present == ((bytes[field::OPT_2 as int] & 0x08) != 0),
        Repr::from_bytes(bytes).automatic_electric_parking_brake_application_present == ((bytes[field::OPT_2 as int] & 0x10) != 0),
        Repr::from_bytes(bytes).configurable_key_present == ((bytes[field::OPT_2 as int] & 0x20) != 0),
        Repr::from_bytes(bytes).cruise_control_custom_limits_present == ((bytes[field::OPT_2 as int] & 0x40) != 0),
        Repr::from_bytes(bytes).seat_belt_status_lamps_present == ((bytes[field::OPT_2 as int] & 0x80) != 0),
        Repr::from_bytes(bytes).under_inflation_detection == UnderInflationDetectionSystem::from_raw(bytes[field::OPT_3 as int] & 0x07),
        Repr::from_bytes(bytes).gear_efficiency_indicator_present == ((bytes[field::OPT_3 as int] & 0x08) != 0),
        Repr::from_bytes(bytes).cruise_control_custom_limits_menu_present == ((bytes[field::OPT_3 as int] & 0x10) != 0),
        Repr::from_bytes(bytes).collision_alert_sensibility_menu_present == ((bytes[field::OPT_3 as int] & 0x20) != 0),
        Repr::from_bytes(bytes).automatic_emergency_braking_present == ((bytes[field::OPT_3 as int] & 0x40) != 0),
        Repr::from_bytes(bytes).under_inflation_detection_reset_menu_present == ((bytes[field::OPT_3 as int] & 0x80) != 0),
        Repr::from_bytes(bytes).hands_free_tailgate_auto_lock_menu_present == ((bytes[field::OPT_4 as int] & 0x01) != 0),
        Repr::from_bytes(bytes).hands_free_tailgate_present == ((bytes[field::OPT_4 as int] & 0x04) != 0),
        Repr::from_bytes(bytes).speed_limit_recognition_present == ((bytes[field::OPT_4 as int] & 0x08) != 0),
        Repr::from_bytes(bytes).radiator_grill_lamps_present == ((bytes[field::OPT_4 as int] & 0x10) != 0),
        Repr::from_bytes(bytes).cfc_present == ((bytes[field::OPT_4 as int] & 0x20) != 0),
        Repr::from_bytes(bytes).automatic_mirrors_folding_inhibit_present == ((bytes[field::OPT_5 as int] & 0x01) != 0),
        Repr::from_bytes(bytes).automatic_main_beam_present == ((bytes[field::OPT_5 as int] & 0x20) != 0),
        Repr::from_bytes(bytes).electric_child_security_present == ((bytes[field::OPT_5 as int] & 0x40) != 0),
        Repr::from_bytes(bytes).driver_alert_assist_present == ((bytes[field::OPT_5 as int] & 0x80) != 0),
{
    reveal(Repr::from_bytes);
    lemma_low_mask_values();
    lemma_bits_low_formula(bytes[field::OPT_3 as int], 3);
    lemma_flag_masks(bytes[field::OPT_0 as int]);
    lemma_flag_masks(bytes[field::OPT_1 as int]);
    lemma_flag_masks(bytes[field::OPT_2 as int]);
    lemma_flag_masks(bytes[field::OPT_3 as int]);
    lemma_flag_masks(bytes[field::OPT_4 as int]);
    lemma_flag_masks(bytes[field::OPT_5 as int]);
}

/// Every representation that the bytes of a frame carry fits in the frame,
/// so that it can be emitted back.
pub proof fn lemma_parsed_fits(bytes: Seq<u8>)
    requires
        bytes.len() == FRAME_LEN,
    ensures
        Repr::from_bytes(bytes).fits(),
{
    reveal(Repr::from_bytes);
    broadcast use group_frame_laws;

    lemma_low_mask_values();
}

/// The text of a representation shows each field after its name and before
/// the name of the next field, so the fields stand in their order.
pub proof fn lemma_text_shows_fields(repr: Repr)
    ensures
        occurs("x361 daytime_running_lamps_present="@ + bool_text(repr.daytime_running_lamps_present) + "\n automatic_headlamps_present="@, repr.text()),
        occurs("\n automatic_headlamps_present="@ + bool_text(repr.automatic_headlamps_present) + "\n mood_lighting_present="@, repr.text()),
        occurs("\n mood_lighting_present="@ + bool_text(repr.mood_lighting_present) + "\n blind_spot_monitoring_present="@, repr.text()),
        occurs("\n blind_spot_monitoring_present="@ + bool_text(repr.blind_spot_monitoring_present) + "\n adaptive_lamps_present="@, repr.text()),
        occurs("\n adaptive_lamps_present="@ + bool_text(repr.adaptive_lamps_present) + "\n welcome_lighting_present="@, repr.text()),
        occurs("\n welcome_lighting_present="@ + bool_text(repr.welcome_lighting_present) + "\n motorway_lighting_present="@, repr.text()),
        occurs("\n motorway_lighting_present="@ + bool_text(repr.motorway_lighting_present) + "\n config_menu_info_available="@, repr.text()),
        occurs("\n config_menu_info_available="@ + bool_text(repr.config_menu_info_available) + "\n selective_unlocking_present="@, repr.text()),
        occurs("\n selective_unlocking_present="@ + bool_text(repr.selective_unlocking_present) + "\n key_selective_unlocking_present="@, repr.text()),
        occurs("\n key_selective_unlocking_present="@ + bool_text(repr.key_selective_unlocking_present) + "\n boot_selective_unlocking_present="@, repr.text()),
        occurs("\n boot_selective_unlocking_present="@ + bool_text(repr.boot_selective_unlocking_present) + "\n motorized_tailgate_present="@, repr.text()),
        occurs("\n motorized_tailgate_present="@ + bool_text(repr.motorized_tailgate_present) + "\n welcome_function_present="@, repr.text()),
        occurs("\n welcome_function_present="@ + bool_text(repr.welcome_function_present) + "\n follow_me_home_present="@, repr.text()),
        occurs("\n follow_me_home_present="@ + bool_text(repr.follow_me_home_present) + "\n rear_wiper_in_reverse_gear_present="@, repr.text()),
        occurs("\n rear_wiper_in_reverse_gear_present="@ + bool_text(repr.rear_wiper_in_reverse_gear_present) + "\n parking_sensors_inhibition_present="@, repr.text()),
        occurs("\n parking_sensors_inhibition_present="@ + bool_text(repr.parking_sensors_inhibition_present) + "\n extended_traffic_sign_recognition_present="@, repr.text()),
        occurs("\n extended_traffic_sign_recognition_present="@ + bool_text(repr.extended_traffic_sign_recognition_present) + "\n mirror_tilt_in_reverse_present="@, repr.text()),
        occurs("\n mirror_tilt_in_reverse_present="@ + bool_text(repr.mirror_tilt_in_reverse_present) + "\n sound_harmony_present="@, repr.text()),
        occurs("\n sound_harmony_present="@ + bool_text(repr.sound_harmony_present) + "\n automatic_electric_parking_brake_application_present="@, repr.text()),
        occurs("\n automatic_electric_parking_brake_application_present="@ + bool_text(repr.automatic_electric_parking_brake_application_present) + "\n configurable_key_present="@, repr.text()),
        occurs("\n configurable_key_present="@ + bool_text(repr.configurable_key_present) + "\ncruise_control_custom_limits_present="@, repr.text()),
        occurs("\ncruise_control_custom_limits_present="@ + bool_text(repr.cruise_control_custom_limits_present) + "\n seat_belt_status_lamps_present="@, repr.text()),
        occurs("\n seat_belt_status_lamps_present="@ + bool_text(repr.seat_belt_status_lamps_present) + "\n under_inflation_detection="@, repr.text()),
        occurs("\n under_inflation_detection="@ + repr.under_inflation_detection.text() + "\n gear_efficiency_indicator_present="@, repr.text()),
        occurs("\n gear_efficiency_indicator_present="@ + bool_text(repr.gear_efficiency_indicator_present) + "\n cruise_control_custom_limits_menu_present="@, repr.text()),
        occurs("\n cruise_control_custom_limits_menu_present="@ + bool_text(repr.cruise_control_custom_limits_menu_present) + "\n collision_alert_sensibility_menu_present="@, repr.text()),
        occurs("\n collision_alert_sensibility_menu_present="@ + bool_text(repr.collision_alert_sensibility_menu_present) + "\n automatic_emergency_braking_present="@, repr.text()),
        occurs("\n automatic_emergency_braking_present="@ + bool_text(repr.automatic_emergency_braking_present) + "\n under_inflation_detection_reset_menu_present="@, repr.text()),
        occurs("\n under_inflation_detection_reset_menu_present="@ + bool_text(repr.under_inflation_detection_reset_menu_present) + "\n hands_free_tailgate_auto_lock_menu_present="@, repr.text()),
        occurs("\n hands_free_tailgate_auto_lock_menu_present="@ + bool_text(repr.hands_free_tailgate_auto_lock_menu_present) + "\n hands_free_tailgate_present="@, repr.text()),
        occurs("\n hands_free_tailgate_present="@ + bool_text(repr.hands_free_tailgate_present) + "\n speed_limit_recognition_present="@, repr.text()),
        occurs("\n speed_limit_recognition_present="@ + bool_text(repr.speed_limit_recognition_present) + "\n radiator_grill_lamps_present="@, repr.text()),
        occurs("\n radiator_grill_lamps_present="@ + bool_text(repr.radiator_grill_lamps_present) + "\n 'CFC' present="@, repr.text()),
        occurs("\n 'CFC' present="@ + bool_text(repr.cfc_present) + "\n automatic_mirrors_folding_inhibit_present="@, repr.text()),
        occurs("\n automatic_mirrors_folding_inhibit_present="@ + bool_text(repr.automatic_mirrors_folding_inhibit_present) + "\n automatic_main_beam_present="@, repr.text()),
        occurs("\n automatic_main_beam_present="@ + bool_text(repr.automatic_main_beam_present) + "\n electric_child_security_presence present="@, repr.text()),
        occurs("\n electric_child_security_presence present="@ + bool_text(repr.electric_child_security_present) + "\n driver_alert_assist_present="@, repr.text()),
        occurs("\n driver_alert_assist_present="@ + bool_text(repr.driver_alert_assist_present) + "\n"@, repr.text()),
{
    lemma_text_part_0_shows_fields(repr);
    lemma_text_part_1_shows_fields(repr);
    lemma_text_prefix_0_grows(repr);
    lemma_text_part_2_shows_fields(repr);
    lemma_text_prefix_1_grows(repr);
    lemma_text_part_3_shows_fields(repr);
    lemma_text_prefix_2_grows(repr);
    lemma_text_part_4_shows_fields(repr);
    lemma_text_prefix_3_grows(repr);
    lemma_text_part_5_shows_fields(repr);
    lemma_text_prefix_4_grows(repr);
    lemma_text_part_6_shows_fields(repr);
    lemma_text_prefix_5_grows(repr);
    lemma_text_part_7_shows_fields(repr);
    lemma_text_prefix_6_grows(repr);
}

/// Part 0 of the text of a representation shows each of its fields after
/// its name and before the name of the next field.
proof fn lemma_text_part_0_shows_fields(repr: Repr)
    ensures
        occurs("x361 daytime_running_lamps_present="@ + bool_text(repr.daytime_running_lamps_present) + "\n automatic_headlamps_present="@, repr.text_prefix_0()),
        occurs("\n automatic_headlamps_present="@ + bool_text(repr.automatic_headlamps_present) + "\n mood_lighting_present="@, repr.text_prefix_0()),
        occurs("\n mood_lighting_present="@ + bool_text(repr.mood_lighting_present) + "\n blind_spot_monitoring_present="@, repr.text_prefix_0()),
        occurs("\n blind_spot_monitoring_present="@ + bool_text(repr.blind_spot_monitoring_present) + "\n adaptive_lamps_present="@, repr.text_prefix_0()),
{
    reveal(Repr::text_prefix_0);
    broadcast use group_occurs;

}

/// Part 1 of the text of a representation shows each of its fields after
/// its name and before the name of the next field.
proof fn lemma_text_part_1_shows_fields(repr: Repr)
    ensures
        occurs("\n adaptive_lamps_present="@ + bool_text(repr.adaptive_lamps_present) + "\n welcome_lighting_present="@, repr.text_prefix_1()),
        occurs("\n welcome_lighting_present="@ + bool_text(repr.welcome_lighting_present) + "\n motorway_lighting_present="@, repr.text_prefix_1()),
        occurs("\n motorway_lighting_present="@ + bool_text(repr.motorway_lighting_present) + "\n config_menu_info_available="@, repr.text_prefix_1()),
        occurs("\n config_menu_info_available="@ + bool_text(repr.config_menu_info_available) + "\n selective_unlocking_present="@, repr.text_prefix_1()),
        occurs("\n selective_unlocking_present="@ + bool_text(repr.selective_unlocking_present) + "\n key_selective_unlocking_present="@, repr.text_prefix_1()),
{
    reveal(Repr::text_prefix_0);
    reveal(Repr::text_prefix_1);
    broadcast use group_occurs;

}

/// What occurs in the text of a representation up to part 0 occurs in its
/// text up to part 1.
proof fn lemma_text_prefix_0_grows(repr: Repr)
    ensures
        forall|t: Seq<char>| occurs(t, repr.text_prefix_0()) ==> #[trigger] occurs(t, repr.text_prefix_1()),
{
    reveal(Repr::text_prefix_1);
    broadcast use group_occurs;

}

/// Part 2 of the text of a representation shows each of its fields after
/// its name and before the name of the next field.
proof fn lemma_text_part_2_shows_fields(repr: Repr)
    ensures
        occurs("\n key_selective_unlocking_present="@ + bool_text(repr.key_selective_unlocking_present) + "\n boot_selective_unlocking_present="@, repr.text_prefix_2()),
        occurs("\n boot_selective_unlocking_present="@ + bool_text(repr.boot_selective_unlocking_present) + "\n motorized_tailgate_present="@, repr.text_prefix_2()),
        occurs("\n motorized_tailgate_present="@ + bool_text(repr.motorized_tailgate_present) + "\n welcome_function_present="@, repr.text_prefix_2()),
        occurs("\n welcome_function_present="@ + bool_text(repr.welcome_function_present) + "\n follow_me_home_present="@, repr.text_prefix_2()),
        occurs("\n follow_me_home_present="@ + bool_text(repr.follow_me_home_present) + "\n rear_wiper_in_reverse_gear_present="@, repr.text_prefix_2()),
{
    reveal(Repr::text_prefix_1);
    reveal(Repr::text_prefix_2);
    broadcast use group_occurs;

}

/// What occurs in the text of a representation up to part 1 occurs in its
/// text up to part 2.
proof fn lemma_text_prefix_1_grows(repr: Repr)
    ensures
        forall|t: Seq<char>| occurs(t, repr.text_prefix_1()) ==> #[trigger] occurs(t, repr.text_prefix_2()),
{
    reveal(Repr::text_prefix_2);
    broadcast use group_occurs;

}

/// Part 3 of the text of a representation shows each of its fields after
/// its name and before the name of the next field.
proof fn lemma_text_part_3_shows_fields(repr: Repr)
    ensures
        occurs("\n rear_wiper_in_reverse_gear_present="@ + bool_text(repr.rear_wiper_in_reverse_gear_present) + "\n parking_sensors_inhibition_present="@, repr.text_prefix_3()),
        occurs("\n parking_sensors_inhibition_present="@ + bool_text(repr.parking_sensors_inhibition_present) + "\n extended_traffic_sign_recognition_present="@, repr.text_prefix_3()),
        occurs("\n extended_traffic_sign_recognition_present="@ + bool_text(repr.extended_traffic_sign_recognition_present) + "\n mirror_tilt_in_reverse_present="@, repr.text_prefix_3()),
        occurs("\n mirror_tilt_in_reverse_present="@ + bool_text(repr.mirror_tilt_in_reverse_present) + "\n sound_harmony_present="@, repr.text_prefix_3()),
        occurs("\n sound_harmony_present="@ + bool_text(repr.sound_harmony_present) + "\n automatic_electric_parking_brake_application_present="@, repr.text_prefix_3()),
{
    reveal(Repr::text_prefix_2);
    reveal(Repr::text_prefix_3);
    broadcast use group_occurs;

}

/// What occurs in the text of a representation up to part 2 occurs in its
/// text up to part 3.
proof fn lemma_text_prefix_2_grows(repr: Repr)
    ensures
        forall|t: Seq<char>| occurs(t, repr.text_prefix_2()) ==> #[trigger] occurs(t, repr.text_prefix_3()),
{
    reveal(Repr::text_prefix_3);
    broadcast use group_occurs;

}

/// Part 4 of the text of a representation shows each of its fields after
/// its name and before the name of the next field.
proof fn lemma_text_part_4_shows_fields(repr: Repr)
    ensures
        occurs("\n automatic_electric_parking_brake_application_present="@ + bool_text(repr.automatic_electric_parking_brake_application_present) + "\n configurable_key_present="@, repr.text_prefix_4()),
        occurs("\n configurable_key_present="@ + bool_text(repr.configurable_key_present) + "\ncruise_control_custom_limits_present="@, repr.text_prefix_4()),
        occurs("\ncruise_control_custom_limits_present="@ + bool_text(repr.cruise_control_custom_limits_present) + "\n seat_belt_status_lamps_present="@, repr.text_prefix_4()),
        occurs("\n seat_belt_status_lamps_present="@ + bool_text(repr.seat_belt_status_lamps_present) + "\n under_inflation_detection="@, repr.text_prefix_4()),
        occurs("\n under_inflation_detection="@ + repr.under_inflation_detection.text() + "\n gear_efficiency_indicator_present="@, repr.text_prefix_4()),
{
    reveal(Repr::text_prefix_3);
    reveal(Repr::text_prefix_4);
    broadcast use group_occurs;

}

/// What occurs in the text of a representation up to part 3 occurs in its
/// text up to part 4.
proof fn lemma_text_prefix_3_grows(repr: Repr)
    ensures
        forall|t: Seq<char>| occurs(t, repr.text_prefix_3()) ==> #[trigger] occurs(t, repr.text_prefix_4()),
{
    reveal(Repr::text_prefix_4);
    broadcast use group_occurs;

}

/// Part 5 of the text of a representation shows each of its fields after
/// its name and before the name of the next field.
proof fn lemma_text_part_5_shows_fields(repr: Repr)
    ensures
        occurs("\n gear_efficiency_indicator_present="@ + bool_text(repr.gear_efficiency_indicator_present) + "\n cruise_control_custom_limits_menu_present="@, repr.text_prefix_5()),
        occurs("\n cruise_control_custom_limits_menu_present="@ + bool_text(repr.cruise_control_custom_limits_menu_present) + "\n collision_alert_sensibility_menu_present="@, repr.text_prefix_5()),
        occurs("\n collision_alert_sensibility_menu_present="@ + bool_text(repr.collision_alert_sensibility_menu_present) + "\n automatic_emergency_braking_present="@, repr.text_prefix_5()),
        occurs("\n automatic_emergency_braking_present="@ + bool_text(repr.automatic_emergency_braking_present) + "\n under_inflation_detection_reset_menu_present="@, repr.text_prefix_5()),
        occurs("\n under_inflation_detection_reset_menu_present="@ + bool_text(repr.under_inflation_detection_reset_menu_present) + "\n hands_free_tailgate_auto_lock_menu_present="@, repr.text_prefix_5()),
{
    reveal(Repr::text_prefix_4);
    reveal(Repr::text_prefix_5);
    broadcast use group_occurs;

}

/// What occurs in the text of a representation up to part 4 occurs in its
/// text up to part 5.
proof fn lemma_text_prefix_4_grows(repr: Repr)
    ensures
        forall|t: Seq<char>| occurs(t, repr.text_prefix_4()) ==> #[trigger] occurs(t, repr.text_prefix_5()),
{
    reveal(Repr::text_prefix_5);
    broadcast use group_occurs;

}

/// Part 6 of the text of a representation shows each of its fields after
/// its name and before the name of the next field.
proof fn lemma_text_part_6_shows_fields(repr: Repr)
    ensures
        occurs("\n hands_free_tailgate_auto_lock_menu_present="@ + bool_text(repr.hands_free_tailgate_auto_lock_menu_present) + "\n hands_free_tailgate_present="@, repr.text_prefix_6()),
        occurs("\n hands_free_tailgate_present="@ + bool_text(repr.hands_free_tailgate_present) + "\n speed_limit_recognition_present="@, repr.text_prefix_6()),
        occurs("\n speed_limit_recognition_present="@ + bool_text(repr.speed_limit_recognition_present) + "\n radiator_grill_lamps_present="@, repr.text_prefix_6()),
        occurs("\n radiator_grill_lamps_present="@ + bool_text(repr.radiator_grill_lamps_present) + "\n 'CFC' present="@, repr.text_prefix_6()),
        occurs("\n 'CFC' present="@ + bool_text(repr.cfc_present) + "\n automatic_mirrors_folding_inhibit_present="@, repr.text_prefix_6()),
{
    reveal(Repr::text_prefix_5);
    reveal(Repr::text_prefix_6);
    broadcast use group_occurs;

}

/// What occurs in the text of a representation up to part 5 occurs in its
/// text up to part 6.
proof fn lemma_text_prefix_5_grows(repr: Repr)
    ensures
        forall|t: Seq<char>| occurs(t, repr.text_prefix_5()) ==> #[trigger] occurs(t, repr.text_prefix_6()),
{
    reveal(Repr::text_prefix_6);
    broadcast use group_occurs;

}

/// Part 7 of the text of a representation shows each of its fields after
/// its name and before the name of the next field.
proof fn lemma_text_part_7_shows_fields(repr: Repr)
    ensures
        occurs("\n automatic_mirrors_folding_inhibit_present="@ + bool_text(repr.automatic_mirrors_folding_inhibit_present) + "\n automatic_main_beam_present="@, repr.text_prefix_7()),
        occurs("\n automatic_main_beam_present="@ + bool_text(repr.automatic_main_beam_present) + "\n electric_child_security_presence present="@, repr.text_prefix_7()),
        occurs("\n electric_child_security_presence present="@ + bool_text(repr.electric_child_security_present) + "\n driver_alert_assist_present="@, repr.text_prefix_7()),
        occurs("\n driver_alert_assist_present="@ + bool_text(repr.driver_alert_assist_present) + "\n"@, repr.text_prefix_7()),
{
    reveal(Repr::text_prefix_6);
    reveal(Repr::text_prefix_7);
    broadcast use group_occurs;

}

/// What occurs in the text of a representation up to part 6 occurs in its
/// text up to part 7.
proof fn lemma_text_prefix_6_grows(repr: Repr)
    ensures
        forall|t: Seq<char>| occurs(t, repr.text_prefix_6()) ==> #[trigger] occurs(t, repr.text_prefix_7()),
{
    reveal(Repr::text_prefix_7);
    broadcast use group_occurs;

}

} // verus!
