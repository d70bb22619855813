//! The x15b CAN frame: user profile settings written by the display (AEE2004 layout).
use crate::bitfield::{bits, flag, lemma_bits_formula, lemma_bits_low_formula, lemma_flag_masks, lemma_low_mask_values, put_bits, put_flag, read_bits, read_flag, write_bits, write_flag};
use crate::config::CollisionAlertSensibilityLevel;
use crate::config::ConfigurableKeyAction2010;
use crate::config::ConsumptionUnit;
use crate::config::DistanceUnit;
use crate::config::Language;
use crate::config::LightingDuration;
use crate::config::MoodLightingLevel;
use crate::config::SoundHarmony;
use crate::config::TemperatureUnit;
use crate::config::VolumeUnit;
use crate::{check_frame_len, group_frame_laws, length_check, Error};
use crate::text::{bool_text, group_occurs, occurs, push_bool};
use vstd::prelude::*;

pub mod field;

verus! {

/// A read/write wrapper around a x15b CAN frame buffer.
#[derive(Debug, PartialEq, Clone)]
pub struct Frame {
    buffer: Vec<u8>,
}

impl View for Frame {
    type V = Seq<u8>;

    closed spec fn view(&self) -> Seq<u8> {
        self.buffer@
    }
}

impl AsRef<[u8]> for Frame {
    /// The bytes of the frame.
    fn as_ref(&self) -> (bytes: &[u8])
        ensures
            bytes@ == self@,
    {
        self.buffer.as_slice()
    }
}

/// Length of a x15b CAN frame.
pub const FRAME_LEN: usize = field::OPT_7 + 1;

impl Frame {
    /// Create a raw octet buffer with a CAN frame structure.
    pub fn new_unchecked(buffer: Vec<u8>) -> (frame: Frame)
        ensures
            frame@ == buffer@,
    {
        Frame { buffer }
    }

    /// Shorthand for a combination of `new_unchecked` and `check_len`.
    pub fn new_checked(buffer: Vec<u8>) -> (r: Result<Frame, Error>)
        ensures
            r is Ok <==> buffer@.len() == FRAME_LEN,
            r matches Ok(frame) ==> frame@ == buffer@,
            r matches Err(e) ==> length_check(buffer@.len(), FRAME_LEN as nat) == Err::<(), Error>(e),
    {
        let frame = Self::new_unchecked(buffer);
        match frame.check_len() {
            Ok(()) => Ok(frame),
            Err(e) => Err(e),
        }
    }

    /// Ensure that no accessor method will panic if called.
    /// Returns `Err(Error::Truncated)` if the buffer is too short and
    /// `Err(Error::Overlong)` if it is too long.
    pub fn check_len(&self) -> (r: Result<(), Error>)
        ensures
            r == length_check(self@.len(), FRAME_LEN as nat),
    {
        check_frame_len(self.buffer.len(), FRAME_LEN)
    }

    /// Consume the frame, returning the underlying buffer.
    pub fn into_inner(self) -> (buffer: Vec<u8>)
        ensures
            buffer@ == self@,
    {
        self.buffer
    }

    /// Return the frame length.
    pub fn frame_len(&self) -> (len: usize)
        ensures
            len == FRAME_LEN,
    {
        FRAME_LEN
    }

    /// Return the consumption unit field.
    pub fn consumption_unit(&self) -> (value: ConsumptionUnit)
        requires
            field::OPT_0 < self@.len(),
        ensures
            value == ConsumptionUnit::from_raw(bits(self@[field::OPT_0 as int], 0, 1)),
    {
        ConsumptionUnit::from(read_bits(self.buffer[field::OPT_0], 0, 1))
    }

    /// Return the distance unit field.
    pub fn distance_unit(&self) -> (value: DistanceUnit)
        requires
            field::OPT_0 < self@.len(),
        ensures
            value == DistanceUnit::from_raw(bits(self@[field::OPT_0 as int], 1, 1)),
    {
        DistanceUnit::from(read_bits(self.buffer[field::OPT_0], 1, 1))
    }

    /// Return the language field.
    pub fn language(&self) -> (value: Language)
        requires
            field::OPT_0 < self@.len(),
        ensures
            value == Language::from_raw(bits(self@[field::OPT_0 as int], 2, 5)),
    {
        Language::from(read_bits(self.buffer[field::OPT_0], 2, 5))
    }

    /// Return the units and language parameters validity flag.
    pub fn units_language_parameters_validity(&self) -> (value: bool)
        requires
            field::OPT_0 < self@.len(),
        ensures
            value == flag(self@[field::OPT_0 as int], 7),
    {
        read_flag(self.buffer[field::OPT_0], 7)
    }

    /// Return the sound harmony field.
    pub fn sound_harmony(&self) -> (value: SoundHarmony)
        requires
            field::OPT_1 < self@.len(),
        ensures
            value == SoundHarmony::from_raw(bits(self@[field::OPT_1 as int], 0, 2)),
    {
        SoundHarmony::from(read_bits(self.buffer[field::OPT_1], 0, 2))
    }

    /// Return the parameters validity flag.
    pub fn parameters_validity(&self) -> (value: bool)
        requires
            field::OPT_1 < self@.len(),
        ensures
            value == flag(self@[field::OPT_1 as int], 2),
    {
        read_flag(self.buffer[field::OPT_1], 2)
    }

    /// Return the mood lighting level field.
    pub fn mood_lighting_level(&self) -> (value: MoodLightingLevel)
        requires
            field::OPT_1 < self@.len(),
        ensures
            value == MoodLightingLevel::from_raw(bits(self@[field::OPT_1 as int], 3, 3)),
    {
        MoodLightingLevel::from(read_bits(self.buffer[field::OPT_1], 3, 3))
    }

    /// Return the temperature unit field.
    pub fn temperature_unit(&self) -> (value: TemperatureUnit)
        requires
            field::OPT_1 < self@.len(),
        ensures
            value == TemperatureUnit::from_raw(bits(self@[field::OPT_1 as int], 6, 1)),
    {
        TemperatureUnit::from(read_bits(self.buffer[field::OPT_1], 6, 1))
    }

    /// Return the volume unit field.
    pub fn volume_unit(&self) -> (value: VolumeUnit)
        requires
            field::OPT_1 < self@.len(),
        ensures
            value == VolumeUnit::from_raw(bits(self@[field::OPT_1 as int], 7, 1)),
    {
        VolumeUnit::from(read_bits(self.buffer[field::OPT_1], 7, 1))
    }

    /// Return the mood lighting enable flag.
    pub fn mood_lighting_enable(&self) -> (value: bool)
        requires
            field::OPT_2 < self@.len(),
        ensures
            value == flag(self@[field::OPT_2 as int], 0),
    {
        read_flag(self.buffer[field::OPT_2], 0)
    }

    /// Return the daytime running lamps enable flag.
    pub fn daytime_running_lamps_enable(&self) -> (value: bool)
        requires
            field::OPT_2 < self@.len(),
        ensures
            value == flag(self@[field::OPT_2 as int], 1),
    {
        read_flag(self.buffer[field::OPT_2], 1)
    }

    /// Return the adaptive lamps enable flag.
    pub fn adaptive_lamps_enable(&self) -> (value: bool)
        requires
            field::OPT_2 < self@.len(),
        ensures
            value == flag(self@[field::OPT_2 as int], 2),
    {
        read_flag(self.buffer[field::OPT_2], 2)
    }

    /// Return the welcome function enable flag.
    pub fn welcome_function_enable(&self) -> (value: bool)
        requires
            field::OPT_2 < self@.len(),
        ensures
            value == flag(self@[field::OPT_2 as int], 3),
    {
        read_flag(self.buffer[field::OPT_2], 3)
    }

    /// Return the boot selective unlocking enable flag.
    pub fn boot_selective_unlocking_enable(&self) -> (value: bool)
        requires
            field::OPT_2 < self@.len(),
        ensures
            value == flag(self@[field::OPT_2 as int], 4),
    {
        read_flag(self.buffer[field::OPT_2], 4)
    }

    /// Return the selective unlocking enable flag.
    pub fn selective_unlocking_enable(&self) -> (value: bool)
        requires
            field::OPT_2 < self@.len(),
        ensures
            value == flag(self@[field::OPT_2 as int], 5),
    {
        read_flag(self.buffer[field::OPT_2], 5)
    }

    /// Return the key selective unlocking enable flag.
    pub fn key_selective_unlocking_enable(&self) -> (value: bool)
        requires
            field::OPT_2 < self@.len(),
        ensures
            value == flag(self@[field::OPT_2 as int], 6),
    {
        read_flag(self.buffer[field::OPT_2], 6)
    }

    /// Return the automatic electrical parking brake application enable flag.
    pub fn auto_elec_parking_brake_application_enable(&self) -> (value: bool)
        requires
            field::OPT_2 < self@.len(),
        ensures
            value == flag(self@[field::OPT_2 as int], 7),
    {
        read_flag(self.buffer[field::OPT_2], 7)
    }

    /// Return the automatic headlamps enable flag.
    pub fn automatic_headlamps_enable(&self) -> (value: bool)
        requires
            field::OPT_3 < self@.len(),
        ensures
            value == flag(self@[field::OPT_3 as int], 0),
    {
        read_flag(self.buffer[field::OPT_3], 0)
    }

    /// Return the welcome lighting duration field.
    pub fn welcome_lighting_duration(&self) -> (value: LightingDuration)
        requires
            field::OPT_3 < self@.len(),
        ensures
            value == LightingDuration::from_raw(bits(self@[field::OPT_3 as int], 1, 2)),
    {
        LightingDuration::from(read_bits(self.buffer[field::OPT_3], 1, 2))
    }

    /// Return the welcome lighting enable flag.
    pub fn welcome_lighting_enable(&self) -> (value: bool)
        requires
            field::OPT_3 < self@.len(),
        ensures
            value == flag(self@[field::OPT_3 as int], 3),
    {
        read_flag(self.buffer[field::OPT_3], 3)
    }

    /// Return the motorway lighting enable flag.
    pub fn motorway_lighting_enable(&self) -> (value: bool)
        requires
            field::OPT_3 < self@.len(),
        ensures
            value == flag(self@[field::OPT_3 as int], 4),
    {
        read_flag(self.buffer[field::OPT_3], 4)
    }

    /// Return the follow-me-home lighting duration field.
    pub fn follow_me_home_lighting_duration(&self) -> (value: LightingDuration)
        requires
            field::OPT_3 < self@.len(),
        ensures
            value == LightingDuration::from_raw(bits(self@[field::OPT_3 as int], 5, 2)),
    {
        LightingDuration::from(read_bits(self.buffer[field::OPT_3], 5, 2))
    }

    /// Return the follow-me-home enable flag.
    pub fn follow_me_home_enable(&self) -> (value: bool)
        requires
            field::OPT_3 < self@.len(),
        ensures
            value == flag(self@[field::OPT_3 as int], 7),
    {
        read_flag(self.buffer[field::OPT_3], 7)
    }

    /// Return the configurable button/key mode field.
    pub fn configurable_key_mode(&self) -> (value: ConfigurableKeyAction2010)
        requires
            field::OPT_4 < self@.len(),
        ensures
            value == ConfigurableKeyAction2010::from_raw(bits(self@[field::OPT_4 as int], 0, 4)),
    {
        ConfigurableKeyAction2010::from(read_bits(self.buffer[field::OPT_4], 0, 4))
    }

    /// Return the motorized tailgate enable flag.
    pub fn motorized_tailgate_enable(&self) -> (value: bool)
        requires
            field::OPT_4 < self@.len(),
        ensures
            value == flag(self@[field::OPT_4 as int], 4),
    {
        read_flag(self.buffer[field::OPT_4], 4)
    }

    /// Return the rear wiper in reverse gear enable flag.
    pub fn rear_wiper_in_reverse_gear_enable(&self) -> (value: bool)
        requires
            field::OPT_4 < self@.len(),
        ensures
            value == flag(self@[field::OPT_4 as int], 5),
    {
        read_flag(self.buffer[field::OPT_4], 5)
    }

    /// Return the blind spot monitoring enable flag.
    pub fn blind_spot_monitoring_enable(&self) -> (value: bool)
        requires
            field::OPT_4 < self@.len(),
        ensures
            value == flag(self@[field::OPT_4 as int], 6),
    {
        read_flag(self.buffer[field::OPT_4], 6)
    }

    /// Return the parking sensors enable flag.
    pub fn park_sensors_enable(&self) -> (value: bool)
        requires
            field::OPT_4 < self@.len(),
        ensures
            value == flag(self@[field::OPT_4 as int], 7),
    {
        read_flag(self.buffer[field::OPT_4], 7)
    }

    /// Return the extended traffic sign recognition enable flag.
    pub fn extended_traffic_sign_recognition_enable(&self) -> (value: bool)
        requires
            field::OPT_5 < self@.len(),
        ensures
            value == flag(self@[field::OPT_5 as int], 0),
    {
        read_flag(self.buffer[field::OPT_5], 0)
    }

    /// Return the 'ECS/SEE' temporary disable flag.
    pub fn ecs_tempo_disable(&self) -> (value: bool)
        requires
            field::OPT_5 < self@.len(),
        ensures
            value == flag(self@[field::OPT_5 as int], 1),
    {
        read_flag(self.buffer[field::OPT_5], 1)
    }

    /// Return the mirrors tilting in reverse gear enable flag.
    pub fn mirrors_tilting_in_reverse_gear_enable(&self) -> (value: bool)
        requires
            field::OPT_5 < self@.len(),
        ensures
            value == flag(self@[field::OPT_5 as int], 2),
    {
        read_flag(self.buffer[field::OPT_5], 2)
    }

    /// Return the indirect under-inflation detection enable flag.
    pub fn indirect_under_inflation_enable(&self) -> (value: bool)
        requires
            field::OPT_5 < self@.len(),
        ensures
            value == flag(self@[field::OPT_5 as int], 3),
    {
        read_flag(self.buffer[field::OPT_5], 3)
    }

    /// Return the automatic emergency braking enable flag.
    pub fn automatic_emergency_braking_enable(&self) -> (value: bool)
        requires
            field::OPT_5 < self@.len(),
        ensures
            value == flag(self@[field::OPT_5 as int], 4),
    {
        read_flag(self.buffer[field::OPT_5], 4)
    }

    /// Return the collision alert sensibility level field.
    pub fn collision_alert_sensibility_level(&self) -> (value: CollisionAlertSensibilityLevel)
        requires
            field::OPT_5 < self@.len(),
        ensures
            value == CollisionAlertSensibilityLevel::from_raw(bits(self@[field::OPT_5 as int], 5, 2)),
    {
        CollisionAlertSensibilityLevel::from(read_bits(self.buffer[field::OPT_5], 5, 2))
    }

    /// Return the collision alert enable flag.
    pub fn collision_alert_enable(&self) -> (value: bool)
        requires
            field::OPT_5 < self@.len(),
        ensures
            value == flag(self@[field::OPT_5 as int], 7),
    {
        read_flag(self.buffer[field::OPT_5], 7)
    }

    /// Return the driver alert assist enable flag.
    pub fn driver_alert_assist_enable(&self) -> (value: bool)
        requires
            field::OPT_6 < self@.len(),
        ensures
            value == flag(self@[field::OPT_6 as int], 0),
    {
        read_flag(self.buffer[field::OPT_6], 0)
    }

    /// Return the hands-free tailgate automatic locking enable flag.
    pub fn hands_free_tailgate_auto_lock_enable(&self) -> (value: bool)
        requires
            field::OPT_6 < self@.len(),
        ensures
            value == flag(self@[field::OPT_6 as int], 1),
    {
        read_flag(self.buffer[field::OPT_6], 1)
    }

    /// Return the hands-free tailgate enable flag.
    pub fn hands_free_tailgate_enable(&self) -> (value: bool)
        requires
            field::OPT_6 < self@.len(),
        ensures
            value == flag(self@[field::OPT_6 as int], 2),
    {
        read_flag(self.buffer[field::OPT_6], 2)
    }

    /// Return the speed limit recognition enable flag.
    pub fn speed_limit_recognition_enable(&self) -> (value: bool)
        requires
            field::OPT_6 < self@.len(),
        ensures
            value == flag(self@[field::OPT_6 as int], 3),
    {
        read_flag(self.buffer[field::OPT_6], 3)
    }

    /// Return the radiator grill lamps enable flag (maybe anti-fog lights?).
    pub fn radiator_grill_lamps_enable(&self) -> (value: bool)
        requires
            field::OPT_6 < self@.len(),
        ensures
            value == flag(self@[field::OPT_6 as int], 4),
    {
        read_flag(self.buffer[field::OPT_6], 4)
    }

    /// Return the automatic main beam enable flag.
    pub fn automatic_main_beam_enable(&self) -> (value: bool)
        requires
            field::OPT_6 < self@.len(),
        ensures
            value == flag(self@[field::OPT_6 as int], 5),
    {
        read_flag(self.buffer[field::OPT_6], 5)
    }

    /// Return the 'IRV' enable flag (maybe InfraRed Vision).
    pub fn irv_enable(&self) -> (value: bool)
        requires
            field::OPT_7 < self@.len(),
        ensures
            value == flag(self@[field::OPT_7 as int], 2),
    {
        read_flag(self.buffer[field::OPT_7], 2)
    }

    /// Set the consumption unit field.
    pub fn set_consumption_unit(&mut self, value: ConsumptionUnit)
        requires
            field::OPT_0 < old(self)@.len(),
        ensures
            final(self)@ == old(self)@.update(field::OPT_0 as int, put_bits(old(self)@[field::OPT_0 as int], 0, 1, value.raw())),
    {
        let raw = write_bits(self.buffer[field::OPT_0], 0, 1, u8::from(value));
        self.buffer.set(field::OPT_0, raw);
    }

    /// Set the distance unit field.
    pub fn set_distance_unit(&mut self, value: DistanceUnit)
        requires
            field::OPT_0 < old(self)@.len(),
        ensures
            final(self)@ == old(self)@.update(field::OPT_0 as int, put_bits(old(self)@[field::OPT_0 as int], 1, 1, value.raw())),
    {
        let raw = write_bits(self.buffer[field::OPT_0], 1, 1, u8::from(value));
        self.buffer.set(field::OPT_0, raw);
    }

    /// Set the language field.
    pub fn set_language(&mut self, value: Language)
        requires
            field::OPT_0 < old(self)@.len(),
        ensures
            final(self)@ == old(self)@.update(field::OPT_0 as int, put_bits(old(self)@[field::OPT_0 as int], 2, 5, value.raw())),
    {
        let raw = write_bits(self.buffer[field::OPT_0], 2, 5, u8::from(value));
        self.buffer.set(field::OPT_0, raw);
    }

    /// Set the units and language parameters validity flag.
    pub fn set_units_language_parameters_validity(&mut self, value: bool)
        requires
            field::OPT_0 < old(self)@.len(),
        ensures
            final(self)@ == old(self)@.update(field::OPT_0 as int, put_flag(old(self)@[field::OPT_0 as int], 7, value)),
    {
        let raw = write_flag(self.buffer[field::OPT_0], 7, value);
        self.buffer.set(field::OPT_0, raw);
    }

    /// Set the sound harmony field.
    pub fn set_sound_harmony(&mut self, value: SoundHarmony)
        requires
            field::OPT_1 < old(self)@.len(),
        ensures
            final(self)@ == old(self)@.update(field::OPT_1 as int, put_bits(old(self)@[field::OPT_1 as int], 0, 2, value.raw())),
    {
        let raw = write_bits(self.buffer[field::OPT_1], 0, 2, u8::from(value));
        self.buffer.set(field::OPT_1, raw);
    }

    /// Set the parameters validity flag.
    pub fn set_parameters_validity(&mut self, value: bool)
        requires
            field::OPT_1 < old(self)@.len(),
        ensures
            final(self)@ == old(self)@.update(field::OPT_1 as int, put_flag(old(self)@[field::OPT_1 as int], 2, value)),
    {
        let raw = write_flag(self.buffer[field::OPT_1], 2, value);
        self.buffer.set(field::OPT_1, raw);
    }

    /// Set the mood lighting level field.
    pub fn set_mood_lighting_level(&mut self, value: MoodLightingLevel)
        requires
            field::OPT_1 < old(self)@.len(),
        ensures
            final(self)@ == old(self)@.update(field::OPT_1 as int, put_bits(old(self)@[field::OPT_1 as int], 3, 3, value.raw())),
    {
        let raw = write_bits(self.buffer[field::OPT_1], 3, 3, u8::from(value));
        self.buffer.set(field::OPT_1, raw);
    }

    /// Set the temperature unit field.
    pub fn set_temperature_unit(&mut self, value: TemperatureUnit)
        requires
            field::OPT_1 < old(self)@.len(),
        ensures
            final(self)@ == old(self)@.update(field::OPT_1 as int, put_bits(old(self)@[field::OPT_1 as int], 6, 1, value.raw())),
    {
        let raw = write_bits(self.buffer[field::OPT_1], 6, 1, u8::from(value));
        self.buffer.set(field::OPT_1, raw);
    }

    /// Set the volume unit field.
    pub fn set_volume_unit(&mut self, value: VolumeUnit)
        requires
            field::OPT_1 < old(self)@.len(),
        ensures
            final(self)@ == old(self)@.update(field::OPT_1 as int, put_bits(old(self)@[field::OPT_1 as int], 7, 1, value.raw())),
    {
        let raw = write_bits(self.buffer[field::OPT_1], 7, 1, u8::from(value));
        self.buffer.set(field::OPT_1, raw);
    }

    /// Set the mood lighting enable flag.
    pub fn set_mood_lighting_enable(&mut self, value: bool)
        requires
            field::OPT_2 < old(self)@.len(),
        ensures
            final(self)@ == old(self)@.update(field::OPT_2 as int, put_flag(old(self)@[field::OPT_2 as int], 0, value)),
    {
        let raw = write_flag(self.buffer[field::OPT_2], 0, value);
        self.buffer.set(field::OPT_2, raw);
    }

    /// Set the daytime running lamps enable flag.
    pub fn set_daytime_running_lamps_enable(&mut self, value: bool)
        requires
            field::OPT_2 < old(self)@.len(),
        ensures
            final(self)@ == old(self)@.update(field::OPT_2 as int, put_flag(old(self)@[field::OPT_2 as int], 1, value)),
    {
        let raw = write_flag(self.buffer[field::OPT_2], 1, value);
        self.buffer.set(field::OPT_2, raw);
    }

    /// Set the adaptive lamps enable flag.
    pub fn set_adaptive_lamps_enable(&mut self, value: bool)
        requires
            field::OPT_2 < old(self)@.len(),
        ensures
            final(self)@ == old(self)@.update(field::OPT_2 as int, put_flag(old(self)@[field::OPT_2 as int], 2, value)),
    {
        let raw = write_flag(self.buffer[field::OPT_2], 2, value);
        self.buffer.set(field::OPT_2, raw);
    }

    /// Set the welcome function enable flag.
    pub fn set_welcome_function_enable(&mut self, value: bool)
        requires
            field::OPT_2 < old(self)@.len(),
        ensures
            final(self)@ == old(self)@.update(field::OPT_2 as int, put_flag(old(self)@[field::OPT_2 as int], 3, value)),
    {
        let raw = write_flag(self.buffer[field::OPT_2], 3, value);
        self.buffer.set(field::OPT_2, raw);
    }

    /// Set the bool selective unlocking enable flag.
    pub fn set_boot_selective_unlocking_enable(&mut self, value: bool)
        requires
            field::OPT_2 < old(self)@.len(),
        ensures
            final(self)@ == old(self)@.update(field::OPT_2 as int, put_flag(old(self)@[field::OPT_2 as int], 4, value)),
    {
        let raw = write_flag(self.buffer[field::OPT_2], 4, value);
        self.buffer.set(field::OPT_2, raw);
    }

    /// Set the selective unlocking enable flag.
    pub fn set_selective_unlocking_enable(&mut self, value: bool)
        requires
            field::OPT_2 < old(self)@.len(),
        ensures
            final(self)@ == old(self)@.update(field::OPT_2 as int, put_flag(old(self)@[field::OPT_2 as int], 5, value)),
    {
        let raw = write_flag(self.buffer[field::OPT_2], 5, value);
        self.buffer.set(field::OPT_2, raw);
    }

    /// Set the key selective unlocking enable flag.
    pub fn set_key_selective_unlocking_enable(&mut self, value: bool)
        requires
            field::OPT_2 < old(self)@.len(),
        ensures
            final(self)@ == old(self)@.update(field::OPT_2 as int, put_flag(old(self)@[field::OPT_2 as int], 6, value)),
    {
        let raw = write_flag(self.buffer[field::OPT_2], 6, value);
        self.buffer.set(field::OPT_2, raw);
    }

    /// Set the automatic electrical parking brake application enable flag.
    pub fn set_auto_elec_parking_brake_application_enable(&mut self, value: bool)
        requires
            field::OPT_2 < old(self)@.len(),
        ensures
            final(self)@ == old(self)@.update(field::OPT_2 as int, put_flag(old(self)@[field::OPT_2 as int], 7, value)),
    {
        let raw = write_flag(self.buffer[field::OPT_2], 7, value);
        self.buffer.set(field::OPT_2, raw);
    }

    /// Set the automatic headlamps enable flag.
    pub fn set_automatic_headlamps_enable(&mut self, value: bool)
        requires
            field::OPT_3 < old(self)@.len(),
        ensures
            final(self)@ == old(self)@.update(field::OPT_3 as int, put_flag(old(self)@[field::OPT_3 as int], 0, value)),
    {
        let raw = write_flag(self.buffer[field::OPT_3], 0, value);
        self.buffer.set(field::OPT_3, raw);
    }

    /// Set the welcome lighting duration field.
    pub fn set_welcome_lighting_duration(&mut self, value: LightingDuration)
        requires
            field::OPT_3 < old(self)@.len(),
        ensures
            final(self)@ == old(self)@.update(field::OPT_3 as int, put_bits(old(self)@[field::OPT_3 as int], 1, 2, value.raw())),
    {
        let raw = write_bits(self.buffer[field::OPT_3], 1, 2, u8::from(value));
        self.buffer.set(field::OPT_3, raw);
    }

    /// Set the welcome lighting enable flag.
    pub fn set_welcome_lighting_enable(&mut self, value: bool)
        requires
            field::OPT_3 < old(self)@.len(),
        ensures
            final(self)@ == old(self)@.update(field::OPT_3 as int, put_flag(old(self)@[field::OPT_3 as int], 3, value)),
    {
        let raw = write_flag(self.buffer[field::OPT_3], 3, value);
        self.buffer.set(field::OPT_3, raw);
    }

    /// Set the motorway lighting enable flag.
    pub fn set_motorway_lighting_enable(&mut self, value: bool)
        requires
            field::OPT_3 < old(self)@.len(),
        ensures
            final(self)@ == old(self)@.update(field::OPT_3 as int, put_flag(old(self)@[field::OPT_3 as int], 4, value)),
    {
        let raw = write_flag(self.buffer[field::OPT_3], 4, value);
        self.buffer.set(field::OPT_3, raw);
    }

    /// Set the follow-me-home lighting duration field.
    pub fn set_follow_me_home_lighting_duration(&mut self, value: LightingDuration)
        requires
            field::OPT_3 < old(self)@.len(),
        ensures
            final(self)@ == old(self)@.update(field::OPT_3 as int, put_bits(old(self)@[field::OPT_3 as int], 5, 2, value.raw())),
    {
        let raw = write_bits(self.buffer[field::OPT_3], 5, 2, u8::from(value));
        self.buffer.set(field::OPT_3, raw);
    }

    /// Set the follow-me-home enable flag.
    pub fn set_follow_me_home_enable(&mut self, value: bool)
        requires
            field::OPT_3 < old(self)@.len(),
        ensures
            final(self)@ == old(self)@.update(field::OPT_3 as int, put_flag(old(self)@[field::OPT_3 as int], 7, value)),
    {
        let raw = write_flag(self.buffer[field::OPT_3], 7, value);
        self.buffer.set(field::OPT_3, raw);
    }

    /// Set the locking mode on 'COE' enable flag.
    ///
    /// The layout of the frame gives this flag no bit: every bit of the
    /// byte at `field::OPT_1` belongs to another field, so the frame is
    /// left unchanged.
    pub fn set_locking_mode_on_coe_enable(&mut self, value: bool)
        requires
            field::OPT_1 < old(self)@.len(),
        ensures
            final(self)@ == old(self)@,
    {
    }

    /// Set the automatic door locking when leaving enable flag.
    ///
    /// The layout of the frame gives this flag no bit: every bit of the
    /// byte at `field::OPT_1` belongs to another field, so the frame is
    /// left unchanged.
    pub fn set_auto_door_locking_when_leaving_enable(&mut self, value: bool)
        requires
            field::OPT_1 < old(self)@.len(),
        ensures
            final(self)@ == old(self)@,
    {
    }

    /// Set the boot permanent locking enable flag.
    ///
    /// The layout of the frame gives this flag no bit: every bit of the
    /// byte at `field::OPT_1` belongs to another field, so the frame is
    /// left unchanged.
    pub fn set_boot_permanent_locking_enable(&mut self, value: bool)
        requires
            field::OPT_1 < old(self)@.len(),
        ensures
            final(self)@ == old(self)@,
    {
    }

    /// Set the automatic door locking when driving enable flag.
    ///
    /// The layout of the frame gives this flag no bit: every bit of the
    /// byte at `field::OPT_1` belongs to another field, so the frame is
    /// left unchanged.
    pub fn set_auto_door_locking_when_driving_enable(&mut self, value: bool)
        requires
            field::OPT_1 < old(self)@.len(),
        ensures
            final(self)@ == old(self)@,
    {
    }

    /// Set the configurable button/key enable flag.
    pub fn set_configurable_key_mode(&mut self, value: ConfigurableKeyAction2010)
        requires
            field::OPT_4 < old(self)@.len(),
        ensures
            final(self)@ == old(self)@.update(field::OPT_4 as int, put_bits(old(self)@[field::OPT_4 as int], 0, 4, value.raw())),
    {
        let raw = write_bits(self.buffer[field::OPT_4], 0, 4, u8::from(value));
        self.buffer.set(field::OPT_4, raw);
    }

    /// Set the motorized tailgate enable flag.
    pub fn set_motorized_tailgate_enable(&mut self, value: bool)
        requires
            field::OPT_4 < old(self)@.len(),
        ensures
            final(self)@ == old(self)@.update(field::OPT_4 as int, put_flag(old(self)@[field::OPT_4 as int], 4, value)),
    {
        let raw = write_flag(self.buffer[field::OPT_4], 4, value);
        self.buffer.set(field::OPT_4, raw);
    }

    /// Set the rear wiper in reverse gear enable flag.
    pub fn set_rear_wiper_in_reverse_gear_enable(&mut self, value: bool)
        requires
            field::OPT_4 < old(self)@.len(),
        ensures
            final(self)@ == old(self)@.update(field::OPT_4 as int, put_flag(old(self)@[field::OPT_4 as int], 5, value)),
    {
        let raw = write_flag(self.buffer[field::OPT_4], 5, value);
        self.buffer.set(field::OPT_4, raw);
    }

    /// Set the blind spot monitoring enable flag.
    pub fn set_blind_spot_monitoring_enable(&mut self, value: bool)
        requires
            field::OPT_4 < old(self)@.len(),
        ensures
            final(self)@ == old(self)@.update(field::OPT_4 as int, put_flag(old(self)@[field::OPT_4 as int], 6, value)),
    {
        let raw = write_flag(self.buffer[field::OPT_4], 6, value);
        self.buffer.set(field::OPT_4, raw);
    }

    /// Set the parking sensors enable flag.
    pub fn set_park_sensors_enable(&mut self, value: bool)
        requires
            field::OPT_4 < old(self)@.len(),
        ensures
            final(self)@ == old(self)@.update(field::OPT_4 as int, put_flag(old(self)@[field::OPT_4 as int], 7, value)),
    {
        let raw = write_flag(self.buffer[field::OPT_4], 7, value);
        self.buffer.set(field::OPT_4, raw);
    }

    /// Set the extended traffic sign recognition enable flag.
    pub fn set_extended_traffic_sign_recognition_enable(&mut self, value: bool)
        requires
            field::OPT_5 < old(self)@.len(),
        ensures
            final(self)@ == old(self)@.update(field::OPT_5 as int, put_flag(old(self)@[field::OPT_5 as int], 0, value)),
    {
        let raw = write_flag(self.buffer[field::OPT_5], 0, value);
        self.buffer.set(field::OPT_5, raw);
    }

    /// Set the 'ECS/SEE' temporary disable flag.
    pub fn set_ecs_tempo_disable(&mut self, value: bool)
        requires
            field::OPT_5 < old(self)@.len(),
        ensures
            final(self)@ == old(self)@.update(field::OPT_5 as int, put_flag(old(self)@[field::OPT_5 as int], 1, value)),
    {
        let raw = write_flag(self.buffer[field::OPT_5], 1, value);
        self.buffer.set(field::OPT_5, raw);
    }

    /// Set the mirrors tilting in reverse gear enable flag.
    pub fn set_mirrors_tilting_in_reverse_gear_enable(&mut self, value: bool)
        requires
            field::OPT_5 < old(self)@.len(),
        ensures
            final(self)@ == old(self)@.update(field::OPT_5 as int, put_flag(old(self)@[field::OPT_5 as int], 2, value)),
    {
        let raw = write_flag(self.buffer[field::OPT_5], 2, value);
        self.buffer.set(field::OPT_5, raw);
    }

    /// Set the indirect under-inflation detection reset status flag.
    pub fn set_indirect_under_inflation_enable(&mut self, value: bool)
        requires
            field::OPT_5 < old(self)@.len(),
        ensures
            final(self)@ == old(self)@.update(field::OPT_5 as int, put_flag(old(self)@[field::OPT_5 as int], 3, value)),
    {
        let raw = write_flag(self.buffer[field::OPT_5], 3, value);
        self.buffer.set(field::OPT_5, raw);
    }

    /// Set the automatic emergency braking enable flag.
    pub fn set_automatic_emergency_braking_enable(&mut self, value: bool)
        requires
            field::OPT_5 < old(self)@.len(),
        ensures
            final(self)@ == old(self)@.update(field::OPT_5 as int, put_flag(old(self)@[field::OPT_5 as int], 4, value)),
    {
        let raw = write_flag(self.buffer[field::OPT_5], 4, value);
        self.buffer.set(field::OPT_5, raw);
    }

    /// Set the collision alert sensibility level field.
    pub fn set_collision_alert_sensibility_level(&mut self, value: CollisionAlertSensibilityLevel)
        requires
            field::OPT_5 < old(self)@.len(),
        ensures
            final(self)@ == old(self)@.update(field::OPT_5 as int, put_bits(old(self)@[field::OPT_5 as int], 5, 2, value.raw())),
    {
        let raw = write_bits(self.buffer[field::OPT_5], 5, 2, u8::from(value));
        self.buffer.set(field::OPT_5, raw);
    }

    /// Set the collision alert enable flag.
    pub fn set_collision_alert_enable(&mut self, value: bool)
        requires
            field::OPT_5 < old(self)@.len(),
        ensures
            final(self)@ == old(self)@.update(field::OPT_5 as int, put_flag(old(self)@[field::OPT_5 as int], 7, value)),
    {
        let raw = write_flag(self.buffer[field::OPT_5], 7, value);
        self.buffer.set(field::OPT_5, raw);
    }

    /// Set the driver alert assist enable flag.
    pub fn set_driver_alert_assist_enable(&mut self, value: bool)
        requires
            field::OPT_6 < old(self)@.len(),
        ensures
            final(self)@ == old(self)@.update(field::OPT_6 as int, put_flag(old(self)@[field::OPT_6 as int], 0, value)),
    {
        let raw = write_flag(self.buffer[field::OPT_6], 0, value);
        self.buffer.set(field::OPT_6, raw);
    }

    /// Set the hands-free tailgate automatic locking enable flag.
    pub fn set_hands_free_tailgate_auto_lock_enable(&mut self, value: bool)
        requires
            field::OPT_6 < old(self)@.len(),
        ensures
            final(self)@ == old(self)@.update(field::OPT_6 as int, put_flag(old(self)@[field::OPT_6 as int], 1, value)),
    {
        let raw = write_flag(self.buffer[field::OPT_6], 1, value);
        self.buffer.set(field::OPT_6, raw);
    }

    /// Set the hands-free tailgate enable flag.
    pub fn set_hands_free_tailgate_enable(&mut self, value: bool)
        requires
            field::OPT_6 < old(self)@.len(),
        ensures
            final(self)@ == old(self)@.update(field::OPT_6 as int, put_flag(old(self)@[field::OPT_6 as int], 2, value)),
    {
        let raw = write_flag(self.buffer[field::OPT_6], 2, value);
        self.buffer.set(field::OPT_6, raw);
    }

    /// Set the speed limit recognition enable flag.
    pub fn set_speed_limit_recognition_enable(&mut self, value: bool)
        requires
            field::OPT_6 < old(self)@.len(),
        ensures
            final(self)@ == old(self)@.update(field::OPT_6 as int, put_flag(old(self)@[field::OPT_6 as int], 3, value)),
    {
        let raw = write_flag(self.buffer[field::OPT_6], 3, value);
        self.buffer.set(field::OPT_6, raw);
    }

    /// Set the radiator grill lamps enable flag (maybe anti-fog lights).
    pub fn set_radiator_grill_lamps_enable(&mut self, value: bool)
        requires
            field::OPT_6 < old(self)@.len(),
        ensures
            final(self)@ == old(self)@.update(field::OPT_6 as int, put_flag(old(self)@[field::OPT_6 as int], 4, value)),
    {
        let raw = write_flag(self.buffer[field::OPT_6], 4, value);
        self.buffer.set(field::OPT_6, raw);
    }

    /// Set the automatic main beam enable flag.
    pub fn set_automatic_main_beam_enable(&mut self, value: bool)
        requires
            field::OPT_6 < old(self)@.len(),
        ensures
            final(self)@ == old(self)@.update(field::OPT_6 as int, put_flag(old(self)@[field::OPT_6 as int], 5, value)),
    {
        let raw = write_flag(self.buffer[field::OPT_6], 5, value);
        self.buffer.set(field::OPT_6, raw);
    }

    /// Set the 'IRV' enable flag (maybe InfraRed Vision).
    pub fn set_irv_enable(&mut self, value: bool)
        requires
            field::OPT_7 < old(self)@.len(),
        ensures
            final(self)@ == old(self)@.update(field::OPT_7 as int, put_flag(old(self)@[field::OPT_7 as int], 2, value)),
    {
        let raw = write_flag(self.buffer[field::OPT_7], 2, value);
        self.buffer.set(field::OPT_7, raw);
    }
}

/// A high-level representation of a x15b CAN frame.
#[derive(Debug, PartialEq, Eq, Clone, Copy)]
pub struct Repr {
    pub consumption_unit: ConsumptionUnit,
    pub distance_unit: DistanceUnit,
    pub language: Language,
    pub units_language_parameters_validity: bool,
    pub sound_harmony: SoundHarmony,
    pub parameters_validity: bool,
    pub mood_lighting_level: MoodLightingLevel,
    pub temperature_unit: TemperatureUnit,
    pub volume_unit: VolumeUnit,
    pub mood_lighting_enabled: bool,
    pub daytime_running_lamps_enabled: bool,
    pub adaptive_lamps_enabled: bool,
    pub welcome_function_enabled: bool,
    pub boot_selective_unlocking_enabled: bool,
    pub selective_unlocking_enabled: bool,
    pub key_selective_unlocking_enabled: bool,
    pub automatic_elec_parking_brake_application_enabled: bool,
    pub automatic_headlamps_enabled: bool,
    pub welcome_lighting_duration: LightingDuration,
    pub welcome_lighting_enabled: bool,
    pub motorway_lighting_enabled: bool,
    pub follow_me_home_lighting_duration: LightingDuration,
    pub follow_me_home_enabled: bool,
    pub configurable_key_mode: ConfigurableKeyAction2010,
    pub motorized_tailgate_enabled: bool,
    pub rear_wiper_in_reverse_gear_enabled: bool,
    pub blind_spot_monitoring_enabled: bool,
    pub park_sensors_enabled: bool,
    pub mirrors_tilting_in_reverse_gear_enabled: bool,
    pub indirect_under_inflation_enabled: bool,
    pub automatic_emergency_braking_enabled: bool,
    pub collision_alert_sensibility_level: CollisionAlertSensibilityLevel,
    pub collision_alert_enabled: bool,
    pub hands_free_tailgate_enabled: bool,
    pub speed_limit_recognition_enabled: bool,
    pub radiator_grill_lamps_enabled: bool,
    pub automatic_main_beam_enabled: bool,
    pub driver_alert_assist_enabled: bool,
    pub hands_free_tailgate_auto_lock_enabled: bool,
    pub extended_traffic_sign_recognition_enabled: bool,
    pub ecs_temp_disabled: bool,
    pub irv_enabled: bool,
}

impl Repr {
    /// The representation that the bytes of a frame carry.
    #[verifier::opaque]
    pub open spec fn from_bytes(bytes: Seq<u8>) -> Repr {
        Repr {
            consumption_unit: ConsumptionUnit::from_raw(bits(bytes[field::OPT_0 as int], 0, 1)),
            distance_unit: DistanceUnit::from_raw(bits(bytes[field::OPT_0 as int], 1, 1)),
            language: Language::from_raw(bits(bytes[field::OPT_0 as int], 2, 5)),
            units_language_parameters_validity: flag(bytes[field::OPT_0 as int], 7),
            sound_harmony: SoundHarmony::from_raw(bits(bytes[field::OPT_1 as int], 0, 2)),
            parameters_validity: flag(bytes[field::OPT_1 as int], 2),
            mood_lighting_level: MoodLightingLevel::from_raw(bits(bytes[field::OPT_1 as int], 3, 3)),
            temperature_unit: TemperatureUnit::from_raw(bits(bytes[field::OPT_1 as int], 6, 1)),
            volume_unit: VolumeUnit::from_raw(bits(bytes[field::OPT_1 as int], 7, 1)),
            mood_lighting_enabled: flag(bytes[field::OPT_2 as int], 0),
            daytime_running_lamps_enabled: flag(bytes[field::OPT_2 as int], 1),
            adaptive_lamps_enabled: flag(bytes[field::OPT_2 as int], 2),
            welcome_function_enabled: flag(bytes[field::OPT_2 as int], 3),
            boot_selective_unlocking_enabled: flag(bytes[field::OPT_2 as int], 4),
            selective_unlocking_enabled: flag(bytes[field::OPT_2 as int], 5),
            key_selective_unlocking_enabled: flag(bytes[field::OPT_2 as int], 6),
            automatic_elec_parking_brake_application_enabled: flag(bytes[field::OPT_2 as int], 7),
            automatic_headlamps_enabled: flag(bytes[field::OPT_3 as int], 0),
            welcome_lighting_duration: LightingDuration::from_raw(bits(bytes[field::OPT_3 as int], 1, 2)),
            welcome_lighting_enabled: flag(bytes[field::OPT_3 as int], 3),
            motorway_lighting_enabled: flag(bytes[field::OPT_3 as int], 4),
            follow_me_home_lighting_duration: LightingDuration::from_raw(bits(bytes[field::OPT_3 as int], 5, 2)),
            follow_me_home_enabled: flag(bytes[field::OPT_3 as int], 7),
            configurable_key_mode: ConfigurableKeyAction2010::from_raw(bits(bytes[field::OPT_4 as int], 0, 4)),
            motorized_tailgate_enabled: flag(bytes[field::OPT_4 as int], 4),
            rear_wiper_in_reverse_gear_enabled: flag(bytes[field::OPT_4 as int], 5),
            blind_spot_monitoring_enabled: flag(bytes[field::OPT_4 as int], 6),
            park_sensors_enabled: flag(bytes[field::OPT_4 as int], 7),
            mirrors_tilting_in_reverse_gear_enabled: flag(bytes[field::OPT_5 as int], 2),
            indirect_under_inflation_enabled: flag(bytes[field::OPT_5 as int], 3),
            automatic_emergency_braking_enabled: flag(bytes[field::OPT_5 as int], 4),
            collision_alert_sensibility_level: CollisionAlertSensibilityLevel::from_raw(bits(bytes[field::OPT_5 as int], 5, 2)),
            collision_alert_enabled: flag(bytes[field::OPT_5 as int], 7),
            hands_free_tailgate_enabled: flag(bytes[field::OPT_6 as int], 2),
            speed_limit_recognition_enabled: flag(bytes[field::OPT_6 as int], 3),
            radiator_grill_lamps_enabled: flag(bytes[field::OPT_6 as int], 4),
            automatic_main_beam_enabled: flag(bytes[field::OPT_6 as int], 5),
            driver_alert_assist_enabled: flag(bytes[field::OPT_6 as int], 0),
            hands_free_tailgate_auto_lock_enabled: flag(bytes[field::OPT_6 as int], 1),
            extended_traffic_sign_recognition_enabled: flag(bytes[field::OPT_5 as int], 0),
            ecs_temp_disabled: flag(bytes[field::OPT_5 as int], 1),
            irv_enabled: flag(bytes[field::OPT_7 as int], 2),
        }
    }

    /// The byte at `field::OPT_0` once the fields that it carries are written into `b`.
    pub open spec fn opt_0_byte(self, b: u8) -> u8 {
        put_flag(put_bits(put_bits(put_bits(b, 0, 1, self.consumption_unit.raw()), 1, 1, self.distance_unit.raw()), 2, 5, self.language.raw()), 7, self.units_language_parameters_validity)
    }

    /// The byte at `field::OPT_1` once the fields that it carries are written into `b`.
    pub open spec fn opt_1_byte(self, b: u8) -> u8 {
        put_bits(put_bits(put_bits(put_flag(put_bits(b, 0, 2, self.sound_harmony.raw()), 2, self.parameters_validity), 3, 3, self.mood_lighting_level.raw()), 6, 1, self.temperature_unit.raw()), 7, 1, self.volume_unit.raw())
    }

    /// The byte at `field::OPT_2` once the fields that it carries are written into `b`.
    pub open spec fn opt_2_byte(self, b: u8) -> u8 {
        put_flag(put_flag(put_flag(put_flag(put_flag(put_flag(put_flag(put_flag(b, 0, self.mood_lighting_enabled), 1, self.daytime_running_lamps_enabled), 2, self.adaptive_lamps_enabled), 3, self.welcome_function_enabled), 4, self.boot_selective_unlocking_enabled), 5, self.selective_unlocking_enabled), 6, self.key_selective_unlocking_enabled), 7, self.automatic_elec_parking_brake_application_enabled)
    }

    /// The byte at `field::OPT_3` once the fields that it carries are written into `b`.
    pub open spec fn opt_3_byte(self, b: u8) -> u8 {
        put_flag(put_bits(put_flag(put_flag(put_bits(put_flag(b, 0, self.automatic_headlamps_enabled), 1, 2, self.welcome_lighting_duration.raw()), 3, self.welcome_lighting_enabled), 4, self.motorway_lighting_enabled), 5, 2, self.follow_me_home_lighting_duration.raw()), 7, self.follow_me_home_enabled)
    }

    /// The byte at `field::OPT_4` once the fields that it carries are written into `b`.
    pub open spec fn opt_4_byte(self, b: u8) -> u8 {
        put_flag(put_flag(put_flag(put_flag(put_bits(b, 0, 4, self.configurable_key_mode.raw()), 4, self.motorized_tailgate_enabled), 5, self.rear_wiper_in_reverse_gear_enabled), 6, self.blind_spot_monitoring_enabled), 7, self.park_sensors_enabled)
    }

    /// The byte at `field::OPT_5` once the fields that it carries are written into `b`.
    pub open spec fn opt_5_byte(self, b: u8) -> u8 {
        put_flag(put_flag(put_flag(put_bits(put_flag(put_flag(put_flag(b, 2, self.mirrors_tilting_in_reverse_gear_enabled), 3, self.indirect_under_inflation_enabled), 4, self.automatic_emergency_braking_enabled), 5, 2, self.collision_alert_sensibility_level.raw()), 7, self.collision_alert_enabled), 0, self.extended_traffic_sign_recognition_enabled), 1, self.ecs_temp_disabled)
    }

    /// The byte at `field::OPT_6` once the fields that it carries are written into `b`.
    pub open spec fn opt_6_byte(self, b: u8) -> u8 {
        put_flag(put_flag(put_flag(put_flag(put_flag(put_flag(b, 2, self.hands_free_tailgate_enabled), 3, self.speed_limit_recognition_enabled), 4, self.radiator_grill_lamps_enabled), 5, self.automatic_main_beam_enabled), 0, self.driver_alert_assist_enabled), 1, self.hands_free_tailgate_auto_lock_enabled)
    }

    /// The bytes of a frame once `self` is emitted into them.
    pub open spec fn emit_bytes(self, bytes: Seq<u8>) -> Seq<u8> {
        bytes.update(
            field::OPT_0 as int,
            self.opt_0_byte(bytes[field::OPT_0 as int]),
        ).update(
            field::OPT_1 as int,
            self.opt_1_byte(bytes[field::OPT_1 as int]),
        ).update(
            field::OPT_2 as int,
            self.opt_2_byte(bytes[field::OPT_2 as int]),
        ).update(
            field::OPT_3 as int,
            self.opt_3_byte(bytes[field::OPT_3 as int]),
        ).update(
            field::OPT_4 as int,
            self.opt_4_byte(bytes[field::OPT_4 as int]),
        ).update(
            field::OPT_5 as int,
            self.opt_5_byte(bytes[field::OPT_5 as int]),
        ).update(
            field::OPT_6 as int,
            self.opt_6_byte(bytes[field::OPT_6 as int]),
        ).update(
            field::OPT_7 as int,
            put_flag(bytes[field::OPT_7 as int], 2, self.irv_enabled),
        )
    }

    /// Every field of `self` fits in the bits that the frame gives it.
    pub open spec fn fits(self) -> bool {
        &&& ConsumptionUnit::from_raw(self.consumption_unit.raw()) == self.consumption_unit && self.consumption_unit.raw() < 2
        &&& DistanceUnit::from_raw(self.distance_unit.raw()) == self.distance_unit && self.distance_unit.raw() < 2
        &&& Language::from_raw(self.language.raw()) == self.language && self.language.raw() < 32
        &&& SoundHarmony::from_raw(self.sound_harmony.raw()) == self.sound_harmony && self.sound_harmony.raw() < 4
        &&& MoodLightingLevel::from_raw(self.mood_lighting_level.raw()) == self.mood_lighting_level && self.mood_lighting_level.raw() < 8
        &&& TemperatureUnit::from_raw(self.temperature_unit.raw()) == self.temperature_unit && self.temperature_unit.raw() < 2
        &&& VolumeUnit::from_raw(self.volume_unit.raw()) == self.volume_unit && self.volume_unit.raw() < 2
        &&& LightingDuration::from_raw(self.welcome_lighting_duration.raw()) == self.welcome_lighting_duration && self.welcome_lighting_duration.raw() < 4
        &&& LightingDuration::from_raw(self.follow_me_home_lighting_duration.raw()) == self.follow_me_home_lighting_duration && self.follow_me_home_lighting_duration.raw() < 4
        &&& ConfigurableKeyAction2010::from_raw(self.configurable_key_mode.raw()) == self.configurable_key_mode && self.configurable_key_mode.raw() < 16
        &&& CollisionAlertSensibilityLevel::from_raw(self.collision_alert_sensibility_level.raw()) == self.collision_alert_sensibility_level && self.collision_alert_sensibility_level.raw() < 4
    }

    /// Parse a x15b CAN frame into its high-level representation.
    pub fn parse(frame: &Frame) -> (r: Result<Repr, Error>)
        ensures
            r is Ok <==> frame@.len() == FRAME_LEN,
            r matches Ok(repr) ==> repr == Repr::from_bytes(frame@),
            r matches Err(e) ==> length_check(frame@.len(), FRAME_LEN as nat) == Err::<(), Error>(e),
    {
        if let Err(e) = frame.check_len() {
            return Err(e);
        }
        Ok(Self::read_fields(frame))
    }

    /// The representation that the bytes of `frame` carry.
    fn read_fields(frame: &Frame) -> (repr: Repr)
        requires
            FRAME_LEN <= frame@.len(),
        ensures
            repr == Repr::from_bytes(frame@),
    {
        let repr = Repr {
            consumption_unit: frame.consumption_unit(),
            distance_unit: frame.distance_unit(),
            language: frame.language(),
            units_language_parameters_validity: frame.units_language_parameters_validity(),
            sound_harmony: frame.sound_harmony(),
            parameters_validity: frame.parameters_validity(),
            mood_lighting_level: frame.mood_lighting_level(),
            temperature_unit: frame.temperature_unit(),
            volume_unit: frame.volume_unit(),
            mood_lighting_enabled: frame.mood_lighting_enable(),
            daytime_running_lamps_enabled: frame.daytime_running_lamps_enable(),
            adaptive_lamps_enabled: frame.adaptive_lamps_enable(),
            welcome_function_enabled: frame.welcome_function_enable(),
            boot_selective_unlocking_enabled: frame.boot_selective_unlocking_enable(),
            selective_unlocking_enabled: frame.selective_unlocking_enable(),
            key_selective_unlocking_enabled: frame.key_selective_unlocking_enable(),
            automatic_elec_parking_brake_application_enabled: frame.auto_elec_parking_brake_application_enable(),
            automatic_headlamps_enabled: frame.automatic_headlamps_enable(),
            welcome_lighting_duration: frame.welcome_lighting_duration(),
            welcome_lighting_enabled: frame.welcome_lighting_enable(),
            motorway_lighting_enabled: frame.motorway_lighting_enable(),
            follow_me_home_lighting_duration: frame.follow_me_home_lighting_duration(),
            follow_me_home_enabled: frame.follow_me_home_enable(),
            configurable_key_mode: frame.configurable_key_mode(),
            motorized_tailgate_enabled: frame.motorized_tailgate_enable(),
            rear_wiper_in_reverse_gear_enabled: frame.rear_wiper_in_reverse_gear_enable(),
            blind_spot_monitoring_enabled: frame.blind_spot_monitoring_enable(),
            park_sensors_enabled: frame.park_sensors_enable(),
            mirrors_tilting_in_reverse_gear_enabled: frame.mirrors_tilting_in_reverse_gear_enable(),
            indirect_under_inflation_enabled: frame.indirect_under_inflation_enable(),
            automatic_emergency_braking_enabled: frame.automatic_emergency_braking_enable(),
            collision_alert_sensibility_level: frame.collision_alert_sensibility_level(),
            collision_alert_enabled: frame.collision_alert_enable(),
            hands_free_tailgate_enabled: frame.hands_free_tailgate_enable(),
            speed_limit_recognition_enabled: frame.speed_limit_recognition_enable(),
            radiator_grill_lamps_enabled: frame.radiator_grill_lamps_enable(),
            automatic_main_beam_enabled: frame.automatic_main_beam_enable(),
            driver_alert_assist_enabled: frame.driver_alert_assist_enable(),
            hands_free_tailgate_auto_lock_enabled: frame.hands_free_tailgate_auto_lock_enable(),
            extended_traffic_sign_recognition_enabled: frame.extended_traffic_sign_recognition_enable(),
            ecs_temp_disabled: frame.ecs_tempo_disable(),
            irv_enabled: frame.irv_enable(),
        };
        proof {
            Repr::lemma_from_fields(repr, frame@);
        }
        repr
    }

    /// A representation whose every field holds what `bytes` carry is the
    /// representation that `bytes` carry.
    proof fn lemma_from_fields(repr: Repr, bytes: Seq<u8>)
        requires
            repr.consumption_unit == ConsumptionUnit::from_raw(bits(bytes[field::OPT_0 as int], 0, 1)),
            repr.distance_unit == DistanceUnit::from_raw(bits(bytes[field::OPT_0 as int], 1, 1)),
            repr.language == Language::from_raw(bits(bytes[field::OPT_0 as int], 2, 5)),
            repr.units_language_parameters_validity == flag(bytes[field::OPT_0 as int], 7),
            repr.sound_harmony == SoundHarmony::from_raw(bits(bytes[field::OPT_1 as int], 0, 2)),
            repr.parameters_validity == flag(bytes[field::OPT_1 as int], 2),
            repr.mood_lighting_level == MoodLightingLevel::from_raw(bits(bytes[field::OPT_1 as int], 3, 3)),
            repr.temperature_unit == TemperatureUnit::from_raw(bits(bytes[field::OPT_1 as int], 6, 1)),
            repr.volume_unit == VolumeUnit::from_raw(bits(bytes[field::OPT_1 as int], 7, 1)),
            repr.mood_lighting_enabled == flag(bytes[field::OPT_2 as int], 0),
            repr.daytime_running_lamps_enabled == flag(bytes[field::OPT_2 as int], 1),
            repr.adaptive_lamps_enabled == flag(bytes[field::OPT_2 as int], 2),
            repr.welcome_function_enabled == flag(bytes[field::OPT_2 as int], 3),
            repr.boot_selective_unlocking_enabled == flag(bytes[field::OPT_2 as int], 4),
            repr.selective_unlocking_enabled == flag(bytes[field::OPT_2 as int], 5),
            repr.key_selective_unlocking_enabled == flag(bytes[field::OPT_2 as int], 6),
            repr.automatic_elec_parking_brake_application_enabled == flag(bytes[field::OPT_2 as int], 7),
            repr.automatic_headlamps_enabled == flag(bytes[field::OPT_3 as int], 0),
            repr.welcome_lighting_duration == LightingDuration::from_raw(bits(bytes[field::OPT_3 as int], 1, 2)),
            repr.welcome_lighting_enabled == flag(bytes[field::OPT_3 as int], 3),
            repr.motorway_lighting_enabled == flag(bytes[field::OPT_3 as int], 4),
            repr.follow_me_home_lighting_duration == LightingDuration::from_raw(bits(bytes[field::OPT_3 as int], 5, 2)),
            repr.follow_me_home_enabled == flag(bytes[field::OPT_3 as int], 7),
            repr.configurable_key_mode == ConfigurableKeyAction2010::from_raw(bits(bytes[field::OPT_4 as int], 0, 4)),
            repr.motorized_tailgate_enabled == flag(bytes[field::OPT_4 as int], 4),
            repr.rear_wiper_in_reverse_gear_enabled == flag(bytes[field::OPT_4 as int], 5),
            repr.blind_spot_monitoring_enabled == flag(bytes[field::OPT_4 as int], 6),
            repr.park_sensors_enabled == flag(bytes[field::OPT_4 as int], 7),
            repr.mirrors_tilting_in_reverse_gear_enabled == flag(bytes[field::OPT_5 as int], 2),
            repr.indirect_under_inflation_enabled == flag(bytes[field::OPT_5 as int], 3),
            repr.automatic_emergency_braking_enabled == flag(bytes[field::OPT_5 as int], 4),
            repr.collision_alert_sensibility_level == CollisionAlertSensibilityLevel::from_raw(bits(bytes[field::OPT_5 as int], 5, 2)),
            repr.collision_alert_enabled == flag(bytes[field::OPT_5 as int], 7),
            repr.hands_free_tailgate_enabled == flag(bytes[field::OPT_6 as int], 2),
            repr.speed_limit_recognition_enabled == flag(bytes[field::OPT_6 as int], 3),
            repr.radiator_grill_lamps_enabled == flag(bytes[field::OPT_6 as int], 4),
            repr.automatic_main_beam_enabled == flag(bytes[field::OPT_6 as int], 5),
            repr.driver_alert_assist_enabled == flag(bytes[field::OPT_6 as int], 0),
            repr.hands_free_tailgate_auto_lock_enabled == flag(bytes[field::OPT_6 as int], 1),
            repr.extended_traffic_sign_recognition_enabled == flag(bytes[field::OPT_5 as int], 0),
            repr.ecs_temp_disabled == flag(bytes[field::OPT_5 as int], 1),
            repr.irv_enabled == flag(bytes[field::OPT_7 as int], 2),
        ensures
            repr == Repr::from_bytes(bytes),
    {
        reveal(Repr::from_bytes);
    }

    /// The text of `self`: each field by name, with its value.
    pub open spec fn text(self) -> Seq<char> {
        self.text_prefix_8()
    }

    /// The first part of the text of `self`, up to part 0.
    #[verifier::opaque]
    pub open spec fn text_prefix_0(self) -> Seq<char> {
        "x260 consumption_unit="@
            + self.consumption_unit.text()
            + " distance_unit="@
            + self.distance_unit.text()
            + " language="@
            + self.language.text()
            + " units_language_parameters_validity="@
            + bool_text(self.units_language_parameters_validity)
            + " sound_harmony="@
            + self.sound_harmony.text()
    }

    /// The first parts of the text of `self`, up to part 1.
    #[verifier::opaque]
    pub open spec fn text_prefix_1(self) -> Seq<char> {
        self.text_prefix_0()
            + " parameters_validity="@
            + bool_text(self.parameters_validity)
            + " mood_lighting_level="@
            + self.mood_lighting_level.text()
            + " temperature_unit="@
            + self.temperature_unit.text()
            + " volume_unit="@
            + self.volume_unit.text()
            + " mood_lighting_enabled="@
            + bool_text(self.mood_lighting_enabled)
    }

    /// The first parts of the text of `self`, up to part 2.
    #[verifier::opaque]
    pub open spec fn text_prefix_2(self) -> Seq<char> {
        self.text_prefix_1()
            + " daytime_running_lamps_enabled="@
            + bool_text(self.daytime_running_lamps_enabled)
            + " adaptive_lamps_enabled="@
            + bool_text(self.adaptive_lamps_enabled)
            + " welcome_function_enabled="@
            + bool_text(self.welcome_function_enabled)
            + " boot_selective_unlocking_enabled="@
            + bool_text(self.boot_selective_unlocking_enabled)
            + " selective_unlocking_enabled="@
            + bool_text(self.selective_unlocking_enabled)
    }

    /// The first parts of the text of `self`, up to part 3.
    #[verifier::opaque]
    pub open spec fn text_prefix_3(self) -> Seq<char> {
        self.text_prefix_2()
            + " key_selective_unlocking_enabled="@
            + bool_text(self.key_selective_unlocking_enabled)
            + " automatic_elec_parking_brake_application_enabled="@
            + bool_text(self.automatic_elec_parking_brake_application_enabled)
            + " automatic_headlamps_enabled="@
            + bool_text(self.automatic_headlamps_enabled)
            + " welcome_lighting_duration="@
            + self.welcome_lighting_duration.text()
            + " welcome_lighting_enabled="@
            + bool_text(self.welcome_lighting_enabled)
    }

    /// The first parts of the text of `self`, up to part 4.
    #[verifier::opaque]
    pub open spec fn text_prefix_4(self) -> Seq<char> {
        self.text_prefix_3()
            + " motorway_lighting_enabled="@
            + bool_text(self.motorway_lighting_enabled)
            + " follow_me_home_lighting_duration="@
            + self.follow_me_home_lighting_duration.text()
            + " follow_me_home_enabled="@
            + bool_text(self.follow_me_home_enabled)
            + " configurable_key_mode="@
            + self.configurable_key_mode.text()
            + " motorized_tailgate_enabled="@
            + bool_text(self.motorized_tailgate_enabled)
    }

    /// The first parts of the text of `self`, up to part 5.
    #[verifier::opaque]
    pub open spec fn text_prefix_5(self) -> Seq<char> {
        self.text_prefix_4()
            + " rear_wiper_in_reverse_gear_enabled="@
            + bool_text(self.rear_wiper_in_reverse_gear_enabled)
            + " blind_spot_monitoring_enabled="@
            + bool_text(self.blind_spot_monitoring_enabled)
            + " park_sensors_enabled="@
            + bool_text(self.park_sensors_enabled)
            + " mirrors_tilting_in_reverse_gear_enabled="@
            + bool_text(self.mirrors_tilting_in_reverse_gear_enabled)
            + " indirect_under_inflation_reset_status="@
            + bool_text(self.indirect_under_inflation_enabled)
    }

    /// The first parts of the text of `self`, up to part 6.
    #[verifier::opaque]
    pub open spec fn text_prefix_6(self) -> Seq<char> {
        self.text_prefix_5()
            + " automatic_emergency_braking_enabled="@
            + bool_text(self.automatic_emergency_braking_enabled)
            + " collision_alert_sensibility_level="@
            + self.collision_alert_sensibility_level.text()
            + " collision_alert_enabled="@
            + bool_text(self.collision_alert_enabled)
            + " hands_free_tailgate_enabled="@
            + bool_text(self.hands_free_tailgate_enabled)
            + " speed_limit_recognition_enabled="@
            + bool_text(self.speed_limit_recognition_enabled)
    }

    /// The first parts of the text of `self`, up to part 7.
    #[verifier::opaque]
    pub open spec fn text_prefix_7(self) -> Seq<char> {
        self.text_prefix_6()
            + " radiator_grill_lamps_enabled="@
            + bool_text(self.radiator_grill_lamps_enabled)
            + " automatic_main_beam_enabled="@
            + bool_text(self.automatic_main_beam_enabled)
            + " driver_alert_assist_enabled="@
            + bool_text(self.driver_alert_assist_enabled)
            + " hands_free_tailgate_auto_lock_enabled="@
            + bool_text(self.hands_free_tailgate_auto_lock_enabled)
            + " extended_traffic_sign_recognition_enabled="@
            + bool_text(self.extended_traffic_sign_recognition_enabled)
    }

    /// The first parts of the text of `self`, up to part 8.
    #[verifier::opaque]
    pub open spec fn text_prefix_8(self) -> Seq<char> {
        self.text_prefix_7()
            + " ecs_temp_disabled="@
            + bool_text(self.ecs_temp_disabled)
            + " irv_enabled="@
            + bool_text(self.irv_enabled)
    }

    /// Return the text of `self`.
    pub fn to_text(&self) -> (s: String)
        ensures
            s@ == self.text(),
    {
        let mut s = self.text_start();
        self.push_text_part_1(&mut s);
        self.push_text_part_2(&mut s);
        self.push_text_part_3(&mut s);
        self.push_text_part_4(&mut s);
        self.push_text_part_5(&mut s);
        self.push_text_part_6(&mut s);
        self.push_text_part_7(&mut s);
        self.push_text_part_8(&mut s);
        s
    }

    /// The first part of the text of `self`.
    fn text_start(&self) -> (s: String)
        ensures
            s@ == self.text_prefix_0(),
    {
        proof {
            reveal(Repr::text_prefix_0);
        }
        let mut s = String::from_str("x260 consumption_unit=");
        self.consumption_unit.push_text(&mut s);
        s.append(" distance_unit=");
        self.distance_unit.push_text(&mut s);
        s.append(" language=");
        self.language.push_text(&mut s);
        s.append(" units_language_parameters_validity=");
        push_bool(&mut s, self.units_language_parameters_validity);
        s.append(" sound_harmony=");
        self.sound_harmony.push_text(&mut s);
        s
    }

    /// Appends part 1 of the text of `self`.
    fn push_text_part_1(&self, s: &mut String)
        requires
            old(s)@ == self.text_prefix_0(),
        ensures
            final(s)@ == self.text_prefix_1(),
    {
        proof {
            reveal(Repr::text_prefix_1);
        }
        s.append(" parameters_validity=");
        push_bool(s, self.parameters_validity);
        s.append(" mood_lighting_level=");
        self.mood_lighting_level.push_text(s);
        s.append(" temperature_unit=");
        self.temperature_unit.push_text(s);
        s.append(" volume_unit=");
        self.volume_unit.push_text(s);
        s.append(" mood_lighting_enabled=");
        push_bool(s, self.mood_lighting_enabled);
    }

    /// Appends part 2 of the text of `self`.
    fn push_text_part_2(&self, s: &mut String)
        requires
            old(s)@ == self.text_prefix_1(),
        ensures
            final(s)@ == self.text_prefix_2(),
    {
        proof {
            reveal(Repr::text_prefix_2);
        }
        s.append(" daytime_running_lamps_enabled=");
        push_bool(s, self.daytime_running_lamps_enabled);
        s.append(" adaptive_lamps_enabled=");
        push_bool(s, self.adaptive_lamps_enabled);
        s.append(" welcome_function_enabled=");
        push_bool(s, self.welcome_function_enabled);
        s.append(" boot_selective_unlocking_enabled=");
        push_bool(s, self.boot_selective_unlocking_enabled);
        s.append(" selective_unlocking_enabled=");
        push_bool(s, self.selective_unlocking_enabled);
    }

    /// Appends part 3 of the text of `self`.
    fn push_text_part_3(&self, s: &mut String)
        requires
            old(s)@ == self.text_prefix_2(),
        ensures
            final(s)@ == self.text_prefix_3(),
    {
        proof {
            reveal(Repr::text_prefix_3);
        }
        s.append(" key_selective_unlocking_enabled=");
        push_bool(s, self.key_selective_unlocking_enabled);
        s.append(" automatic_elec_parking_brake_application_enabled=");
        push_bool(s, self.automatic_elec_parking_brake_application_enabled);
        s.append(" automatic_headlamps_enabled=");
        push_bool(s, self.automatic_headlamps_enabled);
        s.append(" welcome_lighting_duration=");
        self.welcome_lighting_duration.push_text(s);
        s.append(" welcome_lighting_enabled=");
        push_bool(s, self.welcome_lighting_enabled);
    }

    /// Appends part 4 of the text of `self`.
    fn push_text_part_4(&self, s: &mut String)
        requires
            old(s)@ == self.text_prefix_3(),
        ensures
            final(s)@ == self.text_prefix_4(),
    {
        proof {
            reveal(Repr::text_prefix_4);
        }
        s.append(" motorway_lighting_enabled=");
        push_bool(s, self.motorway_lighting_enabled);
        s.append(" follow_me_home_lighting_duration=");
        self.follow_me_home_lighting_duration.push_text(s);
        s.append(" follow_me_home_enabled=");
        push_bool(s, self.follow_me_home_enabled);
        s.append(" configurable_key_mode=");
        self.configurable_key_mode.push_text(s);
        s.append(" motorized_tailgate_enabled=");
        push_bool(s, self.motorized_tailgate_enabled);
    }

    /// Appends part 5 of the text of `self`.
    fn push_text_part_5(&self, s: &mut String)
        requires
            old(s)@ == self.text_prefix_4(),
        ensures
            final(s)@ == self.text_prefix_5(),
    {
        proof {
            reveal(Repr::text_prefix_5);
        }
        s.append(" rear_wiper_in_reverse_gear_enabled=");
        push_bool(s, self.rear_wiper_in_reverse_gear_enabled);
        s.append(" blind_spot_monitoring_enabled=");
        push_bool(s, self.blind_spot_monitoring_enabled);
        s.append(" park_sensors_enabled=");
        push_bool(s, self.park_sensors_enabled);
        s.append(" mirrors_tilting_in_reverse_gear_enabled=");
        push_bool(s, self.mirrors_tilting_in_reverse_gear_enabled);
        s.append(" indirect_under_inflation_reset_status=");
        push_bool(s, self.indirect_under_inflation_enabled);
    }

    /// Appends part 6 of the text of `self`.
    fn push_text_part_6(&self, s: &mut String)
        requires
            old(s)@ == self.text_prefix_5(),
        ensures
            final(s)@ == self.text_prefix_6(),
    {
        proof {
            reveal(Repr::text_prefix_6);
        }
        s.append(" automatic_emergency_braking_enabled=");
        push_bool(s, self.automatic_emergency_braking_enabled);
        s.append(" collision_alert_sensibility_level=");
        self.collision_alert_sensibility_level.push_text(s);
        s.append(" collision_alert_enabled=");
        push_bool(s, self.collision_alert_enabled);
        s.append(" hands_free_tailgate_enabled=");
        push_bool(s, self.hands_free_tailgate_enabled);
        s.append(" speed_limit_recognition_enabled=");
        push_bool(s, self.speed_limit_recognition_enabled);
    }

    /// Appends part 7 of the text of `self`.
    fn push_text_part_7(&self, s: &mut String)
        requires
            old(s)@ == self.text_prefix_6(),
        ensures
            final(s)@ == self.text_prefix_7(),
    {
        proof {
            reveal(Repr::text_prefix_7);
        }
        s.append(" radiator_grill_lamps_enabled=");
        push_bool(s, self.radiator_grill_lamps_enabled);
        s.append(" automatic_main_beam_enabled=");
        push_bool(s, self.automatic_main_beam_enabled);
        s.append(" driver_alert_assist_enabled=");
        push_bool(s, self.driver_alert_assist_enabled);
        s.append(" hands_free_tailgate_auto_lock_enabled=");
        push_bool(s, self.hands_free_tailgate_auto_lock_enabled);
        s.append(" extended_traffic_sign_recognition_enabled=");
        push_bool(s, self.extended_traffic_sign_recognition_enabled);
    }

    /// Appends part 8 of the text of `self`.
    fn push_text_part_8(&self, s: &mut String)
        requires
            old(s)@ == self.text_prefix_7(),
        ensures
            final(s)@ == self.text_prefix_8(),
    {
        proof {
            reveal(Repr::text_prefix_8);
        }
        s.append(" ecs_temp_disabled=");
        push_bool(s, self.ecs_temp_disabled);
        s.append(" irv_enabled=");
        push_bool(s, self.irv_enabled);
    }

    /// Return the length of a frame that will be emitted from this high-level representation.
    pub fn buffer_len(&self) -> (len: usize)
        ensures
            len == FRAME_LEN,
    {
        FRAME_LEN
    }

    /// Emit a high-level representation into a x15b CAN frame.
    pub fn emit(&self, frame: &mut Frame)
        requires
            FRAME_LEN <= old(frame)@.len(),
        ensures
            final(frame)@ == self.emit_bytes(old(frame)@),
    {
        self.emit_opt_0(frame);
        self.emit_opt_1(frame);
        self.emit_opt_2(frame);
        self.emit_opt_3(frame);
        self.emit_opt_4(frame);
        self.emit_opt_5(frame);
        self.emit_opt_6(frame);
        frame.set_irv_enable(self.irv_enabled);
    }

    /// Write the fields that the byte at `field::OPT_0` carries.
    fn emit_opt_0(&self, frame: &mut Frame)
        requires
            field::OPT_0 < old(frame)@.len(),
        ensures
            final(frame)@ == old(frame)@.update(field::OPT_0 as int, self.opt_0_byte(old(frame)@[field::OPT_0 as int])),
    {
        frame.set_consumption_unit(self.consumption_unit);
        frame.set_distance_unit(self.distance_unit);
        frame.set_language(self.language);
        frame.set_units_language_parameters_validity(self.units_language_parameters_validity);
    }

    /// Write the fields that the byte at `field::OPT_1` carries.
    fn emit_opt_1(&self, frame: &mut Frame)
        requires
            field::OPT_1 < old(frame)@.len(),
        ensures
            final(frame)@ == old(frame)@.update(field::OPT_1 as int, self.opt_1_byte(old(frame)@[field::OPT_1 as int])),
    {
        frame.set_sound_harmony(self.sound_harmony);
        frame.set_parameters_validity(self.parameters_validity);
        frame.set_mood_lighting_level(self.mood_lighting_level);
        frame.set_temperature_unit(self.temperature_unit);
        frame.set_volume_unit(self.volume_unit);
    }

    /// Write the fields that the byte at `field::OPT_2` carries.
    fn emit_opt_2(&self, frame: &mut Frame)
        requires
            field::OPT_2 < old(frame)@.len(),
        ensures
            final(frame)@ == old(frame)@.update(field::OPT_2 as int, self.opt_2_byte(old(frame)@[field::OPT_2 as int])),
    {
        frame.set_mood_lighting_enable(self.mood_lighting_enabled);
        frame.set_daytime_running_lamps_enable(self.daytime_running_lamps_enabled);
        frame.set_adaptive_lamps_enable(self.adaptive_lamps_enabled);
        frame.set_welcome_function_enable(self.welcome_function_enabled);
        frame.set_boot_selective_unlocking_enable(self.boot_selective_unlocking_enabled);
        frame.set_selective_unlocking_enable(self.selective_unlocking_enabled);
        frame.set_key_selective_unlocking_enable(self.key_selective_unlocking_enabled);
        frame.set_auto_elec_parking_brake_application_enable(self.automatic_elec_parking_brake_application_enabled);
    }

    /// Write the fields that the byte at `field::OPT_3` carries.
    fn emit_opt_3(&self, frame: &mut Frame)
        requires
            field::OPT_3 < old(frame)@.len(),
        ensures
            final(frame)@ == old(frame)@.update(field::OPT_3 as int, self.opt_3_byte(old(frame)@[field::OPT_3 as int])),
    {
        frame.set_automatic_headlamps_enable(self.automatic_headlamps_enabled);
        frame.set_welcome_lighting_duration(self.welcome_lighting_duration);
        frame.set_welcome_lighting_enable(self.welcome_lighting_enabled);
        frame.set_motorway_lighting_enable(self.motorway_lighting_enabled);
        frame.set_follow_me_home_lighting_duration(self.follow_me_home_lighting_duration);
        frame.set_follow_me_home_enable(self.follow_me_home_enabled);
    }

    /// Write the fields that the byte at `field::OPT_4` carries.
    fn emit_opt_4(&self, frame: &mut Frame)
        requires
            field::OPT_4 < old(frame)@.len(),
        ensures
            final(frame)@ == old(frame)@.update(field::OPT_4 as int, self.opt_4_byte(old(frame)@[field::OPT_4 as int])),
    {
        frame.set_configurable_key_mode(self.configurable_key_mode);
        frame.set_motorized_tailgate_enable(self.motorized_tailgate_enabled);
        frame.set_rear_wiper_in_reverse_gear_enable(self.rear_wiper_in_reverse_gear_enabled);
        frame.set_blind_spot_monitoring_enable(self.blind_spot_monitoring_enabled);
        frame.set_park_sensors_enable(self.park_sensors_enabled);
    }

    /// Write the fields that the byte at `field::OPT_5` carries.
    fn emit_opt_5(&self, frame: &mut Frame)
        requires
            field::OPT_5 < old(frame)@.len(),
        ensures
            final(frame)@ == old(frame)@.update(field::OPT_5 as int, self.opt_5_byte(old(frame)@[field::OPT_5 as int])),
    {
        frame.set_mirrors_tilting_in_reverse_gear_enable(self.mirrors_tilting_in_reverse_gear_enabled);
        frame.set_indirect_under_inflation_enable(self.indirect_under_inflation_enabled);
        frame.set_automatic_emergency_braking_enable(self.automatic_emergency_braking_enabled);
        frame.set_collision_alert_sensibility_level(self.collision_alert_sensibility_level);
        frame.set_collision_alert_enable(self.collision_alert_enabled);
        frame.set_extended_traffic_sign_recognition_enable(self.extended_traffic_sign_recognition_enabled);
        frame.set_ecs_tempo_disable(self.ecs_temp_disabled);
    }

    /// Write the fields that the byte at `field::OPT_6` carries.
    fn emit_opt_6(&self, frame: &mut Frame)
        requires
            field::OPT_6 < old(frame)@.len(),
        ensures
            final(frame)@ == old(frame)@.update(field::OPT_6 as int, self.opt_6_byte(old(frame)@[field::OPT_6 as int])),
    {
        frame.set_hands_free_tailgate_enable(self.hands_free_tailgate_enabled);
        frame.set_speed_limit_recognition_enable(self.speed_limit_recognition_enabled);
        frame.set_radiator_grill_lamps_enable(self.radiator_grill_lamps_enabled);
        frame.set_automatic_main_beam_enable(self.automatic_main_beam_enabled);
        frame.set_driver_alert_assist_enable(self.driver_alert_assist_enabled);
        frame.set_hands_free_tailgate_auto_lock_enable(self.hands_free_tailgate_auto_lock_enabled);
    }
}

impl Frame {
    /// Return the text of the frame: that of the representation that it
    /// carries, or the error that parsing it gives.
    pub fn to_text(&self) -> (s: String)
        ensures
            s@ == (match length_check(self@.len(), FRAME_LEN as nat) {
                Ok(_) => Repr::from_bytes(self@).text(),
                Err(e) => "x15b ("@ + e.text() + ")"@,
            }),
    {
        match Repr::parse(self) {
            Ok(repr) => repr.to_text(),
            Err(e) => {
                let mut s = String::from_str("x15b (");
                s.append(e.description());
                s.append(")");
                s
            },
        }
    }
}

/// The fields that the byte at `field::OPT_0` carries read back as they were written.
proof fn lemma_opt_0_parse_emit(repr: Repr, b: u8)
    requires
        repr.fits(),
    ensures
        ConsumptionUnit::from_raw(bits(repr.opt_0_byte(b), 0, 1)) == repr.consumption_unit,
        DistanceUnit::from_raw(bits(repr.opt_0_byte(b), 1, 1)) == repr.distance_unit,
        Language::from_raw(bits(repr.opt_0_byte(b), 2, 5)) == repr.language,
        flag(repr.opt_0_byte(b), 7) == repr.units_language_parameters_validity,
{
    broadcast use group_frame_laws;

    lemma_low_mask_values();
}

/// Writing back the fields read from the byte at `field::OPT_0` leaves it unchanged.
proof fn lemma_opt_0_emit_parse(bytes: Seq<u8>)
    requires
        bytes.len() == FRAME_LEN,
    ensures
        Repr::from_bytes(bytes).opt_0_byte(bytes[field::OPT_0 as int]) == bytes[field::OPT_0 as int],
{
    reveal(Repr::from_bytes);
    broadcast use group_frame_laws;

    lemma_low_mask_values();
}

/// The fields that the byte at `field::OPT_1` carries read back as they were written.
proof fn lemma_opt_1_parse_emit(repr: Repr, b: u8)
    requires
        repr.fits(),
    ensures
        SoundHarmony::from_raw(bits(repr.opt_1_byte(b), 0, 2)) == repr.sound_harmony,
        flag(repr.opt_1_byte(b), 2) == repr.parameters_validity,
        MoodLightingLevel::from_raw(bits(repr.opt_1_byte(b), 3, 3)) == repr.mood_lighting_level,
        TemperatureUnit::from_raw(bits(repr.opt_1_byte(b), 6, 1)) == repr.temperature_unit,
        VolumeUnit::from_raw(bits(repr.opt_1_byte(b), 7, 1)) == repr.volume_unit,
{
    broadcast use group_frame_laws;

    lemma_low_mask_values();
}

/// Writing back the fields read from the byte at `field::OPT_1` leaves it unchanged.
proof fn lemma_opt_1_emit_parse(bytes: Seq<u8>)
    requires
        bytes.len() == FRAME_LEN,
    ensures
        Repr::from_bytes(bytes).opt_1_byte(bytes[field::OPT_1 as int]) == bytes[field::OPT_1 as int],
{
    reveal(Repr::from_bytes);
    broadcast use group_frame_laws;

    lemma_low_mask_values();
}

/// The fields that the byte at `field::OPT_2` carries read back as they were written.
proof fn lemma_opt_2_parse_emit(repr: Repr, b: u8)
    requires
        repr.fits(),
    ensures
        flag(repr.opt_2_byte(b), 0) == repr.mood_lighting_enabled,
        flag(repr.opt_2_byte(b), 1) == repr.daytime_running_lamps_enabled,
        flag(repr.opt_2_byte(b), 2) == repr.adaptive_lamps_enabled,
        flag(repr.opt_2_byte(b), 3) == repr.welcome_function_enabled,
        flag(repr.opt_2_byte(b), 4) == repr.boot_selective_unlocking_enabled,
        flag(repr.opt_2_byte(b), 5) == repr.selective_unlocking_enabled,
        flag(repr.opt_2_byte(b), 6) == repr.key_selective_unlocking_enabled,
        flag(repr.opt_2_byte(b), 7) == repr.automatic_elec_parking_brake_application_enabled,
{
    broadcast use group_frame_laws;

    lemma_low_mask_values();
}

/// Writing back the fields read from the byte at `field::OPT_2` leaves it unchanged.
proof fn lemma_opt_2_emit_parse(bytes: Seq<u8>)
    requires
        bytes.len() == FRAME_LEN,
    ensures
        Repr::from_bytes(bytes).opt_2_byte(bytes[field::OPT_2 as int]) == bytes[field::OPT_2 as int],
{
    reveal(Repr::from_bytes);
    broadcast use group_frame_laws;

    lemma_low_mask_values();
}

/// The fields that the byte at `field::OPT_3` carries read back as they were written.
proof fn lemma_opt_3_parse_emit(repr: Repr, b: u8)
    requires
        repr.fits(),
    ensures
        flag(repr.opt_3_byte(b), 0) == repr.automatic_headlamps_enabled,
        LightingDuration::from_raw(bits(repr.opt_3_byte(b), 1, 2)) == repr.welcome_lighting_duration,
        flag(repr.opt_3_byte(b), 3) == repr.welcome_lighting_enabled,
        flag(repr.opt_3_byte(b), 4) == repr.motorway_lighting_enabled,
        LightingDuration::from_raw(bits(repr.opt_3_byte(b), 5, 2)) == repr.follow_me_home_lighting_duration,
        flag(repr.opt_3_byte(b), 7) == repr.follow_me_home_enabled,
{
    broadcast use group_frame_laws;

    lemma_low_mask_values();
}

/// Writing back the fields read from the byte at `field::OPT_3` leaves it unchanged.
proof fn lemma_opt_3_emit_parse(bytes: Seq<u8>)
    requires
        bytes.len() == FRAME_LEN,
    ensures
        Repr::from_bytes(bytes).opt_3_byte(bytes[field::OPT_3 as int]) == bytes[field::OPT_3 as int],
{
    reveal(Repr::from_bytes);
    broadcast use group_frame_laws;

    lemma_low_mask_values();
}

/// The fields that the byte at `field::OPT_4` carries read back as they were written.
proof fn lemma_opt_4_parse_emit(repr: Repr, b: u8)
    requires
        repr.fits(),
    ensures
        ConfigurableKeyAction2010::from_raw(bits(repr.opt_4_byte(b), 0, 4)) == repr.configurable_key_mode,
        flag(repr.opt_4_byte(b), 4) == repr.motorized_tailgate_enabled,
        flag(repr.opt_4_byte(b), 5) == repr.rear_wiper_in_reverse_gear_enabled,
        flag(repr.opt_4_byte(b), 6) == repr.blind_spot_monitoring_enabled,
        flag(repr.opt_4_byte(b), 7) == repr.park_sensors_enabled,
{
    broadcast use group_frame_laws;

    lemma_low_mask_values();
}

/// Writing back the fields read from the byte at `field::OPT_4` leaves it unchanged.
proof fn lemma_opt_4_emit_parse(bytes: Seq<u8>)
    requires
        bytes.len() == FRAME_LEN,
    ensures
        Repr::from_bytes(bytes).opt_4_byte(bytes[field::OPT_4 as int]) == bytes[field::OPT_4 as int],
{
    reveal(Repr::from_bytes);
    broadcast use group_frame_laws;

    lemma_low_mask_values();
}

/// The fields that the byte at `field::OPT_5` carries read back as they were written.
proof fn lemma_opt_5_parse_emit(repr: Repr, b: u8)
    requires
        repr.fits(),
    ensures
        flag(repr.opt_5_byte(b), 2) == repr.mirrors_tilting_in_reverse_gear_enabled,
        flag(repr.opt_5_byte(b), 3) == repr.indirect_under_inflation_enabled,
        flag(repr.opt_5_byte(b), 4) == repr.automatic_emergency_braking_enabled,
        CollisionAlertSensibilityLevel::from_raw(bits(repr.opt_5_byte(b), 5, 2)) == repr.collision_alert_sensibility_level,
        flag(repr.opt_5_byte(b), 7) == repr.collision_alert_enabled,
        flag(repr.opt_5_byte(b), 0) == repr.extended_traffic_sign_recognition_enabled,
        flag(repr.opt_5_byte(b), 1) == repr.ecs_temp_disabled,
{
    broadcast use group_frame_laws;

    lemma_low_mask_values();
}

/// Writing back the fields read from the byte at `field::OPT_5` leaves it unchanged.
proof fn lemma_opt_5_emit_parse(bytes: Seq<u8>)
    requires
        bytes.len() == FRAME_LEN,
    ensures
        Repr::from_bytes(bytes).opt_5_byte(bytes[field::OPT_5 as int]) == bytes[field::OPT_5 as int],
{
    reveal(Repr::from_bytes);
    broadcast use group_frame_laws;

    lemma_low_mask_values();
}

/// The fields that the byte at `field::OPT_6` carries read back as they were written.
proof fn lemma_opt_6_parse_emit(repr: Repr, b: u8)
    requires
        repr.fits(),
    ensures
        flag(repr.opt_6_byte(b), 2) == repr.hands_free_tailgate_enabled,
        flag(repr.opt_6_byte(b), 3) == repr.speed_limit_recognition_enabled,
        flag(repr.opt_6_byte(b), 4) == repr.radiator_grill_lamps_enabled,
        flag(repr.opt_6_byte(b), 5) == repr.automatic_main_beam_enabled,
        flag(repr.opt_6_byte(b), 0) == repr.driver_alert_assist_enabled,
        flag(repr.opt_6_byte(b), 1) == repr.hands_free_tailgate_auto_lock_enabled,
{
    broadcast use group_frame_laws;

    lemma_low_mask_values();
}

/// Writing back the fields read from the byte at `field::OPT_6` leaves it unchanged.
proof fn lemma_opt_6_emit_parse(bytes: Seq<u8>)
    requires
        bytes.len() == FRAME_LEN,
    ensures
        Repr::from_bytes(bytes).opt_6_byte(bytes[field::OPT_6 as int]) == bytes[field::OPT_6 as int],
{
    reveal(Repr::from_bytes);
    broadcast use group_frame_laws;

    lemma_low_mask_values();
}

/// The fields that the byte at `field::OPT_7` carries read back as they were written.
proof fn lemma_opt_7_parse_emit(repr: Repr, b: u8)
    requires
        repr.fits(),
    ensures
        flag(put_flag(b, 2, repr.irv_enabled), 2) == repr.irv_enabled,
{
    broadcast use group_frame_laws;

    lemma_low_mask_values();
}

/// Emitting a representation whose fields fit into the bytes of a frame, then
/// parsing the bytes, gives the representation back.
pub proof fn lemma_parse_emit(repr: Repr, bytes: Seq<u8>)
    requires
        repr.fits(),
        bytes.len() == FRAME_LEN,
    ensures
        Repr::from_bytes(repr.emit_bytes(bytes)) == repr,
{
    let emitted = repr.emit_bytes(bytes);
    assert(emitted[field::OPT_0 as int] == repr.opt_0_byte(bytes[field::OPT_0 as int]));
    assert(emitted[field::OPT_1 as int] == repr.opt_1_byte(bytes[field::OPT_1 as int]));
    assert(emitted[field::OPT_2 as int] == repr.opt_2_byte(bytes[field::OPT_2 as int]));
    assert(emitted[field::OPT_3 as int] == repr.opt_3_byte(bytes[field::OPT_3 as int]));
    assert(emitted[field::OPT_4 as int] == repr.opt_4_byte(bytes[field::OPT_4 as int]));
    assert(emitted[field::OPT_5 as int] == repr.opt_5_byte(bytes[field::OPT_5 as int]));
    assert(emitted[field::OPT_6 as int] == repr.opt_6_byte(bytes[field::OPT_6 as int]));
    assert(emitted[field::OPT_7 as int] == put_flag(bytes[field::OPT_7 as int], 2, repr.irv_enabled));
    lemma_opt_0_parse_emit(repr, bytes[field::OPT_0 as int]);
    lemma_opt_1_parse_emit(repr, bytes[field::OPT_1 as int]);
    lemma_opt_2_parse_emit(repr, bytes[field::OPT_2 as int]);
    lemma_opt_3_parse_emit(repr, bytes[field::OPT_3 as int]);
    lemma_opt_4_parse_emit(repr, bytes[field::OPT_4 as int]);
    lemma_opt_5_parse_emit(repr, bytes[field::OPT_5 as int]);
    lemma_opt_6_parse_emit(repr, bytes[field::OPT_6 as int]);
    lemma_opt_7_parse_emit(repr, bytes[field::OPT_7 as int]);
    Repr::lemma_from_fields(repr, emitted);
}

/// Emitting the representation that the bytes of a frame carry leaves the
/// bytes unchanged.
pub proof fn lemma_emit_parse(bytes: Seq<u8>)
    requires
        bytes.len() == FRAME_LEN,
    ensures
        Repr::from_bytes(bytes).emit_bytes(bytes) == bytes,
{
    reveal(Repr::from_bytes);
    broadcast use group_frame_laws;

    lemma_low_mask_values();
    lemma_opt_0_emit_parse(bytes);
    lemma_opt_1_emit_parse(bytes);
    lemma_opt_2_emit_parse(bytes);
    lemma_opt_3_emit_parse(bytes);
    lemma_opt_4_emit_parse(bytes);
    lemma_opt_5_emit_parse(bytes);
    lemma_opt_6_emit_parse(bytes);
}

/// Each field of a representation reads the bits of the frame that the
/// layout gives it: a word high byte first, a flag or a field through its
/// mask.
pub proof fn lemma_fields_from_bytes(bytes: Seq<u8>)
    requires
        bytes.len() == FRAME_LEN,
    ensures
        Repr::from_bytes(bytes).consumption_unit == ConsumptionUnit::from_raw(bytes[field::OPT_0 as int] & 0x01),
        Repr::from_bytes(bytes).distance_unit == DistanceUnit::from_raw((bytes[field::OPT_0 as int] >> 1u8) & 0x01),
        Repr::from_bytes(bytes).language == Language::from_raw((bytes[field::OPT_0 as int] >> 2u8) & 0x1f),
        Repr::from_bytes(bytes).units_language_parameters_validity == ((bytes[field::OPT_0 as int] & 0x80) != 0),
        Repr::from_bytes(bytes).sound_harmony == SoundHarmony::from_raw(bytes[field::OPT_1 as int] & 0x03),
        Repr::from_bytes(bytes).parameters_validity == ((bytes[field::OPT_1 as int] & 0x04) != 0),
        Repr::from_bytes(bytes).mood_lighting_level == MoodLightingLevel::from_raw((bytes[field::OPT_1 as int] >> 3u8) & 0x07),
        Repr::from_bytes(bytes).temperature_unit == TemperatureUnit::from_raw((bytes[field::OPT_1 as int] >> 6u8) & 0x01),
        Repr::from_bytes(bytes).volume_unit == VolumeUnit::from_raw((bytes[field::OPT_1 as int] >> 7u8) & 0x01),
        Repr::from_bytes(bytes).mood_lighting_enabled == ((bytes[field::OPT_2 as int] & 0x01) != 0),
        Repr::from_bytes(bytes).daytime_running_lamps_enabled == ((bytes[field::OPT_2 as int] & 0x02) != 0),
        Repr::from_bytes(bytes).adaptive_lamps_enabled == ((bytes[field::OPT_2 as int] & 0x04) != 0),
        Repr::from_bytes(bytes).welcome_function_enabled == ((bytes[field::OPT_2 as int] & 0x08) != 0),
        Repr::from_bytes(bytes).boot_selective_unlocking_enabled == ((bytes[field::OPT_2 as int] & 0x10) != 0),
        Repr::from_bytes(bytes).selective_unlocking_enabled == ((bytes[field::OPT_2 as int] & 0x20) != 0),
        Repr::from_bytes(bytes).key_selective_unlocking_enabled == ((bytes[field::OPT_2 as int] & 0x40) != 0),
        Repr::from_bytes(bytes).automatic_elec_parking_brake_application_enabled == ((bytes[field::OPT_2 as int] & 0x80) != 0),
        Repr::from_bytes(bytes).automatic_headlamps_enabled == ((bytes[field::OPT_3 as int] & 0x01) != 0),
        Repr::from_bytes(bytes).welcome_lighting_duration == LightingDuration::from_raw((bytes[field::OPT_3 as int] >> 1u8) & 0x03),
        Repr::from_bytes(bytes).welcome_lighting_enabled == ((bytes[field::OPT_3 as int] & 0x08) != 0),
        Repr::from_bytes(bytes).motorway_lighting_enabled == ((bytes[field::OPT_3 as int] & 0x10) != 0),
        Repr::from_bytes(bytes).follow_me_home_lighting_duration == LightingDuration::from_raw((bytes[field::OPT_3 as int] >> 5u8) & 0x03),
        Repr::from_bytes(bytes).follow_me_home_enabled == ((bytes[field::OPT_3 as int] & 0x80) != 0),
        Repr::from_bytes(bytes).configurable_key_mode == ConfigurableKeyAction2010::from_raw(bytes[field::OPT_4 as int] & 0x0f),
        Repr::from_bytes(bytes).motorized_tailgate_enabled == ((bytes[field::OPT_4 as int] & 0x10) != 0),
        Repr::from_bytes(bytes).rear_wiper_in_reverse_gear_enabled == ((bytes[field::OPT_4 as int] & 0x20) != 0),
        Repr::from_bytes(bytes).blind_spot_monitoring_enabled == ((bytes[field::OPT_4 as int] & 0x40) != 0),
        Repr::from_bytes(bytes).park_sensors_enabled == ((bytes[field::OPT_4 as int] & 0x80) != 0),
        Repr::from_bytes(bytes).mirrors_tilting_in_reverse_gear_enabled == ((bytes[field::OPT_5 as int] & 0x04) != 0),
        Repr::from_bytes(bytes).indirect_under_inflation_enabled == ((bytes[field::OPT_5 as int] & 0x08) != 0),
        Repr::from_bytes(bytes).automatic_emergency_braking_enabled == ((bytes[field::OPT_5 as int] & 0x10) != 0),
        Repr::from_bytes(bytes).collision_alert_sensibility_level == CollisionAlertSensibilityLevel::from_raw((bytes[field::OPT_5 as int] >> 5u8) & 0x03),
        Repr::from_bytes(bytes).collision_alert_enabled == ((bytes[field::OPT_5 as int] & 0x80) != 0),
        Repr::from_bytes(bytes).hands_free_tailgate_enabled == ((bytes[field::OPT_6 as int] & 0x04) != 0),
        Repr::from_bytes(bytes).speed_limit_recognition_enabled == ((bytes[field::OPT_6 as int] & 0x08) != 0),
        Repr::from_bytes(bytes).radiator_grill_lamps_enabled == ((bytes[field::OPT_6 as int] & 0x10) != 0),
        Repr::from_bytes(bytes).automatic_main_beam_enabled == ((bytes[field::OPT_6 as int] & 0x20) != 0),
        Repr::from_bytes(bytes).driver_alert_assist_enabled == ((bytes[field::OPT_6 as int] & 0x01) != 0),
        Repr::from_bytes(bytes).hands_free_tailgate_auto_lock_enabled == ((bytes[field::OPT_6 as int] & 0x02) != 0),
        Repr::from_bytes(bytes).extended_traffic_sign_recognition_enabled == ((bytes[field::OPT_5 as int] & 0x01) != 0),
        Repr::from_bytes(bytes).ecs_temp_disabled == ((bytes[field::OPT_5 as int] & 0x02) != 0),
        Repr::from_bytes(bytes).irv_enabled == ((bytes[field::OPT_7 as int] & 0x04) != 0),
{
    reveal(Repr::from_bytes);
    lemma_low_mask_values();
    lemma_bits_formula(bytes[field::OPT_0 as int], 1, 1);
    lemma_bits_formula(bytes[field::OPT_0 as int], 2, 5);
    lemma_bits_formula(bytes[field::OPT_1 as int], 3, 3);
    lemma_bits_formula(bytes[field::OPT_1 as int], 6, 1);
    lemma_bits_formula(bytes[field::OPT_1 as int], 7, 1);
    lemma_bits_formula(bytes[field::OPT_3 as int], 1, 2);
    lemma_bits_formula(bytes[field::OPT_3 as int], 5, 2);
    lemma_bits_formula(bytes[field::OPT_5 as int], 5, 2);
    lemma_bits_low_formula(bytes[field::OPT_0 as int], 1);
    lemma_bits_low_formula(bytes[field::OPT_1 as int], 2);
    lemma_bits_low_formula(bytes[field::OPT_4 as int], 4);
    lemma_flag_masks(bytes[field::OPT_0 as int]);
    lemma_flag_masks(bytes[field::OPT_1 as int]);
    lemma_flag_masks(bytes[field::OPT_2 as int]);
    lemma_flag_masks(bytes[field::OPT_3 as int]);
    lemma_flag_masks(bytes[field::OPT_4 as int]);
    lemma_flag_masks(bytes[field::OPT_5 as int]);
    lemma_flag_masks(bytes[field::OPT_6 as int]);
    lemma_flag_masks(bytes[field::OPT_7 as int]);
}

/// Every representation that the bytes of a frame carry fits in the frame,
/// so that it can be emitted back.
pub proof fn lemma_parsed_fits(bytes: Seq<u8>)
    requires
        bytes.len() == FRAME_LEN,
    ensures
        Repr::from_bytes(bytes).fits(),
{
    reveal(Repr::from_bytes);
    broadcast use group_frame_laws;

    lemma_low_mask_values();
}

/// The text of a representation shows each field after its name and before
/// the name of the next field, so the fields stand in their order.
pub proof fn lemma_text_shows_fields(repr: Repr)
    ensures
        occurs("x260 consumption_unit="@ + repr.consumption_unit.text() + " distance_unit="@, repr.text()),
        occurs(" distance_unit="@ + repr.distance_unit.text() + " language="@, repr.text()),
        occurs(" language="@ + repr.language.text() + " units_language_parameters_validity="@, repr.text()),
        occurs(" units_language_parameters_validity="@ + bool_text(repr.units_language_parameters_validity) + " sound_harmony="@, repr.text()),
        occurs(" sound_harmony="@ + repr.sound_harmony.text() + " parameters_validity="@, repr.text()),
        occurs(" parameters_validity="@ + bool_text(repr.parameters_validity) + " mood_lighting_level="@, repr.text()),
        occurs(" mood_lighting_level="@ + repr.mood_lighting_level.text() + " temperature_unit="@, repr.text()),
        occurs(" temperature_unit="@ + repr.temperature_unit.text() + " volume_unit="@, repr.text()),
        occurs(" volume_unit="@ + repr.volume_unit.text() + " mood_lighting_enabled="@, repr.text()),
        occurs(" mood_lighting_enabled="@ + bool_text(repr.mood_lighting_enabled) + " daytime_running_lamps_enabled="@, repr.text()),
        occurs(" daytime_running_lamps_enabled="@ + bool_text(repr.daytime_running_lamps_enabled) + " adaptive_lamps_enabled="@, repr.text()),
        occurs(" adaptive_lamps_enabled="@ + bool_text(repr.adaptive_lamps_enabled) + " welcome_function_enabled="@, repr.text()),
        occurs(" welcome_function_enabled="@ + bool_text(repr.welcome_function_enabled) + " boot_selective_unlocking_enabled="@, repr.text()),
        occurs(" boot_selective_unlocking_enabled="@ + bool_text(repr.boot_selective_unlocking_enabled) + " selective_unlocking_enabled="@, repr.text()),
        occurs(" selective_unlocking_enabled="@ + bool_text(repr.selective_unlocking_enabled) + " key_selective_unlocking_enabled="@, repr.text()),
        occurs(" key_selective_unlocking_enabled="@ + bool_text(repr.key_selective_unlocking_enabled) + " automatic_elec_parking_brake_application_enabled="@, repr.text()),
        occurs(" automatic_elec_parking_brake_application_enabled="@ + bool_text(repr.automatic_elec_parking_brake_application_enabled) + " automatic_headlamps_enabled="@, repr.text()),
        occurs(" automatic_headlamps_enabled="@ + bool_text(repr.automatic_headlamps_enabled) + " welcome_lighting_duration="@, repr.text()),
        occurs(" welcome_lighting_duration="@ + repr.welcome_lighting_duration.text() + " welcome_lighting_enabled="@, repr.text()),
        occurs(" welcome_lighting_enabled="@ + bool_text(repr.welcome_lighting_enabled) + " motorway_lighting_enabled="@, repr.text()),
        occurs(" motorway_lighting_enabled="@ + bool_text(repr.motorway_lighting_enabled) + " follow_me_home_lighting_duration="@, repr.text()),
        occurs(" follow_me_home_lighting_duration="@ + repr.follow_me_home_lighting_duration.text() + " follow_me_home_enabled="@, repr.text()),
        occurs(" follow_me_home_enabled="@ + bool_text(repr.follow_me_home_enabled) + " configurable_key_mode="@, repr.text()),
        occurs(" configurable_key_mode="@ + repr.configurable_key_mode.text() + " motorized_tailgate_enabled="@, repr.text()),
        occurs(" motorized_tailgate_enabled="@ + bool_text(repr.motorized_tailgate_enabled) + " rear_wiper_in_reverse_gear_enabled="@, repr.text()),
        occurs(" rear_wiper_in_reverse_gear_enabled="@ + bool_text(repr.rear_wiper_in_reverse_gear_enabled) + " blind_spot_monitoring_enabled="@, repr.text()),
        occurs(" blind_spot_monitoring_enabled="@ + bool_text(repr.blind_spot_monitoring_enabled) + " park_sensors_enabled="@, repr.text()),
        occurs(" park_sensors_enabled="@ + bool_text(repr.park_sensors_enabled) + " mirrors_tilting_in_reverse_gear_enabled="@, repr.text()),
        occurs(" mirrors_tilting_in_reverse_gear_enabled="@ + bool_text(repr.mirrors_tilting_in_reverse_gear_enabled) + " indirect_under_inflation_reset_status="@, repr.text()),
        occurs(" indirect_under_inflation_reset_status="@ + bool_text(repr.indirect_under_inflation_enabled) + " automatic_emergency_braking_enabled="@, repr.text()),
        occurs(" automatic_emergency_braking_enabled="@ + bool_text(repr.automatic_emergency_braking_enabled) + " collision_alert_sensibility_level="@, repr.text()),
        occurs(" collision_alert_sensibility_level="@ + repr.collision_alert_sensibility_level.text() + " collision_alert_enabled="@, repr.text()),
        occurs(" collision_alert_enabled="@ + bool_text(repr.collision_alert_enabled) + " hands_free_tailgate_enabled="@, repr.text()),
        occurs(" hands_free_tailgate_enabled="@ + bool_text(repr.hands_free_tailgate_enabled) + " speed_limit_recognition_enabled="@, repr.text()),
        occurs(" speed_limit_recognition_enabled="@ + bool_text(repr.speed_limit_recognition_enabled) + " radiator_grill_lamps_enabled="@, repr.text()),
        occurs(" radiator_grill_lamps_enabled="@ + bool_text(repr.radiator_grill_lamps_enabled) + " automatic_main_beam_enabled="@, repr.text()),
        occurs(" automatic_main_beam_enabled="@ + bool_text(repr.automatic_main_beam_enabled) + " driver_alert_assist_enabled="@, repr.text()),
        occurs(" driver_alert_assist_enabled="@ + bool_text(repr.driver_alert_assist_enabled) + " hands_free_tailgate_auto_lock_enabled="@, repr.text()),
        occurs(" hands_free_tailgate_auto_lock_enabled="@ + bool_text(repr.hands_free_tailgate_auto_lock_enabled) + " extended_traffic_sign_recognition_enabled="@, repr.text()),
        occurs(" extended_traffic_sign_recognition_enabled="@ + bool_text(repr.extended_traffic_sign_recognition_enabled) + " ecs_temp_disabled="@, repr.text()),
        occurs(" ecs_temp_disabled="@ + bool_text(repr.ecs_temp_disabled) + " irv_enabled="@, repr.text()),
        occurs(" irv_enabled="@ + bool_text(repr.irv_enabled), repr.text()),
{
    lemma_text_part_0_shows_fields(repr);
    lemma_text_part_1_shows_fields(repr);
    lemma_text_prefix_0_grows(repr);
    lemma_text_part_2_shows_fields(repr);
    lemma_text_prefix_1_grows(repr);
    lemma_text_part_3_shows_fields(repr);
    lemma_text_prefix_2_grows(repr);
    lemma_text_part_4_shows_fields(repr);
    lemma_text_prefix_3_grows(repr);
    lemma_text_part_5_shows_fields(repr);
    lemma_text_prefix_4_grows(repr);
    lemma_text_part_6_shows_fields(repr);
    lemma_text_prefix_5_grows(repr);
    lemma_text_part_7_shows_fields(repr);
    lemma_text_prefix_6_grows(repr);
    lemma_text_part_8_shows_fields(repr);
    lemma_text_prefix_7_grows(repr);
}

/// Part 0 of the text of a representation shows each of its fields after
/// its name and before the name of the next field.
proof fn lemma_text_part_0_shows_fields(repr: Repr)
    ensures
        occurs("x260 consumption_unit="@ + repr.consumption_unit.text() + " distance_unit="@, repr.text_prefix_0()),
        occurs(" distance_unit="@ + repr.distance_unit.text() + " language="@, repr.text_prefix_0()),
        occurs(" language="@ + repr.language.text() + " units_language_parameters_validity="@, repr.text_prefix_0()),
        occurs(" units_language_parameters_validity="@ + bool_text(repr.units_language_parameters_validity) + " sound_harmony="@, repr.text_prefix_0()),
{
    reveal(Repr::text_prefix_0);
    broadcast use group_occurs;

}

/// Part 1 of the text of a representation shows each of its fields after
/// its name and before the name of the next field.
proof fn lemma_text_part_1_shows_fields(repr: Repr)
    ensures
        occurs(" sound_harmony="@ + repr.sound_harmony.text() + " parameters_validity="@, repr.text_prefix_1()),
        occurs(" parameters_validity="@ + bool_text(repr.parameters_validity) + " mood_lighting_level="@, repr.text_prefix_1()),
        occurs(" mood_lighting_level="@ + repr.mood_lighting_level.text() + " temperature_unit="@, repr.text_prefix_1()),
        occurs(" temperature_unit="@ + repr.temperature_unit.text() + " volume_unit="@, repr.text_prefix_1()),
        occurs(" volume_unit="@ + repr.volume_unit.text() + " mood_lighting_enabled="@, repr.text_prefix_1()),
{
    reveal(Repr::text_prefix_0);
    reveal(Repr::text_prefix_1);
    broadcast use group_occurs;

}

/// What occurs in the text of a representation up to part 0 occurs in its
/// text up to part 1.
proof fn lemma_text_prefix_0_grows(repr: Repr)
    ensures
        forall|t: Seq<char>| occurs(t, repr.text_prefix_0()) ==> #[trigger] occurs(t, repr.text_prefix_1()),
{
    reveal(Repr::text_prefix_1);
    broadcast use group_occurs;

}

/// Part 2 of the text of a representation shows each of its fields after
/// its name and before the name of the next field.
proof fn lemma_text_part_2_shows_fields(repr: Repr)
    ensures
        occurs(" mood_lighting_enabled="@ + bool_text(repr.mood_lighting_enabled) + " daytime_running_lamps_enabled="@, repr.text_prefix_2()),
        occurs(" daytime_running_lamps_enabled="@ + bool_text(repr.daytime_running_lamps_enabled) + " adaptive_lamps_enabled="@, repr.text_prefix_2()),
        occurs(" adaptive_lamps_enabled="@ + bool_text(repr.adaptive_lamps_enabled) + " welcome_function_enabled="@, repr.text_prefix_2()),
        occurs(" welcome_function_enabled="@ + bool_text(repr.welcome_function_enabled) + " boot_selective_unlocking_enabled="@, repr.text_prefix_2()),
        occurs(" boot_selective_unlocking_enabled="@ + bool_text(repr.boot_selective_unlocking_enabled) + " selective_unlocking_enabled="@, repr.text_prefix_2()),
{
    reveal(Repr::text_prefix_1);
    reveal(Repr::text_prefix_2);
    broadcast use group_occurs;

}

/// What occurs in the text of a representation up to part 1 occurs in its
/// text up to part 2.
proof fn lemma_text_prefix_1_grows(repr: Repr)
    ensures
        forall|t: Seq<char>| occurs(t, repr.text_prefix_1()) ==> #[trigger] occurs(t, repr.text_prefix_2()),
{
    reveal(Repr::text_prefix_2);
    broadcast use group_occurs;

}

/// Part 3 of the text of a representation shows each of its fields after
/// its name and before the name of the next field.
proof fn lemma_text_part_3_shows_fields(repr: Repr)
    ensures
        occurs(" selective_unlocking_enabled="@ + bool_text(repr.selective_unlocking_enabled) + " key_selective_unlocking_enabled="@, repr.text_prefix_3()),
        occurs(" key_selective_unlocking_enabled="@ + bool_text(repr.key_selective_unlocking_enabled) + " automatic_elec_parking_brake_application_enabled="@, repr.text_prefix_3()),
        occurs(" automatic_elec_parking_brake_application_enabled="@ + bool_text(repr.automatic_elec_parking_brake_application_enabled) + " automatic_headlamps_enabled="@, repr.text_prefix_3()),
        occurs(" automatic_headlamps_enabled="@ + bool_text(repr.automatic_headlamps_enabled) + " welcome_lighting_duration="@, repr.text_prefix_3()),
        occurs(" welcome_lighting_duration="@ + repr.welcome_lighting_duration.text() + " welcome_lighting_enabled="@, repr.text_prefix_3()),
{
    reveal(Repr::text_prefix_2);
    reveal(Repr::text_prefix_3);
    broadcast use group_occurs;

}

/// What occurs in the text of a representation up to part 2 occurs in its
/// text up to part 3.
proof fn lemma_text_prefix_2_grows(repr: Repr)
    ensures
        forall|t: Seq<char>| occurs(t, repr.text_prefix_2()) ==> #[trigger] occurs(t, repr.text_prefix_3()),
{
    reveal(Repr::text_prefix_3);
    broadcast use group_occurs;

}

/// Part 4 of the text of a representation shows each of its fields after
/// its name and before the name of the next field.
proof fn lemma_text_part_4_shows_fields(repr: Repr)
    ensures
        occurs(" welcome_lighting_enabled="@ + bool_text(repr.welcome_lighting_enabled) + " motorway_lighting_enabled="@, repr.text_prefix_4()),
        occurs(" motorway_lighting_enabled="@ + bool_text(repr.motorway_lighting_enabled) + " follow_me_home_lighting_duration="@, repr.text_prefix_4()),
        occurs(" follow_me_home_lighting_duration="@ + repr.follow_me_home_lighting_duration.text() + " follow_me_home_enabled="@, repr.text_prefix_4()),
        occurs(" follow_me_home_enabled="@ + bool_text(repr.follow_me_home_enabled) + " configurable_key_mode="@, repr.text_prefix_4()),
        occurs(" configurable_key_mode="@ + repr.configurable_key_mode.text() + " motorized_tailgate_enabled="@, repr.text_prefix_4()),
{
    reveal(Repr::text_prefix_3);
    reveal(Repr::text_prefix_4);
    broadcast use group_occurs;

}

/// What occurs in the text of a representation up to part 3 occurs in its
/// text up to part 4.
proof fn lemma_text_prefix_3_grows(repr: Repr)
    ensures
        forall|t: Seq<char>| occurs(t, repr.text_prefix_3()) ==> #[trigger] occurs(t, repr.text_prefix_4()),
{
    reveal(Repr::text_prefix_4);
    broadcast use group_occurs;

}

/// Part 5 of the text of a representation shows each of its fields after
/// its name and before the name of the next field.
proof fn lemma_text_part_5_shows_fields(repr: Repr)
    ensures
        occurs(" motorized_tailgate_enabled="@ + bool_text(repr.motorized_tailgate_enabled) + " rear_wiper_in_reverse_gear_enabled="@, repr.text_prefix_5()),
        occurs(" rear_wiper_in_reverse_gear_enabled="@ + bool_text(repr.rear_wiper_in_reverse_gear_enabled) + " blind_spot_monitoring_enabled="@, repr.text_prefix_5()),
        occurs(" blind_spot_monitoring_enabled="@ + bool_text(repr.blind_spot_monitoring_enabled) + " park_sensors_enabled="@, repr.text_prefix_5()),
        occurs(" park_sensors_enabled="@ + bool_text(repr.park_sensors_enabled) + " mirrors_tilting_in_reverse_gear_enabled="@, repr.text_prefix_5()),
        occurs(" mirrors_tilting_in_reverse_gear_enabled="@ + bool_text(repr.mirrors_tilting_in_reverse_gear_enabled) + " indirect_under_inflation_reset_status="@, repr.text_prefix_5()),
{
    reveal(Repr::text_prefix_4);
    reveal(Repr::text_prefix_5);
    broadcast use group_occurs;

}

/// What occurs in the text of a representation up to part 4 occurs in its
/// text up to part 5.
proof fn lemma_text_prefix_4_grows(repr: Repr)
    ensures
        forall|t: Seq<char>| occurs(t, repr.text_prefix_4()) ==> #[trigger] occurs(t, repr.text_prefix_5()),
{
    reveal(Repr::text_prefix_5);
    broadcast use group_occurs;

}

/// Part 6 of the text of a representation shows each of its fields after
/// its name and before the name of the next field.
proof fn lemma_text_part_6_shows_fields(repr: Repr)
    ensures
        occurs(" indirect_under_inflation_reset_status="@ + bool_text(repr.indirect_under_inflation_enabled) + " automatic_emergency_braking_enabled="@, repr.text_prefix_6()),
        occurs(" automatic_emergency_braking_enabled="@ + bool_text(repr.automatic_emergency_braking_enabled) + " collision_alert_sensibility_level="@, repr.text_prefix_6()),
        occurs(" collision_alert_sensibility_level="@ + repr.collision_alert_sensibility_level.text() + " collision_alert_enabled="@, repr.text_prefix_6()),
        occurs(" collision_alert_enabled="@ + bool_text(repr.collision_alert_enabled) + " hands_free_tailgate_enabled="@, repr.text_prefix_6()),
        occurs(" hands_free_tailgate_enabled="@ + bool_text(repr.hands_free_tailgate_enabled) + " speed_limit_recognition_enabled="@, repr.text_prefix_6()),
{
    reveal(Repr::text_prefix_5);
    reveal(Repr::text_prefix_6);
    broadcast use group_occurs;

}

/// What occurs in the text of a representation up to part 5 occurs in its
/// text up to part 6.
proof fn lemma_text_prefix_5_grows(repr: Repr)
    ensures
        forall|t: Seq<char>| occurs(t, repr.text_prefix_5()) ==> #[trigger] occurs(t, repr.text_prefix_6()),
{
    reveal(Repr::text_prefix_6);
    broadcast use group_occurs;

}

/// Part 7 of the text of a representation shows each of its fields after
/// its name and before the name of the next field.
proof fn lemma_text_part_7_shows_fields(repr: Repr)
    ensures
        occurs(" speed_limit_recognition_enabled="@ + bool_text(repr.speed_limit_recognition_enabled) + " radiator_grill_lamps_enabled="@, repr.text_prefix_7()),
        occurs(" radiator_grill_lamps_enabled="@ + bool_text(repr.radiator_grill_lamps_enabled) + " automatic_main_beam_enabled="@, repr.text_prefix_7()),
        occurs(" automatic_main_beam_enabled="@ + bool_text(repr.automatic_main_beam_enabled) + " driver_alert_assist_enabled="@, repr.text_prefix_7()),
        occurs(" driver_alert_assist_enabled="@ + bool_text(repr.driver_alert_assist_enabled) + " hands_free_tailgate_auto_lock_enabled="@, repr.text_prefix_7()),
        occurs(" hands_free_tailgate_auto_lock_enabled="@ + bool_text(repr.hands_free_tailgate_auto_lock_enabled) + " extended_traffic_sign_recognition_enabled="@, repr.text_prefix_7()),
{
    reveal(Repr::text_prefix_6);
    reveal(Repr::text_prefix_7);
    broadcast use group_occurs;

}

/// What occurs in the text of a representation up to part 6 occurs in its
/// text up to part 7.
proof fn lemma_text_prefix_6_grows(repr: Repr)
    ensures
        forall|t: Seq<char>| occurs(t, repr.text_prefix_6()) ==> #[trigger] occurs(t, repr.text_prefix_7()),
{
    reveal(Repr::text_prefix_7);
    broadcast use group_occurs;

}

/// Part 8 of the text of a representation shows each of its fields after
/// its name and before the name of the next field.
proof fn lemma_text_part_8_shows_fields(repr: Repr)
    ensures
        occurs(" extended_traffic_sign_recognition_enabled="@ + bool_text(repr.extended_traffic_sign_recognition_enabled) + " ecs_temp_disabled="@, repr.text_prefix_8()),
        occurs(" ecs_temp_disabled="@ + bool_text(repr.ecs_temp_disabled) + " irv_enabled="@, repr.text_prefix_8()),
        occurs(" irv_enabled="@ + bool_text(repr.irv_enabled), repr.text_prefix_8()),
{
    reveal(Repr::text_prefix_7);
    reveal(Repr::text_prefix_8);
    broadcast use group_occurs;

}

/// What occurs in the text of a representation up to part 7 occurs in its
/// text up to part 8.
proof fn lemma_text_prefix_7_grows(repr: Repr)
    ensures
        forall|t: Seq<char>| occurs(t, repr.text_prefix_7()) ==> #[trigger] occurs(t, repr.text_prefix_8()),
{
    reveal(Repr::text_prefix_8);
    broadcast use group_occurs;

}

} // verus!
