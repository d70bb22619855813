//! The x1e5 CAN frame: radio audio settings.
use crate::bitfield::{bits, flag, lemma_bits_formula, lemma_bits_low_formula, lemma_flag_masks, lemma_low_mask_values, put_bits, put_flag, read_bits, read_flag, write_bits, write_flag};
use crate::config::ConfigOption;
use crate::config::MusicalAmbiance;
use crate::config::SoundRepartition;
use crate::{check_frame_len, group_frame_laws, length_check, Error};
use crate::text::{bool_text, decimal_text, group_occurs, occurs, push_bool, push_decimal};
use vstd::prelude::*;

pub mod field;

verus! {

/// A read/write wrapper around a x1e5 CAN frame buffer.
#[derive(Debug, PartialEq, Clone)]
pub struct Frame {
    buffer: Vec<u8>,
}

impl View for Frame {
    type V = Seq<u8>;

    closed spec fn view(&self) -> Seq<u8> {
        self.buffer@
    }
}

impl AsRef<[u8]> for Frame {
    /// The bytes of the frame.
    fn as_ref(&self) -> (bytes: &[u8])
        ensures
            bytes@ == self@,
    {
        self.buffer.as_slice()
    }
}

/// Raw x1e5 CAN frame identifier.
pub const FRAME_ID: u16 = 0x1e5;

/// Length of a x1e5 CAN frame.
pub const FRAME_LEN: usize = field::SPATIAL_SPECTRAL_REPARTITION + 1;

impl Frame {
    /// Create a raw octet buffer with a CAN frame structure.
    pub fn new_unchecked(buffer: Vec<u8>) -> (frame: Frame)
        ensures
            frame@ == buffer@,
    {
        Frame { buffer }
    }

    /// Shorthand for a combination of `new_unchecked` and `check_len`.
    pub fn new_checked(buffer: Vec<u8>) -> (r: Result<Frame, Error>)
        ensures
            r is Ok <==> buffer@.len() == FRAME_LEN,
            r matches Ok(frame) ==> frame@ == buffer@,
            r matches Err(e) ==> length_check(buffer@.len(), FRAME_LEN as nat) == Err::<(), Error>(e),
    {
        let frame = Self::new_unchecked(buffer);
        match frame.check_len() {
            Ok(()) => Ok(frame),
            Err(e) => Err(e),
        }
    }

    /// Ensure that no accessor method will panic if called.
    /// Returns `Err(Error::Truncated)` if the buffer is too short and
    /// `Err(Error::Overlong)` if it is too long.
    pub fn check_len(&self) -> (r: Result<(), Error>)
        ensures
            r == length_check(self@.len(), FRAME_LEN as nat),
    {
        check_frame_len(self.buffer.len(), FRAME_LEN)
    }

    /// Consume the frame, returning the underlying buffer.
    pub fn into_inner(self) -> (buffer: Vec<u8>)
        ensures
            buffer@ == self@,
    {
        self.buffer
    }

    /// Return the frame length.
    pub fn frame_len(&self) -> (len: usize)
        ensures
            len == FRAME_LEN,
    {
        FRAME_LEN
    }

    /// Return the balance option activation field.
    pub fn balance_option(&self) -> (value: ConfigOption)
        requires
            field::BALANCE_OPT_ADJ < self@.len(),
        ensures
            value == ConfigOption::from_raw(bits(self@[field::BALANCE_OPT_ADJ as int], 0, 2)),
    {
        ConfigOption::from(read_bits(self.buffer[field::BALANCE_OPT_ADJ], 0, 2))
    }

    /// Return the balance level field.
    pub fn balance_level(&self) -> (value: u8)
        requires
            field::BALANCE_OPT_ADJ < self@.len(),
        ensures
            value == bits(self@[field::BALANCE_OPT_ADJ as int], 2, 5),
    {
        read_bits(self.buffer[field::BALANCE_OPT_ADJ], 2, 5)
    }

    /// Return the balance under adjustment flag.
    pub fn balance_under_adjustment(&self) -> (value: bool)
        requires
            field::BALANCE_OPT_ADJ < self@.len(),
        ensures
            value == flag(self@[field::BALANCE_OPT_ADJ as int], 7),
    {
        read_flag(self.buffer[field::BALANCE_OPT_ADJ], 7)
    }

    /// Return the fader option activation field.
    pub fn fader_option(&self) -> (value: ConfigOption)
        requires
            field::FADER_OPT_ADJ < self@.len(),
        ensures
            value == ConfigOption::from_raw(bits(self@[field::FADER_OPT_ADJ as int], 0, 2)),
    {
        ConfigOption::from(read_bits(self.buffer[field::FADER_OPT_ADJ], 0, 2))
    }

    /// Return the fader level field.
    pub fn fader_level(&self) -> (value: u8)
        requires
            field::FADER_OPT_ADJ < self@.len(),
        ensures
            value == bits(self@[field::FADER_OPT_ADJ as int], 2, 5),
    {
        read_bits(self.buffer[field::FADER_OPT_ADJ], 2, 5)
    }

    /// Return the fader under adjustment flag.
    pub fn fader_under_adjustment(&self) -> (value: bool)
        requires
            field::FADER_OPT_ADJ < self@.len(),
        ensures
            value == flag(self@[field::FADER_OPT_ADJ as int], 7),
    {
        read_flag(self.buffer[field::FADER_OPT_ADJ], 7)
    }

    /// Return the bass option activation field.
    pub fn bass_option(&self) -> (value: ConfigOption)
        requires
            field::BASS_OPT_ADJ < self@.len(),
        ensures
            value == ConfigOption::from_raw(bits(self@[field::BASS_OPT_ADJ as int], 0, 2)),
    {
        ConfigOption::from(read_bits(self.buffer[field::BASS_OPT_ADJ], 0, 2))
    }

    /// Return the bass level field.
    pub fn bass_level(&self) -> (value: u8)
        requires
            field::BASS_OPT_ADJ < self@.len(),
        ensures
            value == bits(self@[field::BASS_OPT_ADJ as int], 2, 5),
    {
        read_bits(self.buffer[field::BASS_OPT_ADJ], 2, 5)
    }

    /// Return the bass under adjustment flag.
    pub fn bass_under_adjustment(&self) -> (value: bool)
        requires
            field::BASS_OPT_ADJ < self@.len(),
        ensures
            value == flag(self@[field::BASS_OPT_ADJ as int], 7),
    {
        read_flag(self.buffer[field::BASS_OPT_ADJ], 7)
    }

    /// Return the treble option activation field.
    pub fn treble_option(&self) -> (value: ConfigOption)
        requires
            field::TREBLE_OPT_ADJ < self@.len(),
        ensures
            value == ConfigOption::from_raw(bits(self@[field::TREBLE_OPT_ADJ as int], 0, 2)),
    {
        ConfigOption::from(read_bits(self.buffer[field::TREBLE_OPT_ADJ], 0, 2))
    }

    /// Return the treble level field.
    pub fn treble_level(&self) -> (value: u8)
        requires
            field::TREBLE_OPT_ADJ < self@.len(),
        ensures
            value == bits(self@[field::TREBLE_OPT_ADJ as int], 2, 5),
    {
        read_bits(self.buffer[field::TREBLE_OPT_ADJ], 2, 5)
    }

    /// Return the middle under adjustment flag.
    pub fn treble_under_adjustment(&self) -> (value: bool)
        requires
            field::TREBLE_OPT_ADJ < self@.len(),
        ensures
            value == flag(self@[field::TREBLE_OPT_ADJ as int], 7),
    {
        read_flag(self.buffer[field::TREBLE_OPT_ADJ], 7)
    }

    /// Return the speed dependent volume option activation field (via diagnostic session).
    pub fn speed_dependent_volume_option(&self) -> (value: ConfigOption)
        requires
            field::SPD_VOL_ADJ_LOUD_ADJ < self@.len(),
        ensures
            value == ConfigOption::from_raw(bits(self@[field::SPD_VOL_ADJ_LOUD_ADJ as int], 0, 2)),
    {
        ConfigOption::from(read_bits(self.buffer[field::SPD_VOL_ADJ_LOUD_ADJ], 0, 2))
    }

    /// Return whether speed-dependent volume is enabled or not.
    pub fn speed_dependent_volume_enabled(&self) -> (value: bool)
        requires
            field::SPD_VOL_ADJ_LOUD_ADJ < self@.len(),
        ensures
            value == flag(self@[field::SPD_VOL_ADJ_LOUD_ADJ as int], 2),
    {
        read_flag(self.buffer[field::SPD_VOL_ADJ_LOUD_ADJ], 2)
    }

    /// Return the speed-dependent volume under adjustment flag.
    pub fn speed_dependent_volume_under_adjustment(&self) -> (value: bool)
        requires
            field::SPD_VOL_ADJ_LOUD_ADJ < self@.len(),
        ensures
            value == flag(self@[field::SPD_VOL_ADJ_LOUD_ADJ as int], 3),
    {
        read_flag(self.buffer[field::SPD_VOL_ADJ_LOUD_ADJ], 3)
    }

    /// Return whether loudness is enabled or not.
    pub fn loudness_enabled(&self) -> (value: bool)
        requires
            field::SPD_VOL_ADJ_LOUD_ADJ < self@.len(),
        ensures
            value == flag(self@[field::SPD_VOL_ADJ_LOUD_ADJ as int], 4),
    {
        read_flag(self.buffer[field::SPD_VOL_ADJ_LOUD_ADJ], 4)
    }

    /// Return the speed dependent volume option activation field.
    pub fn loudness_option(&self) -> (value: ConfigOption)
        requires
            field::SPD_VOL_ADJ_LOUD_ADJ < self@.len(),
        ensures
            value == ConfigOption::from_raw(bits(self@[field::SPD_VOL_ADJ_LOUD_ADJ as int], 5, 2)),
    {
        ConfigOption::from(read_bits(self.buffer[field::SPD_VOL_ADJ_LOUD_ADJ], 5, 2))
    }

    /// Return the loudness under adjustment flag.
    pub fn loudness_under_adjustment(&self) -> (value: bool)
        requires
            field::SPD_VOL_ADJ_LOUD_ADJ < self@.len(),
        ensures
            value == flag(self@[field::SPD_VOL_ADJ_LOUD_ADJ as int], 7),
    {
        read_flag(self.buffer[field::SPD_VOL_ADJ_LOUD_ADJ], 7)
    }

    /// Return the sound repartition option activation field.
    pub fn sound_repartition_option(&self) -> (value: ConfigOption)
        requires
            field::REPARTITION_AMBIANCE < self@.len(),
        ensures
            value == ConfigOption::from_raw(bits(self@[field::REPARTITION_AMBIANCE as int], 0, 2)),
    {
        ConfigOption::from(read_bits(self.buffer[field::REPARTITION_AMBIANCE], 0, 2))
    }

    /// Return the musical ambiance under adjustment flag.
    pub fn musical_ambiance_under_adjustment(&self) -> (value: bool)
        requires
            field::REPARTITION_AMBIANCE < self@.len(),
        ensures
            value == flag(self@[field::REPARTITION_AMBIANCE as int], 2),
    {
        read_flag(self.buffer[field::REPARTITION_AMBIANCE], 2)
    }

    /// Return the musical ambiance field.
    pub fn musical_ambiance(&self) -> (value: MusicalAmbiance)
        requires
            field::REPARTITION_AMBIANCE < self@.len(),
        ensures
            value == MusicalAmbiance::from_raw(bits(self@[field::REPARTITION_AMBIANCE as int], 3, 3)),
    {
        MusicalAmbiance::from(read_bits(self.buffer[field::REPARTITION_AMBIANCE], 3, 3))
    }

    /// Return the musical ambiance option activation field.
    pub fn musical_ambiance_option(&self) -> (value: ConfigOption)
        requires
            field::REPARTITION_AMBIANCE < self@.len(),
        ensures
            value == ConfigOption::from_raw(bits(self@[field::REPARTITION_AMBIANCE as int], 6, 2)),
    {
        ConfigOption::from(read_bits(self.buffer[field::REPARTITION_AMBIANCE], 6, 2))
    }

    /// Return the spatial sound under adjustment flag.
    pub fn spatial_sound_under_adjustment(&self) -> (value: bool)
        requires
            field::SPATIAL_SPECTRAL_REPARTITION < self@.len(),
        ensures
            value == flag(self@[field::SPATIAL_SPECTRAL_REPARTITION as int], 1),
    {
        read_flag(self.buffer[field::SPATIAL_SPECTRAL_REPARTITION], 1)
    }

    /// Return the spectral sound under adjustment flag.
    pub fn spectral_sound_under_adjustment(&self) -> (value: bool)
        requires
            field::SPATIAL_SPECTRAL_REPARTITION < self@.len(),
        ensures
            value == flag(self@[field::SPATIAL_SPECTRAL_REPARTITION as int], 2),
    {
        read_flag(self.buffer[field::SPATIAL_SPECTRAL_REPARTITION], 2)
    }

    /// Return the impossible setting with phone as audio source flag.
    pub fn impossible_setting(&self) -> (value: bool)
        requires
            field::SPATIAL_SPECTRAL_REPARTITION < self@.len(),
        ensures
            value == flag(self@[field::SPATIAL_SPECTRAL_REPARTITION as int], 3),
    {
        read_flag(self.buffer[field::SPATIAL_SPECTRAL_REPARTITION], 3)
    }

    /// Return the sound repartition field.
    pub fn sound_repartition(&self) -> (value: SoundRepartition)
        requires
            field::SPATIAL_SPECTRAL_REPARTITION < self@.len(),
        ensures
            value == SoundRepartition::from_raw(bits(self@[field::SPATIAL_SPECTRAL_REPARTITION as int], 4, 3)),
    {
        SoundRepartition::from(read_bits(self.buffer[field::SPATIAL_SPECTRAL_REPARTITION], 4, 3))
    }

    /// Return the sound repartition under adjustment flag.
    pub fn sound_repartition_under_adjustment(&self) -> (value: bool)
        requires
            field::SPATIAL_SPECTRAL_REPARTITION < self@.len(),
        ensures
            value == flag(self@[field::SPATIAL_SPECTRAL_REPARTITION as int], 7),
    {
        read_flag(self.buffer[field::SPATIAL_SPECTRAL_REPARTITION], 7)
    }

    /// Set the balance option activation field.
    pub fn set_balance_option(&mut self, value: ConfigOption)
        requires
            field::BALANCE_OPT_ADJ < old(self)@.len(),
        ensures
            final(self)@ == old(self)@.update(field::BALANCE_OPT_ADJ as int, put_bits(old(self)@[field::BALANCE_OPT_ADJ as int], 0, 2, value.raw())),
    {
        let raw = write_bits(self.buffer[field::BALANCE_OPT_ADJ], 0, 2, u8::from(value));
        self.buffer.set(field::BALANCE_OPT_ADJ, raw);
    }

    /// Set the balance level field.
    pub fn set_balance_level(&mut self, value: u8)
        requires
            field::BALANCE_OPT_ADJ < old(self)@.len(),
        ensures
            final(self)@ == old(self)@.update(field::BALANCE_OPT_ADJ as int, put_bits(old(self)@[field::BALANCE_OPT_ADJ as int], 2, 5, value)),
    {
        let raw = write_bits(self.buffer[field::BALANCE_OPT_ADJ], 2, 5, value);
        self.buffer.set(field::BALANCE_OPT_ADJ, raw);
    }

    /// Set the balance under adjustment flag.
    pub fn set_balance_under_adjustment(&mut self, value: bool)
        requires
            field::BALANCE_OPT_ADJ < old(self)@.len(),
        ensures
            final(self)@ == old(self)@.update(field::BALANCE_OPT_ADJ as int, put_flag(old(self)@[field::BALANCE_OPT_ADJ as int], 7, value)),
    {
        let raw = write_flag(self.buffer[field::BALANCE_OPT_ADJ], 7, value);
        self.buffer.set(field::BALANCE_OPT_ADJ, raw);
    }

    /// Set the fader option activation field.
    pub fn set_fader_option(&mut self, value: ConfigOption)
        requires
            field::FADER_OPT_ADJ < old(self)@.len(),
        ensures
            final(self)@ == old(self)@.update(field::FADER_OPT_ADJ as int, put_bits(old(self)@[field::FADER_OPT_ADJ as int], 0, 2, value.raw())),
    {
        let raw = write_bits(self.buffer[field::FADER_OPT_ADJ], 0, 2, u8::from(value));
        self.buffer.set(field::FADER_OPT_ADJ, raw);
    }

    /// Set the fader level field.
    pub fn set_fader_level(&mut self, value: u8)
        requires
            field::FADER_OPT_ADJ < old(self)@.len(),
        ensures
            final(self)@ == old(self)@.update(field::FADER_OPT_ADJ as int, put_bits(old(self)@[field::FADER_OPT_ADJ as int], 2, 5, value)),
    {
        let raw = write_bits(self.buffer[field::FADER_OPT_ADJ], 2, 5, value);
        self.buffer.set(field::FADER_OPT_ADJ, raw);
    }

    /// Set the fader under adjustment flag.
    pub fn set_fader_under_adjustment(&mut self, value: bool)
        requires
            field::FADER_OPT_ADJ < old(self)@.len(),
        ensures
            final(self)@ == old(self)@.update(field::FADER_OPT_ADJ as int, put_flag(old(self)@[field::FADER_OPT_ADJ as int], 7, value)),
    {
        let raw = write_flag(self.buffer[field::FADER_OPT_ADJ], 7, value);
        self.buffer.set(field::FADER_OPT_ADJ, raw);
    }

    /// Set the bass option activation field.
    pub fn set_bass_option(&mut self, value: ConfigOption)
        requires
            field::BASS_OPT_ADJ < old(self)@.len(),
        ensures
            final(self)@ == old(self)@.update(field::BASS_OPT_ADJ as int, put_bits(old(self)@[field::BASS_OPT_ADJ as int], 0, 2, value.raw())),
    {
        let raw = write_bits(self.buffer[field::BASS_OPT_ADJ], 0, 2, u8::from(value));
        self.buffer.set(field::BASS_OPT_ADJ, raw);
    }

    /// Set the bass level field.
    pub fn set_bass_level(&mut self, value: u8)
        requires
            field::BASS_OPT_ADJ < old(self)@.len(),
        ensures
            final(self)@ == old(self)@.update(field::BASS_OPT_ADJ as int, put_bits(old(self)@[field::BASS_OPT_ADJ as int], 2, 5, value)),
    {
        let raw = write_bits(self.buffer[field::BASS_OPT_ADJ], 2, 5, value);
        self.buffer.set(field::BASS_OPT_ADJ, raw);
    }

    /// Set the bass under adjustment flag.
    pub fn set_bass_under_adjustment(&mut self, value: bool)
        requires
            field::BASS_OPT_ADJ < old(self)@.len(),
        ensures
            final(self)@ == old(self)@.update(field::BASS_OPT_ADJ as int, put_flag(old(self)@[field::BASS_OPT_ADJ as int], 7, value)),
    {
        let raw = write_flag(self.buffer[field::BASS_OPT_ADJ], 7, value);
        self.buffer.set(field::BASS_OPT_ADJ, raw);
    }

    /// Set the treble option activation field.
    pub fn set_treble_option(&mut self, value: ConfigOption)
        requires
            field::TREBLE_OPT_ADJ < old(self)@.len(),
        ensures
            final(self)@ == old(self)@.update(field::TREBLE_OPT_ADJ as int, put_bits(old(self)@[field::TREBLE_OPT_ADJ as int], 0, 2, value.raw())),
    {
        let raw = write_bits(self.buffer[field::TREBLE_OPT_ADJ], 0, 2, u8::from(value));
        self.buffer.set(field::TREBLE_OPT_ADJ, raw);
    }

    /// Set the treble level field.
    pub fn set_treble_level(&mut self, value: u8)
        requires
            field::TREBLE_OPT_ADJ < old(self)@.len(),
        ensures
            final(self)@ == old(self)@.update(field::TREBLE_OPT_ADJ as int, put_bits(old(self)@[field::TREBLE_OPT_ADJ as int], 2, 5, value)),
    {
        let raw = write_bits(self.buffer[field::TREBLE_OPT_ADJ], 2, 5, value);
        self.buffer.set(field::TREBLE_OPT_ADJ, raw);
    }

    /// Set the treble under adjustment flag.
    pub fn set_treble_under_adjustment(&mut self, value: bool)
        requires
            field::TREBLE_OPT_ADJ < old(self)@.len(),
        ensures
            final(self)@ == old(self)@.update(field::TREBLE_OPT_ADJ as int, put_flag(old(self)@[field::TREBLE_OPT_ADJ as int], 7, value)),
    {
        let raw = write_flag(self.buffer[field::TREBLE_OPT_ADJ], 7, value);
        self.buffer.set(field::TREBLE_OPT_ADJ, raw);
    }

    /// Set the speed dependent volume option activation field (via diagnostic session).
    pub fn set_speed_dependent_volume_option(&mut self, value: ConfigOption)
        requires
            field::SPD_VOL_ADJ_LOUD_ADJ < old(self)@.len(),
        ensures
            final(self)@ == old(self)@.update(field::SPD_VOL_ADJ_LOUD_ADJ as int, put_bits(old(self)@[field::SPD_VOL_ADJ_LOUD_ADJ as int], 0, 2, value.raw())),
    {
        let raw = write_bits(self.buffer[field::SPD_VOL_ADJ_LOUD_ADJ], 0, 2, u8::from(value));
        self.buffer.set(field::SPD_VOL_ADJ_LOUD_ADJ, raw);
    }

    /// Set whether speed-dependent volume is enabled or not.
    pub fn set_speed_dependent_volume_enabled(&mut self, value: bool)
        requires
            field::SPD_VOL_ADJ_LOUD_ADJ < old(self)@.len(),
        ensures
            final(self)@ == old(self)@.update(field::SPD_VOL_ADJ_LOUD_ADJ as int, put_flag(old(self)@[field::SPD_VOL_ADJ_LOUD_ADJ as int], 2, value)),
    {
        let raw = write_flag(self.buffer[field::SPD_VOL_ADJ_LOUD_ADJ], 2, value);
        self.buffer.set(field::SPD_VOL_ADJ_LOUD_ADJ, raw);
    }

    /// Set the speed-dependent volume under adjustment flag.
    pub fn set_speed_dependent_volume_under_adjustment(&mut self, value: bool)
        requires
            field::SPD_VOL_ADJ_LOUD_ADJ < old(self)@.len(),
        ensures
            final(self)@ == old(self)@.update(field::SPD_VOL_ADJ_LOUD_ADJ as int, put_flag(old(self)@[field::SPD_VOL_ADJ_LOUD_ADJ as int], 3, value)),
    {
        let raw = write_flag(self.buffer[field::SPD_VOL_ADJ_LOUD_ADJ], 3, value);
        self.buffer.set(field::SPD_VOL_ADJ_LOUD_ADJ, raw);
    }

    /// Set the loudness enabled flag.
    pub fn set_loudness_enabled(&mut self, value: bool)
        requires
            field::SPD_VOL_ADJ_LOUD_ADJ < old(self)@.len(),
        ensures
            final(self)@ == old(self)@.update(field::SPD_VOL_ADJ_LOUD_ADJ as int, put_flag(old(self)@[field::SPD_VOL_ADJ_LOUD_ADJ as int], 4, value)),
    {
        let raw = write_flag(self.buffer[field::SPD_VOL_ADJ_LOUD_ADJ], 4, value);
        self.buffer.set(field::SPD_VOL_ADJ_LOUD_ADJ, raw);
    }

    /// Set the loudness option activation field.
    pub fn set_loudness_option(&mut self, value: ConfigOption)
        requires
            field::SPD_VOL_ADJ_LOUD_ADJ < old(self)@.len(),
        ensures
            final(self)@ == old(self)@.update(field::SPD_VOL_ADJ_LOUD_ADJ as int, put_bits(old(self)@[field::SPD_VOL_ADJ_LOUD_ADJ as int], 5, 2, value.raw())),
    {
        let raw = write_bits(self.buffer[field::SPD_VOL_ADJ_LOUD_ADJ], 5, 2, u8::from(value));
        self.buffer.set(field::SPD_VOL_ADJ_LOUD_ADJ, raw);
    }

    /// Set the loudness under adjustment flag.
    pub fn set_loudness_under_adjustment(&mut self, value: bool)
        requires
            field::SPD_VOL_ADJ_LOUD_ADJ < old(self)@.len(),
        ensures
            final(self)@ == old(self)@.update(field::SPD_VOL_ADJ_LOUD_ADJ as int, put_flag(old(self)@[field::SPD_VOL_ADJ_LOUD_ADJ as int], 7, value)),
    {
        let raw = write_flag(self.buffer[field::SPD_VOL_ADJ_LOUD_ADJ], 7, value);
        self.buffer.set(field::SPD_VOL_ADJ_LOUD_ADJ, raw);
    }

    /// Set the sound repartition option activation field.
    pub fn set_sound_repartition_option(&mut self, value: ConfigOption)
        requires
            field::REPARTITION_AMBIANCE < old(self)@.len(),
        ensures
            final(self)@ == old(self)@.update(field::REPARTITION_AMBIANCE as int, put_bits(old(self)@[field::REPARTITION_AMBIANCE as int], 0, 2, value.raw())),
    {
        let raw = write_bits(self.buffer[field::REPARTITION_AMBIANCE], 0, 2, u8::from(value));
        self.buffer.set(field::REPARTITION_AMBIANCE, raw);
    }

    /// Set the musical ambiance under adjustment flag.
    pub fn set_musical_ambiance_under_adjustment(&mut self, value: bool)
        requires
            field::REPARTITION_AMBIANCE < old(self)@.len(),
        ensures
            final(self)@ == old(self)@.update(field::REPARTITION_AMBIANCE as int, put_flag(old(self)@[field::REPARTITION_AMBIANCE as int], 2, value)),
    {
        let raw = write_flag(self.buffer[field::REPARTITION_AMBIANCE], 2, value);
        self.buffer.set(field::REPARTITION_AMBIANCE, raw);
    }

    /// Set the musical ambiance field.
    pub fn set_musical_ambiance(&mut self, value: MusicalAmbiance)
        requires
            field::REPARTITION_AMBIANCE < old(self)@.len(),
        ensures
            final(self)@ == old(self)@.update(field::REPARTITION_AMBIANCE as int, put_bits(old(self)@[field::REPARTITION_AMBIANCE as int], 3, 3, value.raw())),
    {
        let raw = write_bits(self.buffer[field::REPARTITION_AMBIANCE], 3, 3, u8::from(value));
        self.buffer.set(field::REPARTITION_AMBIANCE, raw);
    }

    /// Set the musical ambiance option activation field.
    pub fn set_musical_ambiance_option(&mut self, value: ConfigOption)
        requires
            field::REPARTITION_AMBIANCE < old(self)@.len(),
        ensures
            final(self)@ == old(self)@.update(field::REPARTITION_AMBIANCE as int, put_bits(old(self)@[field::REPARTITION_AMBIANCE as int], 6, 2, value.raw())),
    {
        let raw = write_bits(self.buffer[field::REPARTITION_AMBIANCE], 6, 2, u8::from(value));
        self.buffer.set(field::REPARTITION_AMBIANCE, raw);
    }

    /// Set the spatial sound under adjustment flag.
    pub fn set_spatial_sound_under_adjustment(&mut self, value: bool)
        requires
            field::SPATIAL_SPECTRAL_REPARTITION < old(self)@.len(),
        ensures
            final(self)@ == old(self)@.update(field::SPATIAL_SPECTRAL_REPARTITION as int, put_flag(old(self)@[field::SPATIAL_SPECTRAL_REPARTITION as int], 1, value)),
    {
        let raw = write_flag(self.buffer[field::SPATIAL_SPECTRAL_REPARTITION], 1, value);
        self.buffer.set(field::SPATIAL_SPECTRAL_REPARTITION, raw);
    }

    /// Set the spectral sound under adjustment flag.
    pub fn set_spectral_sound_under_adjustment(&mut self, value: bool)
        requires
            field::SPATIAL_SPECTRAL_REPARTITION < old(self)@.len(),
        ensures
            final(self)@ == old(self)@.update(field::SPATIAL_SPECTRAL_REPARTITION as int, put_flag(old(self)@[field::SPATIAL_SPECTRAL_REPARTITION as int], 2, value)),
    {
        let raw = write_flag(self.buffer[field::SPATIAL_SPECTRAL_REPARTITION], 2, value);
        self.buffer.set(field::SPATIAL_SPECTRAL_REPARTITION, raw);
    }

    /// Set the impossible setting with phone as audio source flag.
    pub fn set_impossible_setting(&mut self, value: bool)
        requires
            field::SPATIAL_SPECTRAL_REPARTITION < old(self)@.len(),
        ensures
            final(self)@ == old(self)@.update(field::SPATIAL_SPECTRAL_REPARTITION as int, put_flag(old(self)@[field::SPATIAL_SPECTRAL_REPARTITION as int], 3, value)),
    {
        let raw = write_flag(self.buffer[field::SPATIAL_SPECTRAL_REPARTITION], 3, value);
        self.buffer.set(field::SPATIAL_SPECTRAL_REPARTITION, raw);
    }

    /// Set the sound repartition field.
    pub fn set_sound_repartition(&mut self, value: SoundRepartition)
        requires
            field::SPATIAL_SPECTRAL_REPARTITION < old(self)@.len(),
        ensures
            final(self)@ == old(self)@.update(field::SPATIAL_SPECTRAL_REPARTITION as int, put_bits(old(self)@[field::SPATIAL_SPECTRAL_REPARTITION as int], 4, 3, value.raw())),
    {
        let raw = write_bits(self.buffer[field::SPATIAL_SPECTRAL_REPARTITION], 4, 3, u8::from(value));
        self.buffer.set(field::SPATIAL_SPECTRAL_REPARTITION, raw);
    }

    /// Set the sound repartition under adjustment flag.
    pub fn set_sound_repartition_under_adjustment(&mut self, value: bool)
        requires
            field::SPATIAL_SPECTRAL_REPARTITION < old(self)@.len(),
        ensures
            final(self)@ == old(self)@.update(field::SPATIAL_SPECTRAL_REPARTITION as int, put_flag(old(self)@[field::SPATIAL_SPECTRAL_REPARTITION as int], 7, value)),
    {
        let raw = write_flag(self.buffer[field::SPATIAL_SPECTRAL_REPARTITION], 7, value);
        self.buffer.set(field::SPATIAL_SPECTRAL_REPARTITION, raw);
    }
}

/// A high-level representation of a x1e5 CAN frame.
#[derive(Debug, PartialEq, Eq, Clone, Copy)]
pub struct Repr {
    pub balance_opt: ConfigOption,
    pub balance_level: u8,
    pub balance_under_adj: bool,
    pub fader_opt: ConfigOption,
    pub fader_level: u8,
    pub fader_under_adj: bool,
    pub bass_opt: ConfigOption,
    pub bass_level: u8,
    pub bass_under_adj: bool,
    pub treble_opt: ConfigOption,
    pub treble_level: u8,
    pub treble_under_adj: bool,
    pub speed_dependent_volume_opt: ConfigOption,
    pub speed_dependent_volume_enabled: bool,
    pub speed_dependent_volume_under_adj: bool,
    pub loudness_opt: ConfigOption,
    pub loudness_enabled: bool,
    pub loudness_under_adj: bool,
    pub musical_ambiance_opt: ConfigOption,
    pub musical_ambiance: MusicalAmbiance,
    pub musical_ambiance_under_adj: bool,
    pub sound_repartition_opt: ConfigOption,
    pub sound_repartition: SoundRepartition,
    pub sound_repartition_under_adj: bool,
    pub spatial_sound_under_adj: bool,
    pub spectral_sound_under_adj: bool,
    pub impossible_setting: bool,
}

impl Repr {
    /// The representation that the bytes of a frame carry.
    #[verifier::opaque]
    pub open spec fn from_bytes(bytes: Seq<u8>) -> Repr {
        Repr {
            balance_opt: ConfigOption::from_raw(bits(bytes[field::BALANCE_OPT_ADJ as int], 0, 2)),
            balance_level: bits(bytes[field::BALANCE_OPT_ADJ as int], 2, 5),
            balance_under_adj: flag(bytes[field::BALANCE_OPT_ADJ as int], 7),
            fader_opt: ConfigOption::from_raw(bits(bytes[field::FADER_OPT_ADJ as int], 0, 2)),
            fader_level: bits(bytes[field::FADER_OPT_ADJ as int], 2, 5),
            fader_under_adj: flag(bytes[field::FADER_OPT_ADJ as int], 7),
            bass_opt: ConfigOption::from_raw(bits(bytes[field::BASS_OPT_ADJ as int], 0, 2)),
            bass_level: bits(bytes[field::BASS_OPT_ADJ as int], 2, 5),
            bass_under_adj: flag(bytes[field::BASS_OPT_ADJ as int], 7),
            treble_opt: ConfigOption::from_raw(bits(bytes[field::TREBLE_OPT_ADJ as int], 0, 2)),
            treble_level: bits(bytes[field::TREBLE_OPT_ADJ as int], 2, 5),
            treble_under_adj: flag(bytes[field::TREBLE_OPT_ADJ as int], 7),
            speed_dependent_volume_opt: ConfigOption::from_raw(bits(bytes[field::SPD_VOL_ADJ_LOUD_ADJ as int], 0, 2)),
            speed_dependent_volume_enabled: flag(bytes[field::SPD_VOL_ADJ_LOUD_ADJ as int], 2),
            speed_dependent_volume_under_adj: flag(bytes[field::SPD_VOL_ADJ_LOUD_ADJ as int], 3),
            loudness_opt: ConfigOption::from_raw(bits(bytes[field::SPD_VOL_ADJ_LOUD_ADJ as int], 5, 2)),
            loudness_enabled: flag(bytes[field::SPD_VOL_ADJ_LOUD_ADJ as int], 4),
            loudness_under_adj: flag(bytes[field::SPD_VOL_ADJ_LOUD_ADJ as int], 7),
            musical_ambiance_opt: ConfigOption::from_raw(bits(bytes[field::REPARTITION_AMBIANCE as int], 6, 2)),
            musical_ambiance: MusicalAmbiance::from_raw(bits(bytes[field::REPARTITION_AMBIANCE as int], 3, 3)),
            musical_ambiance_under_adj: flag(bytes[field::REPARTITION_AMBIANCE as int], 2),
            sound_repartition_opt: ConfigOption::from_raw(bits(bytes[field::REPARTITION_AMBIANCE as int], 0, 2)),
            sound_repartition: SoundRepartition::from_raw(bits(bytes[field::SPATIAL_SPECTRAL_REPARTITION as int], 4, 3)),
            sound_repartition_under_adj: flag(bytes[field::SPATIAL_SPECTRAL_REPARTITION as int], 7),
            spatial_sound_under_adj: flag(bytes[field::SPATIAL_SPECTRAL_REPARTITION as int], 1),
            spectral_sound_under_adj: flag(bytes[field::SPATIAL_SPECTRAL_REPARTITION as int], 2),
            impossible_setting: flag(bytes[field::SPATIAL_SPECTRAL_REPARTITION as int], 3),
        }
    }

    /// The byte at `field::BALANCE_OPT_ADJ` once the fields that it carries are written into `b`.
    pub open spec fn balance_opt_adj_byte(self, b: u8) -> u8 {
        put_flag(put_bits(put_bits(b, 0, 2, self.balance_opt.raw()), 2, 5, self.balance_level), 7, self.balance_under_adj)
    }

    /// The byte at `field::FADER_OPT_ADJ` once the fields that it carries are written into `b`.
    pub open spec fn fader_opt_adj_byte(self, b: u8) -> u8 {
        put_flag(put_bits(put_bits(b, 0, 2, self.fader_opt.raw()), 2, 5, self.fader_level), 7, self.fader_under_adj)
    }

    /// The byte at `field::BASS_OPT_ADJ` once the fields that it carries are written into `b`.
    pub open spec fn bass_opt_adj_byte(self, b: u8) -> u8 {
        put_flag(put_bits(put_bits(b, 0, 2, self.bass_opt.raw()), 2, 5, self.bass_level), 7, self.bass_under_adj)
    }

    /// The byte at `field::TREBLE_OPT_ADJ` once the fields that it carries are written into `b`.
    pub open spec fn treble_opt_adj_byte(self, b: u8) -> u8 {
        put_flag(put_bits(put_bits(b, 0, 2, self.treble_opt.raw()), 2, 5, self.treble_level), 7, self.treble_under_adj)
    }

    /// The byte at `field::SPD_VOL_ADJ_LOUD_ADJ` once the fields that it carries are written into `b`.
    pub open spec fn spd_vol_adj_loud_adj_byte(self, b: u8) -> u8 {
        put_flag(put_flag(put_bits(put_flag(put_flag(put_bits(b, 0, 2, self.speed_dependent_volume_opt.raw()), 2, self.speed_dependent_volume_enabled), 3, self.speed_dependent_volume_under_adj), 5, 2, self.loudness_opt.raw()), 4, self.loudness_enabled), 7, self.loudness_under_adj)
    }

    /// The byte at `field::REPARTITION_AMBIANCE` once the fields that it carries are written into `b`.
    pub open spec fn repartition_ambiance_byte(self, b: u8) -> u8 {
        put_bits(put_flag(put_bits(put_bits(b, 6, 2, self.musical_ambiance_opt.raw()), 3, 3, self.musical_ambiance.raw()), 2, self.musical_ambiance_under_adj), 0, 2, self.sound_repartition_opt.raw())
    }

    /// The byte at `field::SPATIAL_SPECTRAL_REPARTITION` once the fields that it carries are written into `b`.
    pub open spec fn spatial_spectral_repartition_byte(self, b: u8) -> u8 {
        put_flag(put_flag(put_flag(put_flag(put_bits(b, 4, 3, self.sound_repartition.raw()), 7, self.sound_repartition_under_adj), 1, self.spatial_sound_under_adj), 2, self.spectral_sound_under_adj), 3, self.impossible_setting)
    }

    /// The bytes of a frame once `self` is emitted into them.
    pub open spec fn emit_bytes(self, bytes: Seq<u8>) -> Seq<u8> {
        bytes.update(
            field::BALANCE_OPT_ADJ as int,
            self.balance_opt_adj_byte(bytes[field::BALANCE_OPT_ADJ as int]),
        ).update(
            field::FADER_OPT_ADJ as int,
            self.fader_opt_adj_byte(bytes[field::FADER_OPT_ADJ as int]),
        ).update(
            field::BASS_OPT_ADJ as int,
            self.bass_opt_adj_byte(bytes[field::BASS_OPT_ADJ as int]),
        ).update(
            field::TREBLE_OPT_ADJ as int,
            self.treble_opt_adj_byte(bytes[field::TREBLE_OPT_ADJ as int]),
        ).update(
            field::SPD_VOL_ADJ_LOUD_ADJ as int,
            self.spd_vol_adj_loud_adj_byte(bytes[field::SPD_VOL_ADJ_LOUD_ADJ as int]),
        ).update(
            field::REPARTITION_AMBIANCE as int,
            self.repartition_ambiance_byte(bytes[field::REPARTITION_AMBIANCE as int]),
        ).update(
            field::SPATIAL_SPECTRAL_REPARTITION as int,
            self.spatial_spectral_repartition_byte(bytes[field::SPATIAL_SPECTRAL_REPARTITION as int]),
        )
    }

    /// Every field of `self` fits in the bits that the frame gives it.
    pub open spec fn fits(self) -> bool {
        &&& ConfigOption::from_raw(self.balance_opt.raw()) == self.balance_opt && self.balance_opt.raw() < 4
        &&& self.balance_level < 32
        &&& ConfigOption::from_raw(self.fader_opt.raw()) == self.fader_opt && self.fader_opt.raw() < 4
        &&& self.fader_level < 32
        &&& ConfigOption::from_raw(self.bass_opt.raw()) == self.bass_opt && self.bass_opt.raw() < 4
        &&& self.bass_level < 32
        &&& ConfigOption::from_raw(self.treble_opt.raw()) == self.treble_opt && self.treble_opt.raw() < 4
        &&& self.treble_level < 32
        &&& ConfigOption::from_raw(self.speed_dependent_volume_opt.raw()) == self.speed_dependent_volume_opt && self.speed_dependent_volume_opt.raw() < 4
        &&& ConfigOption::from_raw(self.loudness_opt.raw()) == self.loudness_opt && self.loudness_opt.raw() < 4
        &&& ConfigOption::from_raw(self.musical_ambiance_opt.raw()) == self.musical_ambiance_opt && self.musical_ambiance_opt.raw() < 4
        &&& MusicalAmbiance::from_raw(self.musical_ambiance.raw()) == self.musical_ambiance && self.musical_ambiance.raw() < 8
        &&& ConfigOption::from_raw(self.sound_repartition_opt.raw()) == self.sound_repartition_opt && self.sound_repartition_opt.raw() < 4
        &&& SoundRepartition::from_raw(self.sound_repartition.raw()) == self.sound_repartition && self.sound_repartition.raw() < 8
    }

    /// Parse a x1e5 CAN frame into its high-level representation.
    pub fn parse(frame: &Frame) -> (r: Result<Repr, Error>)
        ensures
            r is Ok <==> frame@.len() == FRAME_LEN,
            r matches Ok(repr) ==> repr == Repr::from_bytes(frame@),
            r matches Err(e) ==> length_check(frame@.len(), FRAME_LEN as nat) == Err::<(), Error>(e),
    {
        if let Err(e) = frame.check_len() {
            return Err(e);
        }
        Ok(Self::read_fields(frame))
    }

    /// The representation that the bytes of `frame` carry.
    fn read_fields(frame: &Frame) -> (repr: Repr)
        requires
            FRAME_LEN <= frame@.len(),
        ensures
            repr == Repr::from_bytes(frame@),
    {
        let repr = Repr {
            balance_opt: frame.balance_option(),
            balance_level: frame.balance_level(),
            balance_under_adj: frame.balance_under_adjustment(),
            fader_opt: frame.fader_option(),
            fader_level: frame.fader_level(),
            fader_under_adj: frame.fader_under_adjustment(),
            bass_opt: frame.bass_option(),
            bass_level: frame.bass_level(),
            bass_under_adj: frame.bass_under_adjustment(),
            treble_opt: frame.treble_option(),
            treble_level: frame.treble_level(),
            treble_under_adj: frame.treble_under_adjustment(),
            speed_dependent_volume_opt: frame.speed_dependent_volume_option(),
            speed_dependent_volume_enabled: frame.speed_dependent_volume_enabled(),
            speed_dependent_volume_under_adj: frame.speed_dependent_volume_under_adjustment(),
            loudness_opt: frame.loudness_option(),
            loudness_enabled: frame.loudness_enabled(),
            loudness_under_adj: frame.loudness_under_adjustment(),
            musical_ambiance_opt: frame.musical_ambiance_option(),
            musical_ambiance: frame.musical_ambiance(),
            musical_ambiance_under_adj: frame.musical_ambiance_under_adjustment(),
            sound_repartition_opt: frame.sound_repartition_option(),
            sound_repartition: frame.sound_repartition(),
            sound_repartition_under_adj: frame.sound_repartition_under_adjustment(),
            spatial_sound_under_adj: frame.spatial_sound_under_adjustment(),
            spectral_sound_under_adj: frame.spectral_sound_under_adjustment(),
            impossible_setting: frame.impossible_setting(),
        };
        proof {
            Repr::lemma_from_fields(repr, frame@);
        }
        repr
    }

    /// A representation whose every field holds what `bytes` carry is the
    /// representation that `bytes` carry.
    proof fn lemma_from_fields(repr: Repr, bytes: Seq<u8>)
        requires
            repr.balance_opt == ConfigOption::from_raw(bits(bytes[field::BALANCE_OPT_ADJ as int], 0, 2)),
            repr.balance_level == bits(bytes[field::BALANCE_OPT_ADJ as int], 2, 5),
            repr.balance_under_adj == flag(bytes[field::BALANCE_OPT_ADJ as int], 7),
            repr.fader_opt == ConfigOption::from_raw(bits(bytes[field::FADER_OPT_ADJ as int], 0, 2)),
            repr.fader_level == bits(bytes[field::FADER_OPT_ADJ as int], 2, 5),
            repr.fader_under_adj == flag(bytes[field::FADER_OPT_ADJ as int], 7),
            repr.bass_opt == ConfigOption::from_raw(bits(bytes[field::BASS_OPT_ADJ as int], 0, 2)),
            repr.bass_level == bits(bytes[field::BASS_OPT_ADJ as int], 2, 5),
            repr.bass_under_adj == flag(bytes[field::BASS_OPT_ADJ as int], 7),
            repr.treble_opt == ConfigOption::from_raw(bits(bytes[field::TREBLE_OPT_ADJ as int], 0, 2)),
            repr.treble_level == bits(bytes[field::TREBLE_OPT_ADJ as int], 2, 5),
            repr.treble_under_adj == flag(bytes[field::TREBLE_OPT_ADJ as int], 7),
            repr.speed_dependent_volume_opt == ConfigOption::from_raw(bits(bytes[field::SPD_VOL_ADJ_LOUD_ADJ as int], 0, 2)),
            repr.speed_dependent_volume_enabled == flag(bytes[field::SPD_VOL_ADJ_LOUD_ADJ as int], 2),
            repr.speed_dependent_volume_under_adj == flag(bytes[field::SPD_VOL_ADJ_LOUD_ADJ as int], 3),
            repr.loudness_opt == ConfigOption::from_raw(bits(bytes[field::SPD_VOL_ADJ_LOUD_ADJ as int], 5, 2)),
            repr.loudness_enabled == flag(bytes[field::SPD_VOL_ADJ_LOUD_ADJ as int], 4),
            repr.loudness_under_adj == flag(bytes[field::SPD_VOL_ADJ_LOUD_ADJ as int], 7),
            repr.musical_ambiance_opt == ConfigOption::from_raw(bits(bytes[field::REPARTITION_AMBIANCE as int], 6, 2)),
            repr.musical_ambiance == MusicalAmbiance::from_raw(bits(bytes[field::REPARTITION_AMBIANCE as int], 3, 3)),
            repr.musical_ambiance_under_adj == flag(bytes[field::REPARTITION_AMBIANCE as int], 2),
            repr.sound_repartition_opt == ConfigOption::from_raw(bits(bytes[field::REPARTITION_AMBIANCE as int], 0, 2)),
            repr.sound_repartition == SoundRepartition::from_raw(bits(bytes[field::SPATIAL_SPECTRAL_REPARTITION as int], 4, 3)),
            repr.sound_repartition_under_adj == flag(bytes[field::SPATIAL_SPECTRAL_REPARTITION as int], 7),
            repr.spatial_sound_under_adj == flag(bytes[field::SPATIAL_SPECTRAL_REPARTITION as int], 1),
            repr.spectral_sound_under_adj == flag(bytes[field::SPATIAL_SPECTRAL_REPARTITION as int], 2),
            repr.impossible_setting == flag(bytes[field::SPATIAL_SPECTRAL_REPARTITION as int], 3),
        ensures
            repr == Repr::from_bytes(bytes),
    {
        reveal(Repr::from_bytes);
    }

    /// The text of `self`: each field by name, with its value.
    pub open spec fn text(self) -> Seq<char> {
        self.text_prefix_5()
    }

    /// The first part of the text of `self`, up to part 0.
    #[verifier::opaque]
    pub open spec fn text_prefix_0(self) -> Seq<char> {
        "x1e5 balance opt="@
            + self.balance_opt.text()
            + "\n balance_level="@
            + decimal_text(self.balance_level as nat)
            + "\n balance_under_adj="@
            + bool_text(self.balance_under_adj)
            + "\n fader_opt="@
            + self.fader_opt.text()
            + "\n fader_level="@
            + decimal_text(self.fader_level as nat)
    }

    /// The first parts of the text of `self`, up to part 1.
    #[verifier::opaque]
    pub open spec fn text_prefix_1(self) -> Seq<char> {
        self.text_prefix_0()
            + "\n fader_under_adj="@
            + bool_text(self.fader_under_adj)
            + "\n bass_opt="@
            + self.bass_opt.text()
            + "\n bass_level="@
            + decimal_text(self.bass_level as nat)
            + "\n bass_under_adj="@
            + bool_text(self.bass_under_adj)
            + "\n treble_opt="@
            + self.treble_opt.text()
    }

    /// The first parts of the text of `self`, up to part 2.
    #[verifier::opaque]
    pub open spec fn text_prefix_2(self) -> Seq<char> {
        self.text_prefix_1()
            + "\n treble_level="@
            + decimal_text(self.treble_level as nat)
            + "\n treble_under_adj="@
            + bool_text(self.treble_under_adj)
            + "\n speed_dependent_volume_opt="@
            + self.speed_dependent_volume_opt.text()
            + "\n speed_dependent_volume_enabled="@
            + bool_text(self.speed_dependent_volume_enabled)
            + "\n speed_dependent_volume_under_adj="@
            + bool_text(self.speed_dependent_volume_under_adj)
    }

    /// The first parts of the text of `self`, up to part 3.
    #[verifier::opaque]
    pub open spec fn text_prefix_3(self) -> Seq<char> {
        self.text_prefix_2()
            + "\n loudness_opt="@
            + self.loudness_opt.text()
            + "\n loudness_enabled="@
            + bool_text(self.loudness_enabled)
            + "\n loudness_under_adj="@
            + bool_text(self.loudness_under_adj)
            + "\n musical_ambiance_opt="@
            + self.musical_ambiance_opt.text()
            + "\n musical_ambiance="@
            + self.musical_ambiance.text()
    }

    /// The first parts of the text of `self`, up to part 4.
    #[verifier::opaque]
    pub open spec fn text_prefix_4(self) -> Seq<char> {
        self.text_prefix_3()
            + "\n musical_ambiance_under_adj="@
            + bool_text(self.musical_ambiance_under_adj)
            + "\n sound_repartition_opt="@
            + self.sound_repartition_opt.text()
            + "\n sound_repartition ="@
            + self.sound_repartition.text()
            + "\n sound_repartition_under_adj="@
            + bool_text(self.sound_repartition_under_adj)
            + "\n spatial_sound_under_adj="@
            + bool_text(self.spatial_sound_under_adj)
    }

    /// The first parts of the text of `self`, up to part 5.
    #[verifier::opaque]
    pub open spec fn text_prefix_5(self) -> Seq<char> {
        self.text_prefix_4()
            + "\n spectral_sound_under_adj="@
            + bool_text(self.spectral_sound_under_adj)
            + "\n impossible_setting="@
            + bool_text(self.impossible_setting)
            + "\n"@
    }

    /// Return the text of `self`.
    pub fn to_text(&self) -> (s: String)
        ensures
            s@ == self.text(),
    {
        let mut s = self.text_start();
        self.push_text_part_1(&mut s);
        self.push_text_part_2(&mut s);
        self.push_text_part_3(&mut s);
        self.push_text_part_4(&mut s);
        self.push_text_part_5(&mut s);
        s
    }

    /// The first part of the text of `self`.
    fn text_start(&self) -> (s: String)
        ensures
            s@ == self.text_prefix_0(),
    {
        proof {
            reveal(Repr::text_prefix_0);
        }
        let mut s = String::from_str("x1e5 balance opt=");
        self.balance_opt.push_text(&mut s);
        s.append("\n balance_level=");
        push_decimal(&mut s, self.balance_level as u64);
        s.append("\n balance_under_adj=");
        push_bool(&mut s, self.balance_under_adj);
        s.append("\n fader_opt=");
        self.fader_opt.push_text(&mut s);
        s.append("\n fader_level=");
        push_decimal(&mut s, self.fader_level as u64);
        s
    }

    /// Appends part 1 of the text of `self`.
    fn push_text_part_1(&self, s: &mut String)
        requires
            old(s)@ == self.text_prefix_0(),
        ensures
            final(s)@ == self.text_prefix_1(),
    {
        proof {
            reveal(Repr::text_prefix_1);
        }
        s.append("\n fader_under_adj=");
        push_bool(s, self.fader_under_adj);
        s.append("\n bass_opt=");
        self.bass_opt.push_text(s);
        s.append("\n bass_level=");
        push_decimal(s, self.bass_level as u64);
        s.append("\n bass_under_adj=");
        push_bool(s, self.bass_under_adj);
        s.append("\n treble_opt=");
        self.treble_opt.push_text(s);
    }

    /// Appends part 2 of the text of `self`.
    fn push_text_part_2(&self, s: &mut String)
        requires
            old(s)@ == self.text_prefix_1(),
        ensures
            final(s)@ == self.text_prefix_2(),
    {
        proof {
            reveal(Repr::text_prefix_2);
        }
        s.append("\n treble_level=");
        push_decimal(s, self.treble_level as u64);
        s.append("\n treble_under_adj=");
        push_bool(s, self.treble_under_adj);
        s.append("\n speed_dependent_volume_opt=");
        self.speed_dependent_volume_opt.push_text(s);
        s.append("\n speed_dependent_volume_enabled=");
        push_bool(s, self.speed_dependent_volume_enabled);
        s.append("\n speed_dependent_volume_under_adj=");
        push_bool(s, self.speed_dependent_volume_under_adj);
    }

    /// Appends part 3 of the text of `self`.
    fn push_text_part_3(&self, s: &mut String)
        requires
            old(s)@ == self.text_prefix_2(),
        ensures
            final(s)@ == self.text_prefix_3(),
    {
        proof {
            reveal(Repr::text_prefix_3);
        }
        s.append("\n loudness_opt=");
        self.loudness_opt.push_text(s);
        s.append("\n loudness_enabled=");
        push_bool(s, self.loudness_enabled);
        s.append("\n loudness_under_adj=");
        push_bool(s, self.loudness_under_adj);
        s.append("\n musical_ambiance_opt=");
        self.musical_ambiance_opt.push_text(s);
        s.append("\n musical_ambiance=");
        self.musical_ambiance.push_text(s);
    }

    /// Appends part 4 of the text of `self`.
    fn push_text_part_4(&self, s: &mut String)
        requires
            old(s)@ == self.text_prefix_3(),
        ensures
            final(s)@ == self.text_prefix_4(),
    {
        proof {
            reveal(Repr::text_prefix_4);
        }
        s.append("\n musical_ambiance_under_adj=");
        push_bool(s, self.musical_ambiance_under_adj);
        s.append("\n sound_repartition_opt=");
        self.sound_repartition_opt.push_text(s);
        s.append("\n sound_repartition =");
        self.sound_repartition.push_text(s);
        s.append("\n sound_repartition_under_adj=");
        push_bool(s, self.sound_repartition_under_adj);
        s.append("\n spatial_sound_under_adj=");
        push_bool(s, self.spatial_sound_under_adj);
    }

    /// Appends part 5 of the text of `self`.
    fn push_text_part_5(&self, s: &mut String)
        requires
            old(s)@ == self.text_prefix_4(),
        ensures
            final(s)@ == self.text_prefix_5(),
    {
        proof {
            reveal(Repr::text_prefix_5);
        }
        s.append("\n spectral_sound_under_adj=");
        push_bool(s, self.spectral_sound_under_adj);
        s.append("\n impossible_setting=");
        push_bool(s, self.impossible_setting);
        s.append("\n");
    }

    /// Return the length of a frame that will be emitted from this high-level representation.
    pub fn buffer_len(&self) -> (len: usize)
        ensures
            len == FRAME_LEN,
    {
        FRAME_LEN
    }

    /// Emit a high-level representation into a x1e5 CAN frame.
    pub fn emit(&self, frame: &mut Frame)
        requires
            FRAME_LEN <= old(frame)@.len(),
        ensures
            final(frame)@ == self.emit_bytes(old(frame)@),
    {
        self.emit_balance_opt_adj(frame);
        self.emit_fader_opt_adj(frame);
        self.emit_bass_opt_adj(frame);
        self.emit_treble_opt_adj(frame);
        self.emit_spd_vol_adj_loud_adj(frame);
        self.emit_repartition_ambiance(frame);
        self.emit_spatial_spectral_repartition(frame);
    }

    /// Write the fields that the byte at `field::BALANCE_OPT_ADJ` carries.
    fn emit_balance_opt_adj(&self, frame: &mut Frame)
        requires
            field::BALANCE_OPT_ADJ < old(frame)@.len(),
        ensures
            final(frame)@ == old(frame)@.update(field::BALANCE_OPT_ADJ as int, self.balance_opt_adj_byte(old(frame)@[field::BALANCE_OPT_ADJ as int])),
    {
        frame.set_balance_option(self.balance_opt);
        frame.set_balance_level(self.balance_level);
        frame.set_balance_under_adjustment(self.balance_under_adj);
    }

    /// Write the fields that the byte at `field::FADER_OPT_ADJ` carries.
    fn emit_fader_opt_adj(&self, frame: &mut Frame)
        requires
            field::FADER_OPT_ADJ < old(frame)@.len(),
        ensures
            final(frame)@ == old(frame)@.update(field::FADER_OPT_ADJ as int, self.fader_opt_adj_byte(old(frame)@[field::FADER_OPT_ADJ as int])),
    {
        frame.set_fader_option(self.fader_opt);
        frame.set_fader_level(self.fader_level);
        frame.set_fader_under_adjustment(self.fader_under_adj);
    }

    /// Write the fields that the byte at `field::BASS_OPT_ADJ` carries.
    fn emit_bass_opt_adj(&self, frame: &mut Frame)
        requires
            field::BASS_OPT_ADJ < old(frame)@.len(),
        ensures
            final(frame)@ == old(frame)@.update(field::BASS_OPT_ADJ as int, self.bass_opt_adj_byte(old(frame)@[field::BASS_OPT_ADJ as int])),
    {
        frame.set_bass_option(self.bass_opt);
        frame.set_bass_level(self.bass_level);
        frame.set_bass_under_adjustment(self.bass_under_adj);
    }

    /// Write the fields that the byte at `field::TREBLE_OPT_ADJ` carries.
    fn emit_treble_opt_adj(&self, frame: &mut Frame)
        requires
            field::TREBLE_OPT_ADJ < old(frame)@.len(),
        ensures
            final(frame)@ == old(frame)@.update(field::TREBLE_OPT_ADJ as int, self.treble_opt_adj_byte(old(frame)@[field::TREBLE_OPT_ADJ as int])),
    {
        frame.set_treble_option(self.treble_opt);
        frame.set_treble_level(self.treble_level);
        frame.set_treble_under_adjustment(self.treble_under_adj);
    }

    /// Write the fields that the byte at `field::SPD_VOL_ADJ_LOUD_ADJ` carries.
    fn emit_spd_vol_adj_loud_adj(&self, frame: &mut Frame)
        requires
            field::SPD_VOL_ADJ_LOUD_ADJ < old(frame)@.len(),
        ensures
            final(frame)@ == old(frame)@.update(field::SPD_VOL_ADJ_LOUD_ADJ as int, self.spd_vol_adj_loud_adj_byte(old(frame)@[field::SPD_VOL_ADJ_LOUD_ADJ as int])),
    {
        frame.set_speed_dependent_volume_option(self.speed_dependent_volume_opt);
        frame.set_speed_dependent_volume_enabled(self.speed_dependent_volume_enabled);
        frame.set_speed_dependent_volume_under_adjustment(self.speed_dependent_volume_under_adj);
        frame.set_loudness_option(self.loudness_opt);
        frame.set_loudness_enabled(self.loudness_enabled);
        frame.set_loudness_under_adjustment(self.loudness_under_adj);
    }

    /// Write the fields that the byte at `field::REPARTITION_AMBIANCE` carries.
    fn emit_repartition_ambiance(&self, frame: &mut Frame)
        requires
            field::REPARTITION_AMBIANCE < old(frame)@.len(),
        ensures
            final(frame)@ == old(frame)@.update(field::REPARTITION_AMBIANCE as int, self.repartition_ambiance_byte(old(frame)@[field::REPARTITION_AMBIANCE as int])),
    {
        frame.set_musical_ambiance_option(self.musical_ambiance_opt);
        frame.set_musical_ambiance(self.musical_ambiance);
        frame.set_musical_ambiance_under_adjustment(self.musical_ambiance_under_adj);
        frame.set_sound_repartition_option(self.sound_repartition_opt);
    }

    /// Write the fields that the byte at `field::SPATIAL_SPECTRAL_REPARTITION` carries.
    fn emit_spatial_spectral_repartition(&self, frame: &mut Frame)
        requires
            field::SPATIAL_SPECTRAL_REPARTITION < old(frame)@.len(),
        ensures
            final(frame)@ == old(frame)@.update(field::SPATIAL_SPECTRAL_REPARTITION as int, self.spatial_spectral_repartition_byte(old(frame)@[field::SPATIAL_SPECTRAL_REPARTITION as int])),
    {
        frame.set_sound_repartition(self.sound_repartition);
        frame.set_sound_repartition_under_adjustment(self.sound_repartition_under_adj);
        frame.set_spatial_sound_under_adjustment(self.spatial_sound_under_adj);
        frame.set_spectral_sound_under_adjustment(self.spectral_sound_under_adj);
        frame.set_impossible_setting(self.impossible_setting);
    }
}

impl Frame {
    /// Return the text of the frame: that of the representation that it
    /// carries, or the error that parsing it gives.
    pub fn to_text(&self) -> (s: String)
        ensures
            s@ == (match length_check(self@.len(), FRAME_LEN as nat) {
                Ok(_) => Repr::from_bytes(self@).text(),
                Err(e) => "x1e5 ("@ + e.text() + ")"@,
            }),
    {
        match Repr::parse(self) {
            Ok(repr) => repr.to_text(),
            Err(e) => {
                let mut s = String::from_str("x1e5 (");
                s.append(e.description());
                s.append(")");
                s
            },
        }
    }
}

/// The fields that the byte at `field::BALANCE_OPT_ADJ` carries read back as they were written.
proof fn lemma_balance_opt_adj_parse_emit(repr: Repr, b: u8)
    requires
        repr.fits(),
    ensures
        ConfigOption::from_raw(bits(repr.balance_opt_adj_byte(b), 0, 2)) == repr.balance_opt,
        bits(repr.balance_opt_adj_byte(b), 2, 5) == repr.balance_level,
        flag(repr.balance_opt_adj_byte(b), 7) == repr.balance_under_adj,
{
    broadcast use group_frame_laws;

    lemma_low_mask_values();
}

/// Writing back the fields read from the byte at `field::BALANCE_OPT_ADJ` leaves it unchanged.
proof fn lemma_balance_opt_adj_emit_parse(bytes: Seq<u8>)
    requires
        bytes.len() == FRAME_LEN,
    ensures
        Repr::from_bytes(bytes).balance_opt_adj_byte(bytes[field::BALANCE_OPT_ADJ as int]) == bytes[field::BALANCE_OPT_ADJ as int],
{
    reveal(Repr::from_bytes);
    broadcast use group_frame_laws;

    lemma_low_mask_values();
}

/// The fields that the byte at `field::FADER_OPT_ADJ` carries read back as they were written.
proof fn lemma_fader_opt_adj_parse_emit(repr: Repr, b: u8)
    requires
        repr.fits(),
    ensures
        ConfigOption::from_raw(bits(repr.fader_opt_adj_byte(b), 0, 2)) == repr.fader_opt,
        bits(repr.fader_opt_adj_byte(b), 2, 5) == repr.fader_level,
        flag(repr.fader_opt_adj_byte(b), 7) == repr.fader_under_adj,
{
    broadcast use group_frame_laws;

    lemma_low_mask_values();
}

/// Writing back the fields read from the byte at `field::FADER_OPT_ADJ` leaves it unchanged.
proof fn lemma_fader_opt_adj_emit_parse(bytes: Seq<u8>)
    requires
        bytes.len() == FRAME_LEN,
    ensures
        Repr::from_bytes(bytes).fader_opt_adj_byte(bytes[field::FADER_OPT_ADJ as int]) == bytes[field::FADER_OPT_ADJ as int],
{
    reveal(Repr::from_bytes);
    broadcast use group_frame_laws;

    lemma_low_mask_values();
}

/// The fields that the byte at `field::BASS_OPT_ADJ` carries read back as they were written.
proof fn lemma_bass_opt_adj_parse_emit(repr: Repr, b: u8)
    requires
        repr.fits(),
    ensures
        ConfigOption::from_raw(bits(repr.bass_opt_adj_byte(b), 0, 2)) == repr.bass_opt,
        bits(repr.bass_opt_adj_byte(b), 2, 5) == repr.bass_level,
        flag(repr.bass_opt_adj_byte(b), 7) == repr.bass_under_adj,
{
    broadcast use group_frame_laws;

    lemma_low_mask_values();
}

/// Writing back the fields read from the byte at `field::BASS_OPT_ADJ` leaves it unchanged.
proof fn lemma_bass_opt_adj_emit_parse(bytes: Seq<u8>)
    requires
        bytes.len() == FRAME_LEN,
    ensures
        Repr::from_bytes(bytes).bass_opt_adj_byte(bytes[field::BASS_OPT_ADJ as int]) == bytes[field::BASS_OPT_ADJ as int],
{
    reveal(Repr::from_bytes);
    broadcast use group_frame_laws;

    lemma_low_mask_values();
}

/// The fields that the byte at `field::TREBLE_OPT_ADJ` carries read back as they were written.
proof fn lemma_treble_opt_adj_parse_emit(repr: Repr, b: u8)
    requires
        repr.fits(),
    ensures
        ConfigOption::from_raw(bits(repr.treble_opt_adj_byte(b), 0, 2)) == repr.treble_opt,
        bits(repr.treble_opt_adj_byte(b), 2, 5) == repr.treble_level,
        flag(repr.treble_opt_adj_byte(b), 7) == repr.treble_under_adj,
{
    broadcast use group_frame_laws;

    lemma_low_mask_values();
}

/// Writing back the fields read from the byte at `field::TREBLE_OPT_ADJ` leaves it unchanged.
proof fn lemma_treble_opt_adj_emit_parse(bytes: Seq<u8>)
    requires
        bytes.len() == FRAME_LEN,
    ensures
        Repr::from_bytes(bytes).treble_opt_adj_byte(bytes[field::TREBLE_OPT_ADJ as int]) == bytes[field::TREBLE_OPT_ADJ as int],
{
    reveal(Repr::from_bytes);
    broadcast use group_frame_laws;

    lemma_low_mask_values();
}

/// The fields that the byte at `field::SPD_VOL_ADJ_LOUD_ADJ` carries read back as they were written.
proof fn lemma_spd_vol_adj_loud_adj_parse_emit(repr: Repr, b: u8)
    requires
        repr.fits(),
    ensures
        ConfigOption::from_raw(bits(repr.spd_vol_adj_loud_adj_byte(b), 0, 2)) == repr.speed_dependent_volume_opt,
        flag(repr.spd_vol_adj_loud_adj_byte(b), 2) == repr.speed_dependent_volume_enabled,
        flag(repr.spd_vol_adj_loud_adj_byte(b), 3) == repr.speed_dependent_volume_under_adj,
        ConfigOption::from_raw(bits(repr.spd_vol_adj_loud_adj_byte(b), 5, 2)) == repr.loudness_opt,
        flag(repr.spd_vol_adj_loud_adj_byte(b), 4) == repr.loudness_enabled,
        flag(repr.spd_vol_adj_loud_adj_byte(b), 7) == repr.loudness_under_adj,
{
    broadcast use group_frame_laws;

    lemma_low_mask_values();
}

/// Writing back the fields read from the byte at `field::SPD_VOL_ADJ_LOUD_ADJ` leaves it unchanged.
proof fn lemma_spd_vol_adj_loud_adj_emit_parse(bytes: Seq<u8>)
    requires
        bytes.len() == FRAME_LEN,
    ensures
        Repr::from_bytes(bytes).spd_vol_adj_loud_adj_byte(bytes[field::SPD_VOL_ADJ_LOUD_ADJ as int]) == bytes[field::SPD_VOL_ADJ_LOUD_ADJ as int],
{
    reveal(Repr::from_bytes);
    broadcast use group_frame_laws;

    lemma_low_mask_values();
}

/// The fields that the byte at `field::REPARTITION_AMBIANCE` carries read back as they were written.
proof fn lemma_repartition_ambiance_parse_emit(repr: Repr, b: u8)
    requires
        repr.fits(),
    ensures
        ConfigOption::from_raw(bits(repr.repartition_ambiance_byte(b), 6, 2)) == repr.musical_ambiance_opt,
        MusicalAmbiance::from_raw(bits(repr.repartition_ambiance_byte(b), 3, 3)) == repr.musical_ambiance,
        flag(repr.repartition_ambiance_byte(b), 2) == repr.musical_ambiance_under_adj,
        ConfigOption::from_raw(bits(repr.repartition_ambiance_byte(b), 0, 2)) == repr.sound_repartition_opt,
{
    broadcast use group_frame_laws;

    lemma_low_mask_values();
}

/// Writing back the fields read from the byte at `field::REPARTITION_AMBIANCE` leaves it unchanged.
proof fn lemma_repartition_ambiance_emit_parse(bytes: Seq<u8>)
    requires
        bytes.len() == FRAME_LEN,
    ensures
        Repr::from_bytes(bytes).repartition_ambiance_byte(bytes[field::REPARTITION_AMBIANCE as int]) == bytes[field::REPARTITION_AMBIANCE as int],
{
    reveal(Repr::from_bytes);
    broadcast use group_frame_laws;

    lemma_low_mask_values();
}

/// The fields that the byte at `field::SPATIAL_SPECTRAL_REPARTITION` carries read back as they were written.
proof fn lemma_spatial_spectral_repartition_parse_emit(repr: Repr, b: u8)
    requires
        repr.fits(),
    ensures
        SoundRepartition::from_raw(bits(repr.spatial_spectral_repartition_byte(b), 4, 3)) == repr.sound_repartition,
        flag(repr.spatial_spectral_repartition_byte(b), 7) == repr.sound_repartition_under_adj,
        flag(repr.spatial_spectral_repartition_byte(b), 1) == repr.spatial_sound_under_adj,
        flag(repr.spatial_spectral_repartition_byte(b), 2) == repr.spectral_sound_under_adj,
        flag(repr.spatial_spectral_repartition_byte(b), 3) == repr.impossible_setting,
{
    broadcast use group_frame_laws;

    lemma_low_mask_values();
}

/// Writing back the fields read from the byte at `field::SPATIAL_SPECTRAL_REPARTITION` leaves it unchanged.
proof fn lemma_spatial_spectral_repartition_emit_parse(bytes: Seq<u8>)
    requires
        bytes.len() == FRAME_LEN,
    ensures
        Repr::from_bytes(bytes).spatial_spectral_repartition_byte(bytes[field::SPATIAL_SPECTRAL_REPARTITION as int]) == bytes[field::SPATIAL_SPECTRAL_REPARTITION as int],
{
    reveal(Repr::from_bytes);
    broadcast use group_frame_laws;

    lemma_low_mask_values();
}

/// Emitting a representation whose fields fit into the bytes of a frame, then
/// parsing the bytes, gives the representation back.
pub proof fn lemma_parse_emit(repr: Repr, bytes: Seq<u8>)
    requires
        repr.fits(),
        bytes.len() == FRAME_LEN,
    ensures
        Repr::from_bytes(repr.emit_bytes(bytes)) == repr,
{
    let emitted = repr.emit_bytes(bytes);
    assert(emitted[field::BALANCE_OPT_ADJ as int] == repr.balance_opt_adj_byte(bytes[field::BALANCE_OPT_ADJ as int]));
    assert(emitted[field::FADER_OPT_ADJ as int] == repr.fader_opt_adj_byte(bytes[field::FADER_OPT_ADJ as int]));
    assert(emitted[field::BASS_OPT_ADJ as int] == repr.bass_opt_adj_byte(bytes[field::BASS_OPT_ADJ as int]));
    assert(emitted[field::TREBLE_OPT_ADJ as int] == repr.treble_opt_adj_byte(bytes[field::TREBLE_OPT_ADJ as int]));
    assert(emitted[field::SPD_VOL_ADJ_LOUD_ADJ as int] == repr.spd_vol_adj_loud_adj_byte(bytes[field::SPD_VOL_ADJ_LOUD_ADJ as int]));
    assert(emitted[field::REPARTITION_AMBIANCE as int] == repr.repartition_ambiance_byte(bytes[field::REPARTITION_AMBIANCE as int]));
    assert(emitted[field::SPATIAL_SPECTRAL_REPARTITION as int] == repr.spatial_spectral_repartition_byte(bytes[field::SPATIAL_SPECTRAL_REPARTITION as int]));
    lemma_balance_opt_adj_parse_emit(repr, bytes[field::BALANCE_OPT_ADJ as int]);
    lemma_fader_opt_adj_parse_emit(repr, bytes[field::FADER_OPT_ADJ as int]);
    lemma_bass_opt_adj_parse_emit(repr, bytes[field::BASS_OPT_ADJ as int]);
    lemma_treble_opt_adj_parse_emit(repr, bytes[field::TREBLE_OPT_ADJ as int]);
    lemma_spd_vol_adj_loud_adj_parse_emit(repr, bytes[field::SPD_VOL_ADJ_LOUD_ADJ as int]);
    lemma_repartition_ambiance_parse_emit(repr, bytes[field::REPARTITION_AMBIANCE as int]);
    lemma_spatial_spectral_repartition_parse_emit(repr, bytes[field::SPATIAL_SPECTRAL_REPARTITION as int]);
    Repr::lemma_from_fields(repr, emitted);
}

/// Emitting the representation that the bytes of a frame carry leaves the
/// bytes unchanged.
pub proof fn lemma_emit_parse(bytes: Seq<u8>)
    requires
        bytes.len() == FRAME_LEN,
    ensures
        Repr::from_bytes(bytes).emit_bytes(bytes) == bytes,
{
    reveal(Repr::from_bytes);
    broadcast use group_frame_laws;

    lemma_low_mask_values();
    lemma_balance_opt_adj_emit_parse(bytes);
    lemma_fader_opt_adj_emit_parse(bytes);
    lemma_bass_opt_adj_emit_parse(bytes);
    lemma_treble_opt_adj_emit_parse(bytes);
    lemma_spd_vol_adj_loud_adj_emit_parse(bytes);
    lemma_repartition_ambiance_emit_parse(bytes);
    lemma_spatial_spectral_repartition_emit_parse(bytes);
}

/// Each field of a representation reads the bits of the frame that the
/// layout gives it: a word high byte first, a flag or a field through its
/// mask.
pub proof fn lemma_fields_from_bytes(bytes: Seq<u8>)
    requires
        bytes.len() == FRAME_LEN,
    ensures
        Repr::from_bytes(bytes).balance_opt == ConfigOption::from_raw(bytes[field::BALANCE_OPT_ADJ as int] & 0x03),
        Repr::from_bytes(bytes).balance_level == (bytes[field::BALANCE_OPT_ADJ as int] >> 2u8) & 0x1f,
        Repr::from_bytes(bytes).balance_under_adj == ((bytes[field::BALANCE_OPT_ADJ as int] & 0x80) != 0),
        Repr::from_bytes(bytes).fader_opt == ConfigOption::from_raw(bytes[field::FADER_OPT_ADJ as int] & 0x03),
        Repr::from_bytes(bytes).fader_level == (bytes[field::FADER_OPT_ADJ as int] >> 2u8) & 0x1f,
        Repr::from_bytes(bytes).fader_under_adj == ((bytes[field::FADER_OPT_ADJ as int] & 0x80) != 0),
        Repr::from_bytes(bytes).bass_opt == ConfigOption::from_raw(bytes[field::BASS_OPT_ADJ as int] & 0x03),
        Repr::from_bytes(bytes).bass_level == (bytes[field::BASS_OPT_ADJ as int] >> 2u8) & 0x1f,
        Repr::from_bytes(bytes).bass_under_adj == ((bytes[field::BASS_OPT_ADJ as int] & 0x80) != 0),
        Repr::from_bytes(bytes).treble_opt == ConfigOption::from_raw(bytes[field::TREBLE_OPT_ADJ as int] & 0x03),
        Repr::from_bytes(bytes).treble_level == (bytes[field::TREBLE_OPT_ADJ as int] >> 2u8) & 0x1f,
        Repr::from_bytes(bytes).treble_under_adj == ((bytes[field::TREBLE_OPT_ADJ as int] & 0x80) != 0),
        Repr::from_bytes(bytes).speed_dependent_volume_opt == ConfigOption::from_raw(bytes[field::SPD_VOL_ADJ_LOUD_ADJ as int] & 0x03),
        Repr::from_bytes(bytes).speed_dependent_volume_enabled == ((bytes[field::SPD_VOL_ADJ_LOUD_ADJ as int] & 0x04) != 0),
        Repr::from_bytes(bytes).speed_dependent_volume_under_adj == ((bytes[field::SPD_VOL_ADJ_LOUD_ADJ as int] & 0x08) != 0),
        Repr::from_bytes(bytes).loudness_opt == ConfigOption::from_raw((bytes[field::SPD_VOL_ADJ_LOUD_ADJ as int] >> 5u8) & 0x03),
        Repr::from_bytes(bytes).loudness_enabled == ((bytes[field::SPD_VOL_ADJ_LOUD_ADJ as int] & 0x10) != 0),
        Repr::from_bytes(bytes).loudness_under_adj == ((bytes[field::SPD_VOL_ADJ_LOUD_ADJ as int] & 0x80) != 0),
        Repr::from_bytes(bytes).musical_ambiance_opt == ConfigOption::from_raw((bytes[field::REPARTITION_AMBIANCE as int] >> 6u8) & 0x03),
        Repr::from_bytes(bytes).musical_ambiance == MusicalAmbiance::from_raw((bytes[field::REPARTITION_AMBIANCE as int] >> 3u8) & 0x07),
        Repr::from_bytes(bytes).musical_ambiance_under_adj == ((bytes[field::REPARTITION_AMBIANCE as int] & 0x04) != 0),
        Repr::from_bytes(bytes).sound_repartition_opt == ConfigOption::from_raw(bytes[field::REPARTITION_AMBIANCE as int] & 0x03),
        Repr::from_bytes(bytes).sound_repartition == SoundRepartition::from_raw((bytes[field::SPATIAL_SPECTRAL_REPARTITION as int] >> 4u8) & 0x07),
        Repr::from_bytes(bytes).sound_repartition_under_adj == ((bytes[field::SPATIAL_SPECTRAL_REPARTITION as int] & 0x80) != 0),
        Repr::from_bytes(bytes).spatial_sound_under_adj == ((bytes[field::SPATIAL_SPECTRAL_REPARTITION as int] & 0x02) != 0),
        Repr::from_bytes(bytes).spectral_sound_under_adj == ((bytes[field::SPATIAL_SPECTRAL_REPARTITION as int] & 0x04) != 0),
        Repr::from_bytes(bytes).impossible_setting == ((bytes[field::SPATIAL_SPECTRAL_REPARTITION as int] & 0x08) != 0),
{
    reveal(Repr::from_bytes);
    lemma_low_mask_values();
    lemma_bits_formula(bytes[field::BALANCE_OPT_ADJ as int], 2, 5);
    lemma_bits_formula(bytes[field::BASS_OPT_ADJ as int], 2, 5);
    lemma_bits_formula(bytes[field::FADER_OPT_ADJ as int], 2, 5);
    lemma_bits_formula(bytes[field::REPARTITION_AMBIANCE as int], 3, 3);
    lemma_bits_formula(bytes[field::REPARTITION_AMBIANCE as int], 6, 2);
    lemma_bits_formula(bytes[field::SPATIAL_SPECTRAL_REPARTITION as int], 4, 3);
    lemma_bits_formula(bytes[field::SPD_VOL_ADJ_LOUD_ADJ as int], 5, 2);
    lemma_bits_formula(bytes[field::TREBLE_OPT_ADJ as int], 2, 5);
    lemma_bits_low_formula(bytes[field::BALANCE_OPT_ADJ as int], 2);
    lemma_bits_low_formula(bytes[field::BASS_OPT_ADJ as int], 2);
    lemma_bits_low_formula(bytes[field::FADER_OPT_ADJ as int], 2);
    lemma_bits_low_formula(bytes[field::REPARTITION_AMBIANCE as int], 2);
    lemma_bits_low_formula(bytes[field::SPD_VOL_ADJ_LOUD_ADJ as int], 2);
    lemma_bits_low_formula(bytes[field::TREBLE_OPT_ADJ as int], 2);
    lemma_flag_masks(bytes[field::BALANCE_OPT_ADJ as int]);
    lemma_flag_masks(bytes[field::BASS_OPT_ADJ as int]);
    lemma_flag_masks(bytes[field::FADER_OPT_ADJ as int]);
    lemma_flag_masks(bytes[field::REPARTITION_AMBIANCE as int]);
    lemma_flag_masks(bytes[field::SPATIAL_SPECTRAL_REPARTITION as int]);
    lemma_flag_masks(bytes[field::SPD_VOL_ADJ_LOUD_ADJ as int]);
    lemma_flag_masks(bytes[field::TREBLE_OPT_ADJ as int]);
}

/// Every representation that the bytes of a frame carry fits in the frame,
/// so that it can be emitted back.
pub proof fn lemma_parsed_fits(bytes: Seq<u8>)
    requires
        bytes.len() == FRAME_LEN,
    ensures
        Repr::from_bytes(bytes).fits(),
{
    reveal(Repr::from_bytes);
    broadcast use group_frame_laws;

    lemma_low_mask_values();
}

/// The text of a representation shows each field after its name and before
/// the name of the next field, so the fields stand in their order.
pub proof fn lemma_text_shows_fields(repr: Repr)
    ensures
        occurs("x1e5 balance opt="@ + repr.balance_opt.text() + "\n balance_level="@, repr.text()),
        occurs("\n balance_level="@ + decimal_text(repr.balance_level as nat) + "\n balance_under_adj="@, repr.text()),
        occurs("\n balance_under_adj="@ + bool_text(repr.balance_under_adj) + "\n fader_opt="@, repr.text()),
        occurs("\n fader_opt="@ + repr.fader_opt.text() + "\n fader_level="@, repr.text()),
        occurs("\n fader_level="@ + decimal_text(repr.fader_level as nat) + "\n fader_under_adj="@, repr.text()),
        occurs("\n fader_under_adj="@ + bool_text(repr.fader_under_adj) + "\n bass_opt="@, repr.text()),
        occurs("\n bass_opt="@ + repr.bass_opt.text() + "\n bass_level="@, repr.text()),
        occurs("\n bass_level="@ + decimal_text(repr.bass_level as nat) + "\n bass_under_adj="@, repr.text()),
        occurs("\n bass_under_adj="@ + bool_text(repr.bass_under_adj) + "\n treble_opt="@, repr.text()),
        occurs("\n treble_opt="@ + repr.treble_opt.text() + "\n treble_level="@, repr.text()),
        occurs("\n treble_level="@ + decimal_text(repr.treble_level as nat) + "\n treble_under_adj="@, repr.text()),
        occurs("\n treble_under_adj="@ + bool_text(repr.treble_under_adj) + "\n speed_dependent_volume_opt="@, repr.text()),
        occurs("\n speed_dependent_volume_opt="@ + repr.speed_dependent_volume_opt.text() + "\n speed_dependent_volume_enabled="@, repr.text()),
        occurs("\n speed_dependent_volume_enabled="@ + bool_text(repr.speed_dependent_volume_enabled) + "\n speed_dependent_volume_under_adj="@, repr.text()),
        occurs("\n speed_dependent_volume_under_adj="@ + bool_text(repr.speed_dependent_volume_under_adj) + "\n loudness_opt="@, repr.text()),
        occurs("\n loudness_opt="@ + repr.loudness_opt.text() + "\n loudness_enabled="@, repr.text()),
        occurs("\n loudness_enabled="@ + bool_text(repr.loudness_enabled) + "\n loudness_under_adj="@, repr.text()),
        occurs("\n loudness_under_adj="@ + bool_text(repr.loudness_under_adj) + "\n musical_ambiance_opt="@, repr.text()),
        occurs("\n musical_ambiance_opt="@ + repr.musical_ambiance_opt.text() + "\n musical_ambiance="@, repr.text()),
        occurs("\n musical_ambiance="@ + repr.musical_ambiance.text() + "\n musical_ambiance_under_adj="@, repr.text()),
        occurs("\n musical_ambiance_under_adj="@ + bool_text(repr.musical_ambiance_under_adj) + "\n sound_repartition_opt="@, repr.text()),
        occurs("\n sound_repartition_opt="@ + repr.sound_repartition_opt.text() + "\n sound_repartition ="@, repr.text()),
        occurs("\n sound_repartition ="@ + repr.sound_repartition.text() + "\n sound_repartition_under_adj="@, repr.text()),
        occurs("\n sound_repartition_under_adj="@ + bool_text(repr.sound_repartition_under_adj) + "\n spatial_sound_under_adj="@, repr.text()),
        occurs("\n spatial_sound_under_adj="@ + bool_text(repr.spatial_sound_under_adj) + "\n spectral_sound_under_adj="@, repr.text()),
        occurs("\n spectral_sound_under_adj="@ + bool_text(repr.spectral_sound_under_adj) + "\n impossible_setting="@, repr.text()),
        occurs("\n impossible_setting="@ + bool_text(repr.impossible_setting) + "\n"@, repr.text()),
{
    lemma_text_part_0_shows_fields(repr);
    lemma_text_part_1_shows_fields(repr);
    lemma_text_prefix_0_grows(repr);
    lemma_text_part_2_shows_fields(repr);
    lemma_text_prefix_1_grows(repr);
    lemma_text_part_3_shows_fields(repr);
    lemma_text_prefix_2_grows(repr);
    lemma_text_part_4_shows_fields(repr);
    lemma_text_prefix_3_grows(repr);
    lemma_text_part_5_shows_fields(repr);
    lemma_text_prefix_4_grows(repr);
}

/// Part 0 of the text of a representation shows each of its fields after
/// its name and before the name of the next field.
proof fn lemma_text_part_0_shows_fields(repr: Repr)
    ensures
        occurs("x1e5 balance opt="@ + repr.balance_opt.text() + "\n balance_level="@, repr.text_prefix_0()),
        occurs("\n balance_level="@ + decimal_text(repr.balance_level as nat) + "\n balance_under_adj="@, repr.text_prefix_0()),
        occurs("\n balance_under_adj="@ + bool_text(repr.balance_under_adj) + "\n fader_opt="@, repr.text_prefix_0()),
        occurs("\n fader_opt="@ + repr.fader_opt.text() + "\n fader_level="@, repr.text_prefix_0()),
{
    reveal(Repr::text_prefix_0);
    broadcast use group_occurs;

}

/// Part 1 of the text of a representation shows each of its fields after
/// its name and before the name of the next field.
proof fn lemma_text_part_1_shows_fields(repr: Repr)
    ensures
        occurs("\n fader_level="@ + decimal_text(repr.fader_level as nat) + "\n fader_under_adj="@, repr.text_prefix_1()),
        occurs("\n fader_under_adj="@ + bool_text(repr.fader_under_adj) + "\n bass_opt="@, repr.text_prefix_1()),
        occurs("\n bass_opt="@ + repr.bass_opt.text() + "\n bass_level="@, repr.text_prefix_1()),
        occurs("\n bass_level="@ + decimal_text(repr.bass_level as nat) + "\n bass_under_adj="@, repr.text_prefix_1()),
        occurs("\n bass_under_adj="@ + bool_text(repr.bass_under_adj) + "\n treble_opt="@, repr.text_prefix_1()),
{
    reveal(Repr::text_prefix_0);
    reveal(Repr::text_prefix_1);
    broadcast use group_occurs;

}

/// What occurs in the text of a representation up to part 0 occurs in its
/// text up to part 1.
proof fn lemma_text_prefix_0_grows(repr: Repr)
    ensures
        forall|t: Seq<char>| occurs(t, repr.text_prefix_0()) ==> #[trigger] occurs(t, repr.text_prefix_1()),
{
    reveal(Repr::text_prefix_1);
    broadcast use group_occurs;

}

/// Part 2 of the text of a representation shows each of its fields after
/// its name and before the name of the next field.
proof fn lemma_text_part_2_shows_fields(repr: Repr)
    ensures
        occurs("\n treble_opt="@ + repr.treble_opt.text() + "\n treble_level="@, repr.text_prefix_2()),
        occurs("\n treble_level="@ + decimal_text(repr.treble_level as nat) + "\n treble_under_adj="@, repr.text_prefix_2()),
        occurs("\n treble_under_adj="@ + bool_text(repr.treble_under_adj) + "\n speed_dependent_volume_opt="@, repr.text_prefix_2()),
        occurs("\n speed_dependent_volume_opt="@ + repr.speed_dependent_volume_opt.text() + "\n speed_dependent_volume_enabled="@, repr.text_prefix_2()),
        occurs("\n speed_dependent_volume_enabled="@ + bool_text(repr.speed_dependent_volume_enabled) + "\n speed_dependent_volume_under_adj="@, repr.text_prefix_2()),
{
    reveal(Repr::text_prefix_1);
    reveal(Repr::text_prefix_2);
    broadcast use group_occurs;

}

/// What occurs in the text of a representation up to part 1 occurs in its
/// text up to part 2.
proof fn lemma_text_prefix_1_grows(repr: Repr)
    ensures
        forall|t: Seq<char>| occurs(t, repr.text_prefix_1()) ==> #[trigger] occurs(t, repr.text_prefix_2()),
{
    reveal(Repr::text_prefix_2);
    broadcast use group_occurs;

}

/// Part 3 of the text of a representation shows each of its fields after
/// its name and before the name of the next field.
proof fn lemma_text_part_3_shows_fields(repr: Repr)
    ensures
        occurs("\n speed_dependent_volume_under_adj="@ + bool_text(repr.speed_dependent_volume_under_adj) + "\n loudness_opt="@, repr.text_prefix_3()),
        occurs("\n loudness_opt="@ + repr.loudness_opt.text() + "\n loudness_enabled="@, repr.text_prefix_3()),
        occurs("\n loudness_enabled="@ + bool_text(repr.loudness_enabled) + "\n loudness_under_adj="@, repr.text_prefix_3()),
        occurs("\n loudness_under_adj="@ + bool_text(repr.loudness_under_adj) + "\n musical_ambiance_opt="@, repr.text_prefix_3()),
        occurs("\n musical_ambiance_opt="@ + repr.musical_ambiance_opt.text() + "\n musical_ambiance="@, repr.text_prefix_3()),
{
    reveal(Repr::text_prefix_2);
    reveal(Repr::text_prefix_3);
    broadcast use group_occurs;

}

/// What occurs in the text of a representation up to part 2 occurs in its
/// text up to part 3.
proof fn lemma_text_prefix_2_grows(repr: Repr)
    ensures
        forall|t: Seq<char>| occurs(t, repr.text_prefix_2()) ==> #[trigger] occurs(t, repr.text_prefix_3()),
{
    reveal(Repr::text_prefix_3);
    broadcast use group_occurs;

}

/// Part 4 of the text of a representation shows each of its fields after
/// its name and before the name of the next field.
proof fn lemma_text_part_4_shows_fields(repr: Repr)
    ensures
        occurs("\n musical_ambiance="@ + repr.musical_ambiance.text() + "\n musical_ambiance_under_adj="@, repr.text_prefix_4()),
        occurs("\n musical_ambiance_under_adj="@ + bool_text(repr.musical_ambiance_under_adj) + "\n sound_repartition_opt="@, repr.text_prefix_4()),
        occurs("\n sound_repartition_opt="@ + repr.sound_repartition_opt.text() + "\n sound_repartition ="@, repr.text_prefix_4()),
        occurs("\n sound_repartition ="@ + repr.sound_repartition.text() + "\n sound_repartition_under_adj="@, repr.text_prefix_4()),
        occurs("\n sound_repartition_under_adj="@ + bool_text(repr.sound_repartition_under_adj) + "\n spatial_sound_under_adj="@, repr.text_prefix_4()),
{
    reveal(Repr::text_prefix_3);
    reveal(Repr::text_prefix_4);
    broadcast use group_occurs;

}

/// What occurs in the text of a representation up to part 3 occurs in its
/// text up to part 4.
proof fn lemma_text_prefix_3_grows(repr: Repr)
    ensures
        forall|t: Seq<char>| occurs(t, repr.text_prefix_3()) ==> #[trigger] occurs(t, repr.text_prefix_4()),
{
    reveal(Repr::text_prefix_4);
    broadcast use group_occurs;

}

/// Part 5 of the text of a representation shows each of its fields after
/// its name and before the name of the next field.
proof fn lemma_text_part_5_shows_fields(repr: Repr)
    ensures
        occurs("\n spatial_sound_under_adj="@ + bool_text(repr.spatial_sound_under_adj) + "\n spectral_sound_under_adj="@, repr.text_prefix_5()),
        occurs("\n spectral_sound_under_adj="@ + bool_text(repr.spectral_sound_under_adj) + "\n impossible_setting="@, repr.text_prefix_5()),
        occurs("\n impossible_setting="@ + bool_text(repr.impossible_setting) + "\n"@, repr.text_prefix_5()),
{
    reveal(Repr::text_prefix_4);
    reveal(Repr::text_prefix_5);
    broadcast use group_occurs;

}

/// What occurs in the text of a representation up to part 4 occurs in its
/// text up to part 5.
proof fn lemma_text_prefix_4_grows(repr: Repr)
    ensures
        forall|t: Seq<char>| occurs(t, repr.text_prefix_4()) ==> #[trigger] occurs(t, repr.text_prefix_5()),
{
    reveal(Repr::text_prefix_5);
    broadcast use group_occurs;

}

} // verus!
