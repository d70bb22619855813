//! The x228 CAN frame: speed regulation settings and state.
use crate::bitfield::{bits, flag, lemma_bits_formula, lemma_bits_low_formula, lemma_flag_masks, lemma_low_mask_values, put_bits, put_flag, read_bits, read_flag, write_bits, write_flag};
use crate::endian::{be_u16, lemma_be_u16_roundtrip, put_be_u16, read_u16, write_u16};
use crate::vehicle::AdaptiveCruiseControlState;
use crate::vehicle::SpeedRegulationMode;
use crate::vehicle::SpeedRegulationModeState;
use crate::vehicle::SpeedRegulationSettingPage;
use crate::{check_frame_len, group_frame_laws, length_check, Error};
use crate::text::{bool_text, decimal_text, group_occurs, occurs, push_bool, push_decimal};
use vstd::prelude::*;

pub mod field;

verus! {

/// A read/write wrapper around a x228 CAN frame buffer.
#[derive(Debug, PartialEq, Clone)]
pub struct Frame {
    buffer: Vec<u8>,
}

impl View for Frame {
    type V = Seq<u8>;

    closed spec fn view(&self) -> Seq<u8> {
        self.buffer@
    }
}

impl AsRef<[u8]> for Frame {
    /// The bytes of the frame.
    fn as_ref(&self) -> (bytes: &[u8])
        ensures
            bytes@ == self@,
    {
        self.buffer.as_slice()
    }
}

/// Raw x228 CAN frame identifier.
pub const FRAME_ID: u16 = 0x228;

/// Length of a x228 CAN frame.
pub const FRAME_LEN: usize = field::XVV_4 + 1;

/// Periodicity of a x228 CAN frame, in milliseconds.
pub const PERIODICITY_MS: u64 = 1000;

impl Frame {
    /// Create a raw octet buffer with a CAN frame structure.
    pub fn new_unchecked(buffer: Vec<u8>) -> (frame: Frame)
        ensures
            frame@ == buffer@,
    {
        Frame { buffer }
    }

    /// Shorthand for a combination of `new_unchecked` and `check_len`.
    pub fn new_checked(buffer: Vec<u8>) -> (r: Result<Frame, Error>)
        ensures
            r is Ok <==> buffer@.len() == FRAME_LEN,
            r matches Ok(frame) ==> frame@ == buffer@,
            r matches Err(e) ==> length_check(buffer@.len(), FRAME_LEN as nat) == Err::<(), Error>(e),
    {
        let frame = Self::new_unchecked(buffer);
        match frame.check_len() {
            Ok(()) => Ok(frame),
            Err(e) => Err(e),
        }
    }

    /// Ensure that no accessor method will panic if called.
    /// Returns `Err(Error::Truncated)` if the buffer is too short and
    /// `Err(Error::Overlong)` if it is too long.
    pub fn check_len(&self) -> (r: Result<(), Error>)
        ensures
            r == length_check(self@.len(), FRAME_LEN as nat),
    {
        check_frame_len(self.buffer.len(), FRAME_LEN)
    }

    /// Consume the frame, returning the underlying buffer.
    pub fn into_inner(self) -> (buffer: Vec<u8>)
        ensures
            buffer@ == self@,
    {
        self.buffer
    }

    /// Return the frame length.
    pub fn frame_len(&self) -> (len: usize)
        ensures
            len == FRAME_LEN,
    {
        FRAME_LEN
    }

    /// Return the cruise-control/speed-limiter/acc speed setting field.
    pub fn speed_setting(&self) -> (value: u16)
        requires
            field::SPD_INST + 2 <= self@.len(),
        ensures
            value == be_u16(self@, field::SPD_INST as int),
    {
        read_u16(self.buffer.as_slice(), field::SPD_INST)
    }

    /// Return the speed setting adjustment in progress flag.
    pub fn speed_setting_adjustment_in_progress(&self) -> (value: bool)
        requires
            field::XVV_1 < self@.len(),
        ensures
            value == flag(self@[field::XVV_1 as int], 0),
    {
        read_flag(self.buffer[field::XVV_1], 0)
    }

    /// Return the cruise-control/speed-limiter/acc try enable flag.
    pub fn try_enable(&self) -> (value: bool)
        requires
            field::XVV_1 < self@.len(),
        ensures
            value == flag(self@[field::XVV_1 as int], 2),
    {
        read_flag(self.buffer[field::XVV_1], 2)
    }

    /// Return the cruise-control/speed-limiter/acc activated mode state field.
    pub fn speed_regulation_mode_state(&self) -> (value: SpeedRegulationModeState)
        requires
            field::XVV_1 < self@.len(),
        ensures
            value == SpeedRegulationModeState::from_raw(bits(self@[field::XVV_1 as int], 3, 3)),
    {
        SpeedRegulationModeState::from(read_bits(self.buffer[field::XVV_1], 3, 3))
    }

    /// Return the cruise-control/speed-limiter/acc activated mode field.
    pub fn speed_regulation_mode(&self) -> (value: SpeedRegulationMode)
        requires
            field::XVV_1 < self@.len(),
        ensures
            value == SpeedRegulationMode::from_raw(bits(self@[field::XVV_1 as int], 6, 2)),
    {
        SpeedRegulationMode::from(read_bits(self.buffer[field::XVV_1], 6, 2))
    }

    /// Return the cruise-control/speed-limiter/acc availability flag.
    pub fn speed_regulation_available(&self) -> (value: bool)
        requires
            field::XVV_2 < self@.len(),
        ensures
            value == flag(self@[field::XVV_2 as int], 7),
    {
        read_flag(self.buffer[field::XVV_2], 7)
    }

    /// Return the adaptive cruise-control time setting field.
    pub fn acc_time(&self) -> (value: u8)
        requires
            field::XVV_3 < self@.len(),
        ensures
            value == bits(self@[field::XVV_3 as int], 0, 6),
    {
        read_bits(self.buffer[field::XVV_3], 0, 6)
    }

    /// Return the cruise-control/speed-limiter/acc setting page request field.
    pub fn speed_regulation_page_req(&self) -> (value: SpeedRegulationSettingPage)
        requires
            field::XVV_3 < self@.len(),
        ensures
            value == SpeedRegulationSettingPage::from_raw(bits(self@[field::XVV_3 as int], 6, 2)),
    {
        SpeedRegulationSettingPage::from(read_bits(self.buffer[field::XVV_3], 6, 2))
    }

    /// Return the adaptive cruise-control adjusted speed setting field.
    pub fn acc_adjusted_speed(&self) -> (value: u16)
        requires
            field::ACC_ADJ_SPD + 2 <= self@.len(),
        ensures
            value == be_u16(self@, field::ACC_ADJ_SPD as int),
    {
        read_u16(self.buffer.as_slice(), field::ACC_ADJ_SPD)
    }

    /// Return the cruise-control/speed-limiter/acc speed setting from traffic sign recognition allowed flag.
    pub fn set_speed_from_traffic_sign_recognition_allowed(&self) -> (value: bool)
        requires
            field::XVV_4 < self@.len(),
        ensures
            value == flag(self@[field::XVV_4 as int], 0),
    {
        read_flag(self.buffer[field::XVV_4], 0)
    }

    /// Return the 'mem' key (on the steering-wheel control) pressed flag.
    pub fn mem_key_state(&self) -> (value: bool)
        requires
            field::XVV_4 < self@.len(),
        ensures
            value == flag(self@[field::XVV_4 as int], 1),
    {
        read_flag(self.buffer[field::XVV_4], 1)
    }

    /// Return adaptive cruise-control displayed state field.
    pub fn acc_displayed_state(&self) -> (value: AdaptiveCruiseControlState)
        requires
            field::XVV_4 < self@.len(),
        ensures
            value == AdaptiveCruiseControlState::from_raw(bits(self@[field::XVV_4 as int], 4, 4)),
    {
        AdaptiveCruiseControlState::from(read_bits(self.buffer[field::XVV_4], 4, 4))
    }

    /// Set the cruise-control/speed-limiter/acc speed setting field.
    pub fn set_speed_setting(&mut self, value: u16)
        requires
            field::SPD_INST + 2 <= old(self)@.len(),
        ensures
            final(self)@ == put_be_u16(old(self)@, field::SPD_INST as int, value),
    {
        write_u16(&mut self.buffer, field::SPD_INST, value);
    }

    /// Set the speed setting adjustment in progress flag.
    pub fn set_speed_setting_adjustment_in_progress(&mut self, value: bool)
        requires
            field::XVV_1 < old(self)@.len(),
        ensures
            final(self)@ == old(self)@.update(field::XVV_1 as int, put_flag(old(self)@[field::XVV_1 as int], 0, value)),
    {
        let raw = write_flag(self.buffer[field::XVV_1], 0, value);
        self.buffer.set(field::XVV_1, raw);
    }

    /// Set the cruise-control/speed-limiter/acc try enable flag.
    pub fn set_try_enable(&mut self, value: bool)
        requires
            field::XVV_1 < old(self)@.len(),
        ensures
            final(self)@ == old(self)@.update(field::XVV_1 as int, put_flag(old(self)@[field::XVV_1 as int], 2, value)),
    {
        let raw = write_flag(self.buffer[field::XVV_1], 2, value);
        self.buffer.set(field::XVV_1, raw);
    }

    /// Set the cruise-control/speed-limiter/acc activated mode state field.
    pub fn set_speed_regulation_mode_state(&mut self, value: SpeedRegulationModeState)
        requires
            field::XVV_1 < old(self)@.len(),
        ensures
            final(self)@ == old(self)@.update(field::XVV_1 as int, put_bits(old(self)@[field::XVV_1 as int], 3, 3, value.raw())),
    {
        let raw = write_bits(self.buffer[field::XVV_1], 3, 3, u8::from(value));
        self.buffer.set(field::XVV_1, raw);
    }

    /// Set the cruise-control/speed-limiter/acc activated mode field.
    pub fn set_speed_regulation_mode(&mut self, value: SpeedRegulationMode)
        requires
            field::XVV_1 < old(self)@.len(),
        ensures
            final(self)@ == old(self)@.update(field::XVV_1 as int, put_bits(old(self)@[field::XVV_1 as int], 6, 2, value.raw())),
    {
        let raw = write_bits(self.buffer[field::XVV_1], 6, 2, u8::from(value));
        self.buffer.set(field::XVV_1, raw);
    }

    /// Set the cruise-control/speed-limiter/acc availability flag.
    pub fn set_speed_regulation_available(&mut self, value: bool)
        requires
            field::XVV_2 < old(self)@.len(),
        ensures
            final(self)@ == old(self)@.update(field::XVV_2 as int, put_flag(old(self)@[field::XVV_2 as int], 7, value)),
    {
        let raw = write_flag(self.buffer[field::XVV_2], 7, value);
        self.buffer.set(field::XVV_2, raw);
    }

    /// Set the adaptive cruise-control time setting field.
    pub fn set_acc_time(&mut self, value: u8)
        requires
            field::XVV_3 < old(self)@.len(),
        ensures
            final(self)@ == old(self)@.update(field::XVV_3 as int, put_bits(old(self)@[field::XVV_3 as int], 0, 6, value)),
    {
        let raw = write_bits(self.buffer[field::XVV_3], 0, 6, value);
        self.buffer.set(field::XVV_3, raw);
    }

    /// Set the cruise-control/speed-limiter/acc setting page request field.
    pub fn set_speed_regulation_page_req(&mut self, value: SpeedRegulationSettingPage)
        requires
            field::XVV_3 < old(self)@.len(),
        ensures
            final(self)@ == old(self)@.update(field::XVV_3 as int, put_bits(old(self)@[field::XVV_3 as int], 6, 2, value.raw())),
    {
        let raw = write_bits(self.buffer[field::XVV_3], 6, 2, u8::from(value));
        self.buffer.set(field::XVV_3, raw);
    }

    /// Set the adaptive cruise-control adjusted speed setting field.
    pub fn set_acc_adjusted_speed(&mut self, value: u16)
        requires
            field::ACC_ADJ_SPD + 2 <= old(self)@.len(),
        ensures
            final(self)@ == put_be_u16(old(self)@, field::ACC_ADJ_SPD as int, value),
    {
        write_u16(&mut self.buffer, field::ACC_ADJ_SPD, value);
    }

    /// Set the cruise-control/speed-limiter/acc speed setting from traffic sign recognition allowed flag.
    pub fn set_set_speed_from_traffic_sign_recognition_allowed(&mut self, value: bool)
        requires
            field::XVV_4 < old(self)@.len(),
        ensures
            final(self)@ == old(self)@.update(field::XVV_4 as int, put_flag(old(self)@[field::XVV_4 as int], 0, value)),
    {
        let raw = write_flag(self.buffer[field::XVV_4], 0, value);
        self.buffer.set(field::XVV_4, raw);
    }

    /// Set the 'mem' key (on the steering-wheel control) pressed flag.
    pub fn set_mem_key_state(&mut self, value: bool)
        requires
            field::XVV_4 < old(self)@.len(),
        ensures
            final(self)@ == old(self)@.update(field::XVV_4 as int, put_flag(old(self)@[field::XVV_4 as int], 1, value)),
    {
        let raw = write_flag(self.buffer[field::XVV_4], 1, value);
        self.buffer.set(field::XVV_4, raw);
    }

    /// Set the adaptive cruise-control displayed state field.
    pub fn set_acc_displayed_state(&mut self, value: AdaptiveCruiseControlState)
        requires
            field::XVV_4 < old(self)@.len(),
        ensures
            final(self)@ == old(self)@.update(field::XVV_4 as int, put_bits(old(self)@[field::XVV_4 as int], 4, 4, value.raw())),
    {
        let raw = write_bits(self.buffer[field::XVV_4], 4, 4, u8::from(value));
        self.buffer.set(field::XVV_4, raw);
    }
}

/// A high-level representation of a x228 CAN frame.
#[derive(Debug, PartialEq, Eq, Clone, Copy)]
pub struct Repr {
    pub speed_setting: u16,
    pub speed_setting_adjustment_in_progress: bool,
    pub try_enable: bool,
    pub speed_regulation_mode_state: SpeedRegulationModeState,
    pub speed_regulation_mode: SpeedRegulationMode,
    pub speed_regulation_available: bool,
    pub acc_time: u8,
    pub speed_regulation_page_req: SpeedRegulationSettingPage,
    pub acc_adjusted_speed: u16,
    pub set_speed_from_traffic_sign_recognition_allowed: bool,
    pub mem_key_state: bool,
    pub acc_displayed_state: AdaptiveCruiseControlState,
}

impl Repr {
    /// The representation that the bytes of a frame carry.
    #[verifier::opaque]
    pub open spec fn from_bytes(bytes: Seq<u8>) -> Repr {
        Repr {
            speed_setting: be_u16(bytes, field::SPD_INST as int),
            speed_setting_adjustment_in_progress: flag(bytes[field::XVV_1 as int], 0),
            try_enable: flag(bytes[field::XVV_1 as int], 2),
            speed_regulation_mode_state: SpeedRegulationModeState::from_raw(bits(bytes[field::XVV_1 as int], 3, 3)),
            speed_regulation_mode: SpeedRegulationMode::from_raw(bits(bytes[field::XVV_1 as int], 6, 2)),
            speed_regulation_available: flag(bytes[field::XVV_2 as int], 7),
            acc_time: bits(bytes[field::XVV_3 as int], 0, 6),
            speed_regulation_page_req: SpeedRegulationSettingPage::from_raw(bits(bytes[field::XVV_3 as int], 6, 2)),
            acc_adjusted_speed: be_u16(bytes, field::ACC_ADJ_SPD as int),
            set_speed_from_traffic_sign_recognition_allowed: flag(bytes[field::XVV_4 as int], 0),
            mem_key_state: flag(bytes[field::XVV_4 as int], 1),
            acc_displayed_state: AdaptiveCruiseControlState::from_raw(bits(bytes[field::XVV_4 as int], 4, 4)),
        }
    }

    /// The byte at `field::XVV_1` once the fields that it carries are written into `b`.
    pub open spec fn xvv_1_byte(self, b: u8) -> u8 {
        put_bits(put_bits(put_flag(put_flag(b, 0, self.speed_setting_adjustment_in_progress), 2, self.try_enable), 3, 3, self.speed_regulation_mode_state.raw()), 6, 2, self.speed_regulation_mode.raw())
    }

    /// The byte at `field::XVV_3` once the fields that it carries are written into `b`.
    pub open spec fn xvv_3_byte(self, b: u8) -> u8 {
        put_bits(put_bits(b, 0, 6, self.acc_time), 6, 2, self.speed_regulation_page_req.raw())
    }

    /// The byte at `field::XVV_4` once the fields that it carries are written into `b`.
    pub open spec fn xvv_4_byte(self, b: u8) -> u8 {
        put_bits(put_flag(put_flag(b, 0, self.set_speed_from_traffic_sign_recognition_allowed), 1, self.mem_key_state), 4, 4, self.acc_displayed_state.raw())
    }

    /// The bytes of a frame once `self` is emitted into them.
    pub open spec fn emit_bytes(self, bytes: Seq<u8>) -> Seq<u8> {
        let words = put_be_u16(put_be_u16(bytes, field::SPD_INST as int, self.speed_setting), field::ACC_ADJ_SPD as int, self.acc_adjusted_speed);
        words.update(
            field::XVV_1 as int,
            self.xvv_1_byte(bytes[field::XVV_1 as int]),
        ).update(
            field::XVV_2 as int,
            put_flag(bytes[field::XVV_2 as int], 7, self.speed_regulation_available),
        ).update(
            field::XVV_3 as int,
            self.xvv_3_byte(bytes[field::XVV_3 as int]),
        ).update(
            field::XVV_4 as int,
            self.xvv_4_byte(bytes[field::XVV_4 as int]),
        )
    }

    /// Every field of `self` fits in the bits that the frame gives it.
    pub open spec fn fits(self) -> bool {
        &&& SpeedRegulationModeState::from_raw(self.speed_regulation_mode_state.raw()) == self.speed_regulation_mode_state && self.speed_regulation_mode_state.raw() < 8
        &&& SpeedRegulationMode::from_raw(self.speed_regulation_mode.raw()) == self.speed_regulation_mode && self.speed_regulation_mode.raw() < 4
        &&& self.acc_time < 64
        &&& SpeedRegulationSettingPage::from_raw(self.speed_regulation_page_req.raw()) == self.speed_regulation_page_req && self.speed_regulation_page_req.raw() < 4
        &&& AdaptiveCruiseControlState::from_raw(self.acc_displayed_state.raw()) == self.acc_displayed_state && self.acc_displayed_state.raw() < 16
    }

    /// Parse a x228 CAN frame into its high-level representation.
    pub fn parse(frame: &Frame) -> (r: Result<Repr, Error>)
        ensures
            r is Ok <==> frame@.len() == FRAME_LEN,
            r matches Ok(repr) ==> repr == Repr::from_bytes(frame@),
            r matches Err(e) ==> length_check(frame@.len(), FRAME_LEN as nat) == Err::<(), Error>(e),
    {
        if let Err(e) = frame.check_len() {
            return Err(e);
        }
        Ok(Self::read_fields(frame))
    }

    /// The representation that the bytes of `frame` carry.
    fn read_fields(frame: &Frame) -> (repr: Repr)
        requires
            FRAME_LEN <= frame@.len(),
        ensures
            repr == Repr::from_bytes(frame@),
    {
        let repr = Repr {
            speed_setting: frame.speed_setting(),
            speed_setting_adjustment_in_progress: frame.speed_setting_adjustment_in_progress(),
            try_enable: frame.try_enable(),
            speed_regulation_mode_state: frame.speed_regulation_mode_state(),
            speed_regulation_mode: frame.speed_regulation_mode(),
            speed_regulation_available: frame.speed_regulation_available(),
            acc_time: frame.acc_time(),
            speed_regulation_page_req: frame.speed_regulation_page_req(),
            acc_adjusted_speed: frame.acc_adjusted_speed(),
            set_speed_from_traffic_sign_recognition_allowed: frame.set_speed_from_traffic_sign_recognition_allowed(),
            mem_key_state: frame.mem_key_state(),
            acc_displayed_state: frame.acc_displayed_state(),
        };
        proof {
            Repr::lemma_from_fields(repr, frame@);
        }
        repr
    }

    /// A representation whose every field holds what `bytes` carry is the
    /// representation that `bytes` carry.
    proof fn lemma_from_fields(repr: Repr, bytes: Seq<u8>)
        requires
            repr.speed_setting == be_u16(bytes, field::SPD_INST as int),
            repr.speed_setting_adjustment_in_progress == flag(bytes[field::XVV_1 as int], 0),
            repr.try_enable == flag(bytes[field::XVV_1 as int], 2),
            repr.speed_regulation_mode_state == SpeedRegulationModeState::from_raw(bits(bytes[field::XVV_1 as int], 3, 3)),
            repr.speed_regulation_mode == SpeedRegulationMode::from_raw(bits(bytes[field::XVV_1 as int], 6, 2)),
            repr.speed_regulation_available == flag(bytes[field::XVV_2 as int], 7),
            repr.acc_time == bits(bytes[field::XVV_3 as int], 0, 6),
            repr.speed_regulation_page_req == SpeedRegulationSettingPage::from_raw(bits(bytes[field::XVV_3 as int], 6, 2)),
            repr.acc_adjusted_speed == be_u16(bytes, field::ACC_ADJ_SPD as int),
            repr.set_speed_from_traffic_sign_recognition_allowed == flag(bytes[field::XVV_4 as int], 0),
            repr.mem_key_state == flag(bytes[field::XVV_4 as int], 1),
            repr.acc_displayed_state == AdaptiveCruiseControlState::from_raw(bits(bytes[field::XVV_4 as int], 4, 4)),
        ensures
            repr == Repr::from_bytes(bytes),
    {
        reveal(Repr::from_bytes);
    }

    /// The text of `self`: each field by name, with its value.
    pub open spec fn text(self) -> Seq<char> {
        self.text_prefix_2()
    }

    /// The first part of the text of `self`, up to part 0.
    #[verifier::opaque]
    pub open spec fn text_prefix_0(self) -> Seq<char> {
        "x228\n speed_setting="@
            + decimal_text(self.speed_setting as nat)
            + "\n speed_setting_adjustment_in_progress="@
            + bool_text(self.speed_setting_adjustment_in_progress)
            + "\n try_enable="@
            + bool_text(self.try_enable)
            + "\n speed_regulation_mode_state="@
            + self.speed_regulation_mode_state.text()
            + "\n speed_regulation_mode="@
            + self.speed_regulation_mode.text()
    }

    /// The first parts of the text of `self`, up to part 1.
    #[verifier::opaque]
    pub open spec fn text_prefix_1(self) -> Seq<char> {
        self.text_prefix_0()
            + "\n speed_regulation_available="@
            + bool_text(self.speed_regulation_available)
            + "\n acc_time="@
            + decimal_text(self.acc_time as nat)
            + "\n speed_regulation_page_req="@
            + self.speed_regulation_page_req.text()
            + "\n acc_adjusted_speed="@
            + decimal_text(self.acc_adjusted_speed as nat)
            + "\n set_speed_from_traffic_sign_recognition_allowed="@
            + bool_text(self.set_speed_from_traffic_sign_recognition_allowed)
    }

    /// The first parts of the text of `self`, up to part 2.
    #[verifier::opaque]
    pub open spec fn text_prefix_2(self) -> Seq<char> {
        self.text_prefix_1()
            + "\n mem_key_state="@
            + bool_text(self.mem_key_state)
            + "\n acc_displayed_state="@
            + self.acc_displayed_state.text()
            + "\n"@
    }

    /// Return the text of `self`.
    pub fn to_text(&self) -> (s: String)
        ensures
            s@ == self.text(),
    {
        let mut s = self.text_start();
        self.push_text_part_1(&mut s);
        self.push_text_part_2(&mut s);
        s
    }

    /// The first part of the text of `self`.
    fn text_start(&self) -> (s: String)
        ensures
            s@ == self.text_prefix_0(),
    {
        proof {
            reveal(Repr::text_prefix_0);
        }
        let mut s = String::from_str("x228\n speed_setting=");
        push_decimal(&mut s, self.speed_setting as u64);
        s.append("\n speed_setting_adjustment_in_progress=");
        push_bool(&mut s, self.speed_setting_adjustment_in_progress);
        s.append("\n try_enable=");
        push_bool(&mut s, self.try_enable);
        s.append("\n speed_regulation_mode_state=");
        self.speed_regulation_mode_state.push_text(&mut s);
        s.append("\n speed_regulation_mode=");
        self.speed_regulation_mode.push_text(&mut s);
        s
    }

    /// Appends part 1 of the text of `self`.
    fn push_text_part_1(&self, s: &mut String)
        requires
            old(s)@ == self.text_prefix_0(),
        ensures
            final(s)@ == self.text_prefix_1(),
    {
        proof {
            reveal(Repr::text_prefix_1);
        }
        s.append("\n speed_regulation_available=");
        push_bool(s, self.speed_regulation_available);
        s.append("\n acc_time=");
        push_decimal(s, self.acc_time as u64);
        s.append("\n speed_regulation_page_req=");
        self.speed_regulation_page_req.push_text(s);
        s.append("\n acc_adjusted_speed=");
        push_decimal(s, self.acc_adjusted_speed as u64);
        s.append("\n set_speed_from_traffic_sign_recognition_allowed=");
        push_bool(s, self.set_speed_from_traffic_sign_recognition_allowed);
    }

    /// Appends part 2 of the text of `self`.
    fn push_text_part_2(&self, s: &mut String)
        requires
            old(s)@ == self.text_prefix_1(),
        ensures
            final(s)@ == self.text_prefix_2(),
    {
        proof {
            reveal(Repr::text_prefix_2);
        }
        s.append("\n mem_key_state=");
        push_bool(s, self.mem_key_state);
        s.append("\n acc_displayed_state=");
        self.acc_displayed_state.push_text(s);
        s.append("\n");
    }

    /// Return the length of a frame that will be emitted from this high-level representation.
    pub fn buffer_len(&self) -> (len: usize)
        ensures
            len == FRAME_LEN,
    {
        FRAME_LEN
    }

    /// Emit a high-level representation into a x228 CAN frame.
    pub fn emit(&self, frame: &mut Frame)
        requires
            FRAME_LEN <= old(frame)@.len(),
        ensures
            final(frame)@ == self.emit_bytes(old(frame)@),
    {
        frame.set_speed_setting(self.speed_setting);
        frame.set_acc_adjusted_speed(self.acc_adjusted_speed);
        self.emit_xvv_1(frame);
        frame.set_speed_regulation_available(self.speed_regulation_available);
        self.emit_xvv_3(frame);
        self.emit_xvv_4(frame);
    }

    /// Write the fields that the byte at `field::XVV_1` carries.
    fn emit_xvv_1(&self, frame: &mut Frame)
        requires
            field::XVV_1 < old(frame)@.len(),
        ensures
            final(frame)@ == old(frame)@.update(field::XVV_1 as int, self.xvv_1_byte(old(frame)@[field::XVV_1 as int])),
    {
        frame.set_speed_setting_adjustment_in_progress(self.speed_setting_adjustment_in_progress);
        frame.set_try_enable(self.try_enable);
        frame.set_speed_regulation_mode_state(self.speed_regulation_mode_state);
        frame.set_speed_regulation_mode(self.speed_regulation_mode);
    }

    /// Write the fields that the byte at `field::XVV_3` carries.
    fn emit_xvv_3(&self, frame: &mut Frame)
        requires
            field::XVV_3 < old(frame)@.len(),
        ensures
            final(frame)@ == old(frame)@.update(field::XVV_3 as int, self.xvv_3_byte(old(frame)@[field::XVV_3 as int])),
    {
        frame.set_acc_time(self.acc_time);
        frame.set_speed_regulation_page_req(self.speed_regulation_page_req);
    }

    /// Write the fields that the byte at `field::XVV_4` carries.
    fn emit_xvv_4(&self, frame: &mut Frame)
        requires
            field::XVV_4 < old(frame)@.len(),
        ensures
            final(frame)@ == old(frame)@.update(field::XVV_4 as int, self.xvv_4_byte(old(frame)@[field::XVV_4 as int])),
    {
        frame.set_set_speed_from_traffic_sign_recognition_allowed(self.set_speed_from_traffic_sign_recognition_allowed);
        frame.set_mem_key_state(self.mem_key_state);
        frame.set_acc_displayed_state(self.acc_displayed_state);
    }
}

impl Frame {
    /// Return the text of the frame: that of the representation that it
    /// carries, or the error that parsing it gives.
    pub fn to_text(&self) -> (s: String)
        ensures
            s@ == (match length_check(self@.len(), FRAME_LEN as nat) {
                Ok(_) => Repr::from_bytes(self@).text(),
                Err(e) => "x228 ("@ + e.text() + ")"@,
            }),
    {
        match Repr::parse(self) {
            Ok(repr) => repr.to_text(),
            Err(e) => {
                let mut s = String::from_str("x228 (");
                s.append(e.description());
                s.append(")");
                s
            },
        }
    }
}

/// The fields that the byte at `field::XVV_1` carries read back as they were written.
proof fn lemma_xvv_1_parse_emit(repr: Repr, b: u8)
    requires
        repr.fits(),
    ensures
        flag(repr.xvv_1_byte(b), 0) == repr.speed_setting_adjustment_in_progress,
        flag(repr.xvv_1_byte(b), 2) == repr.try_enable,
        SpeedRegulationModeState::from_raw(bits(repr.xvv_1_byte(b), 3, 3)) == repr.speed_regulation_mode_state,
        SpeedRegulationMode::from_raw(bits(repr.xvv_1_byte(b), 6, 2)) == repr.speed_regulation_mode,
{
    broadcast use group_frame_laws;

    lemma_low_mask_values();
}

/// Writing back the fields read from the byte at `field::XVV_1` leaves it unchanged.
proof fn lemma_xvv_1_emit_parse(bytes: Seq<u8>)
    requires
        bytes.len() == FRAME_LEN,
    ensures
        Repr::from_bytes(bytes).xvv_1_byte(bytes[field::XVV_1 as int]) == bytes[field::XVV_1 as int],
{
    reveal(Repr::from_bytes);
    broadcast use group_frame_laws;

    lemma_low_mask_values();
}

/// The fields that the byte at `field::XVV_2` carries read back as they were written.
proof fn lemma_xvv_2_parse_emit(repr: Repr, b: u8)
    requires
        repr.fits(),
    ensures
        flag(put_flag(b, 7, repr.speed_regulation_available), 7) == repr.speed_regulation_available,
{
    broadcast use group_frame_laws;

    lemma_low_mask_values();
}

/// The fields that the byte at `field::XVV_3` carries read back as they were written.
proof fn lemma_xvv_3_parse_emit(repr: Repr, b: u8)
    requires
        repr.fits(),
    ensures
        bits(repr.xvv_3_byte(b), 0, 6) == repr.acc_time,
        SpeedRegulationSettingPage::from_raw(bits(repr.xvv_3_byte(b), 6, 2)) == repr.speed_regulation_page_req,
{
    broadcast use group_frame_laws;

    lemma_low_mask_values();
}

/// Writing back the fields read from the byte at `field::XVV_3` leaves it unchanged.
proof fn lemma_xvv_3_emit_parse(bytes: Seq<u8>)
    requires
        bytes.len() == FRAME_LEN,
    ensures
        Repr::from_bytes(bytes).xvv_3_byte(bytes[field::XVV_3 as int]) == bytes[field::XVV_3 as int],
{
    reveal(Repr::from_bytes);
    broadcast use group_frame_laws;

    lemma_low_mask_values();
}

/// The fields that the byte at `field::XVV_4` carries read back as they were written.
proof fn lemma_xvv_4_parse_emit(repr: Repr, b: u8)
    requires
        repr.fits(),
    ensures
        flag(repr.xvv_4_byte(b), 0) == repr.set_speed_from_traffic_sign_recognition_allowed,
        flag(repr.xvv_4_byte(b), 1) == repr.mem_key_state,
        AdaptiveCruiseControlState::from_raw(bits(repr.xvv_4_byte(b), 4, 4)) == repr.acc_displayed_state,
{
    broadcast use group_frame_laws;

    lemma_low_mask_values();
}

/// Writing back the fields read from the byte at `field::XVV_4` leaves it unchanged.
proof fn lemma_xvv_4_emit_parse(bytes: Seq<u8>)
    requires
        bytes.len() == FRAME_LEN,
    ensures
        Repr::from_bytes(bytes).xvv_4_byte(bytes[field::XVV_4 as int]) == bytes[field::XVV_4 as int],
{
    reveal(Repr::from_bytes);
    broadcast use group_frame_laws;

    lemma_low_mask_values();
}

/// Emitting a representation whose fields fit into the bytes of a frame, then
/// parsing the bytes, gives the representation back.
pub proof fn lemma_parse_emit(repr: Repr, bytes: Seq<u8>)
    requires
        repr.fits(),
        bytes.len() == FRAME_LEN,
    ensures
        Repr::from_bytes(repr.emit_bytes(bytes)) == repr,
{
    let emitted = repr.emit_bytes(bytes);
    assert(emitted[field::XVV_1 as int] == repr.xvv_1_byte(bytes[field::XVV_1 as int]));
    assert(emitted[field::XVV_2 as int] == put_flag(bytes[field::XVV_2 as int], 7, repr.speed_regulation_available));
    assert(emitted[field::XVV_3 as int] == repr.xvv_3_byte(bytes[field::XVV_3 as int]));
    assert(emitted[field::XVV_4 as int] == repr.xvv_4_byte(bytes[field::XVV_4 as int]));
    lemma_be_u16_roundtrip(bytes, field::SPD_INST as int, repr.speed_setting);
    lemma_be_u16_roundtrip(put_be_u16(bytes, field::SPD_INST as int, repr.speed_setting), field::ACC_ADJ_SPD as int, repr.acc_adjusted_speed);
    let words = put_be_u16(put_be_u16(bytes, field::SPD_INST as int, repr.speed_setting), field::ACC_ADJ_SPD as int, repr.acc_adjusted_speed);
    assert(be_u16(emitted, field::SPD_INST as int) == be_u16(words, field::SPD_INST as int));
    assert(be_u16(emitted, field::SPD_INST as int) == repr.speed_setting);
    assert(be_u16(emitted, field::ACC_ADJ_SPD as int) == be_u16(words, field::ACC_ADJ_SPD as int));
    assert(be_u16(emitted, field::ACC_ADJ_SPD as int) == repr.acc_adjusted_speed);
    lemma_xvv_1_parse_emit(repr, bytes[field::XVV_1 as int]);
    lemma_xvv_2_parse_emit(repr, bytes[field::XVV_2 as int]);
    lemma_xvv_3_parse_emit(repr, bytes[field::XVV_3 as int]);
    lemma_xvv_4_parse_emit(repr, bytes[field::XVV_4 as int]);
    Repr::lemma_from_fields(repr, emitted);
}

/// Emitting the representation that the bytes of a frame carry leaves the
/// bytes unchanged.
pub proof fn lemma_emit_parse(bytes: Seq<u8>)
    requires
        bytes.len() == FRAME_LEN,
    ensures
        Repr::from_bytes(bytes).emit_bytes(bytes) == bytes,
{
    reveal(Repr::from_bytes);
    broadcast use group_frame_laws;

    lemma_low_mask_values();
    lemma_xvv_1_emit_parse(bytes);
    lemma_xvv_3_emit_parse(bytes);
    lemma_xvv_4_emit_parse(bytes);
}

/// Each field of a representation reads the bits of the frame that the
/// layout gives it: a word high byte first, a flag or a field through its
/// mask.
pub proof fn lemma_fields_from_bytes(bytes: Seq<u8>)
    requires
        bytes.len() == FRAME_LEN,
    ensures
        Repr::from_bytes(bytes).speed_setting as int == bytes[field::SPD_INST as int] as int * 0x100 + bytes[field::SPD_INST + 1] as int,
        Repr::from_bytes(bytes).speed_setting_adjustment_in_progress == ((bytes[field::XVV_1 as int] & 0x01) != 0),
        Repr::from_bytes(bytes).try_enable == ((bytes[field::XVV_1 as int] & 0x04) != 0),
        Repr::from_bytes(bytes).speed_regulation_mode_state == SpeedRegulationModeState::from_raw((bytes[field::XVV_1 as int] >> 3u8) & 0x07),
        Repr::from_bytes(bytes).speed_regulation_mode == SpeedRegulationMode::from_raw((bytes[field::XVV_1 as int] >> 6u8) & 0x03),
        Repr::from_bytes(bytes).speed_regulation_available == ((bytes[field::XVV_2 as int] & 0x80) != 0),
        Repr::from_bytes(bytes).acc_time == bytes[field::XVV_3 as int] & 0x3f,
        Repr::from_bytes(bytes).speed_regulation_page_req == SpeedRegulationSettingPage::from_raw((bytes[field::XVV_3 as int] >> 6u8) & 0x03),
        Repr::from_bytes(bytes).acc_adjusted_speed as int == bytes[field::ACC_ADJ_SPD as int] as int * 0x100 + bytes[field::ACC_ADJ_SPD + 1] as int,
        Repr::from_bytes(bytes).set_speed_from_traffic_sign_recognition_allowed == ((bytes[field::XVV_4 as int] & 0x01) != 0),
        Repr::from_bytes(bytes).mem_key_state == ((bytes[field::XVV_4 as int] & 0x02) != 0),
        Repr::from_bytes(bytes).acc_displayed_state == AdaptiveCruiseControlState::from_raw((bytes[field::XVV_4 as int] >> 4u8) & 0x0f),
{
    reveal(Repr::from_bytes);
    lemma_low_mask_values();
    lemma_bits_formula(bytes[field::XVV_1 as int], 3, 3);
    lemma_bits_formula(bytes[field::XVV_1 as int], 6, 2);
    lemma_bits_formula(bytes[field::XVV_3 as int], 6, 2);
    lemma_bits_formula(bytes[field::XVV_4 as int], 4, 4);
    lemma_bits_low_formula(bytes[field::XVV_3 as int], 6);
    lemma_flag_masks(bytes[field::XVV_1 as int]);
    lemma_flag_masks(bytes[field::XVV_2 as int]);
    lemma_flag_masks(bytes[field::XVV_4 as int]);
}

/// Every representation that the bytes of a frame carry fits in the frame,
/// so that it can be emitted back.
pub proof fn lemma_parsed_fits(bytes: Seq<u8>)
    requires
        bytes.len() == FRAME_LEN,
    ensures
        Repr::from_bytes(bytes).fits(),
{
    reveal(Repr::from_bytes);
    broadcast use group_frame_laws;

    lemma_low_mask_values();
}

/// The text of a representation shows each field after its name and before
/// the name of the next field, so the fields stand in their order.
pub proof fn lemma_text_shows_fields(repr: Repr)
    ensures
        occurs("x228\n speed_setting="@ + decimal_text(repr.speed_setting as nat) + "\n speed_setting_adjustment_in_progress="@, repr.text()),
        occurs("\n speed_setting_adjustment_in_progress="@ + bool_text(repr.speed_setting_adjustment_in_progress) + "\n try_enable="@, repr.text()),
        occurs("\n try_enable="@ + bool_text(repr.try_enable) + "\n speed_regulation_mode_state="@, repr.text()),
        occurs("\n speed_regulation_mode_state="@ + repr.speed_regulation_mode_state.text() + "\n speed_regulation_mode="@, repr.text()),
        occurs("\n speed_regulation_mode="@ + repr.speed_regulation_mode.text() + "\n speed_regulation_available="@, repr.text()),
        occurs("\n speed_regulation_available="@ + bool_text(repr.speed_regulation_available) + "\n acc_time="@, repr.text()),
        occurs("\n acc_time="@ + decimal_text(repr.acc_time as nat) + "\n speed_regulation_page_req="@, repr.text()),
        occurs("\n speed_regulation_page_req="@ + repr.speed_regulation_page_req.text() + "\n acc_adjusted_speed="@, repr.text()),
        occurs("\n acc_adjusted_speed="@ + decimal_text(repr.acc_adjusted_speed as nat) + "\n set_speed_from_traffic_sign_recognition_allowed="@, repr.text()),
        occurs("\n set_speed_from_traffic_sign_recognition_allowed="@ + bool_text(repr.set_speed_from_traffic_sign_recognition_allowed) + "\n mem_key_state="@, repr.text()),
        occurs("\n mem_key_state="@ + bool_text(repr.mem_key_state) + "\n acc_displayed_state="@, repr.text()),
        occurs("\n acc_displayed_state="@ + repr.acc_displayed_state.text() + "\n"@, repr.text()),
{
    lemma_text_part_0_shows_fields(repr);
    lemma_text_part_1_shows_fields(repr);
    lemma_text_prefix_0_grows(repr);
    lemma_text_part_2_shows_fields(repr);
    lemma_text_prefix_1_grows(repr);
}

/// Part 0 of the text of a representation shows each of its fields after
/// its name and before the name of the next field.
proof fn lemma_text_part_0_shows_fields(repr: Repr)
    ensures
        occurs("x228\n speed_setting="@ + decimal_text(repr.speed_setting as nat) + "\n speed_setting_adjustment_in_progress="@, repr.text_prefix_0()),
        occurs("\n speed_setting_adjustment_in_progress="@ + bool_text(repr.speed_setting_adjustment_in_progress) + "\n try_enable="@, repr.text_prefix_0()),
        occurs("\n try_enable="@ + bool_text(repr.try_enable) + "\n speed_regulation_mode_state="@, repr.text_prefix_0()),
        occurs("\n speed_regulation_mode_state="@ + repr.speed_regulation_mode_state.text() + "\n speed_regulation_mode="@, repr.text_prefix_0()),
{
    reveal(Repr::text_prefix_0);
    broadcast use group_occurs;

}

/// Part 1 of the text of a representation shows each of its fields after
/// its name and before the name of the next field.
proof fn lemma_text_part_1_shows_fields(repr: Repr)
    ensures
        occurs("\n speed_regulation_mode="@ + repr.speed_regulation_mode.text() + "\n speed_regulation_available="@, repr.text_prefix_1()),
        occurs("\n speed_regulation_available="@ + bool_text(repr.speed_regulation_available) + "\n acc_time="@, repr.text_prefix_1()),
        occurs("\n acc_time="@ + decimal_text(repr.acc_time as nat) + "\n speed_regulation_page_req="@, repr.text_prefix_1()),
        occurs("\n speed_regulation_page_req="@ + repr.speed_regulation_page_req.text() + "\n acc_adjusted_speed="@, repr.text_prefix_1()),
        occurs("\n acc_adjusted_speed="@ + decimal_text(repr.acc_adjusted_speed as nat) + "\n set_speed_from_traffic_sign_recognition_allowed="@, repr.text_prefix_1()),
{
    reveal(Repr::text_prefix_0);
    reveal(Repr::text_prefix_1);
    broadcast use group_occurs;

}

/// What occurs in the text of a representation up to part 0 occurs in its
/// text up to part 1.
proof fn lemma_text_prefix_0_grows(repr: Repr)
    ensures
        forall|t: Seq<char>| occurs(t, repr.text_prefix_0()) ==> #[trigger] occurs(t, repr.text_prefix_1()),
{
    reveal(Repr::text_prefix_1);
    broadcast use group_occurs;

}

/// Part 2 of the text of a representation shows each of its fields after
/// its name and before the name of the next field.
proof fn lemma_text_part_2_shows_fields(repr: Repr)
    ensures
        occurs("\n set_speed_from_traffic_sign_recognition_allowed="@ + bool_text(repr.set_speed_from_traffic_sign_recognition_allowed) + "\n mem_key_state="@, repr.text_prefix_2()),
        occurs("\n mem_key_state="@ + bool_text(repr.mem_key_state) + "\n acc_displayed_state="@, repr.text_prefix_2()),
        occurs("\n acc_displayed_state="@ + repr.acc_displayed_state.text() + "\n"@, repr.text_prefix_2()),
{
    reveal(Repr::text_prefix_1);
    reveal(Repr::text_prefix_2);
    broadcast use group_occurs;

}

/// What occurs in the text of a representation up to part 1 occurs in its
/// text up to part 2.
proof fn lemma_text_prefix_1_grows(repr: Repr)
    ensures
        forall|t: Seq<char>| occurs(t, repr.text_prefix_1()) ==> #[trigger] occurs(t, repr.text_prefix_2()),
{
    reveal(Repr::text_prefix_2);
    broadcast use group_occurs;

}

} // verus!
