//! The x329 CAN frame: display requests to the driving assistance systems.
use crate::bitfield::{bits, flag, lemma_bits_formula, lemma_bits_low_formula, lemma_flag_masks, lemma_low_mask_values, put_bits, put_flag, read_bits, read_flag, write_bits, write_flag};
use crate::{check_frame_len, group_frame_laws, length_check, Error};
use crate::text::{bool_text, decimal_text, group_occurs, occurs, push_bool, push_decimal};
use vstd::prelude::*;

pub mod field;

verus! {

/// A read/write wrapper around a x329 CAN frame buffer.
#[derive(Debug, PartialEq, Clone)]
pub struct Frame {
    buffer: Vec<u8>,
}

impl View for Frame {
    type V = Seq<u8>;

    closed spec fn view(&self) -> Seq<u8> {
        self.buffer@
    }
}

impl AsRef<[u8]> for Frame {
    /// The bytes of the frame.
    fn as_ref(&self) -> (bytes: &[u8])
        ensures
            bytes@ == self@,
    {
        self.buffer.as_slice()
    }
}

/// Length of a x329 CAN frame.
pub const FRAME_LEN: usize = field::REQ_6 + 1;

/// Periodicity of a x329 CAN frame, in milliseconds.
pub const PERIODICITY_MS: u64 = 200;

impl Frame {
    /// Create a raw octet buffer with a CAN frame structure.
    pub fn new_unchecked(buffer: Vec<u8>) -> (frame: Frame)
        ensures
            frame@ == buffer@,
    {
        Frame { buffer }
    }

    /// Shorthand for a combination of `new_unchecked` and `check_len`.
    pub fn new_checked(buffer: Vec<u8>) -> (r: Result<Frame, Error>)
        ensures
            r is Ok <==> buffer@.len() == FRAME_LEN,
            r matches Ok(frame) ==> frame@ == buffer@,
            r matches Err(e) ==> length_check(buffer@.len(), FRAME_LEN as nat) == Err::<(), Error>(e),
    {
        let frame = Self::new_unchecked(buffer);
        match frame.check_len() {
            Ok(()) => Ok(frame),
            Err(e) => Err(e),
        }
    }

    /// Ensure that no accessor method will panic if called.
    /// Returns `Err(Error::Truncated)` if the buffer is too short and
    /// `Err(Error::Overlong)` if it is too long.
    pub fn check_len(&self) -> (r: Result<(), Error>)
        ensures
            r == length_check(self@.len(), FRAME_LEN as nat),
    {
        check_frame_len(self.buffer.len(), FRAME_LEN)
    }

    /// Consume the frame, returning the underlying buffer.
    pub fn into_inner(self) -> (buffer: Vec<u8>)
        ensures
            buffer@ == self@,
    {
        self.buffer
    }

    /// Return the frame length.
    pub fn frame_len(&self) -> (len: usize)
        ensures
            len == FRAME_LEN,
    {
        FRAME_LEN
    }

    /// Return the fragrance diffuser mono-fragrance cartridge type field.
    pub fn fragrance_diffuser_mono_type(&self) -> (value: u8)
        requires
            field::REQ_0 < self@.len(),
        ensures
            value == bits(self@[field::REQ_0 as int], 0, 2),
    {
        read_bits(self.buffer[field::REQ_0], 0, 2)
    }

    /// Return the lane-keep assist push button state flag.
    pub fn lane_keep_assist_button_state(&self) -> (value: bool)
        requires
            field::REQ_0 < self@.len(),
        ensures
            value == flag(self@[field::REQ_0 as int], 4),
    {
        read_flag(self.buffer[field::REQ_0], 4)
    }

    /// Return the front seats massage adjustment request field.
    pub fn front_massage_adjustment(&self) -> (value: u8)
        requires
            field::REQ_1 < self@.len(),
        ensures
            value == bits(self@[field::REQ_1 as int], 0, 2),
    {
        read_bits(self.buffer[field::REQ_1], 0, 2)
    }

    /// Return the fragrance diffuser perfume selection request field.
    pub fn fragrance_diffuser_perfume_selection(&self) -> (value: u8)
        requires
            field::REQ_1 < self@.len(),
        ensures
            value == bits(self@[field::REQ_1 as int], 2, 2),
    {
        read_bits(self.buffer[field::REQ_1], 2, 2)
    }

    /// Return the fragrance diffuser intensity request field.
    pub fn fragrance_diffuser_intensity(&self) -> (value: u8)
        requires
            field::REQ_1 < self@.len(),
        ensures
            value == bits(self@[field::REQ_1 as int], 4, 2),
    {
        read_bits(self.buffer[field::REQ_1], 4, 2)
    }

    /// Return the fragrance diffuser request field.
    pub fn fragrance_diffuser_request(&self) -> (value: u8)
        requires
            field::REQ_1 < self@.len(),
        ensures
            value == bits(self@[field::REQ_1 as int], 6, 2),
    {
        read_bits(self.buffer[field::REQ_1], 6, 2)
    }

    /// Return the massage activation request flag.
    pub fn massage_activation_request(&self) -> (value: bool)
        requires
            field::REQ_2 < self@.len(),
        ensures
            value == flag(self@[field::REQ_2 as int], 1),
    {
        read_flag(self.buffer[field::REQ_2], 1)
    }

    /// Return the massage intensity request field.
    pub fn massage_intensity(&self) -> (value: u8)
        requires
            field::REQ_2 < self@.len(),
        ensures
            value == bits(self@[field::REQ_2 as int], 2, 2),
    {
        read_bits(self.buffer[field::REQ_2], 2, 2)
    }

    /// Return the massage type field.
    pub fn massage_type(&self) -> (value: u8)
        requires
            field::REQ_2 < self@.len(),
        ensures
            value == bits(self@[field::REQ_2 as int], 4, 4),
    {
        read_bits(self.buffer[field::REQ_2], 4, 4)
    }

    /// Return the traction control inhibit request flag.
    pub fn asr_inhibit(&self) -> (value: bool)
        requires
            field::REQ_3 < self@.len(),
        ensures
            value == flag(self@[field::REQ_3 as int], 0),
    {
        read_flag(self.buffer[field::REQ_3], 0)
    }

    /// Return the consumption history zoomed value field.
    pub fn consumption_history_zoomed_value(&self) -> (value: u8)
        requires
            field::REQ_3 < self@.len(),
        ensures
            value == bits(self@[field::REQ_3 as int], 1, 2),
    {
        read_bits(self.buffer[field::REQ_3], 1, 2)
    }

    /// Return the dynamic mode selected mode value field.
    pub fn dynamic_mode_selected_mode(&self) -> (value: u8)
        requires
            field::REQ_3 < self@.len(),
        ensures
            value == bits(self@[field::REQ_3 as int], 3, 2),
    {
        read_bits(self.buffer[field::REQ_3], 3, 2)
    }

    /// Set fragrance diffuser mono-fragrance cartridge type field.
    pub fn set_fragrance_diffuser_mono_type(&mut self, value: u8)
        requires
            field::REQ_0 < old(self)@.len(),
        ensures
            final(self)@ == old(self)@.update(field::REQ_0 as int, put_bits(old(self)@[field::REQ_0 as int], 0, 2, value)),
    {
        let raw = write_bits(self.buffer[field::REQ_0], 0, 2, value);
        self.buffer.set(field::REQ_0, raw);
    }

    /// Set the lane-keep assist push button state flag.
    pub fn set_lane_keep_assist_button_state(&mut self, value: bool)
        requires
            field::REQ_0 < old(self)@.len(),
        ensures
            final(self)@ == old(self)@.update(field::REQ_0 as int, put_flag(old(self)@[field::REQ_0 as int], 4, value)),
    {
        let raw = write_flag(self.buffer[field::REQ_0], 4, value);
        self.buffer.set(field::REQ_0, raw);
    }

    /// Set the front seats massage adjustment request field.
    pub fn set_front_massage_adjustment(&mut self, value: u8)
        requires
            field::REQ_1 < old(self)@.len(),
        ensures
            final(self)@ == old(self)@.update(field::REQ_1 as int, put_bits(old(self)@[field::REQ_1 as int], 0, 2, value)),
    {
        let raw = write_bits(self.buffer[field::REQ_1], 0, 2, value);
        self.buffer.set(field::REQ_1, raw);
    }

    /// Set the fragrance diffuser perfume selection request field.
    pub fn set_fragrance_diffuser_perfume_selection(&mut self, value: u8)
        requires
            field::REQ_1 < old(self)@.len(),
        ensures
            final(self)@ == old(self)@.update(field::REQ_1 as int, put_bits(old(self)@[field::REQ_1 as int], 2, 2, value)),
    {
        let raw = write_bits(self.buffer[field::REQ_1], 2, 2, value);
        self.buffer.set(field::REQ_1, raw);
    }

    /// Set the fragrance diffuser intensity request field.
    pub fn set_fragrance_diffuser_intensity(&mut self, value: u8)
        requires
            field::REQ_1 < old(self)@.len(),
        ensures
            final(self)@ == old(self)@.update(field::REQ_1 as int, put_bits(old(self)@[field::REQ_1 as int], 4, 2, value)),
    {
        let raw = write_bits(self.buffer[field::REQ_1], 4, 2, value);
        self.buffer.set(field::REQ_1, raw);
    }

    /// Set the fragrance diffuser request field.
    pub fn set_fragrance_diffuser_request(&mut self, value: u8)
        requires
            field::REQ_1 < old(self)@.len(),
        ensures
            final(self)@ == old(self)@.update(field::REQ_1 as int, put_bits(old(self)@[field::REQ_1 as int], 6, 2, value)),
    {
        let raw = write_bits(self.buffer[field::REQ_1], 6, 2, value);
        self.buffer.set(field::REQ_1, raw);
    }

    /// Set the massage activation request flag.
    pub fn set_massage_activation_request(&mut self, value: bool)
        requires
            field::REQ_2 < old(self)@.len(),
        ensures
            final(self)@ == old(self)@.update(field::REQ_2 as int, put_flag(old(self)@[field::REQ_2 as int], 1, value)),
    {
        let raw = write_flag(self.buffer[field::REQ_2], 1, value);
        self.buffer.set(field::REQ_2, raw);
    }

    /// Set the massage intensity request field.
    pub fn set_massage_intensity(&mut self, value: u8)
        requires
            field::REQ_2 < old(self)@.len(),
        ensures
            final(self)@ == old(self)@.update(field::REQ_2 as int, put_bits(old(self)@[field::REQ_2 as int], 2, 2, value)),
    {
        let raw = write_bits(self.buffer[field::REQ_2], 2, 2, value);
        self.buffer.set(field::REQ_2, raw);
    }

    /// Set the massage type request field.
    pub fn set_massage_type(&mut self, value: u8)
        requires
            field::REQ_2 < old(self)@.len(),
        ensures
            final(self)@ == old(self)@.update(field::REQ_2 as int, put_bits(old(self)@[field::REQ_2 as int], 4, 4, value)),
    {
        let raw = write_bits(self.buffer[field::REQ_2], 4, 4, value);
        self.buffer.set(field::REQ_2, raw);
    }

    /// Set the traction control inhibit request flag.
    pub fn set_asr_inhibit(&mut self, value: bool)
        requires
            field::REQ_3 < old(self)@.len(),
        ensures
            final(self)@ == old(self)@.update(field::REQ_3 as int, put_flag(old(self)@[field::REQ_3 as int], 0, value)),
    {
        let raw = write_flag(self.buffer[field::REQ_3], 0, value);
        self.buffer.set(field::REQ_3, raw);
    }

    /// Set the consumption history zoomed value field.
    pub fn set_consumption_history_zoomed_value(&mut self, value: u8)
        requires
            field::REQ_3 < old(self)@.len(),
        ensures
            final(self)@ == old(self)@.update(field::REQ_3 as int, put_bits(old(self)@[field::REQ_3 as int], 1, 2, value)),
    {
        let raw = write_bits(self.buffer[field::REQ_3], 1, 2, value);
        self.buffer.set(field::REQ_3, raw);
    }

    /// Set the dynamic mode selected mode value field.
    pub fn set_dynamic_mode_selected_mode(&mut self, value: u8)
        requires
            field::REQ_3 < old(self)@.len(),
        ensures
            final(self)@ == old(self)@.update(field::REQ_3 as int, put_bits(old(self)@[field::REQ_3 as int], 3, 2, value)),
    {
        let raw = write_bits(self.buffer[field::REQ_3], 3, 2, value);
        self.buffer.set(field::REQ_3, raw);
    }
}

/// A high-level representation of a x329 CAN frame.
#[derive(Debug, PartialEq, Eq, Clone, Copy)]
pub struct Repr {
    pub fragrance_diffuser_mono_fragrance_cartridge_type: u8,
    pub lane_keep_assist_button_state: bool,
    pub front_seat_massage_adjustment: u8,
    pub fragrance_diffuser_perfume_selection: u8,
    pub fragrance_diffuser_intensity: u8,
    pub fragrance_diffuser_request: u8,
    pub massage_activation_request: bool,
    pub massage_intensity: u8,
    pub massage_type: u8,
    pub asr_inhibit: bool,
    pub consumption_history_zoomed_value: u8,
    pub dynamic_mode_selected_mode: u8,
}

impl Repr {
    /// The representation that the bytes of a frame carry.
    #[verifier::opaque]
    pub open spec fn from_bytes(bytes: Seq<u8>) -> Repr {
        Repr {
            fragrance_diffuser_mono_fragrance_cartridge_type: bits(bytes[field::REQ_0 as int], 0, 2),
            lane_keep_assist_button_state: flag(bytes[field::REQ_0 as int], 4),
            front_seat_massage_adjustment: bits(bytes[field::REQ_1 as int], 0, 2),
            fragrance_diffuser_perfume_selection: bits(bytes[field::REQ_1 as int], 2, 2),
            fragrance_diffuser_intensity: bits(bytes[field::REQ_1 as int], 4, 2),
            fragrance_diffuser_request: bits(bytes[field::REQ_1 as int], 6, 2),
            massage_activation_request: flag(bytes[field::REQ_2 as int], 1),
            massage_intensity: bits(bytes[field::REQ_2 as int], 2, 2),
            massage_type: bits(bytes[field::REQ_2 as int], 4, 4),
            asr_inhibit: flag(bytes[field::REQ_3 as int], 0),
            consumption_history_zoomed_value: bits(bytes[field::REQ_3 as int], 1, 2),
            dynamic_mode_selected_mode: bits(bytes[field::REQ_3 as int], 3, 2),
        }
    }

    /// The byte at `field::REQ_0` once the fields that it carries are written into `b`.
    pub open spec fn req_0_byte(self, b: u8) -> u8 {
        put_flag(put_bits(b, 0, 2, self.fragrance_diffuser_mono_fragrance_cartridge_type), 4, self.lane_keep_assist_button_state)
    }

    /// The byte at `field::REQ_1` once the fields that it carries are written into `b`.
    pub open spec fn req_1_byte(self, b: u8) -> u8 {
        put_bits(put_bits(put_bits(put_bits(b, 0, 2, self.front_seat_massage_adjustment), 2, 2, self.fragrance_diffuser_perfume_selection), 4, 2, self.fragrance_diffuser_intensity), 6, 2, self.fragrance_diffuser_request)
    }

    /// The byte at `field::REQ_2` once the fields that it carries are written into `b`.
    pub open spec fn req_2_byte(self, b: u8) -> u8 {
        put_bits(put_bits(put_flag(b, 1, self.massage_activation_request), 2, 2, self.massage_intensity), 4, 4, self.massage_type)
    }

    /// The byte at `field::REQ_3` once the fields that it carries are written into `b`.
    pub open spec fn req_3_byte(self, b: u8) -> u8 {
        put_bits(put_bits(put_flag(b, 0, self.asr_inhibit), 1, 2, self.consumption_history_zoomed_value), 3, 2, self.dynamic_mode_selected_mode)
    }

    /// The bytes of a frame once `self` is emitted into them.
    pub open spec fn emit_bytes(self, bytes: Seq<u8>) -> Seq<u8> {
        bytes.update(
            field::REQ_0 as int,
            self.req_0_byte(bytes[field::REQ_0 as int]),
        ).update(
            field::REQ_1 as int,
            self.req_1_byte(bytes[field::REQ_1 as int]),
        ).update(
            field::REQ_2 as int,
            self.req_2_byte(bytes[field::REQ_2 as int]),
        ).update(
            field::REQ_3 as int,
            self.req_3_byte(bytes[field::REQ_3 as int]),
        )
    }

    /// Every field of `self` fits in the bits that the frame gives it.
    pub open spec fn fits(self) -> bool {
        &&& self.fragrance_diffuser_mono_fragrance_cartridge_type < 4
        &&& self.front_seat_massage_adjustment < 4
        &&& self.fragrance_diffuser_perfume_selection < 4
        &&& self.fragrance_diffuser_intensity < 4
        &&& self.fragrance_diffuser_request < 4
        &&& self.massage_intensity < 4
        &&& self.massage_type < 16
        &&& self.consumption_history_zoomed_value < 4
        &&& self.dynamic_mode_selected_mode < 4
    }

    /// Parse a x329 CAN frame into its high-level representation.
    pub fn parse(frame: &Frame) -> (r: Result<Repr, Error>)
        ensures
            r is Ok <==> frame@.len() == FRAME_LEN,
            r matches Ok(repr) ==> repr == Repr::from_bytes(frame@),
            r matches Err(e) ==> length_check(frame@.len(), FRAME_LEN as nat) == Err::<(), Error>(e),
    {
        if let Err(e) = frame.check_len() {
            return Err(e);
        }
        Ok(Self::read_fields(frame))
    }

    /// The representation that the bytes of `frame` carry.
    fn read_fields(frame: &Frame) -> (repr: Repr)
        requires
            FRAME_LEN <= frame@.len(),
        ensures
            repr == Repr::from_bytes(frame@),
    {
        let repr = Repr {
            fragrance_diffuser_mono_fragrance_cartridge_type: frame.fragrance_diffuser_mono_type(),
            lane_keep_assist_button_state: frame.lane_keep_assist_button_state(),
            front_seat_massage_adjustment: frame.front_massage_adjustment(),
            fragrance_diffuser_perfume_selection: frame.fragrance_diffuser_perfume_selection(),
            fragrance_diffuser_intensity: frame.fragrance_diffuser_intensity(),
            fragrance_diffuser_request: frame.fragrance_diffuser_request(),
            massage_activation_request: frame.massage_activation_request(),
            massage_intensity: frame.massage_intensity(),
            massage_type: frame.massage_type(),
            asr_inhibit: frame.asr_inhibit(),
            consumption_history_zoomed_value: frame.consumption_history_zoomed_value(),
            dynamic_mode_selected_mode: frame.dynamic_mode_selected_mode(),
        };
        proof {
            Repr::lemma_from_fields(repr, frame@);
        }
        repr
    }

    /// A representation whose every field holds what `bytes` carry is the
    /// representation that `bytes` carry.
    proof fn lemma_from_fields(repr: Repr, bytes: Seq<u8>)
        requires
            repr.fragrance_diffuser_mono_fragrance_cartridge_type == bits(bytes[field::REQ_0 as int], 0, 2),
            repr.lane_keep_assist_button_state == flag(bytes[field::REQ_0 as int], 4),
            repr.front_seat_massage_adjustment == bits(bytes[field::REQ_1 as int], 0, 2),
            repr.fragrance_diffuser_perfume_selection == bits(bytes[field::REQ_1 as int], 2, 2),
            repr.fragrance_diffuser_intensity == bits(bytes[field::REQ_1 as int], 4, 2),
            repr.fragrance_diffuser_request == bits(bytes[field::REQ_1 as int], 6, 2),
            repr.massage_activation_request == flag(bytes[field::REQ_2 as int], 1),
            repr.massage_intensity == bits(bytes[field::REQ_2 as int], 2, 2),
            repr.massage_type == bits(bytes[field::REQ_2 as int], 4, 4),
            repr.asr_inhibit == flag(bytes[field::REQ_3 as int], 0),
            repr.consumption_history_zoomed_value == bits(bytes[field::REQ_3 as int], 1, 2),
            repr.dynamic_mode_selected_mode == bits(bytes[field::REQ_3 as int], 3, 2),
        ensures
            repr == Repr::from_bytes(bytes),
    {
        reveal(Repr::from_bytes);
    }

    /// The text of `self`: each field by name, with its value.
    pub open spec fn text(self) -> Seq<char> {
        self.text_prefix_2()
    }

    /// The first part of the text of `self`, up to part 0.
    #[verifier::opaque]
    pub open spec fn text_prefix_0(self) -> Seq<char> {
        "x329 fragrance_diffuser_mono_fragrance_cartridge_type="@
            + decimal_text(self.fragrance_diffuser_mono_fragrance_cartridge_type as nat)
            + "\n lane_keep_assist_button_state="@
            + bool_text(self.lane_keep_assist_button_state)
            + "\n front_seat_massage_adjustment="@
            + decimal_text(self.front_seat_massage_adjustment as nat)
            + "\n fragrance_diffuser_perfume_selection="@
            + decimal_text(self.fragrance_diffuser_perfume_selection as nat)
            + "\n fragrance_diffuser_intensity="@
            + decimal_text(self.fragrance_diffuser_intensity as nat)
    }

    /// The first parts of the text of `self`, up to part 1.
    #[verifier::opaque]
    pub open spec fn text_prefix_1(self) -> Seq<char> {
        self.text_prefix_0()
            + "\n fragrance_diffuser_request="@
            + decimal_text(self.fragrance_diffuser_request as nat)
            + "\n massage_activation_request="@
            + bool_text(self.massage_activation_request)
            + "\n massage_intensity="@
            + decimal_text(self.massage_intensity as nat)
            + "\n massage_type="@
            + decimal_text(self.massage_type as nat)
            + "\n asr_inhibit="@
            + bool_text(self.asr_inhibit)
    }

    /// The first parts of the text of `self`, up to part 2.
    #[verifier::opaque]
    pub open spec fn text_prefix_2(self) -> Seq<char> {
        self.text_prefix_1()
            + "\n consumption_history_zoomed_value="@
            + decimal_text(self.consumption_history_zoomed_value as nat)
            + "\n dynamic_mode_selected_mode="@
            + decimal_text(self.dynamic_mode_selected_mode as nat)
            + "\n"@
    }

    /// Return the text of `self`.
    pub fn to_text(&self) -> (s: String)
        ensures
            s@ == self.text(),
    {
        let mut s = self.text_start();
        self.push_text_part_1(&mut s);
        self.push_text_part_2(&mut s);
        s
    }

    /// The first part of the text of `self`.
    fn text_start(&self) -> (s: String)
        ensures
            s@ == self.text_prefix_0(),
    {
        proof {
            reveal(Repr::text_prefix_0);
        }
        let mut s = String::from_str("x329 fragrance_diffuser_mono_fragrance_cartridge_type=");
        push_decimal(&mut s, self.fragrance_diffuser_mono_fragrance_cartridge_type as u64);
        s.append("\n lane_keep_assist_button_state=");
        push_bool(&mut s, self.lane_keep_assist_button_state);
        s.append("\n front_seat_massage_adjustment=");
        push_decimal(&mut s, self.front_seat_massage_adjustment as u64);
        s.append("\n fragrance_diffuser_perfume_selection=");
        push_decimal(&mut s, self.fragrance_diffuser_perfume_selection as u64);
        s.append("\n fragrance_diffuser_intensity=");
        push_decimal(&mut s, self.fragrance_diffuser_intensity as u64);
        s
    }

    /// Appends part 1 of the text of `self`.
    fn push_text_part_1(&self, s: &mut String)
        requires
            old(s)@ == self.text_prefix_0(),
        ensures
            final(s)@ == self.text_prefix_1(),
    {
        proof {
            reveal(Repr::text_prefix_1);
        }
        s.append("\n fragrance_diffuser_request=");
        push_decimal(s, self.fragrance_diffuser_request as u64);
        s.append("\n massage_activation_request=");
        push_bool(s, self.massage_activation_request);
        s.append("\n massage_intensity=");
        push_decimal(s, self.massage_intensity as u64);
        s.append("\n massage_type=");
        push_decimal(s, self.massage_type as u64);
        s.append("\n asr_inhibit=");
        push_bool(s, self.asr_inhibit);
    }

    /// Appends part 2 of the text of `self`.
    fn push_text_part_2(&self, s: &mut String)
        requires
            old(s)@ == self.text_prefix_1(),
        ensures
            final(s)@ == self.text_prefix_2(),
    {
        proof {
            reveal(Repr::text_prefix_2);
        }
        s.append("\n consumption_history_zoomed_value=");
        push_decimal(s, self.consumption_history_zoomed_value as u64);
        s.append("\n dynamic_mode_selected_mode=");
        push_decimal(s, self.dynamic_mode_selected_mode as u64);
        s.append("\n");
    }

    /// Return the length of a frame that will be emitted from this high-level representation.
    pub fn buffer_len(&self) -> (len: usize)
        ensures
            len == FRAME_LEN,
    {
        FRAME_LEN
    }

    /// Emit a high-level representation into a x329 CAN frame.
    pub fn emit(&self, frame: &mut Frame)
        requires
            FRAME_LEN <= old(frame)@.len(),
        ensures
            final(frame)@ == self.emit_bytes(old(frame)@),
    {
        self.emit_req_0(frame);
        self.emit_req_1(frame);
        self.emit_req_2(frame);
        self.emit_req_3(frame);
    }

    /// Write the fields that the byte at `field::REQ_0` carries.
    fn emit_req_0(&self, frame: &mut Frame)
        requires
            field::REQ_0 < old(frame)@.len(),
        ensures
            final(frame)@ == old(frame)@.update(field::REQ_0 as int, self.req_0_byte(old(frame)@[field::REQ_0 as int])),
    {
        frame.set_fragrance_diffuser_mono_type(self.fragrance_diffuser_mono_fragrance_cartridge_type);
        frame.set_lane_keep_assist_button_state(self.lane_keep_assist_button_state);
    }

    /// Write the fields that the byte at `field::REQ_1` carries.
    fn emit_req_1(&self, frame: &mut Frame)
        requires
            field::REQ_1 < old(frame)@.len(),
        ensures
            final(frame)@ == old(frame)@.update(field::REQ_1 as int, self.req_1_byte(old(frame)@[field::REQ_1 as int])),
    {
        frame.set_front_massage_adjustment(self.front_seat_massage_adjustment);
        frame.set_fragrance_diffuser_perfume_selection(self.fragrance_diffuser_perfume_selection);
        frame.set_fragrance_diffuser_intensity(self.fragrance_diffuser_intensity);
        frame.set_fragrance_diffuser_request(self.fragrance_diffuser_request);
    }

    /// Write the fields that the byte at `field::REQ_2` carries.
    fn emit_req_2(&self, frame: &mut Frame)
        requires
            field::REQ_2 < old(frame)@.len(),
        ensures
            final(frame)@ == old(frame)@.update(field::REQ_2 as int, self.req_2_byte(old(frame)@[field::REQ_2 as int])),
    {
        frame.set_massage_activation_request(self.massage_activation_request);
        frame.set_massage_intensity(self.massage_intensity);
        frame.set_massage_type(self.massage_type);
    }

    /// Write the fields that the byte at `field::REQ_3` carries.
    fn emit_req_3(&self, frame: &mut Frame)
        requires
            field::REQ_3 < old(frame)@.len(),
        ensures
            final(frame)@ == old(frame)@.update(field::REQ_3 as int, self.req_3_byte(old(frame)@[field::REQ_3 as int])),
    {
        frame.set_asr_inhibit(self.asr_inhibit);
        frame.set_consumption_history_zoomed_value(self.consumption_history_zoomed_value);
        frame.set_dynamic_mode_selected_mode(self.dynamic_mode_selected_mode);
    }
}

impl Frame {
    /// Return the text of the frame: that of the representation that it
    /// carries, or the error that parsing it gives.
    pub fn to_text(&self) -> (s: String)
        ensures
            s@ == (match length_check(self@.len(), FRAME_LEN as nat) {
                Ok(_) => Repr::from_bytes(self@).text(),
                Err(e) => "x329 ("@ + e.text() + ")"@,
            }),
    {
        match Repr::parse(self) {
            Ok(repr) => repr.to_text(),
            Err(e) => {
                let mut s = String::from_str("x329 (");
                s.append(e.description());
                s.append(")");
                s
            },
        }
    }
}

/// The fields that the byte at `field::REQ_0` carries read back as they were written.
proof fn lemma_req_0_parse_emit(repr: Repr, b: u8)
    requires
        repr.fits(),
    ensures
        bits(repr.req_0_byte(b), 0, 2) == repr.fragrance_diffuser_mono_fragrance_cartridge_type,
        flag(repr.req_0_byte(b), 4) == repr.lane_keep_assist_button_state,
{
    broadcast use group_frame_laws;

    lemma_low_mask_values();
}

/// Writing back the fields read from the byte at `field::REQ_0` leaves it unchanged.
proof fn lemma_req_0_emit_parse(bytes: Seq<u8>)
    requires
        bytes.len() == FRAME_LEN,
    ensures
        Repr::from_bytes(bytes).req_0_byte(bytes[field::REQ_0 as int]) == bytes[field::REQ_0 as int],
{
    reveal(Repr::from_bytes);
    broadcast use group_frame_laws;

    lemma_low_mask_values();
}

/// The fields that the byte at `field::REQ_1` carries read back as they were written.
proof fn lemma_req_1_parse_emit(repr: Repr, b: u8)
    requires
        repr.fits(),
    ensures
        bits(repr.req_1_byte(b), 0, 2) == repr.front_seat_massage_adjustment,
        bits(repr.req_1_byte(b), 2, 2) == repr.fragrance_diffuser_perfume_selection,
        bits(repr.req_1_byte(b), 4, 2) == repr.fragrance_diffuser_intensity,
        bits(repr.req_1_byte(b), 6, 2) == repr.fragrance_diffuser_request,
{
    broadcast use group_frame_laws;

    lemma_low_mask_values();
}

/// Writing back the fields read from the byte at `field::REQ_1` leaves it unchanged.
proof fn lemma_req_1_emit_parse(bytes: Seq<u8>)
    requires
        bytes.len() == FRAME_LEN,
    ensures
        Repr::from_bytes(bytes).req_1_byte(bytes[field::REQ_1 as int]) == bytes[field::REQ_1 as int],
{
    reveal(Repr::from_bytes);
    broadcast use group_frame_laws;

    lemma_low_mask_values();
}

/// The fields that the byte at `field::REQ_2` carries read back as they were written.
proof fn lemma_req_2_parse_emit(repr: Repr, b: u8)
    requires
        repr.fits(),
    ensures
        flag(repr.req_2_byte(b), 1) == repr.massage_activation_request,
        bits(repr.req_2_byte(b), 2, 2) == repr.massage_intensity,
        bits(repr.req_2_byte(b), 4, 4) == repr.massage_type,
{
    broadcast use group_frame_laws;

    lemma_low_mask_values();
}

/// Writing back the fields read from the byte at `field::REQ_2` leaves it unchanged.
proof fn lemma_req_2_emit_parse(bytes: Seq<u8>)
    requires
        bytes.len() == FRAME_LEN,
    ensures
        Repr::from_bytes(bytes).req_2_byte(bytes[field::REQ_2 as int]) == bytes[field::REQ_2 as int],
{
    reveal(Repr::from_bytes);
    broadcast use group_frame_laws;

    lemma_low_mask_values();
}

/// The fields that the byte at `field::REQ_3` carries read back as they were written.
proof fn lemma_req_3_parse_emit(repr: Repr, b: u8)
    requires
        repr.fits(),
    ensures
        flag(repr.req_3_byte(b), 0) == repr.asr_inhibit,
        bits(repr.req_3_byte(b), 1, 2) == repr.consumption_history_zoomed_value,
        bits(repr.req_3_byte(b), 3, 2) == repr.dynamic_mode_selected_mode,
{
    broadcast use group_frame_laws;

    lemma_low_mask_values();
}

/// Writing back the fields read from the byte at `field::REQ_3` leaves it unchanged.
proof fn lemma_req_3_emit_parse(bytes: Seq<u8>)
    requires
        bytes.len() == FRAME_LEN,
    ensures
        Repr::from_bytes(bytes).req_3_byte(bytes[field::REQ_3 as int]) == bytes[field::REQ_3 as int],
{
    reveal(Repr::from_bytes);
    broadcast use group_frame_laws;

    lemma_low_mask_values();
}

/// Emitting a representation whose fields fit into the bytes of a frame, then
/// parsing the bytes, gives the representation back.
pub proof fn lemma_parse_emit(repr: Repr, bytes: Seq<u8>)
    requires
        repr.fits(),
        bytes.len() == FRAME_LEN,
    ensures
        Repr::from_bytes(repr.emit_bytes(bytes)) == repr,
{
    let emitted = repr.emit_bytes(bytes);
    assert(emitted[field::REQ_0 as int] == repr.req_0_byte(bytes[field::REQ_0 as int]));
    assert(emitted[field::REQ_1 as int] == repr.req_1_byte(bytes[field::REQ_1 as int]));
    assert(emitted[field::REQ_2 as int] == repr.req_2_byte(bytes[field::REQ_2 as int]));
    assert(emitted[field::REQ_3 as int] == repr.req_3_byte(bytes[field::REQ_3 as int]));
    lemma_req_0_parse_emit(repr, bytes[field::REQ_0 as int]);
    lemma_req_1_parse_emit(repr, bytes[field::REQ_1 as int]);
    lemma_req_2_parse_emit(repr, bytes[field::REQ_2 as int]);
    lemma_req_3_parse_emit(repr, bytes[field::REQ_3 as int]);
    Repr::lemma_from_fields(repr, emitted);
}

/// Emitting the representation that the bytes of a frame carry leaves the
/// bytes unchanged.
pub proof fn lemma_emit_parse(bytes: Seq<u8>)
    requires
        bytes.len() == FRAME_LEN,
    ensures
        Repr::from_bytes(bytes).emit_bytes(bytes) == bytes,
{
    reveal(Repr::from_bytes);
    broadcast use group_frame_laws;

    lemma_low_mask_values();
    lemma_req_0_emit_parse(bytes);
    lemma_req_1_emit_parse(bytes);
    lemma_req_2_emit_parse(bytes);
    lemma_req_3_emit_parse(bytes);
}

/// Each field of a representation reads the bits of the frame that the
/// layout gives it: a word high byte first, a flag or a field through its
/// mask.
pub proof fn lemma_fields_from_bytes(bytes: Seq<u8>)
    requires
        bytes.len() == FRAME_LEN,
    ensures
        Repr::from_bytes(bytes).fragrance_diffuser_mono_fragrance_cartridge_type == bytes[field::REQ_0 as int] & 0x03,
        Repr::from_bytes(bytes).lane_keep_assist_button_state == ((bytes[field::REQ_0 as int] & 0x10) != 0),
        Repr::from_bytes(bytes).front_seat_massage_adjustment == bytes[field::REQ_1 as int] & 0x03,
        Repr::from_bytes(bytes).fragrance_diffuser_perfume_selection == (bytes[field::REQ_1 as int] >> 2u8) & 0x03,
        Repr::from_bytes(bytes).fragrance_diffuser_intensity == (bytes[field::REQ_1 as int] >> 4u8) & 0x03,
        Repr::from_bytes(bytes).fragrance_diffuser_request == (bytes[field::REQ_1 as int] >> 6u8) & 0x03,
        Repr::from_bytes(bytes).massage_activation_request == ((bytes[field::REQ_2 as int] & 0x02) != 0),
        Repr::from_bytes(bytes).massage_intensity == (bytes[field::REQ_2 as int] >> 2u8) & 0x03,
        Repr::from_bytes(bytes).massage_type == (bytes[field::REQ_2 as int] >> 4u8) & 0x0f,
        Repr::from_bytes(bytes).asr_inhibit == ((bytes[field::REQ_3 as int] & 0x01) != 0),
        Repr::from_bytes(bytes).consumption_history_zoomed_value == (bytes[field::REQ_3 as int] >> 1u8) & 0x03,
        Repr::from_bytes(bytes).dynamic_mode_selected_mode == (bytes[field::REQ_3 as int] >> 3u8) & 0x03,
{
    reveal(Repr::from_bytes);
    lemma_low_mask_values();
    lemma_bits_formula(bytes[field::REQ_1 as int], 2, 2);
    lemma_bits_formula(bytes[field::REQ_1 as int], 4, 2);
    lemma_bits_formula(bytes[field::REQ_1 as int], 6, 2);
    lemma_bits_formula(bytes[field::REQ_2 as int], 2, 2);
    lemma_bits_formula(bytes[field::REQ_2 as int], 4, 4);
    lemma_bits_formula(bytes[field::REQ_3 as int], 1, 2);
    lemma_bits_formula(bytes[field::REQ_3 as int], 3, 2);
    lemma_bits_low_formula(bytes[field::REQ_0 as int], 2);
    lemma_bits_low_formula(bytes[field::REQ_1 as int], 2);
    lemma_flag_masks(bytes[field::REQ_0 as int]);
    lemma_flag_masks(bytes[field::REQ_2 as int]);
    lemma_flag_masks(bytes[field::REQ_3 as int]);
}

/// Every representation that the bytes of a frame carry fits in the frame,
/// so that it can be emitted back.
pub proof fn lemma_parsed_fits(bytes: Seq<u8>)
    requires
        bytes.len() == FRAME_LEN,
    ensures
        Repr::from_bytes(bytes).fits(),
{
    reveal(Repr::from_bytes);
    broadcast use group_frame_laws;

    lemma_low_mask_values();
}

/// The text of a representation shows each field after its name and before
/// the name of the next field, so the fields stand in their order.
pub proof fn lemma_text_shows_fields(repr: Repr)
    ensures
        occurs("x329 fragrance_diffuser_mono_fragrance_cartridge_type="@ + decimal_text(repr.fragrance_diffuser_mono_fragrance_cartridge_type as nat) + "\n lane_keep_assist_button_state="@, repr.text()),
        occurs("\n lane_keep_assist_button_state="@ + bool_text(repr.lane_keep_assist_button_state) + "\n front_seat_massage_adjustment="@, repr.text()),
        occurs("\n front_seat_massage_adjustment="@ + decimal_text(repr.front_seat_massage_adjustment as nat) + "\n fragrance_diffuser_perfume_selection="@, repr.text()),
        occurs("\n fragrance_diffuser_perfume_selection="@ + decimal_text(repr.fragrance_diffuser_perfume_selection as nat) + "\n fragrance_diffuser_intensity="@, repr.text()),
        occurs("\n fragrance_diffuser_intensity="@ + decimal_text(repr.fragrance_diffuser_intensity as nat) + "\n fragrance_diffuser_request="@, repr.text()),
        occurs("\n fragrance_diffuser_request="@ + decimal_text(repr.fragrance_diffuser_request as nat) + "\n massage_activation_request="@, repr.text()),
        occurs("\n massage_activation_request="@ + bool_text(repr.massage_activation_request) + "\n massage_intensity="@, repr.text()),
        occurs("\n massage_intensity="@ + decimal_text(repr.massage_intensity as nat) + "\n massage_type="@, repr.text()),
        occurs("\n massage_type="@ + decimal_text(repr.massage_type as nat) + "\n asr_inhibit="@, repr.text()),
        occurs("\n asr_inhibit="@ + bool_text(repr.asr_inhibit) + "\n consumption_history_zoomed_value="@, repr.text()),
        occurs("\n consumption_history_zoomed_value="@ + decimal_text(repr.consumption_history_zoomed_value as nat) + "\n dynamic_mode_selected_mode="@, repr.text()),
        occurs("\n dynamic_mode_selected_mode="@ + decimal_text(repr.dynamic_mode_selected_mode as nat) + "\n"@, repr.text()),
{
    lemma_text_part_0_shows_fields(repr);
    lemma_text_part_1_shows_fields(repr);
    lemma_text_prefix_0_grows(repr);
    lemma_text_part_2_shows_fields(repr);
    lemma_text_prefix_1_grows(repr);
}

/// Part 0 of the text of a representation shows each of its fields after
/// its name and before the name of the next field.
proof fn lemma_text_part_0_shows_fields(repr: Repr)
    ensures
        occurs("x329 fragrance_diffuser_mono_fragrance_cartridge_type="@ + decimal_text(repr.fragrance_diffuser_mono_fragrance_cartridge_type as nat) + "\n lane_keep_assist_button_state="@, repr.text_prefix_0()),
        occurs("\n lane_keep_assist_button_state="@ + bool_text(repr.lane_keep_assist_button_state) + "\n front_seat_massage_adjustment="@, repr.text_prefix_0()),
        occurs("\n front_seat_massage_adjustment="@ + decimal_text(repr.front_seat_massage_adjustment as nat) + "\n fragrance_diffuser_perfume_selection="@, repr.text_prefix_0()),
        occurs("\n fragrance_diffuser_perfume_selection="@ + decimal_text(repr.fragrance_diffuser_perfume_selection as nat) + "\n fragrance_diffuser_intensity="@, repr.text_prefix_0()),
{
    reveal(Repr::text_prefix_0);
    broadcast use group_occurs;

}

/// Part 1 of the text of a representation shows each of its fields after
/// its name and before the name of the next field.
proof fn lemma_text_part_1_shows_fields(repr: Repr)
    ensures
        occurs("\n fragrance_diffuser_intensity="@ + decimal_text(repr.fragrance_diffuser_intensity as nat) + "\n fragrance_diffuser_request="@, repr.text_prefix_1()),
        occurs("\n fragrance_diffuser_request="@ + decimal_text(repr.fragrance_diffuser_request as nat) + "\n massage_activation_request="@, repr.text_prefix_1()),
        occurs("\n massage_activation_request="@ + bool_text(repr.massage_activation_request) + "\n massage_intensity="@, repr.text_prefix_1()),
        occurs("\n massage_intensity="@ + decimal_text(repr.massage_intensity as nat) + "\n massage_type="@, repr.text_prefix_1()),
        occurs("\n massage_type="@ + decimal_text(repr.massage_type as nat) + "\n asr_inhibit="@, repr.text_prefix_1()),
{
    reveal(Repr::text_prefix_0);
    reveal(Repr::text_prefix_1);
    broadcast use group_occurs;

}

/// What occurs in the text of a representation up to part 0 occurs in its
/// text up to part 1.
proof fn lemma_text_prefix_0_grows(repr: Repr)
    ensures
        forall|t: Seq<char>| occurs(t, repr.text_prefix_0()) ==> #[trigger] occurs(t, repr.text_prefix_1()),
{
    reveal(Repr::text_prefix_1);
    broadcast use group_occurs;

}

/// Part 2 of the text of a representation shows each of its fields after
/// its name and before the name of the next field.
proof fn lemma_text_part_2_shows_fields(repr: Repr)
    ensures
        occurs("\n asr_inhibit="@ + bool_text(repr.asr_inhibit) + "\n consumption_history_zoomed_value="@, repr.text_prefix_2()),
        occurs("\n consumption_history_zoomed_value="@ + decimal_text(repr.consumption_history_zoomed_value as nat) + "\n dynamic_mode_selected_mode="@, repr.text_prefix_2()),
        occurs("\n dynamic_mode_selected_mode="@ + decimal_text(repr.dynamic_mode_selected_mode as nat) + "\n"@, repr.text_prefix_2()),
{
    reveal(Repr::text_prefix_1);
    reveal(Repr::text_prefix_2);
    broadcast use group_occurs;

}

/// What occurs in the text of a representation up to part 1 occurs in its
/// text up to part 2.
proof fn lemma_text_prefix_1_grows(repr: Repr)
    ensures
        forall|t: Seq<char>| occurs(t, repr.text_prefix_1()) ==> #[trigger] occurs(t, repr.text_prefix_2()),
{
    reveal(Repr::text_prefix_2);
    broadcast use group_occurs;

}

} // verus!
