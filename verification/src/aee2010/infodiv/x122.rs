//! The x122 CAN frame: front panel push buttons and wheels.
use crate::bitfield::{flag, lemma_flag_masks, lemma_flag_shift, put_flag, read_flag, write_flag};
use crate::group_frame_laws;
use crate::{check_frame_len, length_check, Error};
use crate::text::{bool_text, decimal_text, group_occurs, lemma_occurs_suffix, occurs, push_bool, push_decimal};
use vstd::prelude::*;

pub mod field;

use self::field::{
    PUSH_BTN_FLAGS_0, PUSH_BTN_FLAGS_1, PUSH_BTN_FLAGS_2, PUSH_BTN_FLAGS_3, PUSH_BTN_FLAGS_4, PUSH_BTN_FLAGS_5,
};

verus! {

/// A read/write wrapper around a x122 CAN frame buffer.
#[derive(Debug, PartialEq, Clone)]
pub struct Frame {
    buffer: Vec<u8>,
}

impl View for Frame {
    type V = Seq<u8>;

    closed spec fn view(&self) -> Seq<u8> {
        self.buffer@
    }
}

impl AsRef<[u8]> for Frame {
    /// The bytes of the frame.
    fn as_ref(&self) -> (bytes: &[u8])
        ensures
            bytes@ == self@,
    {
        self.buffer.as_slice()
    }
}

/// Raw x122 CAN frame identifier.
pub const FRAME_ID: u16 = 0x122;

/// Length of a x122 CAN frame.
pub const FRAME_LEN: usize = field::WHL_2_TICKS + 1;

/// Periodicity of a x122 CAN frame, in milliseconds.
pub const PERIODICITY_MS: u64 = 200;

impl Frame {
    /// Create a raw octet buffer with a CAN frame structure.
    pub fn new_unchecked(buffer: Vec<u8>) -> (frame: Frame)
        ensures
            frame@ == buffer@,
    {
        Frame { buffer }
    }

    /// Shorthand for a combination of `new_unchecked` and `check_len`.
    pub fn new_checked(buffer: Vec<u8>) -> (r: Result<Frame, Error>)
        ensures
            r is Ok <==> buffer@.len() == FRAME_LEN,
            r matches Ok(frame) ==> frame@ == buffer@,
            r matches Err(e) ==> length_check(buffer@.len(), FRAME_LEN as nat) == Err::<(), Error>(e),
    {
        let frame = Self::new_unchecked(buffer);
        match frame.check_len() {
            Ok(()) => Ok(frame),
            Err(e) => Err(e),
        }
    }

    /// Ensure that no accessor method will panic if called.
    /// Returns `Err(Error::Truncated)` if the buffer is too short and
    /// `Err(Error::Overlong)` if it is too long.
    pub fn check_len(&self) -> (r: Result<(), Error>)
        ensures
            r == length_check(self@.len(), FRAME_LEN as nat),
    {
        check_frame_len(self.buffer.len(), FRAME_LEN)
    }

    /// Consume the frame, returning the underlying buffer.
    pub fn into_inner(self) -> (buffer: Vec<u8>)
        ensures
            buffer@ == self@,
    {
        self.buffer
    }

    /// Return the frame length.
    pub fn frame_len(&self) -> (len: usize)
        ensures
            len == FRAME_LEN,
    {
        FRAME_LEN
    }

    /// Return the button state in byte B at index I.
    pub fn read_button_state<const B: usize, const I: u8>(&self) -> (value: bool)
        requires
            B < self@.len(),
            I < 8,
        ensures
            value == flag(self@[B as int], I),
    {
        read_flag(self.buffer[B], I)
    }

    /// Return the front panel second wheel sync request flag.
    pub fn fp_second_wheel_sync_request(&self) -> (value: bool)
        requires
            field::PUSH_BTN_FLAGS_5 < self@.len(),
        ensures
            value == flag(self@[field::PUSH_BTN_FLAGS_5 as int], 0),
    {
        read_flag(self.buffer[field::PUSH_BTN_FLAGS_5], 0)
    }

    /// Return the front panel first wheel sync request flag.
    pub fn fp_first_wheel_sync_request(&self) -> (value: bool)
        requires
            field::PUSH_BTN_FLAGS_5 < self@.len(),
        ensures
            value == flag(self@[field::PUSH_BTN_FLAGS_5 as int], 1),
    {
        read_flag(self.buffer[field::PUSH_BTN_FLAGS_5], 1)
    }

    /// Return the front panel first wheel ticks counter.
    pub fn fp_first_wheel_ticks_counter(&self) -> (value: u8)
        requires
            field::WHL_1_TICKS < self@.len(),
        ensures
            value == self@[field::WHL_1_TICKS as int],
    {
        self.buffer[field::WHL_1_TICKS]
    }

    /// Return the front panel second wheel ticks counter.
    pub fn fp_second_wheel_ticks_counter(&self) -> (value: u8)
        requires
            field::WHL_2_TICKS < self@.len(),
        ensures
            value == self@[field::WHL_2_TICKS as int],
    {
        self.buffer[field::WHL_2_TICKS]
    }

    /// Set the button state in byte B at index I.
    pub fn write_button_state<const B: usize, const I: u8>(&mut self, value: bool)
        requires
            B < old(self)@.len(),
            I < 8,
        ensures
            final(self)@ == old(self)@.update(B as int, put_flag(old(self)@[B as int], I, value)),
    {
        let raw = write_flag(self.buffer[B], I, value);
        self.buffer.set(B, raw);
    }

    /// Set the front panel second wheel sync request flag.
    pub fn set_fp_second_wheel_sync_request(&mut self, value: bool)
        requires
            field::PUSH_BTN_FLAGS_5 < old(self)@.len(),
        ensures
            final(self)@ == old(self)@.update(field::PUSH_BTN_FLAGS_5 as int, put_flag(old(self)@[field::PUSH_BTN_FLAGS_5 as int], 0, value)),
    {
        let raw = write_flag(self.buffer[field::PUSH_BTN_FLAGS_5], 0, value);
        self.buffer.set(field::PUSH_BTN_FLAGS_5, raw);
    }

    /// Set the front panel first wheel sync request flag.
    pub fn set_fp_first_wheel_sync_request(&mut self, value: bool)
        requires
            field::PUSH_BTN_FLAGS_5 < old(self)@.len(),
        ensures
            final(self)@ == old(self)@.update(field::PUSH_BTN_FLAGS_5 as int, put_flag(old(self)@[field::PUSH_BTN_FLAGS_5 as int], 1, value)),
    {
        let raw = write_flag(self.buffer[field::PUSH_BTN_FLAGS_5], 1, value);
        self.buffer.set(field::PUSH_BTN_FLAGS_5, raw);
    }

    /// Set the front panel front panel first wheel ticks counter.
    pub fn set_fp_first_wheel_ticks_counter(&mut self, value: u8)
        requires
            field::WHL_1_TICKS < old(self)@.len(),
        ensures
            final(self)@ == old(self)@.update(field::WHL_1_TICKS as int, value),
    {
        self.buffer.set(field::WHL_1_TICKS, value);
    }

    /// Set the front panel second wheel ticks counter.
    pub fn set_fp_second_wheel_ticks_counter(&mut self, value: u8)
        requires
            field::WHL_2_TICKS < old(self)@.len(),
        ensures
            final(self)@ == old(self)@.update(field::WHL_2_TICKS as int, value),
    {
        self.buffer.set(field::WHL_2_TICKS, value);
    }
}

/// The state of button `i` (from 0 to 43) that the bytes of a frame carry:
/// the buttons fill the flag bytes from the highest bit of the first one
/// down.
pub open spec fn button_state(bytes: Seq<u8>, i: int) -> bool {
    flag(bytes[field::PUSH_BTN_FLAGS_0 + i / 8], (7 - i % 8) as u8)
}

/// The text of the button states from the first to button `n` (excluded),
/// one line each, after `prefix`.
pub open spec fn buttons_text(prefix: Seq<char>, buttons: Seq<bool>, n: nat) -> Seq<char>
    decreases n,
{
    if n == 0 {
        prefix
    } else {
        buttons_text(prefix, buttons, (n - 1) as nat) + "  button_"@ + decimal_text((n - 1) as nat)
            + "="@ + bool_text(buttons[n - 1]) + "\n"@
    }
}

/// A high-level representation of a x122 CAN frame.
#[derive(Debug, PartialEq, Eq, Clone)]
pub struct Repr {
    pub front_panel_buttons_state: [bool; 44],
    pub front_panel_bp_button_state: bool,
    pub front_panel_esp_button_state: bool,
    pub front_panel_first_wheel_sync_request: bool,
    pub front_panel_second_wheel_sync_request: bool,
    pub front_panel_first_wheel_ticks_counter: u8,
    pub front_panel_second_wheel_ticks_counter: u8,
}

impl Repr {
    /// Whether `self` is the representation that the bytes of a frame carry.
    pub open spec fn is_carried_by(self, bytes: Seq<u8>) -> bool {
        &&& forall|i: int| 0 <= i < 44 ==> #[trigger] self.front_panel_buttons_state[i] == button_state(bytes, i)
        &&& self.front_panel_bp_button_state == flag(bytes[field::PUSH_BTN_FLAGS_5 as int], 2)
        &&& self.front_panel_esp_button_state == flag(bytes[field::PUSH_BTN_FLAGS_5 as int], 3)
        &&& self.front_panel_first_wheel_sync_request == flag(bytes[field::PUSH_BTN_FLAGS_5 as int], 1)
        &&& self.front_panel_second_wheel_sync_request == flag(bytes[field::PUSH_BTN_FLAGS_5 as int], 0)
        &&& self.front_panel_first_wheel_ticks_counter == bytes[field::WHL_1_TICKS as int]
        &&& self.front_panel_second_wheel_ticks_counter == bytes[field::WHL_2_TICKS as int]
    }

    /// The byte at `field::PUSH_BTN_FLAGS_0` once the states that it carries
    /// are written into `b`.
    pub open spec fn push_btn_flags_0_byte(self, b: u8) -> u8 {
        put_flag(put_flag(put_flag(put_flag(put_flag(put_flag(put_flag(put_flag(b, 7, self.front_panel_buttons_state[0]), 6, self.front_panel_buttons_state[1]), 5, self.front_panel_buttons_state[2]), 4, self.front_panel_buttons_state[3]), 3, self.front_panel_buttons_state[4]), 2, self.front_panel_buttons_state[5]), 1, self.front_panel_buttons_state[6]), 0, self.front_panel_buttons_state[7])
    }

    /// The byte at `field::PUSH_BTN_FLAGS_1` once the states that it carries
    /// are written into `b`.
    pub open spec fn push_btn_flags_1_byte(self, b: u8) -> u8 {
        put_flag(put_flag(put_flag(put_flag(put_flag(put_flag(put_flag(put_flag(b, 7, self.front_panel_buttons_state[8]), 6, self.front_panel_buttons_state[9]), 5, self.front_panel_buttons_state[10]), 4, self.front_panel_buttons_state[11]), 3, self.front_panel_buttons_state[12]), 2, self.front_panel_buttons_state[13]), 1, self.front_panel_buttons_state[14]), 0, self.front_panel_buttons_state[15])
    }

    /// The byte at `field::PUSH_BTN_FLAGS_2` once the states that it carries
    /// are written into `b`.
    pub open spec fn push_btn_flags_2_byte(self, b: u8) -> u8 {
        put_flag(put_flag(put_flag(put_flag(put_flag(put_flag(put_flag(put_flag(b, 7, self.front_panel_buttons_state[16]), 6, self.front_panel_buttons_state[17]), 5, self.front_panel_buttons_state[18]), 4, self.front_panel_buttons_state[19]), 3, self.front_panel_buttons_state[20]), 2, self.front_panel_buttons_state[21]), 1, self.front_panel_buttons_state[22]), 0, self.front_panel_buttons_state[23])
    }

    /// The byte at `field::PUSH_BTN_FLAGS_3` once the states that it carries
    /// are written into `b`.
    pub open spec fn push_btn_flags_3_byte(self, b: u8) -> u8 {
        put_flag(put_flag(put_flag(put_flag(put_flag(put_flag(put_flag(put_flag(b, 7, self.front_panel_buttons_state[24]), 6, self.front_panel_buttons_state[25]), 5, self.front_panel_buttons_state[26]), 4, self.front_panel_buttons_state[27]), 3, self.front_panel_buttons_state[28]), 2, self.front_panel_buttons_state[29]), 1, self.front_panel_buttons_state[30]), 0, self.front_panel_buttons_state[31])
    }

    /// The byte at `field::PUSH_BTN_FLAGS_4` once the states that it carries
    /// are written into `b`.
    pub open spec fn push_btn_flags_4_byte(self, b: u8) -> u8 {
        put_flag(put_flag(put_flag(put_flag(put_flag(put_flag(put_flag(put_flag(b, 7, self.front_panel_buttons_state[32]), 6, self.front_panel_buttons_state[33]), 5, self.front_panel_buttons_state[34]), 4, self.front_panel_buttons_state[35]), 3, self.front_panel_buttons_state[36]), 2, self.front_panel_buttons_state[37]), 1, self.front_panel_buttons_state[38]), 0, self.front_panel_buttons_state[39])
    }

    /// The byte at `field::PUSH_BTN_FLAGS_5` once the states that it carries
    /// are written into `b`.
    pub open spec fn push_btn_flags_5_byte(self, b: u8) -> u8 {
        put_flag(put_flag(put_flag(put_flag(put_flag(put_flag(put_flag(put_flag(b, 7, self.front_panel_buttons_state[40]), 6, self.front_panel_buttons_state[41]), 5, self.front_panel_buttons_state[42]), 4, self.front_panel_buttons_state[43]), 2, self.front_panel_bp_button_state), 3, self.front_panel_esp_button_state), 1, self.front_panel_first_wheel_sync_request), 0, self.front_panel_second_wheel_sync_request)
    }

    /// The bytes of a frame once `self` is emitted into them.
    pub open spec fn emit_bytes(self, bytes: Seq<u8>) -> Seq<u8> {
        bytes.update(
            field::PUSH_BTN_FLAGS_0 as int,
            self.push_btn_flags_0_byte(bytes[field::PUSH_BTN_FLAGS_0 as int]),
        ).update(
            field::PUSH_BTN_FLAGS_1 as int,
            self.push_btn_flags_1_byte(bytes[field::PUSH_BTN_FLAGS_1 as int]),
        ).update(
            field::PUSH_BTN_FLAGS_2 as int,
            self.push_btn_flags_2_byte(bytes[field::PUSH_BTN_FLAGS_2 as int]),
        ).update(
            field::PUSH_BTN_FLAGS_3 as int,
            self.push_btn_flags_3_byte(bytes[field::PUSH_BTN_FLAGS_3 as int]),
        ).update(
            field::PUSH_BTN_FLAGS_4 as int,
            self.push_btn_flags_4_byte(bytes[field::PUSH_BTN_FLAGS_4 as int]),
        ).update(
            field::PUSH_BTN_FLAGS_5 as int,
            self.push_btn_flags_5_byte(bytes[field::PUSH_BTN_FLAGS_5 as int]),
        ).update(
            field::WHL_1_TICKS as int,
            self.front_panel_first_wheel_ticks_counter,
        ).update(field::WHL_2_TICKS as int, self.front_panel_second_wheel_ticks_counter)
    }

    /// Parse a x122 CAN frame into its high-level representation.
    pub fn parse(frame: &Frame) -> (r: Result<Repr, Error>)
        ensures
            r is Ok <==> frame@.len() == FRAME_LEN,
            r matches Ok(repr) ==> repr.is_carried_by(frame@),
            r matches Err(e) ==> length_check(frame@.len(), FRAME_LEN as nat) == Err::<(), Error>(e),
    {
        if let Err(e) = frame.check_len() {
            return Err(e);
        }
        let mut buttons = [false; 44];
        let mut i: usize = 0;
        while i < 44
            invariant
                i <= 44,
                frame@.len() == FRAME_LEN,
                forall|j: int| 0 <= j < i ==> #[trigger] buttons[j] == button_state(frame@, j),
            decreases 44 - i,
        {
            buttons[i] = read_flag(frame.buffer[field::PUSH_BTN_FLAGS_0 + i / 8], 7 - (i % 8) as u8);
            i = i + 1;
        }
        Ok(Repr {
            front_panel_buttons_state: buttons,
            front_panel_bp_button_state: frame.read_button_state::<PUSH_BTN_FLAGS_5, 2>(),
            front_panel_esp_button_state: frame.read_button_state::<PUSH_BTN_FLAGS_5, 3>(),
            front_panel_first_wheel_sync_request: frame.fp_first_wheel_sync_request(),
            front_panel_second_wheel_sync_request: frame.fp_second_wheel_sync_request(),
            front_panel_first_wheel_ticks_counter: frame.fp_first_wheel_ticks_counter(),
            front_panel_second_wheel_ticks_counter: frame.fp_second_wheel_ticks_counter(),
        })
    }

    /// The text of `self`: the button states one line each, then the other
    /// fields by name.
    pub open spec fn text(self) -> Seq<char> {
        buttons_text("x122\n front_panel_buttons_state=\n"@, self.front_panel_buttons_state@, 44)
            + " front_panel_bp_button_state="@
            + bool_text(self.front_panel_bp_button_state)
            + "\n front_panel_esp_button_state="@
            + bool_text(self.front_panel_esp_button_state)
            + "\n front_panel_first_wheel_ticks_counter="@
            + decimal_text(self.front_panel_first_wheel_ticks_counter as nat)
            + "\n front_panel_second_wheel_ticks_counter="@
            + decimal_text(self.front_panel_second_wheel_ticks_counter as nat)
            + "\n"@
    }

    /// Return the text of `self`.
    pub fn to_text(&self) -> (s: String)
        ensures
            s@ == self.text(),
    {
        let mut s = String::from_str("x122\n front_panel_buttons_state=\n");
        let mut i: usize = 0;
        while i < 44
            invariant
                i <= 44,
                s@ == buttons_text(
                    "x122\n front_panel_buttons_state=\n"@,
                    self.front_panel_buttons_state@,
                    i as nat,
                ),
            decreases 44 - i,
        {
            s.append("  button_");
            push_decimal(&mut s, i as u64);
            s.append("=");
            push_bool(&mut s, self.front_panel_buttons_state[i]);
            s.append("\n");
            i = i + 1;
        }
        s.append(" front_panel_bp_button_state=");
        push_bool(&mut s, self.front_panel_bp_button_state);
        s.append("\n front_panel_esp_button_state=");
        push_bool(&mut s, self.front_panel_esp_button_state);
        s.append("\n front_panel_first_wheel_ticks_counter=");
        push_decimal(&mut s, self.front_panel_first_wheel_ticks_counter as u64);
        s.append("\n front_panel_second_wheel_ticks_counter=");
        push_decimal(&mut s, self.front_panel_second_wheel_ticks_counter as u64);
        s.append("\n");
        s
    }

    /// Return the length of a frame that will be emitted from this high-level representation.
    pub fn buffer_len(&self) -> (len: usize)
        ensures
            len == FRAME_LEN,
    {
        FRAME_LEN
    }

    /// Emit a high-level representation into a x122 CAN frame.
    pub fn emit(&self, frame: &mut Frame)
        requires
            FRAME_LEN <= old(frame)@.len(),
        ensures
            final(frame)@ == self.emit_bytes(old(frame)@),
    {
        self.emit_push_btn_flags_0(frame);
        self.emit_push_btn_flags_1(frame);
        self.emit_push_btn_flags_2(frame);
        self.emit_push_btn_flags_3(frame);
        self.emit_push_btn_flags_4(frame);
        self.emit_push_btn_flags_5(frame);
        frame.set_fp_first_wheel_ticks_counter(self.front_panel_first_wheel_ticks_counter);
        frame.set_fp_second_wheel_ticks_counter(self.front_panel_second_wheel_ticks_counter);
    }

    /// Write the states that the byte at `field::PUSH_BTN_FLAGS_0` carries.
    fn emit_push_btn_flags_0(&self, frame: &mut Frame)
        requires
            field::PUSH_BTN_FLAGS_0 < old(frame)@.len(),
        ensures
            final(frame)@ == old(frame)@.update(
                field::PUSH_BTN_FLAGS_0 as int,
                self.push_btn_flags_0_byte(old(frame)@[field::PUSH_BTN_FLAGS_0 as int]),
            ),
    {
        frame.write_button_state::<PUSH_BTN_FLAGS_0, 7>(self.front_panel_buttons_state[0]);
        frame.write_button_state::<PUSH_BTN_FLAGS_0, 6>(self.front_panel_buttons_state[1]);
        frame.write_button_state::<PUSH_BTN_FLAGS_0, 5>(self.front_panel_buttons_state[2]);
        frame.write_button_state::<PUSH_BTN_FLAGS_0, 4>(self.front_panel_buttons_state[3]);
        frame.write_button_state::<PUSH_BTN_FLAGS_0, 3>(self.front_panel_buttons_state[4]);
        frame.write_button_state::<PUSH_BTN_FLAGS_0, 2>(self.front_panel_buttons_state[5]);
        frame.write_button_state::<PUSH_BTN_FLAGS_0, 1>(self.front_panel_buttons_state[6]);
        frame.write_button_state::<PUSH_BTN_FLAGS_0, 0>(self.front_panel_buttons_state[7]);
    }

    /// Write the states that the byte at `field::PUSH_BTN_FLAGS_1` carries.
    fn emit_push_btn_flags_1(&self, frame: &mut Frame)
        requires
            field::PUSH_BTN_FLAGS_1 < old(frame)@.len(),
        ensures
            final(frame)@ == old(frame)@.update(
                field::PUSH_BTN_FLAGS_1 as int,
                self.push_btn_flags_1_byte(old(frame)@[field::PUSH_BTN_FLAGS_1 as int]),
            ),
    {
        frame.write_button_state::<PUSH_BTN_FLAGS_1, 7>(self.front_panel_buttons_state[8]);
        frame.write_button_state::<PUSH_BTN_FLAGS_1, 6>(self.front_panel_buttons_state[9]);
        frame.write_button_state::<PUSH_BTN_FLAGS_1, 5>(self.front_panel_buttons_state[10]);
        frame.write_button_state::<PUSH_BTN_FLAGS_1, 4>(self.front_panel_buttons_state[11]);
        frame.write_button_state::<PUSH_BTN_FLAGS_1, 3>(self.front_panel_buttons_state[12]);
        frame.write_button_state::<PUSH_BTN_FLAGS_1, 2>(self.front_panel_buttons_state[13]);
        frame.write_button_state::<PUSH_BTN_FLAGS_1, 1>(self.front_panel_buttons_state[14]);
        frame.write_button_state::<PUSH_BTN_FLAGS_1, 0>(self.front_panel_buttons_state[15]);
    }

    /// Write the states that the byte at `field::PUSH_BTN_FLAGS_2` carries.
    fn emit_push_btn_flags_2(&self, frame: &mut Frame)
        requires
            field::PUSH_BTN_FLAGS_2 < old(frame)@.len(),
        ensures
            final(frame)@ == old(frame)@.update(
                field::PUSH_BTN_FLAGS_2 as int,
                self.push_btn_flags_2_byte(old(frame)@[field::PUSH_BTN_FLAGS_2 as int]),
            ),
    {
        frame.write_button_state::<PUSH_BTN_FLAGS_2, 7>(self.front_panel_buttons_state[16]);
        frame.write_button_state::<PUSH_BTN_FLAGS_2, 6>(self.front_panel_buttons_state[17]);
        frame.write_button_state::<PUSH_BTN_FLAGS_2, 5>(self.front_panel_buttons_state[18]);
        frame.write_button_state::<PUSH_BTN_FLAGS_2, 4>(self.front_panel_buttons_state[19]);
        frame.write_button_state::<PUSH_BTN_FLAGS_2, 3>(self.front_panel_buttons_state[20]);
        frame.write_button_state::<PUSH_BTN_FLAGS_2, 2>(self.front_panel_buttons_state[21]);
        frame.write_button_state::<PUSH_BTN_FLAGS_2, 1>(self.front_panel_buttons_state[22]);
        frame.write_button_state::<PUSH_BTN_FLAGS_2, 0>(self.front_panel_buttons_state[23]);
    }

    /// Write the states that the byte at `field::PUSH_BTN_FLAGS_3` carries.
    fn emit_push_btn_flags_3(&self, frame: &mut Frame)
        requires
            field::PUSH_BTN_FLAGS_3 < old(frame)@.len(),
        ensures
            final(frame)@ == old(frame)@.update(
                field::PUSH_BTN_FLAGS_3 as int,
                self.push_btn_flags_3_byte(old(frame)@[field::PUSH_BTN_FLAGS_3 as int]),
            ),
    {
        frame.write_button_state::<PUSH_BTN_FLAGS_3, 7>(self.front_panel_buttons_state[24]);
        frame.write_button_state::<PUSH_BTN_FLAGS_3, 6>(self.front_panel_buttons_state[25]);
        frame.write_button_state::<PUSH_BTN_FLAGS_3, 5>(self.front_panel_buttons_state[26]);
        frame.write_button_state::<PUSH_BTN_FLAGS_3, 4>(self.front_panel_buttons_state[27]);
        frame.write_button_state::<PUSH_BTN_FLAGS_3, 3>(self.front_panel_buttons_state[28]);
        frame.write_button_state::<PUSH_BTN_FLAGS_3, 2>(self.front_panel_buttons_state[29]);
        frame.write_button_state::<PUSH_BTN_FLAGS_3, 1>(self.front_panel_buttons_state[30]);
        frame.write_button_state::<PUSH_BTN_FLAGS_3, 0>(self.front_panel_buttons_state[31]);
    }

    /// Write the states that the byte at `field::PUSH_BTN_FLAGS_4` carries.
    fn emit_push_btn_flags_4(&self, frame: &mut Frame)
        requires
            field::PUSH_BTN_FLAGS_4 < old(frame)@.len(),
        ensures
            final(frame)@ == old(frame)@.update(
                field::PUSH_BTN_FLAGS_4 as int,
                self.push_btn_flags_4_byte(old(frame)@[field::PUSH_BTN_FLAGS_4 as int]),
            ),
    {
        frame.write_button_state::<PUSH_BTN_FLAGS_4, 7>(self.front_panel_buttons_state[32]);
        frame.write_button_state::<PUSH_BTN_FLAGS_4, 6>(self.front_panel_buttons_state[33]);
        frame.write_button_state::<PUSH_BTN_FLAGS_4, 5>(self.front_panel_buttons_state[34]);
        frame.write_button_state::<PUSH_BTN_FLAGS_4, 4>(self.front_panel_buttons_state[35]);
        frame.write_button_state::<PUSH_BTN_FLAGS_4, 3>(self.front_panel_buttons_state[36]);
        frame.write_button_state::<PUSH_BTN_FLAGS_4, 2>(self.front_panel_buttons_state[37]);
        frame.write_button_state::<PUSH_BTN_FLAGS_4, 1>(self.front_panel_buttons_state[38]);
        frame.write_button_state::<PUSH_BTN_FLAGS_4, 0>(self.front_panel_buttons_state[39]);
    }

    /// Write the states that the byte at `field::PUSH_BTN_FLAGS_5` carries.
    fn emit_push_btn_flags_5(&self, frame: &mut Frame)
        requires
            field::PUSH_BTN_FLAGS_5 < old(frame)@.len(),
        ensures
            final(frame)@ == old(frame)@.update(
                field::PUSH_BTN_FLAGS_5 as int,
                self.push_btn_flags_5_byte(old(frame)@[field::PUSH_BTN_FLAGS_5 as int]),
            ),
    {
        frame.write_button_state::<PUSH_BTN_FLAGS_5, 7>(self.front_panel_buttons_state[40]);
        frame.write_button_state::<PUSH_BTN_FLAGS_5, 6>(self.front_panel_buttons_state[41]);
        frame.write_button_state::<PUSH_BTN_FLAGS_5, 5>(self.front_panel_buttons_state[42]);
        frame.write_button_state::<PUSH_BTN_FLAGS_5, 4>(self.front_panel_buttons_state[43]);
        frame.write_button_state::<PUSH_BTN_FLAGS_5, 2>(self.front_panel_bp_button_state);
        frame.write_button_state::<PUSH_BTN_FLAGS_5, 3>(self.front_panel_esp_button_state);
        frame.set_fp_first_wheel_sync_request(self.front_panel_first_wheel_sync_request);
        frame.set_fp_second_wheel_sync_request(self.front_panel_second_wheel_sync_request);
    }
}

impl Frame {
    /// Return the text of the frame: that of the representation that it
    /// carries, or the error that parsing it gives.
    pub fn to_text(&self) -> (s: String)
        ensures
            self@.len() == FRAME_LEN ==> exists|r: Repr| #[trigger] r.is_carried_by(self@) && s@ == r.text(),
            length_check(self@.len(), FRAME_LEN as nat) matches Err(e) ==> s@ == "x122 ("@ + e.text()
                + ")"@,
    {
        match Repr::parse(self) {
            Ok(repr) => {
                let s = repr.to_text();
                assert(repr.is_carried_by(self@) && s@ == repr.text());
                s
            },
            Err(e) => {
                let mut s = String::from_str("x122 (");
                s.append(e.description());
                s.append(")");
                s
            },
        }
    }
}

/// The states that the byte at `field::PUSH_BTN_FLAGS_0` carries read back as
/// they were written.
proof fn lemma_push_btn_flags_0_parse_emit(repr: Repr, b: u8)
    ensures
        flag(repr.push_btn_flags_0_byte(b), 7) == repr.front_panel_buttons_state[0],
        flag(repr.push_btn_flags_0_byte(b), 6) == repr.front_panel_buttons_state[1],
        flag(repr.push_btn_flags_0_byte(b), 5) == repr.front_panel_buttons_state[2],
        flag(repr.push_btn_flags_0_byte(b), 4) == repr.front_panel_buttons_state[3],
        flag(repr.push_btn_flags_0_byte(b), 3) == repr.front_panel_buttons_state[4],
        flag(repr.push_btn_flags_0_byte(b), 2) == repr.front_panel_buttons_state[5],
        flag(repr.push_btn_flags_0_byte(b), 1) == repr.front_panel_buttons_state[6],
        flag(repr.push_btn_flags_0_byte(b), 0) == repr.front_panel_buttons_state[7],
{
    broadcast use group_frame_laws;

}

/// Writing back the states read from the byte at `field::PUSH_BTN_FLAGS_0`
/// leaves it unchanged.
proof fn lemma_push_btn_flags_0_emit_parse(repr: Repr, b: u8)
    requires
        repr.front_panel_buttons_state[0] == flag(b, 7),
        repr.front_panel_buttons_state[1] == flag(b, 6),
        repr.front_panel_buttons_state[2] == flag(b, 5),
        repr.front_panel_buttons_state[3] == flag(b, 4),
        repr.front_panel_buttons_state[4] == flag(b, 3),
        repr.front_panel_buttons_state[5] == flag(b, 2),
        repr.front_panel_buttons_state[6] == flag(b, 1),
        repr.front_panel_buttons_state[7] == flag(b, 0),
    ensures
        repr.push_btn_flags_0_byte(b) == b,
{
    broadcast use group_frame_laws;

}

/// The states that the byte at `field::PUSH_BTN_FLAGS_1` carries read back as
/// they were written.
proof fn lemma_push_btn_flags_1_parse_emit(repr: Repr, b: u8)
    ensures
        flag(repr.push_btn_flags_1_byte(b), 7) == repr.front_panel_buttons_state[8],
        flag(repr.push_btn_flags_1_byte(b), 6) == repr.front_panel_buttons_state[9],
        flag(repr.push_btn_flags_1_byte(b), 5) == repr.front_panel_buttons_state[10],
        flag(repr.push_btn_flags_1_byte(b), 4) == repr.front_panel_buttons_state[11],
        flag(repr.push_btn_flags_1_byte(b), 3) == repr.front_panel_buttons_state[12],
        flag(repr.push_btn_flags_1_byte(b), 2) == repr.front_panel_buttons_state[13],
        flag(repr.push_btn_flags_1_byte(b), 1) == repr.front_panel_buttons_state[14],
        flag(repr.push_btn_flags_1_byte(b), 0) == repr.front_panel_buttons_state[15],
{
    broadcast use group_frame_laws;

}

/// Writing back the states read from the byte at `field::PUSH_BTN_FLAGS_1`
/// leaves it unchanged.
proof fn lemma_push_btn_flags_1_emit_parse(repr: Repr, b: u8)
    requires
        repr.front_panel_buttons_state[8] == flag(b, 7),
        repr.front_panel_buttons_state[9] == flag(b, 6),
        repr.front_panel_buttons_state[10] == flag(b, 5),
        repr.front_panel_buttons_state[11] == flag(b, 4),
        repr.front_panel_buttons_state[12] == flag(b, 3),
        repr.front_panel_buttons_state[13] == flag(b, 2),
        repr.front_panel_buttons_state[14] == flag(b, 1),
        repr.front_panel_buttons_state[15] == flag(b, 0),
    ensures
        repr.push_btn_flags_1_byte(b) == b,
{
    broadcast use group_frame_laws;

}

/// The states that the byte at `field::PUSH_BTN_FLAGS_2` carries read back as
/// they were written.
proof fn lemma_push_btn_flags_2_parse_emit(repr: Repr, b: u8)
    ensures
        flag(repr.push_btn_flags_2_byte(b), 7) == repr.front_panel_buttons_state[16],
        flag(repr.push_btn_flags_2_byte(b), 6) == repr.front_panel_buttons_state[17],
        flag(repr.push_btn_flags_2_byte(b), 5) == repr.front_panel_buttons_state[18],
        flag(repr.push_btn_flags_2_byte(b), 4) == repr.front_panel_buttons_state[19],
        flag(repr.push_btn_flags_2_byte(b), 3) == repr.front_panel_buttons_state[20],
        flag(repr.push_btn_flags_2_byte(b), 2) == repr.front_panel_buttons_state[21],
        flag(repr.push_btn_flags_2_byte(b), 1) == repr.front_panel_buttons_state[22],
        flag(repr.push_btn_flags_2_byte(b), 0) == repr.front_panel_buttons_state[23],
{
    broadcast use group_frame_laws;

}

/// Writing back the states read from the byte at `field::PUSH_BTN_FLAGS_2`
/// leaves it unchanged.
proof fn lemma_push_btn_flags_2_emit_parse(repr: Repr, b: u8)
    requires
        repr.front_panel_buttons_state[16] == flag(b, 7),
        repr.front_panel_buttons_state[17] == flag(b, 6),
        repr.front_panel_buttons_state[18] == flag(b, 5),
        repr.front_panel_buttons_state[19] == flag(b, 4),
        repr.front_panel_buttons_state[20] == flag(b, 3),
        repr.front_panel_buttons_state[21] == flag(b, 2),
        repr.front_panel_buttons_state[22] == flag(b, 1),
        repr.front_panel_buttons_state[23] == flag(b, 0),
    ensures
        repr.push_btn_flags_2_byte(b) == b,
{
    broadcast use group_frame_laws;

}

/// The states that the byte at `field::PUSH_BTN_FLAGS_3` carries read back as
/// they were written.
proof fn lemma_push_btn_flags_3_parse_emit(repr: Repr, b: u8)
    ensures
        flag(repr.push_btn_flags_3_byte(b), 7) == repr.front_panel_buttons_state[24],
        flag(repr.push_btn_flags_3_byte(b), 6) == repr.front_panel_buttons_state[25],
        flag(repr.push_btn_flags_3_byte(b), 5) == repr.front_panel_buttons_state[26],
        flag(repr.push_btn_flags_3_byte(b), 4) == repr.front_panel_buttons_state[27],
        flag(repr.push_btn_flags_3_byte(b), 3) == repr.front_panel_buttons_state[28],
        flag(repr.push_btn_flags_3_byte(b), 2) == repr.front_panel_buttons_state[29],
        flag(repr.push_btn_flags_3_byte(b), 1) == repr.front_panel_buttons_state[30],
        flag(repr.push_btn_flags_3_byte(b), 0) == repr.front_panel_buttons_state[31],
{
    broadcast use group_frame_laws;

}

/// Writing back the states read from the byte at `field::PUSH_BTN_FLAGS_3`
/// leaves it unchanged.
proof fn lemma_push_btn_flags_3_emit_parse(repr: Repr, b: u8)
    requires
        repr.front_panel_buttons_state[24] == flag(b, 7),
        repr.front_panel_buttons_state[25] == flag(b, 6),
        repr.front_panel_buttons_state[26] == flag(b, 5),
        repr.front_panel_buttons_state[27] == flag(b, 4),
        repr.front_panel_buttons_state[28] == flag(b, 3),
        repr.front_panel_buttons_state[29] == flag(b, 2),
        repr.front_panel_buttons_state[30] == flag(b, 1),
        repr.front_panel_buttons_state[31] == flag(b, 0),
    ensures
        repr.push_btn_flags_3_byte(b) == b,
{
    broadcast use group_frame_laws;

}

/// The states that the byte at `field::PUSH_BTN_FLAGS_4` carries read back as
/// they were written.
proof fn lemma_push_btn_flags_4_parse_emit(repr: Repr, b: u8)
    ensures
        flag(repr.push_btn_flags_4_byte(b), 7) == repr.front_panel_buttons_state[32],
        flag(repr.push_btn_flags_4_byte(b), 6) == repr.front_panel_buttons_state[33],
        flag(repr.push_btn_flags_4_byte(b), 5) == repr.front_panel_buttons_state[34],
        flag(repr.push_btn_flags_4_byte(b), 4) == repr.front_panel_buttons_state[35],
        flag(repr.push_btn_flags_4_byte(b), 3) == repr.front_panel_buttons_state[36],
        flag(repr.push_btn_flags_4_byte(b), 2) == repr.front_panel_buttons_state[37],
        flag(repr.push_btn_flags_4_byte(b), 1) == repr.front_panel_buttons_state[38],
        flag(repr.push_btn_flags_4_byte(b), 0) == repr.front_panel_buttons_state[39],
{
    broadcast use group_frame_laws;

}

/// Writing back the states read from the byte at `field::PUSH_BTN_FLAGS_4`
/// leaves it unchanged.
proof fn lemma_push_btn_flags_4_emit_parse(repr: Repr, b: u8)
    requires
        repr.front_panel_buttons_state[32] == flag(b, 7),
        repr.front_panel_buttons_state[33] == flag(b, 6),
        repr.front_panel_buttons_state[34] == flag(b, 5),
        repr.front_panel_buttons_state[35] == flag(b, 4),
        repr.front_panel_buttons_state[36] == flag(b, 3),
        repr.front_panel_buttons_state[37] == flag(b, 2),
        repr.front_panel_buttons_state[38] == flag(b, 1),
        repr.front_panel_buttons_state[39] == flag(b, 0),
    ensures
        repr.push_btn_flags_4_byte(b) == b,
{
    broadcast use group_frame_laws;

}

/// The states that the byte at `field::PUSH_BTN_FLAGS_5` carries read back as
/// they were written.
proof fn lemma_push_btn_flags_5_parse_emit(repr: Repr, b: u8)
    ensures
        flag(repr.push_btn_flags_5_byte(b), 7) == repr.front_panel_buttons_state[40],
        flag(repr.push_btn_flags_5_byte(b), 6) == repr.front_panel_buttons_state[41],
        flag(repr.push_btn_flags_5_byte(b), 5) == repr.front_panel_buttons_state[42],
        flag(repr.push_btn_flags_5_byte(b), 4) == repr.front_panel_buttons_state[43],
        flag(repr.push_btn_flags_5_byte(b), 2) == repr.front_panel_bp_button_state,
        flag(repr.push_btn_flags_5_byte(b), 3) == repr.front_panel_esp_button_state,
        flag(repr.push_btn_flags_5_byte(b), 1) == repr.front_panel_first_wheel_sync_request,
        flag(repr.push_btn_flags_5_byte(b), 0) == repr.front_panel_second_wheel_sync_request,
{
    broadcast use group_frame_laws;

}

/// Writing back the states read from the byte at `field::PUSH_BTN_FLAGS_5`
/// leaves it unchanged.
proof fn lemma_push_btn_flags_5_emit_parse(repr: Repr, b: u8)
    requires
        repr.front_panel_buttons_state[40] == flag(b, 7),
        repr.front_panel_buttons_state[41] == flag(b, 6),
        repr.front_panel_buttons_state[42] == flag(b, 5),
        repr.front_panel_buttons_state[43] == flag(b, 4),
        repr.front_panel_bp_button_state == flag(b, 2),
        repr.front_panel_esp_button_state == flag(b, 3),
        repr.front_panel_first_wheel_sync_request == flag(b, 1),
        repr.front_panel_second_wheel_sync_request == flag(b, 0),
    ensures
        repr.push_btn_flags_5_byte(b) == b,
{
    broadcast use group_frame_laws;

}

/// Emitting a representation into the bytes of a frame, then parsing the
/// bytes, gives the representation back.
pub proof fn lemma_parse_emit(repr: Repr, bytes: Seq<u8>)
    requires
        bytes.len() == FRAME_LEN,
    ensures
        repr.is_carried_by(repr.emit_bytes(bytes)),
{
    let emitted = repr.emit_bytes(bytes);
    assert(emitted[field::PUSH_BTN_FLAGS_0 as int] == repr.push_btn_flags_0_byte(bytes[field::PUSH_BTN_FLAGS_0 as int]));
    assert(emitted[field::PUSH_BTN_FLAGS_1 as int] == repr.push_btn_flags_1_byte(bytes[field::PUSH_BTN_FLAGS_1 as int]));
    assert(emitted[field::PUSH_BTN_FLAGS_2 as int] == repr.push_btn_flags_2_byte(bytes[field::PUSH_BTN_FLAGS_2 as int]));
    assert(emitted[field::PUSH_BTN_FLAGS_3 as int] == repr.push_btn_flags_3_byte(bytes[field::PUSH_BTN_FLAGS_3 as int]));
    assert(emitted[field::PUSH_BTN_FLAGS_4 as int] == repr.push_btn_flags_4_byte(bytes[field::PUSH_BTN_FLAGS_4 as int]));
    assert(emitted[field::PUSH_BTN_FLAGS_5 as int] == repr.push_btn_flags_5_byte(bytes[field::PUSH_BTN_FLAGS_5 as int]));
    lemma_push_btn_flags_0_parse_emit(repr, bytes[field::PUSH_BTN_FLAGS_0 as int]);
    lemma_push_btn_flags_1_parse_emit(repr, bytes[field::PUSH_BTN_FLAGS_1 as int]);
    lemma_push_btn_flags_2_parse_emit(repr, bytes[field::PUSH_BTN_FLAGS_2 as int]);
    lemma_push_btn_flags_3_parse_emit(repr, bytes[field::PUSH_BTN_FLAGS_3 as int]);
    lemma_push_btn_flags_4_parse_emit(repr, bytes[field::PUSH_BTN_FLAGS_4 as int]);
    lemma_push_btn_flags_5_parse_emit(repr, bytes[field::PUSH_BTN_FLAGS_5 as int]);
    assert forall|i: int| 0 <= i < 44 implies #[trigger] repr.front_panel_buttons_state[i] == button_state(
        emitted,
        i,
    ) by {
        assert(0 <= i / 8 < 6);
    }
}

/// Emitting a representation that the bytes of a frame carry leaves the
/// bytes unchanged.
pub proof fn lemma_emit_parse(repr: Repr, bytes: Seq<u8>)
    requires
        bytes.len() == FRAME_LEN,
        repr.is_carried_by(bytes),
    ensures
        repr.emit_bytes(bytes) == bytes,
{
    assert(repr.front_panel_buttons_state[0] == button_state(bytes, 0));
    assert(repr.front_panel_buttons_state[1] == button_state(bytes, 1));
    assert(repr.front_panel_buttons_state[2] == button_state(bytes, 2));
    assert(repr.front_panel_buttons_state[3] == button_state(bytes, 3));
    assert(repr.front_panel_buttons_state[4] == button_state(bytes, 4));
    assert(repr.front_panel_buttons_state[5] == button_state(bytes, 5));
    assert(repr.front_panel_buttons_state[6] == button_state(bytes, 6));
    assert(repr.front_panel_buttons_state[7] == button_state(bytes, 7));
    lemma_push_btn_flags_0_emit_parse(repr, bytes[field::PUSH_BTN_FLAGS_0 as int]);
    assert(repr.front_panel_buttons_state[8] == button_state(bytes, 8));
    assert(repr.front_panel_buttons_state[9] == button_state(bytes, 9));
    assert(repr.front_panel_buttons_state[10] == button_state(bytes, 10));
    assert(repr.front_panel_buttons_state[11] == button_state(bytes, 11));
    assert(repr.front_panel_buttons_state[12] == button_state(bytes, 12));
    assert(repr.front_panel_buttons_state[13] == button_state(bytes, 13));
    assert(repr.front_panel_buttons_state[14] == button_state(bytes, 14));
    assert(repr.front_panel_buttons_state[15] == button_state(bytes, 15));
    lemma_push_btn_flags_1_emit_parse(repr, bytes[field::PUSH_BTN_FLAGS_1 as int]);
    assert(repr.front_panel_buttons_state[16] == button_state(bytes, 16));
    assert(repr.front_panel_buttons_state[17] == button_state(bytes, 17));
    assert(repr.front_panel_buttons_state[18] == button_state(bytes, 18));
    assert(repr.front_panel_buttons_state[19] == button_state(bytes, 19));
    assert(repr.front_panel_buttons_state[20] == button_state(bytes, 20));
    assert(repr.front_panel_buttons_state[21] == button_state(bytes, 21));
    assert(repr.front_panel_buttons_state[22] == button_state(bytes, 22));
    assert(repr.front_panel_buttons_state[23] == button_state(bytes, 23));
    lemma_push_btn_flags_2_emit_parse(repr, bytes[field::PUSH_BTN_FLAGS_2 as int]);
    assert(repr.front_panel_buttons_state[24] == button_state(bytes, 24));
    assert(repr.front_panel_buttons_state[25] == button_state(bytes, 25));
    assert(repr.front_panel_buttons_state[26] == button_state(bytes, 26));
    assert(repr.front_panel_buttons_state[27] == button_state(bytes, 27));
    assert(repr.front_panel_buttons_state[28] == button_state(bytes, 28));
    assert(repr.front_panel_buttons_state[29] == button_state(bytes, 29));
    assert(repr.front_panel_buttons_state[30] == button_state(bytes, 30));
    assert(repr.front_panel_buttons_state[31] == button_state(bytes, 31));
    lemma_push_btn_flags_3_emit_parse(repr, bytes[field::PUSH_BTN_FLAGS_3 as int]);
    assert(repr.front_panel_buttons_state[32] == button_state(bytes, 32));
    assert(repr.front_panel_buttons_state[33] == button_state(bytes, 33));
    assert(repr.front_panel_buttons_state[34] == button_state(bytes, 34));
    assert(repr.front_panel_buttons_state[35] == button_state(bytes, 35));
    assert(repr.front_panel_buttons_state[36] == button_state(bytes, 36));
    assert(repr.front_panel_buttons_state[37] == button_state(bytes, 37));
    assert(repr.front_panel_buttons_state[38] == button_state(bytes, 38));
    assert(repr.front_panel_buttons_state[39] == button_state(bytes, 39));
    lemma_push_btn_flags_4_emit_parse(repr, bytes[field::PUSH_BTN_FLAGS_4 as int]);
    assert(repr.front_panel_buttons_state[40] == button_state(bytes, 40));
    assert(repr.front_panel_buttons_state[41] == button_state(bytes, 41));
    assert(repr.front_panel_buttons_state[42] == button_state(bytes, 42));
    assert(repr.front_panel_buttons_state[43] == button_state(bytes, 43));
    lemma_push_btn_flags_5_emit_parse(repr, bytes[field::PUSH_BTN_FLAGS_5 as int]);
    assert(repr.emit_bytes(bytes) =~= bytes);
}

/// Each field of a representation that a frame carries reads the bits of
/// the frame that the layout gives it: button `i` is bit `7 - i % 8` of flag
/// byte `i / 8`, the other flags are bits of the last flag byte, and the tick
/// counters are whole bytes.
pub proof fn lemma_fields_from_bytes(repr: Repr, bytes: Seq<u8>)
    requires
        bytes.len() == FRAME_LEN,
        repr.is_carried_by(bytes),
    ensures
        forall|i: int|
            0 <= i < 44 ==> #[trigger] repr.front_panel_buttons_state[i] == (((bytes[field::PUSH_BTN_FLAGS_0 + i / 8] >> (7 - i % 8) as u8) & 1) == 1),
        repr.front_panel_bp_button_state == ((bytes[field::PUSH_BTN_FLAGS_5 as int] & 0x04) != 0),
        repr.front_panel_esp_button_state == ((bytes[field::PUSH_BTN_FLAGS_5 as int] & 0x08) != 0),
        repr.front_panel_first_wheel_sync_request == ((bytes[field::PUSH_BTN_FLAGS_5 as int] & 0x02) != 0),
        repr.front_panel_second_wheel_sync_request == ((bytes[field::PUSH_BTN_FLAGS_5 as int] & 0x01) != 0),
        repr.front_panel_first_wheel_ticks_counter == bytes[field::WHL_1_TICKS as int],
        repr.front_panel_second_wheel_ticks_counter == bytes[field::WHL_2_TICKS as int],
{
    lemma_flag_masks(bytes[field::PUSH_BTN_FLAGS_5 as int]);
    assert forall|i: int|
        0 <= i < 44 implies #[trigger] repr.front_panel_buttons_state[i] == (((bytes[field::PUSH_BTN_FLAGS_0 + i / 8] >> (7 - i % 8) as u8) & 1) == 1) by {
        lemma_flag_shift(bytes[field::PUSH_BTN_FLAGS_0 + i / 8], (7 - i % 8) as u8);
    }
}

/// The line of the text that shows button `i`.
pub open spec fn button_line(i: nat, state: bool) -> Seq<char> {
    "  button_"@ + decimal_text(i) + "="@ + bool_text(state) + "\n"@
}

/// The text of the button states up to button `n` (excluded) shows the line
/// of each of them.
proof fn lemma_buttons_text_shows(prefix: Seq<char>, buttons: Seq<bool>, n: nat, i: nat)
    requires
        i < n,
    ensures
        occurs(button_line(i, buttons[i as int]), buttons_text(prefix, buttons, n)),
    decreases n,
{
    let before = buttons_text(prefix, buttons, (n - 1) as nat);
    if i == n - 1 {
        assert(buttons_text(prefix, buttons, n) =~= before + button_line(i, buttons[i as int]));
        lemma_occurs_suffix(button_line(i, buttons[i as int]), before);
    } else {
        lemma_buttons_text_shows(prefix, buttons, (n - 1) as nat, i);
        assert(buttons_text(prefix, buttons, n) =~= before + ("  button_"@ + decimal_text((n - 1) as nat) + "="@
            + bool_text(buttons[n - 1]) + "\n"@));
        broadcast use group_occurs;

    }
}

/// The text of a representation shows the state of each button on a line
/// of its own, and each other field after its name and before the name of
/// the next field.
pub proof fn lemma_text_shows_fields(repr: Repr)
    ensures
        forall|i: int|
            0 <= i < 44 ==> occurs(#[trigger] button_line(i as nat, repr.front_panel_buttons_state[i]), repr.text()),
        occurs(" front_panel_bp_button_state="@ + bool_text(repr.front_panel_bp_button_state) + "\n front_panel_esp_button_state="@, repr.text()),
        occurs("\n front_panel_esp_button_state="@ + bool_text(repr.front_panel_esp_button_state) + "\n front_panel_first_wheel_ticks_counter="@, repr.text()),
        occurs("\n front_panel_first_wheel_ticks_counter="@ + decimal_text(repr.front_panel_first_wheel_ticks_counter as nat) + "\n front_panel_second_wheel_ticks_counter="@, repr.text()),
        occurs("\n front_panel_second_wheel_ticks_counter="@ + decimal_text(repr.front_panel_second_wheel_ticks_counter as nat) + "\n"@, repr.text()),
{
    broadcast use group_occurs;

    assert forall|i: int|
        0 <= i < 44 implies occurs(#[trigger] button_line(i as nat, repr.front_panel_buttons_state[i]), repr.text()) by {
        lemma_buttons_text_shows("x122\n front_panel_buttons_state=\n"@, repr.front_panel_buttons_state@, 44, i as nat);
    }
}

} // verus!
