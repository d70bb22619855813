//! The x276 CAN frame: clock date and time, AdBlue autonomy.
use crate::bitfield::{bits, bits16, flag16, lemma_bits16_arith, lemma_bits_formula, lemma_bits_low_formula, lemma_low_mask16_values, lemma_low_mask_values, put_bits, put_bits16, put_flag16, read_bits, read_bits16, read_flag16, write_bits, write_bits16, write_flag16};
use crate::calendar::{
    calendar_date_exists, is_calendar_date, is_time_of_day, month_exists, time_of_day_exists, DateTime,
    YEAR_OFFSET,
};
use crate::endian::{be_u16, lemma_be_u16_roundtrip, put_be_u16, read_u16, write_u16};
use crate::config::ClockFormat;
use crate::config::DisplayMode;
use crate::{check_frame_len, group_frame_laws, length_check, Error};
use crate::text::{bool_text, decimal_text, group_occurs, occurs, push_bool, push_decimal};
use vstd::prelude::*;

pub mod field;

verus! {

/// A read/write wrapper around a x276 CAN frame buffer.
#[derive(Debug, PartialEq, Clone)]
pub struct Frame {
    buffer: Vec<u8>,
}

impl View for Frame {
    type V = Seq<u8>;

    closed spec fn view(&self) -> Seq<u8> {
        self.buffer@
    }
}

impl AsRef<[u8]> for Frame {
    /// The bytes of the frame.
    fn as_ref(&self) -> (bytes: &[u8])
        ensures
            bytes@ == self@,
    {
        self.buffer.as_slice()
    }
}

/// Raw x276 CAN frame identifier.
pub const FRAME_ID: u16 = 0x276;

/// Length of a x276 CAN frame.
pub const FRAME_LEN: usize = field::FLAGS_ADBLUE_AUTONOMY + 2;

/// Periodicity of a x276 CAN frame, in milliseconds.
pub const PERIODICITY_MS: u64 = 1000;

impl Frame {
    /// Create a raw octet buffer with a CAN frame structure.
    pub fn new_unchecked(buffer: Vec<u8>) -> (frame: Frame)
        ensures
            frame@ == buffer@,
    {
        Frame { buffer }
    }

    /// Shorthand for a combination of `new_unchecked` and `check_len`.
    pub fn new_checked(buffer: Vec<u8>) -> (r: Result<Frame, Error>)
        ensures
            r is Ok <==> buffer@.len() == FRAME_LEN,
            r matches Ok(frame) ==> frame@ == buffer@,
            r matches Err(e) ==> length_check(buffer@.len(), FRAME_LEN as nat) == Err::<(), Error>(e),
    {
        let frame = Self::new_unchecked(buffer);
        match frame.check_len() {
            Ok(()) => Ok(frame),
            Err(e) => Err(e),
        }
    }

    /// Ensure that no accessor method will panic if called.
    /// Returns `Err(Error::Truncated)` if the buffer is too short and
    /// `Err(Error::Overlong)` if it is too long.
    pub fn check_len(&self) -> (r: Result<(), Error>)
        ensures
            r == length_check(self@.len(), FRAME_LEN as nat),
    {
        check_frame_len(self.buffer.len(), FRAME_LEN)
    }

    /// Consume the frame, returning the underlying buffer.
    pub fn into_inner(self) -> (buffer: Vec<u8>)
        ensures
            buffer@ == self@,
    {
        self.buffer
    }

    /// Return the frame length.
    pub fn frame_len(&self) -> (len: usize)
        ensures
            len == FRAME_LEN,
    {
        FRAME_LEN
    }

    /// Return the clock format field.
    pub fn clock_format(&self) -> (value: ClockFormat)
        requires
            field::YEAR_CLK_FMT < self@.len(),
        ensures
            value == ClockFormat::from_raw(bits(self@[field::YEAR_CLK_FMT as int], 7, 1)),
    {
        ClockFormat::from(read_bits(self.buffer[field::YEAR_CLK_FMT], 7, 1))
    }

    /// Return the year field.
    pub fn year(&self) -> (value: u8)
        requires
            field::YEAR_CLK_FMT < self@.len(),
        ensures
            value == bits(self@[field::YEAR_CLK_FMT as int], 0, 7),
    {
        read_bits(self.buffer[field::YEAR_CLK_FMT], 0, 7)
    }

    /// Return the month field.
    pub fn month(&self) -> (value: u8)
        requires
            field::MONTH_CLOCK_DISP_MODE < self@.len(),
        ensures
            value == bits(self@[field::MONTH_CLOCK_DISP_MODE as int], 0, 4),
    {
        read_bits(self.buffer[field::MONTH_CLOCK_DISP_MODE], 0, 4)
    }

    /// Return the clock display mode field.
    pub fn clock_display_mode(&self) -> (value: DisplayMode)
        requires
            field::MONTH_CLOCK_DISP_MODE < self@.len(),
        ensures
            value == DisplayMode::from_raw(bits(self@[field::MONTH_CLOCK_DISP_MODE as int], 4, 1)),
    {
        DisplayMode::from(read_bits(self.buffer[field::MONTH_CLOCK_DISP_MODE], 4, 1))
    }

    /// Return the day field.
    pub fn day(&self) -> (value: u8)
        requires
            field::DAY < self@.len(),
        ensures
            value == bits(self@[field::DAY as int], 0, 6),
    {
        read_bits(self.buffer[field::DAY], 0, 6)
    }

    /// Return the hour field.
    pub fn hour(&self) -> (value: u8)
        requires
            field::HOUR < self@.len(),
        ensures
            value == bits(self@[field::HOUR as int], 0, 5),
    {
        read_bits(self.buffer[field::HOUR], 0, 5)
    }

    /// Return the minute field.
    pub fn minute(&self) -> (value: u8)
        requires
            field::MINUTE < self@.len(),
        ensures
            value == bits(self@[field::MINUTE as int], 0, 6),
    {
        read_bits(self.buffer[field::MINUTE], 0, 6)
    }

    /// Return the Adblue autonomy field.
    pub fn adblue_autonomy(&self) -> (value: u16)
        requires
            field::FLAGS_ADBLUE_AUTONOMY + 2 <= self@.len(),
        ensures
            value == bits16(be_u16(self@, field::FLAGS_ADBLUE_AUTONOMY as int), 0, 14),
    {
        read_bits16(read_u16(self.buffer.as_slice(), field::FLAGS_ADBLUE_AUTONOMY), 0, 14)
    }

    /// Return the AdBlue autonomy display request field.
    pub fn adblue_autonomy_display_request(&self) -> (value: bool)
        requires
            field::FLAGS_ADBLUE_AUTONOMY + 2 <= self@.len(),
        ensures
            value == flag16(be_u16(self@, field::FLAGS_ADBLUE_AUTONOMY as int), 15),
    {
        read_flag16(read_u16(self.buffer.as_slice(), field::FLAGS_ADBLUE_AUTONOMY), 15)
    }

    /// Set the clock format field.
    pub fn set_clock_format(&mut self, value: ClockFormat)
        requires
            field::YEAR_CLK_FMT < old(self)@.len(),
        ensures
            final(self)@ == old(self)@.update(field::YEAR_CLK_FMT as int, put_bits(old(self)@[field::YEAR_CLK_FMT as int], 7, 1, value.raw())),
    {
        let raw = write_bits(self.buffer[field::YEAR_CLK_FMT], 7, 1, u8::from(value));
        self.buffer.set(field::YEAR_CLK_FMT, raw);
    }

    /// Set the year field.
    pub fn set_year(&mut self, value: u8)
        requires
            field::YEAR_CLK_FMT < old(self)@.len(),
        ensures
            final(self)@ == old(self)@.update(field::YEAR_CLK_FMT as int, put_bits(old(self)@[field::YEAR_CLK_FMT as int], 0, 7, value)),
    {
        let raw = write_bits(self.buffer[field::YEAR_CLK_FMT], 0, 7, value);
        self.buffer.set(field::YEAR_CLK_FMT, raw);
    }

    /// Set the month field.
    pub fn set_month(&mut self, value: u8)
        requires
            field::MONTH_CLOCK_DISP_MODE < old(self)@.len(),
        ensures
            final(self)@ == old(self)@.update(field::MONTH_CLOCK_DISP_MODE as int, put_bits(old(self)@[field::MONTH_CLOCK_DISP_MODE as int], 0, 4, value)),
    {
        let raw = write_bits(self.buffer[field::MONTH_CLOCK_DISP_MODE], 0, 4, value);
        self.buffer.set(field::MONTH_CLOCK_DISP_MODE, raw);
    }

    /// Set the clock display mode field.
    pub fn set_clock_display_mode(&mut self, value: DisplayMode)
        requires
            field::MONTH_CLOCK_DISP_MODE < old(self)@.len(),
        ensures
            final(self)@ == old(self)@.update(field::MONTH_CLOCK_DISP_MODE as int, put_bits(old(self)@[field::MONTH_CLOCK_DISP_MODE as int], 4, 1, value.raw())),
    {
        let raw = write_bits(self.buffer[field::MONTH_CLOCK_DISP_MODE], 4, 1, u8::from(value));
        self.buffer.set(field::MONTH_CLOCK_DISP_MODE, raw);
    }

    /// Set the day field.
    pub fn set_day(&mut self, value: u8)
        requires
            field::DAY < old(self)@.len(),
        ensures
            final(self)@ == old(self)@.update(field::DAY as int, put_bits(old(self)@[field::DAY as int], 0, 6, value)),
    {
        let raw = write_bits(self.buffer[field::DAY], 0, 6, value);
        self.buffer.set(field::DAY, raw);
    }

    /// Set the hour field.
    pub fn set_hour(&mut self, value: u8)
        requires
            field::HOUR < old(self)@.len(),
        ensures
            final(self)@ == old(self)@.update(field::HOUR as int, put_bits(old(self)@[field::HOUR as int], 0, 5, value)),
    {
        let raw = write_bits(self.buffer[field::HOUR], 0, 5, value);
        self.buffer.set(field::HOUR, raw);
    }

    /// Set the minute field.
    pub fn set_minute(&mut self, value: u8)
        requires
            field::MINUTE < old(self)@.len(),
        ensures
            final(self)@ == old(self)@.update(field::MINUTE as int, put_bits(old(self)@[field::MINUTE as int], 0, 6, value)),
    {
        let raw = write_bits(self.buffer[field::MINUTE], 0, 6, value);
        self.buffer.set(field::MINUTE, raw);
    }

    /// Set the Adblue autonomy field.
    pub fn set_adblue_autonomy(&mut self, value: u16)
        requires
            field::FLAGS_ADBLUE_AUTONOMY + 2 <= old(self)@.len(),
        ensures
            final(self)@ == put_be_u16(
                old(self)@,
                field::FLAGS_ADBLUE_AUTONOMY as int,
                put_bits16(be_u16(old(self)@, field::FLAGS_ADBLUE_AUTONOMY as int), 0, 14, value),
            ),
    {
        let raw = read_u16(self.buffer.as_slice(), field::FLAGS_ADBLUE_AUTONOMY);
        write_u16(&mut self.buffer, field::FLAGS_ADBLUE_AUTONOMY, write_bits16(raw, 0, 14, value));
    }

    /// Set the AdBlue autonomy display request field.
    pub fn set_adblue_autonomy_display_request(&mut self, value: bool)
        requires
            field::FLAGS_ADBLUE_AUTONOMY + 2 <= old(self)@.len(),
        ensures
            final(self)@ == put_be_u16(
                old(self)@,
                field::FLAGS_ADBLUE_AUTONOMY as int,
                put_flag16(be_u16(old(self)@, field::FLAGS_ADBLUE_AUTONOMY as int), 15, value),
            ),
    {
        let raw = read_u16(self.buffer.as_slice(), field::FLAGS_ADBLUE_AUTONOMY);
        write_u16(&mut self.buffer, field::FLAGS_ADBLUE_AUTONOMY, write_flag16(raw, 15, value));
    }
}

/// A high-level representation of a x276 CAN frame.
#[derive(Debug, PartialEq, Eq, Clone, Copy)]
pub struct Repr {
    pub clock_format: ClockFormat,
    pub clock_disp_mode: DisplayMode,
    /// The date and time of day, in UTC.
    pub utc_datetime: DateTime,
    pub adblue_autonomy: u16,
    pub adblue_autonomy_display_request: bool,
}

impl Repr {
    /// The date and time of day that the bytes of a frame carry, the year
    /// counted from `YEAR_OFFSET`.
    pub open spec fn datetime_from_bytes(bytes: Seq<u8>) -> DateTime {
        DateTime {
            year: (YEAR_OFFSET + bits(bytes[field::YEAR_CLK_FMT as int], 0, 7)) as i32,
            month: bits(bytes[field::MONTH_CLOCK_DISP_MODE as int], 0, 4),
            day: bits(bytes[field::DAY as int], 0, 6),
            hour: bits(bytes[field::HOUR as int], 0, 5),
            minute: bits(bytes[field::MINUTE as int], 0, 6),
        }
    }

    /// Whether the bytes of a frame carry an existing date and time of day.
    pub open spec fn bytes_valid(bytes: Seq<u8>) -> bool {
        Repr::datetime_from_bytes(bytes).is_valid()
    }

    /// The representation that the bytes of a frame carry.
    pub open spec fn from_bytes(bytes: Seq<u8>) -> Repr {
        Repr {
            clock_format: ClockFormat::from_raw(bits(bytes[field::YEAR_CLK_FMT as int], 7, 1)),
            clock_disp_mode: DisplayMode::from_raw(bits(bytes[field::MONTH_CLOCK_DISP_MODE as int], 4, 1)),
            utc_datetime: Repr::datetime_from_bytes(bytes),
            adblue_autonomy: bits16(be_u16(bytes, field::FLAGS_ADBLUE_AUTONOMY as int), 0, 14),
            adblue_autonomy_display_request: flag16(be_u16(bytes, field::FLAGS_ADBLUE_AUTONOMY as int), 15),
        }
    }

    /// The bytes of a frame once `self` is emitted into them.
    pub open spec fn emit_bytes(self, bytes: Seq<u8>) -> Seq<u8> {
        let dt = self.utc_datetime;
        let word = put_flag16(
            put_bits16(be_u16(bytes, field::FLAGS_ADBLUE_AUTONOMY as int), 0, 14, self.adblue_autonomy),
            15,
            self.adblue_autonomy_display_request,
        );
        put_be_u16(bytes, field::FLAGS_ADBLUE_AUTONOMY as int, word).update(
            field::YEAR_CLK_FMT as int,
            put_bits(
                put_bits(bytes[field::YEAR_CLK_FMT as int], 7, 1, self.clock_format.raw()),
                0,
                7,
                (dt.year - YEAR_OFFSET) as u8,
            ),
        ).update(
            field::MONTH_CLOCK_DISP_MODE as int,
            put_bits(
                put_bits(bytes[field::MONTH_CLOCK_DISP_MODE as int], 0, 4, dt.month),
                4,
                1,
                self.clock_disp_mode.raw(),
            ),
        ).update(field::DAY as int, put_bits(bytes[field::DAY as int], 0, 6, dt.day)).update(
            field::HOUR as int,
            put_bits(bytes[field::HOUR as int], 0, 5, dt.hour),
        ).update(field::MINUTE as int, put_bits(bytes[field::MINUTE as int], 0, 6, dt.minute))
    }

    /// Parse a x276 CAN frame into its high-level representation.  A month,
    /// a date or a time of day that does not exist is illegal.
    pub fn parse(frame: &Frame) -> (r: Result<Repr, Error>)
        ensures
            r is Ok <==> frame@.len() == FRAME_LEN && Repr::bytes_valid(frame@),
            r matches Ok(repr) ==> repr == Repr::from_bytes(frame@),
            r matches Err(e) ==> (length_check(frame@.len(), FRAME_LEN as nat) == Err::<(), Error>(e))
                || (frame@.len() == FRAME_LEN && e == Error::Illegal),
    {
        if let Err(e) = frame.check_len() {
            return Err(e);
        }
        let month = frame.month();
        if !month_exists(month) {
            return Err(Error::Illegal);
        }
        let year = YEAR_OFFSET + frame.year() as i32;
        let day = frame.day();
        if !calendar_date_exists(year, month, day) {
            return Err(Error::Illegal);
        }
        let hour = frame.hour();
        let minute = frame.minute();
        if !time_of_day_exists(hour, minute) {
            return Err(Error::Illegal);
        }
        Ok(Repr {
            clock_format: frame.clock_format(),
            clock_disp_mode: frame.clock_display_mode(),
            utc_datetime: DateTime { year, month, day, hour, minute },
            adblue_autonomy: frame.adblue_autonomy(),
            adblue_autonomy_display_request: frame.adblue_autonomy_display_request(),
        })
    }

    /// The text of `self`: each field by name, with its value.
    pub open spec fn text(self) -> Seq<char> {
        "x276 clock_format="@
            + self.clock_format.text()
            + "\n clock_disp_mode="@
            + self.clock_disp_mode.text()
            + "\n utc_datetime="@
            + self.utc_datetime.utc_text()
            + "\n adblue_autonomy="@
            + decimal_text(self.adblue_autonomy as nat)
            + "\n adblue_autonomy_display_request="@
            + bool_text(self.adblue_autonomy_display_request)
            + "\n"@
    }

    /// Return the text of `self`.
    pub fn to_text(&self) -> (s: String)
        ensures
            s@ == self.text(),
    {
        let mut s = String::from_str("x276 clock_format=");
        self.clock_format.push_text(&mut s);
        s.append("\n clock_disp_mode=");
        self.clock_disp_mode.push_text(&mut s);
        s.append("\n utc_datetime=");
        self.utc_datetime.push_utc_text(&mut s);
        s.append("\n adblue_autonomy=");
        push_decimal(&mut s, self.adblue_autonomy as u64);
        s.append("\n adblue_autonomy_display_request=");
        push_bool(&mut s, self.adblue_autonomy_display_request);
        s.append("\n");
        s
    }

    /// Return the length of a frame that will be emitted from this high-level representation.
    pub fn buffer_len(&self) -> (len: usize)
        ensures
            len == FRAME_LEN,
    {
        FRAME_LEN
    }

    /// Emit a high-level representation into a x276 CAN frame.
    pub fn emit(&self, frame: &mut Frame)
        requires
            FRAME_LEN <= old(frame)@.len(),
            -9999 <= self.utc_datetime.year <= 9999,
        ensures
            final(frame)@ == self.emit_bytes(old(frame)@),
    {
        let ghost bytes = frame@;
        let can_year = self.utc_datetime.year - YEAR_OFFSET;
        frame.set_clock_format(self.clock_format);
        frame.set_year(can_year as u8);
        frame.set_month(self.utc_datetime.month);
        frame.set_clock_display_mode(self.clock_disp_mode);
        frame.set_day(self.utc_datetime.day);
        frame.set_hour(self.utc_datetime.hour);
        frame.set_minute(self.utc_datetime.minute);
        frame.set_adblue_autonomy(self.adblue_autonomy);
        frame.set_adblue_autonomy_display_request(self.adblue_autonomy_display_request);
        assert(frame@ =~= self.emit_bytes(bytes));
    }
}

impl Frame {
    /// Return the text of the frame: that of the representation that it
    /// carries, or the error that parsing it gives.
    pub fn to_text(&self) -> (s: String)
        ensures
            s@ == (match length_check(self@.len(), FRAME_LEN as nat) {
                Ok(_) => if Repr::bytes_valid(self@) {
                    Repr::from_bytes(self@).text()
                } else {
                    "x276 ("@ + Error::Illegal.text() + ")"@
                },
                Err(e) => "x276 ("@ + e.text() + ")"@,
            }),
    {
        match Repr::parse(self) {
            Ok(repr) => repr.to_text(),
            Err(e) => {
                let mut s = String::from_str("x276 (");
                s.append(e.description());
                s.append(")");
                s
            },
        }
    }
}

/// Emitting a representation whose date lies within the years that the year
/// field counts and whose fields fit into the bytes of a frame, then parsing
/// the bytes, gives the representation back.
pub proof fn lemma_parse_emit(repr: Repr, bytes: Seq<u8>)
    requires
        bytes.len() == FRAME_LEN,
        repr.utc_datetime.is_valid(),
        YEAR_OFFSET <= repr.utc_datetime.year < YEAR_OFFSET + 0x80,
        repr.adblue_autonomy < 0x4000,
    ensures
        Repr::bytes_valid(repr.emit_bytes(bytes)),
        Repr::from_bytes(repr.emit_bytes(bytes)) == repr,
{
    broadcast use group_frame_laws;

    lemma_low_mask_values();
    lemma_low_mask16_values();
    let emitted = repr.emit_bytes(bytes);
    let word = put_flag16(
        put_bits16(be_u16(bytes, field::FLAGS_ADBLUE_AUTONOMY as int), 0, 14, repr.adblue_autonomy),
        15,
        repr.adblue_autonomy_display_request,
    );
    lemma_be_u16_roundtrip(bytes, field::FLAGS_ADBLUE_AUTONOMY as int, word);
    let words = put_be_u16(bytes, field::FLAGS_ADBLUE_AUTONOMY as int, word);
    assert(be_u16(emitted, field::FLAGS_ADBLUE_AUTONOMY as int) == be_u16(words, field::FLAGS_ADBLUE_AUTONOMY as int));
    assert(Repr::datetime_from_bytes(emitted) == repr.utc_datetime);
}

/// Emitting the representation that the bytes of a frame carry leaves the
/// bytes unchanged.
pub proof fn lemma_emit_parse(bytes: Seq<u8>)
    requires
        bytes.len() == FRAME_LEN,
    ensures
        Repr::from_bytes(bytes).emit_bytes(bytes) == bytes,
{
    broadcast use group_frame_laws;

    lemma_low_mask_values();
    lemma_low_mask16_values();
}

/// Each field of a representation reads the bits of the frame that the
/// layout gives it: a word high byte first, a flag or a field through its
/// mask.
pub proof fn lemma_fields_from_bytes(bytes: Seq<u8>)
    requires
        bytes.len() == FRAME_LEN,
    ensures
        Repr::from_bytes(bytes).clock_format == ClockFormat::from_raw((bytes[field::YEAR_CLK_FMT as int] >> 7u8) & 0x01),
        Repr::from_bytes(bytes).clock_disp_mode == DisplayMode::from_raw((bytes[field::MONTH_CLOCK_DISP_MODE as int] >> 4u8) & 0x01),
        Repr::from_bytes(bytes).utc_datetime.year as int == YEAR_OFFSET as int + (bytes[field::YEAR_CLK_FMT as int] & 0x7f) as int,
        Repr::from_bytes(bytes).utc_datetime.month == bytes[field::MONTH_CLOCK_DISP_MODE as int] & 0x0f,
        Repr::from_bytes(bytes).utc_datetime.day == bytes[field::DAY as int] & 0x3f,
        Repr::from_bytes(bytes).utc_datetime.hour == bytes[field::HOUR as int] & 0x1f,
        Repr::from_bytes(bytes).utc_datetime.minute == bytes[field::MINUTE as int] & 0x3f,
        Repr::from_bytes(bytes).adblue_autonomy as int == (bytes[field::FLAGS_ADBLUE_AUTONOMY as int] as int * 0x100 + bytes[field::FLAGS_ADBLUE_AUTONOMY + 1] as int) % 0x4000,
        Repr::from_bytes(bytes).adblue_autonomy_display_request == (bytes[field::FLAGS_ADBLUE_AUTONOMY as int] >= 0x80),
{
    lemma_low_mask_values();
    lemma_bits16_arith(be_u16(bytes, field::FLAGS_ADBLUE_AUTONOMY as int));
    lemma_bits_formula(bytes[field::MONTH_CLOCK_DISP_MODE as int], 4, 1);
    lemma_bits_formula(bytes[field::YEAR_CLK_FMT as int], 7, 1);
    lemma_bits_low_formula(bytes[field::DAY as int], 6);
    lemma_bits_low_formula(bytes[field::HOUR as int], 5);
    lemma_bits_low_formula(bytes[field::MINUTE as int], 6);
    lemma_bits_low_formula(bytes[field::MONTH_CLOCK_DISP_MODE as int], 4);
    lemma_bits_low_formula(bytes[field::YEAR_CLK_FMT as int], 7);
}

/// The text of a representation shows each field after its name and before
/// the name of the next field, so the fields stand in their order.
pub proof fn lemma_text_shows_fields(repr: Repr)
    ensures
        occurs("x276 clock_format="@ + repr.clock_format.text() + "\n clock_disp_mode="@, repr.text()),
        occurs("\n clock_disp_mode="@ + repr.clock_disp_mode.text() + "\n utc_datetime="@, repr.text()),
        occurs("\n utc_datetime="@ + repr.utc_datetime.utc_text() + "\n adblue_autonomy="@, repr.text()),
        occurs("\n adblue_autonomy="@ + decimal_text(repr.adblue_autonomy as nat) + "\n adblue_autonomy_display_request="@, repr.text()),
        occurs("\n adblue_autonomy_display_request="@ + bool_text(repr.adblue_autonomy_display_request) + "\n"@, repr.text()),
{
    broadcast use group_occurs;

}

} // verus!
