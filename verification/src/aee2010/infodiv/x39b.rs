//! The x39b CAN frame: clock date and time update request.
use crate::bitfield::{bits, lemma_bits_formula, lemma_bits_low_formula, lemma_low_mask_values, put_bits, read_bits, write_bits};
use crate::calendar::{is_calendar_date, DateTime, YEAR_OFFSET};
use crate::config::ClockFormat;
use crate::{check_frame_len, group_frame_laws, length_check, Error};
use crate::text::{group_occurs, occurs};
use vstd::prelude::*;

pub mod field;

verus! {

/// A read/write wrapper around a x39b CAN frame buffer.
#[derive(Debug, PartialEq, Clone)]
pub struct Frame {
    buffer: Vec<u8>,
}

impl View for Frame {
    type V = Seq<u8>;

    closed spec fn view(&self) -> Seq<u8> {
        self.buffer@
    }
}

impl AsRef<[u8]> for Frame {
    /// The bytes of the frame.
    fn as_ref(&self) -> (bytes: &[u8])
        ensures
            bytes@ == self@,
    {
        self.buffer.as_slice()
    }
}

/// Length of a x39b CAN frame.
pub const FRAME_LEN: usize = field::MINUTE + 1;

impl Frame {
    /// Create a raw octet buffer with a CAN frame structure.
    pub fn new_unchecked(buffer: Vec<u8>) -> (frame: Frame)
        ensures
            frame@ == buffer@,
    {
        Frame { buffer }
    }

    /// Shorthand for a combination of `new_unchecked` and `check_len`.
    pub fn new_checked(buffer: Vec<u8>) -> (r: Result<Frame, Error>)
        ensures
            r is Ok <==> buffer@.len() == FRAME_LEN,
            r matches Ok(frame) ==> frame@ == buffer@,
            r matches Err(e) ==> length_check(buffer@.len(), FRAME_LEN as nat) == Err::<(), Error>(e),
    {
        let frame = Self::new_unchecked(buffer);
        match frame.check_len() {
            Ok(()) => Ok(frame),
            Err(e) => Err(e),
        }
    }

    /// Ensure that no accessor method will panic if called.
    /// Returns `Err(Error::Truncated)` if the buffer is too short and
    /// `Err(Error::Overlong)` if it is too long.
    pub fn check_len(&self) -> (r: Result<(), Error>)
        ensures
            r == length_check(self@.len(), FRAME_LEN as nat),
    {
        check_frame_len(self.buffer.len(), FRAME_LEN)
    }

    /// Consume the frame, returning the underlying buffer.
    pub fn into_inner(self) -> (buffer: Vec<u8>)
        ensures
            buffer@ == self@,
    {
        self.buffer
    }

    /// Return the frame length.
    pub fn frame_len(&self) -> (len: usize)
        ensures
            len == FRAME_LEN,
    {
        FRAME_LEN
    }

    /// Return the clock format field.
    pub fn clock_format(&self) -> (value: ClockFormat)
        requires
            field::YEAR_CLK_FMT < self@.len(),
        ensures
            value == ClockFormat::from_raw(bits(self@[field::YEAR_CLK_FMT as int], 7, 1)),
    {
        ClockFormat::from(read_bits(self.buffer[field::YEAR_CLK_FMT], 7, 1))
    }

    /// Return the year field.
    pub fn year(&self) -> (value: u8)
        requires
            field::YEAR_CLK_FMT < self@.len(),
        ensures
            value == bits(self@[field::YEAR_CLK_FMT as int], 0, 7),
    {
        read_bits(self.buffer[field::YEAR_CLK_FMT], 0, 7)
    }

    /// Return the month field.
    pub fn month(&self) -> (value: u8)
        requires
            field::MONTH < self@.len(),
        ensures
            value == bits(self@[field::MONTH as int], 0, 4),
    {
        read_bits(self.buffer[field::MONTH], 0, 4)
    }

    /// Return the day field.
    pub fn day(&self) -> (value: u8)
        requires
            field::DAY < self@.len(),
        ensures
            value == bits(self@[field::DAY as int], 0, 6),
    {
        read_bits(self.buffer[field::DAY], 0, 6)
    }

    /// Return the hour field.
    pub fn hour(&self) -> (value: u8)
        requires
            field::HOUR < self@.len(),
        ensures
            value == bits(self@[field::HOUR as int], 0, 5),
    {
        read_bits(self.buffer[field::HOUR], 0, 5)
    }

    /// Return the minute field.
    pub fn minute(&self) -> (value: u8)
        requires
            field::MINUTE < self@.len(),
        ensures
            value == bits(self@[field::MINUTE as int], 0, 6),
    {
        read_bits(self.buffer[field::MINUTE], 0, 6)
    }

    /// Set the clock format field.
    pub fn set_clock_format(&mut self, value: ClockFormat)
        requires
            field::YEAR_CLK_FMT < old(self)@.len(),
        ensures
            final(self)@ == old(self)@.update(field::YEAR_CLK_FMT as int, put_bits(old(self)@[field::YEAR_CLK_FMT as int], 7, 1, value.raw())),
    {
        let raw = write_bits(self.buffer[field::YEAR_CLK_FMT], 7, 1, u8::from(value));
        self.buffer.set(field::YEAR_CLK_FMT, raw);
    }

    /// Set the year field.
    pub fn set_year(&mut self, value: u8)
        requires
            field::YEAR_CLK_FMT < old(self)@.len(),
        ensures
            final(self)@ == old(self)@.update(field::YEAR_CLK_FMT as int, put_bits(old(self)@[field::YEAR_CLK_FMT as int], 0, 7, value)),
    {
        let raw = write_bits(self.buffer[field::YEAR_CLK_FMT], 0, 7, value);
        self.buffer.set(field::YEAR_CLK_FMT, raw);
    }

    /// Set the month field.
    pub fn set_month(&mut self, value: u8)
        requires
            field::MONTH < old(self)@.len(),
        ensures
            final(self)@ == old(self)@.update(field::MONTH as int, put_bits(old(self)@[field::MONTH as int], 0, 4, value)),
    {
        let raw = write_bits(self.buffer[field::MONTH], 0, 4, value);
        self.buffer.set(field::MONTH, raw);
    }

    /// Set the day field.
    pub fn set_day(&mut self, value: u8)
        requires
            field::DAY < old(self)@.len(),
        ensures
            final(self)@ == old(self)@.update(field::DAY as int, put_bits(old(self)@[field::DAY as int], 0, 6, value)),
    {
        let raw = write_bits(self.buffer[field::DAY], 0, 6, value);
        self.buffer.set(field::DAY, raw);
    }

    /// Set the hour field.
    pub fn set_hour(&mut self, value: u8)
        requires
            field::HOUR < old(self)@.len(),
        ensures
            final(self)@ == old(self)@.update(field::HOUR as int, put_bits(old(self)@[field::HOUR as int], 0, 5, value)),
    {
        let raw = write_bits(self.buffer[field::HOUR], 0, 5, value);
        self.buffer.set(field::HOUR, raw);
    }

    /// Set the minute field.
    pub fn set_minute(&mut self, value: u8)
        requires
            field::MINUTE < old(self)@.len(),
        ensures
            final(self)@ == old(self)@.update(field::MINUTE as int, put_bits(old(self)@[field::MINUTE as int], 0, 6, value)),
    {
        let raw = write_bits(self.buffer[field::MINUTE], 0, 6, value);
        self.buffer.set(field::MINUTE, raw);
    }
}

/// A high-level representation of a x39b CAN frame.
#[derive(Debug, PartialEq, Eq, Clone, Copy)]
pub struct Repr {
    pub clock_format: ClockFormat,
    pub utc_datetime: DateTime,
}

impl Repr {
    /// The date and time of day that the bytes of a frame carry, the year
    /// counted from `YEAR_OFFSET`.
    pub open spec fn datetime_from_bytes(bytes: Seq<u8>) -> DateTime {
        DateTime {
            year: (YEAR_OFFSET + bits(bytes[field::YEAR_CLK_FMT as int], 0, 7)) as i32,
            month: bits(bytes[field::MONTH as int], 0, 4),
            day: bits(bytes[field::DAY as int], 0, 6),
            hour: bits(bytes[field::HOUR as int], 0, 5),
            minute: bits(bytes[field::MINUTE as int], 0, 6),
        }
    }

    /// Whether the month, day, hour and minute fields of a frame lie in
    /// their ranges: a month from 1 to 12, a day from 1 to 31, an hour below
    /// 24 and a minute below 60.
    pub open spec fn fields_in_range(bytes: Seq<u8>) -> bool {
        let dt = Repr::datetime_from_bytes(bytes);
        &&& 1 <= dt.month <= 12
        &&& 1 <= dt.day <= 31
        &&& dt.hour <= 23
        &&& dt.minute <= 59
    }

    /// The representation that the bytes of a frame carry.
    pub open spec fn from_bytes(bytes: Seq<u8>) -> Repr {
        Repr {
            clock_format: ClockFormat::from_raw(bits(bytes[field::YEAR_CLK_FMT as int], 7, 1)),
            utc_datetime: Repr::datetime_from_bytes(bytes),
        }
    }

    /// The bytes of a frame once `self` is emitted into them.
    pub open spec fn emit_bytes(self, bytes: Seq<u8>) -> Seq<u8> {
        let dt = self.utc_datetime;
        bytes.update(
            field::YEAR_CLK_FMT as int,
            put_bits(
                put_bits(bytes[field::YEAR_CLK_FMT as int], 7, 1, self.clock_format.raw()),
                0,
                7,
                (dt.year - YEAR_OFFSET) as u8,
            ),
        ).update(field::MONTH as int, put_bits(bytes[field::MONTH as int], 0, 4, dt.month)).update(
            field::DAY as int,
            put_bits(bytes[field::DAY as int], 0, 6, dt.day),
        ).update(field::HOUR as int, put_bits(bytes[field::HOUR as int], 0, 5, dt.hour)).update(
            field::MINUTE as int,
            put_bits(bytes[field::MINUTE as int], 0, 6, dt.minute),
        )
    }

    /// Parse a x39b CAN frame into its high-level representation.  A field
    /// out of its range is invalid.  Fields in their ranges must name an
    /// existing date (the 30th of February is refused by the calendar).
    pub fn parse(frame: &Frame) -> (r: Result<Repr, Error>)
        requires
            frame@.len() == FRAME_LEN && Repr::fields_in_range(frame@) ==> {
                let dt = Repr::datetime_from_bytes(frame@);
                is_calendar_date(dt.year as int, dt.month as int, dt.day as int)
            },
        ensures
            r is Ok <==> frame@.len() == FRAME_LEN && Repr::fields_in_range(frame@),
            r matches Ok(repr) ==> repr == Repr::from_bytes(frame@),
            r matches Err(e) ==> (length_check(frame@.len(), FRAME_LEN as nat) == Err::<(), Error>(e))
                || (frame@.len() == FRAME_LEN && e == Error::Invalid),
    {
        if let Err(e) = frame.check_len() {
            return Err(e);
        }
        if frame.month() < 1 || frame.month() > 12 || frame.day() < 1 || frame.day() > 31
            || frame.hour() > 23 || frame.minute() > 59 {
            Err(Error::Invalid)
        } else {
            Ok(Repr {
                clock_format: frame.clock_format(),
                utc_datetime: DateTime {
                    year: YEAR_OFFSET + frame.year() as i32,
                    month: frame.month(),
                    day: frame.day(),
                    hour: frame.hour(),
                    minute: frame.minute(),
                },
            })
        }
    }

    /// The text of `self`: each field by name, with its value.
    pub open spec fn text(self) -> Seq<char> {
        "x39b utc_datetime="@
            + self.utc_datetime.text()
            + " clock_format="@
            + self.clock_format.text()
    }

    /// Return the text of `self`.
    pub fn to_text(&self) -> (s: String)
        ensures
            s@ == self.text(),
    {
        let mut s = String::from_str("x39b utc_datetime=");
        self.utc_datetime.push_text(&mut s);
        s.append(" clock_format=");
        self.clock_format.push_text(&mut s);
        s
    }

    /// Return the length of a frame that will be emitted from this high-level representation.
    pub fn buffer_len(&self) -> (len: usize)
        ensures
            len == FRAME_LEN,
    {
        FRAME_LEN
    }

    /// Emit a high-level representation into a x39b CAN frame.
    pub fn emit(&self, frame: &mut Frame)
        requires
            FRAME_LEN <= old(frame)@.len(),
            -9999 <= self.utc_datetime.year <= 9999,
        ensures
            final(frame)@ == self.emit_bytes(old(frame)@),
    {
        let ghost bytes = frame@;
        let can_year = self.utc_datetime.year - YEAR_OFFSET;
        frame.set_clock_format(self.clock_format);
        frame.set_year(can_year as u8);
        frame.set_month(self.utc_datetime.month);
        frame.set_day(self.utc_datetime.day);
        frame.set_hour(self.utc_datetime.hour);
        frame.set_minute(self.utc_datetime.minute);
        assert(frame@ =~= self.emit_bytes(bytes));
    }
}

impl Frame {
    /// Return the text of the frame: that of the representation that it
    /// carries, or the error that parsing it gives.  Fields in their ranges
    /// must name an existing date, as for parsing.
    pub fn to_text(&self) -> (s: String)
        requires
            self@.len() == FRAME_LEN && Repr::fields_in_range(self@) ==> {
                let dt = Repr::datetime_from_bytes(self@);
                is_calendar_date(dt.year as int, dt.month as int, dt.day as int)
            },
        ensures
            s@ == (match length_check(self@.len(), FRAME_LEN as nat) {
                Ok(_) => if Repr::fields_in_range(self@) {
                    Repr::from_bytes(self@).text()
                } else {
                    "x39b ("@ + Error::Invalid.text() + ")"@
                },
                Err(e) => "x39b ("@ + e.text() + ")"@,
            }),
    {
        match Repr::parse(self) {
            Ok(repr) => repr.to_text(),
            Err(e) => {
                let mut s = String::from_str("x39b (");
                s.append(e.description());
                s.append(")");
                s
            },
        }
    }
}

/// Emitting a representation whose date and time exist and whose year lies
/// within the years that the year field counts, then parsing the bytes,
/// gives the representation back.
pub proof fn lemma_parse_emit(repr: Repr, bytes: Seq<u8>)
    requires
        bytes.len() == FRAME_LEN,
        repr.utc_datetime.is_valid(),
        YEAR_OFFSET <= repr.utc_datetime.year < YEAR_OFFSET + 0x80,
    ensures
        Repr::fields_in_range(repr.emit_bytes(bytes)),
        Repr::from_bytes(repr.emit_bytes(bytes)) == repr,
{
    broadcast use group_frame_laws;

    lemma_low_mask_values();
    assert(Repr::datetime_from_bytes(repr.emit_bytes(bytes)) == repr.utc_datetime);
}

/// Emitting the representation that the bytes of a frame carry leaves the
/// bytes unchanged.
pub proof fn lemma_emit_parse(bytes: Seq<u8>)
    requires
        bytes.len() == FRAME_LEN,
    ensures
        Repr::from_bytes(bytes).emit_bytes(bytes) == bytes,
{
    broadcast use group_frame_laws;

    lemma_low_mask_values();
}

/// Each field of a representation reads the bits of the frame that the
/// layout gives it: a word high byte first, a flag or a field through its
/// mask.
pub proof fn lemma_fields_from_bytes(bytes: Seq<u8>)
    requires
        bytes.len() == FRAME_LEN,
    ensures
        Repr::from_bytes(bytes).clock_format == ClockFormat::from_raw((bytes[field::YEAR_CLK_FMT as int] >> 7u8) & 0x01),
        Repr::from_bytes(bytes).utc_datetime.year as int == YEAR_OFFSET as int + (bytes[field::YEAR_CLK_FMT as int] & 0x7f) as int,
        Repr::from_bytes(bytes).utc_datetime.month == bytes[field::MONTH as int] & 0x0f,
        Repr::from_bytes(bytes).utc_datetime.day == bytes[field::DAY as int] & 0x3f,
        Repr::from_bytes(bytes).utc_datetime.hour == bytes[field::HOUR as int] & 0x1f,
        Repr::from_bytes(bytes).utc_datetime.minute == bytes[field::MINUTE as int] & 0x3f,
{
    lemma_low_mask_values();
    lemma_bits_formula(bytes[field::YEAR_CLK_FMT as int], 7, 1);
    lemma_bits_low_formula(bytes[field::DAY as int], 6);
    lemma_bits_low_formula(bytes[field::HOUR as int], 5);
    lemma_bits_low_formula(bytes[field::MINUTE as int], 6);
    lemma_bits_low_formula(bytes[field::MONTH as int], 4);
    lemma_bits_low_formula(bytes[field::YEAR_CLK_FMT as int], 7);
}

/// The text of a representation shows each field after its name and before
/// the name of the next field, so the fields stand in their order.
pub proof fn lemma_text_shows_fields(repr: Repr)
    ensures
        occurs("x39b utc_datetime="@ + repr.utc_datetime.text() + " clock_format="@, repr.text()),
        occurs(" clock_format="@ + repr.clock_format.text(), repr.text()),
{
    broadcast use group_occurs;

}

} // verus!
