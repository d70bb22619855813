//! The x2a1 CAN frame: trip computer data for the first trip.
use crate::endian::{be_u16, put_be_u16, read_u16, write_u16};
use crate::{check_frame_len, length_check, Error};
use vstd::prelude::*;

pub mod field;

verus! {

/// A read/write wrapper around a x2a1 CAN frame buffer.
#[derive(Debug, PartialEq, Clone)]
pub struct Frame {
    buffer: Vec<u8>,
}

impl View for Frame {
    type V = Seq<u8>;

    closed spec fn view(&self) -> Seq<u8> {
        self.buffer@
    }
}

impl AsRef<[u8]> for Frame {
    /// The bytes of the frame.
    fn as_ref(&self) -> (bytes: &[u8])
        ensures
            bytes@ == self@,
    {
        self.buffer.as_slice()
    }
}

/// Length of a x2a1 CAN frame.
pub const FRAME_LEN: usize = field::RES + 2;

/// Periodicity of a x2a1 CAN frame, in milliseconds.
pub const PERIODICITY_MS: u64 = 1000;

impl Frame {
    /// Create a raw octet buffer with a CAN frame structure.
    pub fn new_unchecked(buffer: Vec<u8>) -> (frame: Frame)
        ensures
            frame@ == buffer@,
    {
        Frame { buffer }
    }

    /// Shorthand for a combination of `new_unchecked` and `check_len`.
    pub fn new_checked(buffer: Vec<u8>) -> (r: Result<Frame, Error>)
        ensures
            r is Ok <==> buffer@.len() == FRAME_LEN,
            r matches Ok(frame) ==> frame@ == buffer@,
            r matches Err(e) ==> length_check(buffer@.len(), FRAME_LEN as nat) == Err::<(), Error>(e),
    {
        let frame = Self::new_unchecked(buffer);
        match frame.check_len() {
            Ok(()) => Ok(frame),
            Err(e) => Err(e),
        }
    }

    /// Ensure that no accessor method will panic if called.
    /// Returns `Err(Error::Truncated)` if the buffer is too short and
    /// `Err(Error::Overlong)` if it is too long.
    pub fn check_len(&self) -> (r: Result<(), Error>)
        ensures
            r == length_check(self@.len(), FRAME_LEN as nat),
    {
        check_frame_len(self.buffer.len(), FRAME_LEN)
    }

    /// Consume the frame, returning the underlying buffer.
    pub fn into_inner(self) -> (buffer: Vec<u8>)
        ensures
            buffer@ == self@,
    {
        self.buffer
    }

    /// Return the frame length.
    pub fn frame_len(&self) -> (len: usize)
        ensures
            len == FRAME_LEN,
    {
        FRAME_LEN
    }

    /// Return the trip average speed in kilometer unit.
    pub fn average_speed(&self) -> (value: u8)
        requires
            field::AVG_SPD < self@.len(),
        ensures
            value == self@[field::AVG_SPD as int],
    {
        self.buffer[field::AVG_SPD]
    }

    /// Return the trip distance in kilometer unit.
    pub fn distance(&self) -> (value: u16)
        requires
            field::DISTANCE + 2 <= self@.len(),
        ensures
            value == be_u16(self@, field::DISTANCE as int),
    {
        read_u16(self.buffer.as_slice(), field::DISTANCE)
    }

    /// Return the trip average fuel consumption in 0.1 liter/100 km.
    pub fn average_consumption(&self) -> (value: u16)
        requires
            field::AVG_CONSUMPTION + 2 <= self@.len(),
        ensures
            value == be_u16(self@, field::AVG_CONSUMPTION as int),
    {
        read_u16(self.buffer.as_slice(), field::AVG_CONSUMPTION)
    }

    /// Set the trip average speed in kilometer unit.
    pub fn set_average_speed(&mut self, value: u8)
        requires
            field::AVG_SPD < old(self)@.len(),
        ensures
            final(self)@ == old(self)@.update(field::AVG_SPD as int, value),
    {
        self.buffer.set(field::AVG_SPD, value);
    }

    /// Set the trip distance in kilometer unit.
    pub fn set_distance(&mut self, value: u16)
        requires
            field::DISTANCE + 2 <= old(self)@.len(),
        ensures
            final(self)@ == put_be_u16(old(self)@, field::DISTANCE as int, value),
    {
        write_u16(&mut self.buffer, field::DISTANCE, value);
    }

    /// Set the trip average fuel consumption in 0.1 liter/100 km.
    pub fn set_average_consumption(&mut self, value: u16)
        requires
            field::AVG_CONSUMPTION + 2 <= old(self)@.len(),
        ensures
            final(self)@ == put_be_u16(old(self)@, field::AVG_CONSUMPTION as int, value),
    {
        write_u16(&mut self.buffer, field::AVG_CONSUMPTION, value);
    }
}

} // verus!
