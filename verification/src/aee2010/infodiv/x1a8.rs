//! The x1a8 CAN frame: speed regulation state and partial odometer.
use crate::bitfield::{flag, put_flag, read_flag, write_flag};
use crate::endian::{be_u24, put_be_u24, read_u24, write_u24};
use crate::{check_frame_len, length_check, Error};
use vstd::prelude::*;

pub mod field;

verus! {

/// A read/write wrapper around a x1a8 CAN frame buffer.
#[derive(Debug, PartialEq, Clone)]
pub struct Frame {
    buffer: Vec<u8>,
}

impl View for Frame {
    type V = Seq<u8>;

    closed spec fn view(&self) -> Seq<u8> {
        self.buffer@
    }
}

impl AsRef<[u8]> for Frame {
    /// The bytes of the frame.
    fn as_ref(&self) -> (bytes: &[u8])
        ensures
            bytes@ == self@,
    {
        self.buffer.as_slice()
    }
}

/// Length of a x1a8 CAN frame.
pub const FRAME_LEN: usize = field::ODOMETER + 3;

impl Frame {
    /// Create a raw octet buffer with a CAN frame structure.
    pub fn new_unchecked(buffer: Vec<u8>) -> (frame: Frame)
        ensures
            frame@ == buffer@,
    {
        Frame { buffer }
    }

    /// Shorthand for a combination of `new_unchecked` and `check_len`.
    pub fn new_checked(buffer: Vec<u8>) -> (r: Result<Frame, Error>)
        ensures
            r is Ok <==> buffer@.len() == FRAME_LEN,
            r matches Ok(frame) ==> frame@ == buffer@,
            r matches Err(e) ==> length_check(buffer@.len(), FRAME_LEN as nat) == Err::<(), Error>(e),
    {
        let frame = Self::new_unchecked(buffer);
        match frame.check_len() {
            Ok(()) => Ok(frame),
            Err(e) => Err(e),
        }
    }

    /// Ensure that no accessor method will panic if called.
    /// Returns `Err(Error::Truncated)` if the buffer is too short and
    /// `Err(Error::Overlong)` if it is too long.
    pub fn check_len(&self) -> (r: Result<(), Error>)
        ensures
            r == length_check(self@.len(), FRAME_LEN as nat),
    {
        check_frame_len(self.buffer.len(), FRAME_LEN)
    }

    /// Consume the frame, returning the underlying buffer.
    pub fn into_inner(self) -> (buffer: Vec<u8>)
        ensures
            buffer@ == self@,
    {
        self.buffer
    }

    /// Return the frame length.
    pub fn frame_len(&self) -> (len: usize)
        ensures
            len == FRAME_LEN,
    {
        FRAME_LEN
    }

    /// Return the limit reached flag.
    pub fn limit_reached(&self) -> (value: bool)
        requires
            field::FLAGS < self@.len(),
        ensures
            value == flag(self@[field::FLAGS as int], 0),
    {
        read_flag(self.buffer[field::FLAGS], 0)
    }

    /// Return the pre-programming state flag.
    pub fn pre_programming_state(&self) -> (value: bool)
        requires
            field::FLAGS < self@.len(),
        ensures
            value == flag(self@[field::FLAGS as int], 1),
    {
        read_flag(self.buffer[field::FLAGS], 1)
    }

    /// Return the partial odometer field, in 0.1 kilometers units.
    pub fn partial_odometer(&self) -> (value: u32)
        requires
            field::ODOMETER + 3 <= self@.len(),
        ensures
            value == be_u24(self@, field::ODOMETER as int),
    {
        read_u24(self.buffer.as_slice(), field::ODOMETER)
    }

    /// Set the limit reached flag.
    pub fn set_limit_reached(&mut self, value: bool)
        requires
            field::FLAGS < old(self)@.len(),
        ensures
            final(self)@ == old(self)@.update(field::FLAGS as int, put_flag(old(self)@[field::FLAGS as int], 0, value)),
    {
        let raw = write_flag(self.buffer[field::FLAGS], 0, value);
        self.buffer.set(field::FLAGS, raw);
    }

    /// Set the pre-programming state flag.
    pub fn set_pre_programming_state(&mut self, value: bool)
        requires
            field::FLAGS < old(self)@.len(),
        ensures
            final(self)@ == old(self)@.update(field::FLAGS as int, put_flag(old(self)@[field::FLAGS as int], 1, value)),
    {
        let raw = write_flag(self.buffer[field::FLAGS], 1, value);
        self.buffer.set(field::FLAGS, raw);
    }

    /// Set the partial odometer field, in 0.1 kilometers units.
    pub fn set_partial_odometer(&mut self, value: u32)
        requires
            field::ODOMETER + 3 <= old(self)@.len(),
            value < 0x1000000,
        ensures
            final(self)@ == put_be_u24(old(self)@, field::ODOMETER as int, value),
    {
        write_u24(&mut self.buffer, field::ODOMETER, value);
    }
}

} // verus!
