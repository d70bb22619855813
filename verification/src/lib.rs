//! Codecs for the CAN frames of the PSA AEE2010 infotainment bus.
//!
//! Each frame module wraps a byte buffer and offers accessors for the
//! bit fields that the frame carries, and a high-level representation that
//! is parsed from a frame and emitted into one.  The contracts of the
//! accessors are stated over the bit-field model of [`bitfield`] and the
//! big-endian model of [`endian`]; those of the representations say which
//! representation the bytes of a frame carry and which bytes an emission
//! leaves, and each frame module proves that the two undo each other.
use vstd::prelude::*;

pub mod aee2010;
pub mod config;
pub mod endian;
pub mod bitfield;
pub mod bytes;
pub mod calendar;
pub mod text;
pub mod vehicle;

verus! {

/// The error type of the frame codecs.
#[derive(Debug, Clone, Copy, PartialEq, Eq)]
pub enum Error {
    /// The buffer is shorter than the frame.
    Truncated,
    /// The buffer is longer than the frame.
    Overlong,
    /// A field holds a value that has no meaning.
    Illegal,
    /// A field holds a value out of its range.
    Invalid,
}

impl Error {
    /// The text of the error.
    pub open spec fn text(self) -> Seq<char> {
        match self {
            Error::Truncated => "truncated packet"@,
            Error::Overlong => "overlong packet"@,
            Error::Illegal => "illegal value"@,
            Error::Invalid => "invalid value"@,
        }
    }

    /// A short description of the error.
    pub fn description(&self) -> (s: &'static str)
        ensures
            s@ == self.text(),
    {
        match self {
            Error::Truncated => "truncated packet",
            Error::Overlong => "overlong packet",
            Error::Illegal => "illegal value",
            Error::Invalid => "invalid value",
        }
    }
}

/// The outcome of a length check: the error that a buffer of `len` bytes
/// earns against a frame of `frame_len` bytes, if any.
pub open spec fn length_check(len: nat, frame_len: nat) -> Result<(), Error> {
    if len < frame_len {
        Err(Error::Truncated)
    } else if len > frame_len {
        Err(Error::Overlong)
    } else {
        Ok(())
    }
}

/// A buffer passes the length check exactly when it has the length of the
/// frame; a shorter one is truncated and a longer one overlong.
pub proof fn lemma_length_check_outcomes(len: nat, frame_len: nat)
    ensures
        (length_check(len, frame_len) is Ok) == (len == frame_len),
        (length_check(len, frame_len) == Err::<(), Error>(Error::Truncated)) == (len < frame_len),
        (length_check(len, frame_len) == Err::<(), Error>(Error::Overlong)) == (len > frame_len),
{
}

/// Compares the length of a buffer with the length of a frame.
pub fn check_frame_len(len: usize, frame_len: usize) -> (r: Result<(), Error>)
    ensures
        r == length_check(len as nat, frame_len as nat),
{
    if len < frame_len {
        Err(Error::Truncated)
    } else if len > frame_len {
        Err(Error::Overlong)
    } else {
        Ok(())
    }
}

/// The laws of the byte fields and of the big-endian words, for use by the
/// frame proofs.
pub broadcast group group_frame_laws {
    crate::bitfield::group_bitfield_laws,
    crate::bitfield::group_bitfield16_laws,
    crate::endian::group_endian_laws,
}

} // verus!
