//! Byte offsets of the x1a9 frame fields.
use vstd::prelude::*;

verus! {

/// 1-bit trip computer secondary trip reset request,
/// 1-bit trip computer primary trip reset request,
/// 1-bit adaptive cruise-control push button state,
/// 2-bit automatic parking mode selection,
/// 1-bit telematics state,
/// 1-bit empty,
/// 1-bit black panel function state.
pub const REQ_0: usize = 0;

/// 15-bit interactive message.
/// 1-bit MFD stop check request.
/// Bytes 1..3 of the frame.
pub const INTERACTIVE_MSG_STOP_CHK: usize = 1;

/// 1-bit cruise-control custom speed memorization request,
/// 1-bit available space measurement push button state,
/// 1-bit parking sensors push button state,
/// 1-bit automatic main beam push button state,
/// 1-bit lane centering push button state,
/// 1-bit blind spot monitoring push button state,
/// 1-bit adaptive cruise-control '+' push button state,
/// 1-bit adaptive cruise-control '-' push button state,
pub const REQ_1: usize = 3;

/// 8-bit cruise-control speed instruction value field.
pub const CC_SPD: usize = 4;

/// 1-bit indirect under-inflation push button state,
/// 1-bit empty,
/// 1-bit automatic parking state change request flag,
/// 1-bit collision alert failure display request flag,
/// 3-bit cruise-control speed setting instruction position field,
/// 1-bit empty.
pub const REQ_2: usize = 5;

/// 1-bit fault check request flag,
/// 4-bit telematic screen lighting level value field,
/// 2-bit telematic unit life state field,
/// 1-bit Stop & Start push button state flag.
pub const REQ_3: usize = 6;

/// 3-bit 'visiopark' visual parking assistance push button state field,
/// 1-bit cruise-control speed instruction value request flag,
/// 1-bit visual parking assistance panoramic view push button state flag,
/// 1-bit front visual parking assistance push button state flag,
/// 1-bit rear visual parking assistance push button state flag,
/// 1-bit visual parking assistance activation request flag.
pub const REQ_4: usize = 7;

} // verus!
