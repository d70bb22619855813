//! Byte offsets of the x228 frame fields.
use vstd::prelude::*;

verus! {

/// 16-bit cruise-control/speed-limiter/acc speed setting field.
/// Bytes 0..2 of the frame.
pub const SPD_INST: usize = 0;

/// 1-bit speed setting adjustment in progress flag,
/// 1-bit unknown,
/// 1-bit cruise-control/speed-limiter/acc try enable flag,
/// 3-bit cruise-control/speed-limiter/acc activated mode state field,
/// 2-bit cruise-control/speed-limiter/acc activated mode field.
pub const XVV_1: usize = 2;

/// 7-bit unknown
/// 1-bit cruise-control/speed-limiter/acc availability flag.
pub const XVV_2: usize = 3;

/// 6-bit adaptive cruise-control time setting field,
/// 2-bit cruise-control/speed-limiter/acc setting page request field.
pub const XVV_3: usize = 4;

/// 16-bit adaptive cruise-control adjusted speed setting field.
/// Bytes 5..7 of the frame.
pub const ACC_ADJ_SPD: usize = 5;

/// 1-bit cruise-control/speed-limiter/acc speed setting from traffic sign recognition allowed flag,
/// 1-bit 'mem' key (on the steering-wheel control) pressed flag,
/// 2-bit unknown,
/// 4-bit adaptive cruise-control displayed state field.
pub const XVV_4: usize = 7;

} // verus!
