//! Byte offsets of the x3e7 frame fields.
use vstd::prelude::*;

verus! {

/// 3-bit unknown,
/// 1-bit maintenance remaining distance counter is negative flag,
/// 1-bit maintenance remaining distance counter display mode flag,
/// 1-bit maintenance wrench display mode flag,
/// 2-bit unknown.
pub const FLAGS: usize = 0;

/// 3-bit unknown,
/// 11-bit maintenance remaining time counter field,
/// 2-bit unknown.
/// Bytes 1..3 of the frame.
pub const MAINTENANCE_DAYS: usize = 1;

/// 16-bit maintenance remaining distance counter field.
/// Bytes 3..5 of the frame.
pub const MAINTENANCE_DISTANCE: usize = 3;

} // verus!
