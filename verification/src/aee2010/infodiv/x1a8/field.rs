//! Byte offsets of the x1a8 frame fields.
use vstd::prelude::*;

verus! {

/// 1-bit limit reached flag,
/// 1-bit pre-programming state flag,
/// 6-bit unknown.
pub const FLAGS: usize = 0;

/// 32-bit unknown.
/// Bytes 1..5 of the frame.
pub const UNKNOWN: usize = 1;

/// 24-bit partial odometer field, in 0.1 kilometers units.
/// Bytes 5..8 of the frame.
pub const ODOMETER: usize = 5;

} // verus!
