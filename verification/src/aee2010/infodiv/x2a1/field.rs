//! Byte offsets of the x2a1 frame fields.
use vstd::prelude::*;

verus! {

/// 8-bit trip average speed in kilometer unit.
pub const AVG_SPD: usize = 0;

/// 16-bit trip distance in kilometer unit.
/// Bytes 1..3 of the frame.
pub const DISTANCE: usize = 1;

/// 16-bit trip average fuel consumption in 0.1 liter/100 km.
/// Bytes 3..5 of the frame.
pub const AVG_CONSUMPTION: usize = 3;

/// 16-bit reserved.
/// Bytes 5..7 of the frame.
pub const RES: usize = 5;

} // verus!
