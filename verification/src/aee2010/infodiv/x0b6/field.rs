//! Byte offsets of the x0b6 frame fields.
use vstd::prelude::*;

verus! {

/// 16-bit engine revolution per minute in 0.125 rpm units.
/// Bytes 0..2 of the frame.
pub const ENGINE_RPM: usize = 0;

/// 16-bit vehicle immediate speed measured on the driving wheels, in 0.01 km/h.
/// Bytes 2..4 of the frame.
pub const VEHICLE_SPD: usize = 2;

/// 16-bit odometer value since start of vehicle incremented at each distance top, in cm.
/// Bytes 4..6 of the frame.
pub const ODOMETER: usize = 4;

/// 16-bit fuel consumption since start of vehicle, in mm3.
pub const FUEL_CONSUMPTION: usize = 6;

/// 3-bit empty,
/// 4-bit vehicle speed value validity field,
/// 1-bit vehicle immediate speed value validity flag.
pub const VALIDITY: usize = 7;

} // verus!
