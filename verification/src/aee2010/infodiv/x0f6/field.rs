//! Byte offsets of the x0f6 frame fields.
use vstd::prelude::*;

verus! {

/// 2-bit powertrain status,
/// 1-bit generator working flag,
/// 2-bit vehicle main status,
/// 1-bit factory park flag,
/// 2-bit vehicle vehicle supervision module config mode.
pub const STATES: usize = 0;

/// 8-bit engine coolant temperature value, in celsius with a +40 offset.
pub const COOLANT_TEMP: usize = 1;

/// 24-bit odometer value, in 0.1 kilometers.
/// Bytes 2..5 of the frame.
pub const ODOMETER: usize = 2;

/// 8-bit external temperature value, in 0.5 celsius with a +40 offset.
pub const EXT_TEMP: usize = 5;

/// 8-bit filtered external temperature value, in 0.5 celsius with a +40 offset.
pub const EXT_TEMP_FILTERED: usize = 6;

/// 2-bit blinkers status,
/// 1-bit empty,
/// 1-bit cluster lights test flag,
/// 2-bit steering wheel position,
/// 1-bit front wiping acknowledge flag,
/// 1-bit reverse gear engaged flag.
pub const FLAGS: usize = 7;

} // verus!
