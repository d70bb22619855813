//! Byte offsets of the x276 frame fields.
use vstd::prelude::*;

verus! {

/// 7-bit clock year,
/// 1-bit clock format.
pub const YEAR_CLK_FMT: usize = 0;

/// 4-bit clock month,
/// 1-bit clock display mode,
/// 3-bit empty.
pub const MONTH_CLOCK_DISP_MODE: usize = 1;

/// 6-bit clock day,
/// 2-bit empty.
pub const DAY: usize = 2;

/// 5-bit clock hour,
/// 3-bit empty.
pub const HOUR: usize = 3;

/// 6-bit clock minute,
/// 2-bit empty.
pub const MINUTE: usize = 4;

/// 14-bit AdBlue autonomy,
/// 1-bit empty,
/// 1-bit AdBlue autonomy display request.
/// Bytes 5..7 of the frame.
pub const FLAGS_ADBLUE_AUTONOMY: usize = 5;

} // verus!
