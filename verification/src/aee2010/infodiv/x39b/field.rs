//! Byte offsets of the x39b frame fields.
use vstd::prelude::*;

verus! {

/// 7-bit clock year, 1-bit clock format
pub const YEAR_CLK_FMT: usize = 0;

/// 4-bit clock month, 4-bit empty
pub const MONTH: usize = 1;

/// 6-bit clock day, 2-bit empty
pub const DAY: usize = 2;

/// 5-bit clock hour, 3-bit empty
pub const HOUR: usize = 3;

/// 6-bit clock minute, 2-bit empty
pub const MINUTE: usize = 4;

} // verus!
