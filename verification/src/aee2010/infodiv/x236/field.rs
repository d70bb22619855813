//! Byte offsets of the x236 frame fields.
use vstd::prelude::*;

verus! {

/// 4-bit vehicle config mode,
/// 4-bit electrical network status.
pub const CONFIG_MODE_ELEC_NET: usize = 0;

/// 32-bit vehicle supervision module temporal counter, 0xFFFFFFFE if unavailable.
/// Bytes 1..5 of the frame.
pub const TEMPORAL_COUNTER: usize = 1;

/// 5-bit 'JDD' context field,
/// 1-bit unknown,
/// 1-bit driver door opened event flag,
/// 1-bit opened boot flag.
pub const CTX_FLAGS: usize = 5;

/// 8-bit 'GCT' reset counter. 0xfe if unavailable.
pub const RESET_COUNTER: usize = 6;

/// 7-bit unknown,
/// 1-bit Power-On request denied flag, when car is in economy mode.
pub const UNKNOWN_FLAGS: usize = 7;

} // verus!
