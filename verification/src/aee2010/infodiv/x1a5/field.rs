//! Byte offsets of the x1a5 frame fields.
use vstd::prelude::*;

verus! {

/// 5-bit audio volume level field,
/// 3-bit audio volume level origin.
pub const VOLUME: usize = 0;

} // verus!
