//! Byte offsets of the x1d0 frame fields.
use vstd::prelude::*;

verus! {

/// 2-bit fragrance selection field,
/// 1-bit fragrance diffuser enable flag,
/// 2-bit fragrance intensity field,
/// 3-bit fragrance cartridge type field.
pub const FRAGRANCE: usize = 0;

} // verus!
