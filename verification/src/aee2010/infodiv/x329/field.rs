//! Byte offsets of the x329 frame fields.
use vstd::prelude::*;

verus! {

/// 2-bit fragrance diffuser mono-fragrance cartridge type field,
/// 2-bit unknown,
/// 1-bit lane-keep assist push button state flag,
/// 3-bit unknown.
pub const REQ_0: usize = 0;

/// 2-bit front seats massage adjustment request field,
/// 2-bit fragrance diffuser perfume selection request field,
/// 2-bit fragrance diffuser intensity request field,
/// 2-bit fragrance diffuser request field.
pub const REQ_1: usize = 1;

/// 1-bit unknown,
/// 1-bit massage activation request flag,
/// 2-bit massage intensity request field,
/// 4-bit massage type field.
pub const REQ_2: usize = 2;

/// 1-bit traction control inhibit request flag,
/// 2-bit consumption history zoomed value field,
/// 2-bit dynamic mode selected mode value field,
/// 3-bit unknown.
pub const REQ_3: usize = 3;

/// 8-bit unknown.
pub const REQ_4: usize = 4;

/// 8-bit unknown.
pub const REQ_5: usize = 5;

/// 8-bit unknown.
pub const REQ_6: usize = 6;

} // verus!
