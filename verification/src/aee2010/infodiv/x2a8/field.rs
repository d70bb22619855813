//! Byte offsets of the x2a8 frame fields.
use vstd::prelude::*;

verus! {

/// 7-bit unknown,
/// 1-bit 'bascule' position flag.
pub const XVV_0: usize = 0;

} // verus!
