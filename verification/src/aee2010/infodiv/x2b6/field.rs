//! Byte offsets of the x2b6 frame fields.
use vstd::prelude::*;

verus! {

/// 8-bit VIS first char.
pub const VIS_1: usize = 0;

/// 8-bit VIS second char.
pub const VIS_2: usize = 1;

/// 8-bit VIS third char.
pub const VIS_3: usize = 2;

/// 8-bit VIS fourth char.
pub const VIS_4: usize = 3;

/// 8-bit VIS fifth char.
pub const VIS_5: usize = 4;

/// 8-bit VIS sixth char.
pub const VIS_6: usize = 5;

/// 8-bit VIS seventh char.
pub const VIS_7: usize = 6;

/// 8-bit VIS eighth char.
pub const VIS_8: usize = 7;

} // verus!
