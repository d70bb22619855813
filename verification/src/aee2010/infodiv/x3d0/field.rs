//! Byte offsets of the x3d0 frame fields.
use vstd::prelude::*;

verus! {

/// 8-bit unknown.
pub const _AC_0: usize = 0;

/// 5-bit rear left temperature value instruction field,
/// 3-bit unknown.
pub const AC_1: usize = 1;

/// 5-bit rear right temperature value instruction field,
/// 3-bit unknown.
pub const AC_2: usize = 2;

/// 2-bit rear A/C state field,
/// 6-bit unknown.
pub const AC_3: usize = 3;

/// 8-bit unknown.
pub const _AC_4: usize = 4;

/// 8-bit unknown.
pub const AC_5: usize = 5;

} // verus!
