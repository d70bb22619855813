//! Byte offsets of the x350 frame fields.
use vstd::prelude::*;

verus! {

/// 2-bit front A/C fan mode,
/// 2-bit A/C request field,
/// 4-bit unknown.
pub const AC_0: usize = 0;

/// 8-bit unknown.
pub const _AC_1: usize = 1;

/// 8-bit unknown.
pub const _AC_2: usize = 2;

/// 5-bit front left temperature field,
/// 1-bit unknown,
/// 1-bit mono temperature mode flag,
/// 1-bit A/C max request flag.
pub const AC_3: usize = 3;

/// 5-bit front right temperature field,
/// 2-bit front left seat ventilation request field,
/// 1-bit unknown.
pub const AC_4: usize = 4;

/// 4-bit front fan speed field,
/// 3-bit air intake mode field,
/// 1-bit air quality system enable flag.
pub const AC_5: usize = 5;

/// 4-bit front right air distribution position field,
/// 4-bit front left air distribution position field.
pub const AC_6: usize = 6;

/// 1-bit unknown,
/// 2-bit front right seat ventilation request field,
/// 2-bit front left seat heating value request field,
/// 2-bit front right seat heating value request field,
/// 1-bit energy saver mode enable flag.
pub const AC_7: usize = 7;

} // verus!
