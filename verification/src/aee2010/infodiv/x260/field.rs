//! Byte offsets of the x260 frame fields.
use vstd::prelude::*;

verus! {

/// 1-bit consumption unit field,
/// 1-bit distance unit field,
/// 5-bit display language field,
/// 1-bit units and language parameters validity flag.
pub const OPT_0: usize = 0;

/// 2-bit sound harmony field,
/// 1-bit parameters validity flag,
/// 3-bit mood lighting level field,
/// 1-bit temperature unit field,
/// 1-bit volume unit field.
pub const OPT_1: usize = 1;

/// 1-bit mood lighting enable flag,
/// 1-bit daytime running lamps enable flag,
/// 1-bit adaptive lamps enable flag,
/// 1-bit welcome function enable flag,
/// 1-bit boot selective unlocking enable flag,
/// 1-bit selective unlocking enable flag.
/// 1-bit key selective unlocking enable flag,
/// 1-bit automatic electrical parking brake application enable flag.
pub const OPT_2: usize = 2;

/// 1-bit automatic headlamps enable flag,
/// 2-bit welcome lighting duration field,
/// 1-bit welcome lighting enable flag,
/// 1-bit motorway lighting enable flag,
/// 2-bit follow-me-home lighting duration field,
/// 1-bit follow-me-home enable field.
pub const OPT_3: usize = 3;

/// 4-bit configurable button/key mode field,
/// 1-bit motorized tailgate enable flag,
/// 1-bit rear wiper in reverse gear enable flag,
/// 1-bit blind spot monitoring enable field,
/// 1-bit parking sensors enable field.
pub const OPT_4: usize = 4;

/// 2-bit empty,
/// 1-bit mirrors tilting in reverse gear enable flag,
/// 1-bit indirect under inflation detection reset status flag,
/// 1-bit automatic emergency braking enable flag,
/// 2-bit collision alert sensibility level field,
/// 1-bit collision alert enable flag.
pub const OPT_5: usize = 5;

/// 1-bit hands-free tailgate enable flag,
/// 1-bit speed limit recognition enable flag,
/// 1-bit radiator grill lamps option presence flag (maybe anti-fog lights?),
/// 1-bit automatic main beam enable flag,
/// 1-bit driver alert assist enable flag,
/// 1-bit hands-free tailgate automatic locking enable flag,
/// 1-bit extended traffic sign recognition enable flag,
/// 1-bit electric child lock security enable flag.
pub const OPT_6: usize = 6;

/// 3-bit empty,
/// 1-bit automatic mirrors folding inhibition enable flag,
/// 4-bit empty.
pub const OPT_7: usize = 7;

} // verus!
