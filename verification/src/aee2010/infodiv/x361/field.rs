//! Byte offsets of the x361 frame fields.
use vstd::prelude::*;

verus! {

/// 1-bit daytime running lamps option presence flag,
/// 1-bit automatic headlamps option presence flag,
/// 1-bit mood lighting option presence flag,
/// 1-bit blind spot monitoring option presence flag,
/// 1-bit adaptive lamps option presence flag.
/// 1-bit welcome lighting option presence flag,
/// 1-bit motorway lighting option presence flag,
/// 1-bit configuration menu information global availability flag.
pub const OPT_0: usize = 0;

/// 1-bit selective unlocking option presence flag,
/// 1-bit key selective unlocking option presence flag,
/// 1-bit boot selective unlocking option presence flag,
/// 1-bit motorized tailgate option presence flag,
/// 1-bit welcome function option presence flag,
/// 1-bit follow-me-home option presence flag,
/// 1-bit rear wiper in reverse gear option presence flag,
/// 1-bit parking sensors inhibition option presence flag.
pub const OPT_1: usize = 1;

/// 1-bit empty,
/// 1-bit extended traffic sign recognition option presence flag,
/// 1-bit mirrors tilting in reverse option presence flag,
/// 1-bit sound harmony option presence flag,
/// 1-bit automatic electrical parking brake application presence option flag,
/// 1-bit configurable button/key option presence flag,
/// 1-bit cruise-control custom limits option presence flag,
/// 1-bit seat belt not fastened / unfastened warning lamps presence flag.
pub const OPT_2: usize = 2;

/// 3-bit under-inflation detection option system type,
/// 1-bit gear efficiency indicator presence flag,
/// 1-bit cruise-control custom limits setting menu option presence flag,
/// 1-bit collision alert sensibility setting menu option presence flag,
/// 1-bit automatic emergency braking option presence flag,
/// 1-bit under-inflation detection reset menu option presence flag.
pub const OPT_3: usize = 3;

/// 1-bit hands-free tailgate automatic locking menu option presence flag,
/// 1-bit empty,
/// 1-bit hands-free tailgate option presence flag,
/// 1-bit speed limit recognition option presence flag,
/// 1-bit radiator grill lamps option presence flag (maybe anti-fog lights?),
/// 1-bit 'CFC' option presence flag,
/// 2-bit empty.
pub const OPT_4: usize = 4;

/// 1-bit automatic mirrors folding inhibition option presence flag,
/// 4-bit empty,
/// 1-bit automatic main beam option presence flag,
/// 1-bit electric child lock security option presence flag,
/// 1-bit driver alert assist option presence flag.
pub const OPT_5: usize = 5;

} // verus!
