//! Byte offsets of the x168 frame fields.
use vstd::prelude::*;

verus! {

/// 1-bit under-inflation detection system failure flag,
/// 1-bit cold engine alert flag,
/// 1-bit low brake fluid level alert flag,
/// 1-bit low oil pressure alert flag,
/// 1-bit low oil level alert flag,
/// 1-bit low coolant level alert flag,
/// 1-bit gearbox has more than 6 speeds flag,
/// 1-bit coolant temperature alert flag.
pub const FLAGS_1: usize = 0;

/// 3-bit unknown,
/// 1-bit automatic wipers enabled flag,
/// 1-bit particulate filter indicator display flag,
/// 1-bit anti-emission system fault flag,
/// 1-bit tyre puncture alert flag,
/// 1-bit under-inflation alert flag.
pub const FLAGS_2: usize = 1;

/// 1-bit electrical generator fault flag,
/// 1-bit battery charge fault flag,
/// 1-bit unknown,
/// 1-bit EBD fault flag,
/// 4-bit unknown.
pub const FLAGS_3: usize = 2;

/// 1-bit unknown,
/// 1-bit OBD fault flag (displays the engine fault indicator),
/// 1-bit worn brake pad fault flag,
/// 1-bit gearbox fault flag,
/// 1-bit ESP/ASR fault flag,
/// 1-bit ABS fault flag,
/// 2-bit unknown.
pub const FLAGS_4: usize = 3;

/// 2-bit unknown,
/// 1-bit steering assistance fault flag,
/// 2-bit unknown,
/// 1-bit passive safety fault flag,
/// 1-bit turn lights fault flag,
/// 1-bit water in diesel fault flag.
pub const FLAGS_5: usize = 4;

/// 2-bit unknown,
/// 1-bit steering assistance fault type validity flag.
/// 2-bit steering assistance fault type field,
/// 1-bit steering assistance indicator state validity flag.
/// 2-bit steering assistance indicator state field,
pub const FLAGS_6: usize = 5;

/// 1-bit braking assistance fault flag,
/// 4-bit gearbox drive mode engaged gear field,
/// 3-bit unknown.
pub const FLAGS_7: usize = 6;

/// 2-bit unknown,
/// 2-bit lane centering indicator state field,
/// 2-bit unknown,
/// 2-bit automatic emergency braking indicator state field.
pub const FLAGS_8: usize = 7;

} // verus!
