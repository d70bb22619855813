//! Byte offsets of the x122 frame fields.
use vstd::prelude::*;

verus! {

/// 8 * 1-bit push buttons state.
pub const PUSH_BTN_FLAGS_0: usize = 0;

/// 8 * 1-bit push buttons state.
pub const PUSH_BTN_FLAGS_1: usize = 1;

/// 8 * 1-bit push buttons state.
pub const PUSH_BTN_FLAGS_2: usize = 2;

/// 8 * 1-bit push buttons state.
pub const PUSH_BTN_FLAGS_3: usize = 3;

/// 8 * 1-bit push buttons state.
pub const PUSH_BTN_FLAGS_4: usize = 4;

/// 1-bit front panel second wheel sync request flag,
/// 1-bit front panel first wheel sync request flag,
/// 1-bit front panel 'BP' button button state,
/// 1-bit front panel ESP button state,
/// 4 * 1-bit push buttons state.
pub const PUSH_BTN_FLAGS_5: usize = 5;

/// 8-bit front panel first wheel ticks counter.
pub const WHL_1_TICKS: usize = 6;

/// 8-bit front panel second wheel ticks counter.
pub const WHL_2_TICKS: usize = 7;

} // verus!
