//! Byte offsets of the x1e1 frame fields.
use vstd::prelude::*;

verus! {

/// 3-bit empty,
/// 5-bit front left wheel state field.
pub const FRONT_LEFT: usize = 0;

/// 3-bit empty,
/// 5-bit front right wheel state field.
pub const FRONT_RIGHT: usize = 1;

/// 3-bit empty,
/// 5-bit rear left wheel state field.
pub const REAR_LEFT: usize = 2;

/// 3-bit under-inflation system state field,
/// 5-bit rear right wheel state field.
pub const REAR_RIGHT: usize = 3;

} // verus!
