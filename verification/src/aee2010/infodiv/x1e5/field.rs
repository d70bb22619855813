//! Byte offsets of the x1e5 frame fields.
use vstd::prelude::*;

verus! {

/// 2-bit balance option activation,
/// 5-bit balance level,
/// 1-bit balance under adjustment flag.
pub const BALANCE_OPT_ADJ: usize = 0;

/// 2-bit fader option activation (via diagnostic session),
/// 5-bit fader level, 1-bit fader under adjustment flag.
pub const FADER_OPT_ADJ: usize = 1;

/// 2-bit bass option activation,
/// 5-bit bass level,
/// 1-bit bass under adjustment flag.
pub const BASS_OPT_ADJ: usize = 2;

/// 2-bit treble option activation,
/// 5-bit treble level,
/// 1-bit treble under adjustment flag.
pub const TREBLE_OPT_ADJ: usize = 3;

/// 2-bit speed-dependent volume control option activation (via diagnostic session),
/// 1-bit speed-dependent volume control activation flag,
/// 1-bit speed-dependent volume control under adjustment flag,
/// 1-bit loudness activation flag,
/// 2-bit loudness option activation,
/// 1-bit loudness under adjustment flag.
pub const SPD_VOL_ADJ_LOUD_ADJ: usize = 4;

/// 2-bit sound repartition option activation,
/// 1-bit musical ambiance under adjustment flag,
/// 3-bit musical ambiance setting,
/// 2-bit musical ambiance option activation.
pub const REPARTITION_AMBIANCE: usize = 5;

/// 1-bit unknown/empty,
/// 1-bit spatial sound setting under adjustment flag,
/// 1-bit spectral sound setting under adjustment flag,
/// 1-bit impossible audio setting with phone as audio source,
/// 3-bit sound repartition field,
/// 1-bit sound repartition under adjustment flag.
pub const SPATIAL_SPECTRAL_REPARTITION: usize = 6;

} // verus!
