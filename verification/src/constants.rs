use vstd::prelude::*;

verus! {

/// Fixed-point scale: a raw value `v` stands for the real quantity
/// `v / SCALE`, whether the unit is a pixel, a noise amplitude or a
/// progress ratio.
pub const SCALE: i64 = 1_000_000;

/// The scale of a squared ratio: `SCALE * SCALE`.  Eased progress values
/// are kept at this finer scale so that the easing curve stays exact.
pub const SCALE2: i64 = 1_000_000_000_000;

/// Number of frames in one animation cycle; the counter runs 0..=FULL_CYCLE.
pub const FULL_CYCLE: u32 = 20;

/// Number of sample points in a point set.
pub const SEGMENTS: usize = 110;

/// The nominal x-domain of a point set, in fixed-point pixels (550 px).
pub const NORMAL_WIDTH: i64 = 550 * SCALE;

/// Largest panel dimension accepted by the configuration, in fixed-point
/// pixels (10 000 px).  Keeps every intermediate drawing computation
/// comfortably inside `i64`.
pub const MAX_DIM: i64 = 10_000 * SCALE;

/// The circle constant in millionths, for the solar bar thickness.
pub const PI_MICRO: i64 = 3_141_593;

} // verus!
