//! Named tuning constants for the racing decision engine.

use vstd::prelude::*;

verus! {

/// A pod boosts only when the next checkpoint is farther than this.
pub const MIN_BOOST_DISTANCE: i64 = 8000;

/// While coasting, thrust is restored once speed falls below this floor.
pub const MIN_VELOCITY_FLOOR: i64 = 300;

/// How far a tuned aim point is pulled along a single axis.
pub const CARDINAL_SHIFT: i64 = 500;

/// How far a tuned aim point is pulled along each axis of a diagonal.
pub const DIAGONAL_SHIFT: i64 = 350;

/// Coasting ticks armed when the pod is about to overshoot its target.
pub const SKIP_TICKS_ON_OVERSHOOT: u8 = 3;

/// Reaching within this radius of a checkpoint switches to the next target.
pub const TARGET_SWITCH_RADIUS: i64 = 600;

/// Dead-zone width used when classifying consecutive checkpoints.
pub const TUNE_THRESHOLD: i64 = 10;

/// Heading error (degrees) under which the look-ahead aim is allowed.
pub const LOOKAHEAD_MAX_ANGLE: i64 = 3;

/// The look-ahead aim is allowed only within this distance of the target.
pub const LOOKAHEAD_MAX_DISTANCE: i64 = 2000;

/// Largest coordinate magnitude accepted by the distance computations;
/// keeps every squared difference comfortably inside an `i64`.
pub const COORD_LIMIT: i64 = 50_000_000;

/// Largest coordinate magnitude accepted for a checkpoint; leaves room so
/// that a tuned (shifted) checkpoint still satisfies `COORD_LIMIT`.
pub const CHECKPOINT_COORD_LIMIT: i64 = 16_000_000;

/// No two points within `COORD_LIMIT` are farther apart than this.
pub const MAX_DISTANCE: i64 = 150_000_000;

} // verus!
