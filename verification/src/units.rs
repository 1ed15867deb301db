//! Fixed-point units and the constants of the road layout.

use vstd::prelude::*;

verus! {

/// Lengths are counted in thousandths of a screen unit.
pub const UNIT: i64 = 1000;

/// Times are counted in microseconds; this is one second.
pub const SECOND: u64 = 1_000_000;

/// The value that stands for 1.0 in the components of a direction vector.
pub const ONE: i64 = 1_000_000;

/// How far the squared length of a direction vector may lie from `ONE * ONE`.
pub const NORM_SLACK: i64 = 4_000_000;

/// A full turn, in microradians.
pub const TAU: i64 = 6_283_185;

/// Heading of a vehicle that travels towards growing `x`.
pub const HEADING_EAST: i64 = 0;

/// Heading of a vehicle that travels towards growing `y` (down the screen).
pub const HEADING_SOUTH: i64 = 1_570_796;

/// Heading of a vehicle that travels towards shrinking `x`.
pub const HEADING_WEST: i64 = 3_141_593;

/// Heading of a vehicle that travels towards shrinking `y` (up the screen).
pub const HEADING_NORTH: i64 = 4_712_389;

/// Width of one lane.
pub const LANE_WIDTH: i64 = 30 * UNIT;

/// Half the side of the junction box: three lanes.
pub const GAP: i64 = LANE_WIDTH * 3;

/// Smallest side a field may have: the junction box must fit.
pub const MIN_FIELD: i64 = 2 * GAP;

/// Largest side a field may have.
pub const MAX_FIELD: i64 = 1_000_000 * UNIT;

/// How far outside the field edge a vehicle is placed when it spawns.
pub const SPAWN_OFFSET: i64 = 50 * UNIT;

/// How far outside the field edge a vehicle may be before it has left.
pub const EXIT_MARGIN: i64 = 60 * UNIT;

/// Extent of a vehicle across its direction of travel.
pub const CAR_WIDTH: i64 = 20 * UNIT;

/// Extent of a vehicle along its direction of travel.
pub const CAR_LENGTH: i64 = 40 * UNIT;

/// Length of the sensor footprint ahead of the front bumper.
pub const SENSOR_RANGE: i64 = 80 * UNIT;

/// Centre distance below which a follower must stop.
pub const HARD_STOP_DISTANCE: i64 = 45 * UNIT;

/// Centre distance below which a follower crawls.
pub const CAUTION_DISTANCE: i64 = 80 * UNIT;

/// Centre distance to a same-lane vehicle below which no vehicle is spawned.
pub const SAFE_SPAWN_DISTANCE: i64 = 60 * UNIT;

/// Centre distance below which two vehicles have had a close call.
pub const CLOSE_CALL_DISTANCE: i64 = 42 * UNIT;

/// Speed a vehicle is created with, and its default maximum.
pub const CRUISE_SPEED: i64 = 120 * UNIT;

/// Largest maximum speed a vehicle may be given.
pub const SPEED_LIMIT: i64 = 1_000_000 * UNIT;

/// Rate at which a vehicle gains speed, per second.
pub const ACCELERATION: i64 = 200 * UNIT;

/// Rate at which a vehicle sheds speed, per second.
pub const BRAKING: i64 = 600 * UNIT;

/// Longest tick the engine advances in one step: one minute.
pub const MAX_TICK: u64 = 60 * SECOND;

/// Bound on every coordinate a vehicle can reach.
pub const COORD_LIMIT: i64 = 100_000_000 * UNIT;

} // verus!
