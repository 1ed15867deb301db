//! The footprint of a vehicle and of the sensor that looks ahead of it.

use vstd::prelude::*;
use crate::cars::Car;
use crate::geometry::Rect;
use crate::units::{CAR_LENGTH, CAR_WIDTH, SENSOR_RANGE, TAU};

verus! {

/// The axis direction nearest to a heading. Footprints are laid out along
/// it, so they are always axis-aligned.
#[derive(Clone, Copy, Debug, PartialEq, Eq, Structural)]
pub enum Facing {
    East,
    South,
    West,
    North,
}

/// Headings from one eighth to three eighths of a turn face south, and so
/// on round the circle.
pub open spec fn facing_of(heading: int) -> Facing {
    if heading < TAU / 8 {
        Facing::East
    } else if heading < 3 * TAU / 8 {
        Facing::South
    } else if heading < 5 * TAU / 8 {
        Facing::West
    } else if heading < 7 * TAU / 8 {
        Facing::North
    } else {
        Facing::East
    }
}

/// The rectangle that the body of `car` covers: `CAR_LENGTH` along its
/// facing, `CAR_WIDTH` across, centred on its position.
pub open spec fn body_of(car: Car) -> Rect {
    match facing_of(car.rotation as int) {
        Facing::East | Facing::West => Rect {
            left: (car.cord.x - CAR_LENGTH / 2) as i64,
            right: (car.cord.x + CAR_LENGTH / 2) as i64,
            top: (car.cord.y - CAR_WIDTH / 2) as i64,
            bottom: (car.cord.y + CAR_WIDTH / 2) as i64,
        },
        Facing::South | Facing::North => Rect {
            left: (car.cord.x - CAR_WIDTH / 2) as i64,
            right: (car.cord.x + CAR_WIDTH / 2) as i64,
            top: (car.cord.y - CAR_LENGTH / 2) as i64,
            bottom: (car.cord.y + CAR_LENGTH / 2) as i64,
        },
    }
}

/// The rectangle that the sensor of `car` covers: as wide as the body,
/// from the front of the body `SENSOR_RANGE` ahead.
pub open spec fn sensor_of(car: Car) -> Rect {
    let body = body_of(car);
    match facing_of(car.rotation as int) {
        Facing::East => Rect {
            left: body.right,
            right: (body.right + SENSOR_RANGE) as i64,
            ..body
        },
        Facing::West => Rect { left: (body.left - SENSOR_RANGE) as i64, right: body.left, ..body },
        Facing::South => Rect {
            top: body.bottom,
            bottom: (body.bottom + SENSOR_RANGE) as i64,
            ..body
        },
        Facing::North => Rect { top: (body.top - SENSOR_RANGE) as i64, bottom: body.top, ..body },
    }
}

/// The axis direction nearest to `heading`.
pub fn facing(heading: i64) -> (f: Facing)
    ensures
        f == facing_of(heading as int),
{
    if heading < TAU / 8 {
        Facing::East
    } else if heading < 3 * TAU / 8 {
        Facing::South
    } else if heading < 5 * TAU / 8 {
        Facing::West
    } else if heading < 7 * TAU / 8 {
        Facing::North
    } else {
        Facing::East
    }
}

impl Car {
    /// The rectangle that the body covers.
    pub fn get_rect(&self) -> (body: Rect)
        requires
            self.cord.in_reach(),
        ensures
            body == body_of(*self),
    {
        match facing(self.rotation) {
            Facing::East | Facing::West => Rect {
                left: self.cord.x - CAR_LENGTH / 2,
                right: self.cord.x + CAR_LENGTH / 2,
                top: self.cord.y - CAR_WIDTH / 2,
                bottom: self.cord.y + CAR_WIDTH / 2,
            },
            Facing::South | Facing::North => Rect {
                left: self.cord.x - CAR_WIDTH / 2,
                right: self.cord.x + CAR_WIDTH / 2,
                top: self.cord.y - CAR_LENGTH / 2,
                bottom: self.cord.y + CAR_LENGTH / 2,
            },
        }
    }

    /// The rectangle that the forward sensor covers.
    pub fn get_radar(&self) -> (sensor: Rect)
        requires
            self.cord.in_reach(),
        ensures
            sensor == sensor_of(*self),
    {
        let body: Rect = self.get_rect();
        match facing(self.rotation) {
            Facing::East => Rect {
                left: body.right,
                right: body.right + SENSOR_RANGE,
                top: body.top,
                bottom: body.bottom,
            },
            Facing::West => Rect {
                left: body.left - SENSOR_RANGE,
                right: body.left,
                top: body.top,
                bottom: body.bottom,
            },
            Facing::South => Rect {
                left: body.left,
                right: body.right,
                top: body.bottom,
                bottom: body.bottom + SENSOR_RANGE,
            },
            Facing::North => Rect {
                left: body.left,
                right: body.right,
                top: body.top - SENSOR_RANGE,
                bottom: body.top,
            },
        }
    }
}

} // verus!
