//! One vehicle: where it spawns, how its speed follows its target, and how a
//! tick moves it along its lane or along its turn arc.

use vstd::prelude::*;
use crate::geometry::{scale, scaled, Direction, Field, Point};
use crate::paint::Color;
use crate::units::{
    ACCELERATION, BRAKING, COORD_LIMIT, CRUISE_SPEED, GAP, HEADING_EAST, HEADING_NORTH,
    HEADING_SOUTH, HEADING_WEST, LANE_WIDTH, MAX_FIELD, MAX_TICK, ONE, SECOND, SPAWN_OFFSET,
    SPEED_LIMIT, TAU,
};

verus! {

/// What a vehicle does at the junction.
#[derive(Clone, Copy, Debug, PartialEq, Eq, Structural)]
pub enum Route {
    Right,
    Straight,
    Left,
}

/// The side of the field a vehicle comes from.
#[derive(Clone, Copy, Debug, PartialEq, Eq, Structural)]
pub enum Origin {
    North,
    South,
    East,
    West,
}

/// How far a vehicle has got. A vehicle is `InIntersection` from the tick
/// that finds it inside the junction box until it leaves the field.
#[derive(Clone, Copy, Debug, PartialEq, Eq, Structural)]
pub enum Phase {
    Approaching,
    InIntersection,
    Exited,
}

/// The arc of a turning vehicle, fixed when it enters the junction box.
#[derive(Clone, Copy, Debug, PartialEq, Eq, Structural)]
pub enum TurnState {
    NotTurning,
    Turning { center: Point, radius: i64, clockwise: bool },
}

/// A vehicle.
#[derive(Clone, Copy, Debug, PartialEq, Eq, Structural)]
pub struct Car {
    pub origin: Origin,
    pub route: Route,
    /// Position of the centre of the vehicle.
    pub cord: Point,
    /// Heading in microradians, from `0` (east) clockwise on the screen.
    pub rotation: i64,
    pub color: Color,
    pub target_speed: i64,
    pub current_speed: i64,
    pub max_speed: i64,
    /// Length of the path covered so far; stops counting at `u64::MAX`.
    pub distance_traveled: u64,
    /// Time spent on the field so far; stops counting at `u64::MAX`.
    pub time_active: u64,
    pub phase: Phase,
    pub turn: TurnState,
    /// Whether another vehicle has ever come closer than the close-call
    /// distance.
    pub close_call: bool,
}

/// Distance of the lane of `route` from the centre line of its road. The
/// lane for left turns is the innermost one.
pub open spec fn lane_offset(route: Route) -> int {
    match route {
        Route::Left => LANE_WIDTH / 2,
        Route::Straight => LANE_WIDTH + LANE_WIDTH / 2,
        Route::Right => 2 * LANE_WIDTH + LANE_WIDTH / 2,
    }
}

/// Where a vehicle from `origin` on `route` is placed: outside the field
/// edge of its origin, on the lane of its route, right of the centre line
/// as seen in its direction of travel.
pub open spec fn spawn_point(origin: Origin, route: Route, field: Field) -> Point {
    match origin {
        Origin::South => Point {
            x: (field.mid().x + lane_offset(route)) as i64,
            y: (field.height + SPAWN_OFFSET) as i64,
        },
        Origin::North => Point {
            x: (field.mid().x - lane_offset(route)) as i64,
            y: (-SPAWN_OFFSET) as i64,
        },
        Origin::East => Point {
            x: (field.width + SPAWN_OFFSET) as i64,
            y: (field.mid().y - lane_offset(route)) as i64,
        },
        Origin::West => Point {
            x: (-SPAWN_OFFSET) as i64,
            y: (field.mid().y + lane_offset(route)) as i64,
        },
    }
}

/// The heading a vehicle from `origin` starts with: towards the junction.
pub open spec fn spawn_heading(origin: Origin) -> int {
    match origin {
        Origin::South => HEADING_NORTH as int,
        Origin::North => HEADING_SOUTH as int,
        Origin::East => HEADING_WEST as int,
        Origin::West => HEADING_EAST as int,
    }
}

/// Centre of the arc of a vehicle from `origin` that turns as `route` says:
/// the corner of the junction box that the arc bends around.
pub open spec fn turn_center(origin: Origin, route: Route, field: Field) -> Point {
    let c = field.mid();
    let right = route == Route::Right;
    match origin {
        Origin::South => Point {
            x: (if right { c.x + GAP } else { c.x - GAP }) as i64,
            y: (c.y + GAP) as i64,
        },
        Origin::North => Point {
            x: (if right { c.x - GAP } else { c.x + GAP }) as i64,
            y: (c.y - GAP) as i64,
        },
        Origin::East => Point {
            x: (c.x + GAP) as i64,
            y: (if right { c.y - GAP } else { c.y + GAP }) as i64,
        },
        Origin::West => Point {
            x: (c.x - GAP) as i64,
            y: (if right { c.y + GAP } else { c.y - GAP }) as i64,
        },
    }
}

/// Radius of the arc: half a lane for a right turn, the half side of the
/// junction box and half a lane for a left turn.
pub open spec fn turn_radius(route: Route) -> int {
    if route == Route::Right {
        LANE_WIDTH / 2
    } else {
        GAP + LANE_WIDTH / 2
    }
}

/// The arc that a vehicle from `origin` on `route` follows in the junction
/// box. Right turns run clockwise on the screen, left turns counter-clockwise.
pub open spec fn planned_turn(origin: Origin, route: Route, field: Field) -> TurnState {
    if route == Route::Straight {
        TurnState::NotTurning
    } else {
        TurnState::Turning {
            center: turn_center(origin, route, field),
            radius: turn_radius(route) as i64,
            clockwise: route == Route::Right,
        }
    }
}

/// The speed after `dt` microseconds of following `target` from `speed`:
/// up at the rate `ACCELERATION`, down at the higher rate `BRAKING`, never
/// past the target.
pub open spec fn ramped(speed: int, target: int, dt: int) -> int {
    if speed < target {
        let gained = speed + ACCELERATION * dt / (SECOND as int);
        if gained < target {
            gained
        } else {
            target
        }
    } else {
        let shed = speed - BRAKING * dt / (SECOND as int);
        if shed > target {
            shed
        } else {
            target
        }
    }
}

/// The heading reached from `heading` by turning through `step`
/// microradians, kept in `[0, TAU)`.
pub open spec fn turned(heading: int, step: int, clockwise: bool) -> int {
    if clockwise {
        (heading + step) % (TAU as int)
    } else {
        (heading - step) % (TAU as int)
    }
}

/// `a + b`, held at `u64::MAX`.
pub open spec fn capped_sum(a: int, b: int) -> int {
    if a + b > u64::MAX {
        u64::MAX as int
    } else {
        a + b
    }
}

/// The direction of travel at `heading`. For the four headings along the
/// axes it is known exactly; for any other it is `dir`, which the host has
/// computed.
pub open spec fn course(heading: int, dir: Direction) -> Direction {
    if heading == HEADING_EAST {
        Direction { x: ONE, y: 0 }
    } else if heading == HEADING_SOUTH {
        Direction { x: 0, y: ONE }
    } else if heading == HEADING_WEST {
        Direction { x: (-ONE) as i64, y: 0 }
    } else if heading == HEADING_NORTH {
        Direction { x: 0, y: (-ONE) as i64 }
    } else {
        dir
    }
}

/// Where a vehicle at `cord` comes to lie: on its arc if it has one and
/// `inside` the junction box says so, at the point where `way` is the
/// tangent in the sense of the turn; else `step` further along `way`.
pub open spec fn placed(cord: Point, arc: TurnState, inside: bool, step: int, way: Direction)
    -> Point {
    match arc {
        TurnState::Turning { center, radius, clockwise } if inside => {
            if clockwise {
                Point {
                    x: (center.x + scaled(radius as int, way.y as int)) as i64,
                    y: (center.y - scaled(radius as int, way.x as int)) as i64,
                }
            } else {
                Point {
                    x: (center.x - scaled(radius as int, way.y as int)) as i64,
                    y: (center.y + scaled(radius as int, way.x as int)) as i64,
                }
            }
        },
        _ => Point {
            x: (cord.x + scaled(step, way.x as int)) as i64,
            y: (cord.y + scaled(step, way.y as int)) as i64,
        },
    }
}

/// Follows `target` from `speed` for `dt` microseconds.
pub fn ramp(speed: i64, target: i64, dt: u64) -> (next: i64)
    requires
        0 <= speed <= SPEED_LIMIT,
        0 <= target <= SPEED_LIMIT,
        dt <= MAX_TICK,
    ensures
        next == ramped(speed as int, target as int, dt as int),
        speed <= next <= target || target <= next <= speed,
{
    let t: i64 = dt as i64;
    if speed < target {
        let gained: i64 = speed + ACCELERATION * t / (SECOND as i64);
        if gained < target {
            gained
        } else {
            target
        }
    } else {
        let shed: i64 = speed - BRAKING * t / (SECOND as i64);
        if shed > target {
            shed
        } else {
            target
        }
    }
}

/// Turns `heading` through `step` microradians.
pub fn turn_heading(heading: i64, step: i64, clockwise: bool) -> (next: i64)
    requires
        0 <= heading < TAU,
        0 <= step <= i64::MAX - TAU,
    ensures
        next == turned(heading as int, step as int, clockwise),
        0 <= next < TAU,
{
    if clockwise {
        (heading + step) % TAU
    } else {
        (heading + TAU - step % TAU) % TAU
    }
}

/// The direction of travel at `heading`: exact along the axes, `dir`
/// elsewhere.
pub fn steer(heading: i64, dir: Direction) -> (way: Direction)
    requires
        dir.wf(),
    ensures
        way == course(heading as int, dir),
        way.wf(),
{
    if heading == HEADING_EAST {
        Direction::east()
    } else if heading == HEADING_SOUTH {
        Direction::south()
    } else if heading == HEADING_WEST {
        Direction::west()
    } else if heading == HEADING_NORTH {
        Direction::north()
    } else {
        dir
    }
}

/// Puts a vehicle at `cord` where the tick takes it: on its arc `arc` if
/// it has one and is `inside` the junction box, else `step` further along
/// `way`.
fn place(cord: Point, arc: TurnState, inside: bool, step: i64, way: Direction) -> (next:
    Point)
    requires
        -2 * MAX_FIELD <= cord.x <= 2 * MAX_FIELD,
        -2 * MAX_FIELD <= cord.y <= 2 * MAX_FIELD,
        0 <= step <= SPEED_LIMIT * 60,
        way.wf(),
        arc matches TurnState::Turning { center, radius, .. } ==> 0 <= radius <= MAX_FIELD
            && -2 * MAX_FIELD <= center.x <= 2 * MAX_FIELD && -2 * MAX_FIELD <= center.y <= 2
            * MAX_FIELD,
    ensures
        next == placed(cord, arc, inside, step as int, way),
        next.in_reach(),
{
    match arc {
        TurnState::Turning { center, radius, clockwise } if inside => {
            let along: i64 = scale(radius, way.y);
            let across: i64 = scale(radius, way.x);
            if clockwise {
                Point { x: center.x + along, y: center.y - across }
            } else {
                Point { x: center.x - along, y: center.y + across }
            }
        },
        _ => {
            let dx: i64 = scale(step, way.x);
            let dy: i64 = scale(step, way.y);
            Point { x: cord.x + dx, y: cord.y + dy }
        },
    }
}

impl Car {
    /// The states that the engine produces and accepts on `field`: speeds
    /// between zero and the maximum, a heading in `[0, TAU)` that is still
    /// the one of the spawn as long as the vehicle has not begun to turn, a
    /// position on the field unless the vehicle has left, and the arc that
    /// belongs to the vehicle's origin and route from the moment it has
    /// entered the junction box.
    pub open spec fn wf(&self, field: &Field) -> bool {
        &&& 0 <= self.max_speed <= SPEED_LIMIT
        &&& 0 <= self.target_speed <= self.max_speed
        &&& 0 <= self.current_speed <= self.max_speed
        &&& 0 <= self.rotation < TAU
        &&& self.phase == Phase::Approaching || self.route == Route::Straight ==> self.rotation
            == spawn_heading(self.origin)
        &&& self.cord.in_reach()
        &&& self.phase != Phase::Exited ==> field.holds(self.cord)
        &&& match self.phase {
            Phase::Approaching => self.turn == TurnState::NotTurning,
            Phase::InIntersection => self.turn == planned_turn(self.origin, self.route, *field),
            Phase::Exited => self.turn == TurnState::NotTurning || self.turn == planned_turn(
                self.origin,
                self.route,
                *field,
            ),
        }
    }

    /// The vehicle that a spawn creates.
    pub open spec fn spawned(origin: Origin, route: Route, field: Field, color: Color) -> Car {
        Car {
            origin,
            route,
            cord: spawn_point(origin, route, field),
            rotation: spawn_heading(origin) as i64,
            color,
            target_speed: CRUISE_SPEED,
            current_speed: CRUISE_SPEED,
            max_speed: CRUISE_SPEED,
            distance_traveled: 0,
            time_active: 0,
            phase: Phase::Approaching,
            turn: TurnState::NotTurning,
            close_call: false,
        }
    }

    /// Whether this tick finds the vehicle inside the junction box for the
    /// first time.
    pub open spec fn entering(&self, field: &Field) -> bool {
        self.phase == Phase::Approaching && field.in_box(self.cord)
    }

    /// The arc in force during this tick: planned now if the vehicle is
    /// entering, else the one it has.
    pub open spec fn turn_now(&self, field: &Field) -> TurnState {
        if self.entering(field) {
            planned_turn(self.origin, self.route, *field)
        } else {
            self.turn
        }
    }

    /// Whether this tick moves the vehicle along its arc: it is inside the
    /// junction box and has an arc.
    pub open spec fn on_arc(&self, field: &Field) -> bool {
        field.in_box(self.cord) && self.turn_now(field) != TurnState::NotTurning
    }

    /// The speed after the tick.
    pub open spec fn speed_after(&self, dt: u64) -> int {
        ramped(self.current_speed as int, self.target_speed as int, dt as int)
    }

    /// The length of path covered in the tick, at the speed after the tick.
    pub open spec fn step_length(&self, dt: u64) -> int {
        self.speed_after(dt) * dt / (SECOND as int)
    }

    /// The heading after the tick. On the arc it advances by the angle
    /// whose arc length is the step: speed times time over radius.
    pub open spec fn heading_after(&self, dt: u64, field: &Field) -> int {
        match self.turn_now(field) {
            TurnState::Turning { radius, clockwise, .. } if self.phase != Phase::Exited
                && field.in_box(self.cord) => turned(
                self.rotation as int,
                self.speed_after(dt) * dt / (radius as int),
                clockwise,
            ),
            _ => self.rotation as int,
        }
    }

    /// The position after the tick. `dir` is the direction of the heading
    /// after the tick; it is looked at only where that heading is not along
    /// an axis. On a lane the vehicle advances by the step along its course.
    /// On the arc it is placed on the circle, at the point where its course
    /// is the tangent in the sense of the turn.
    pub open spec fn position_after(&self, dt: u64, field: &Field, dir: Direction) -> Point {
        placed(
            self.cord,
            self.turn_now(field),
            field.in_box(self.cord),
            self.step_length(dt),
            course(self.heading_after(dt, field), dir),
        )
    }

    /// The vehicle after a tick of `dt` microseconds. A vehicle that has
    /// left the field is no longer moved.
    pub open spec fn after_tick(&self, dt: u64, field: &Field, dir: Direction) -> Car {
        if self.phase == Phase::Exited {
            *self
        } else {
            let cord = self.position_after(dt, field, dir);
            Car {
                cord,
                rotation: self.heading_after(dt, field) as i64,
                current_speed: self.speed_after(dt) as i64,
                distance_traveled: capped_sum(
                    self.distance_traveled as int,
                    self.step_length(dt),
                ) as u64,
                time_active: capped_sum(self.time_active as int, dt as int) as u64,
                phase: if !field.holds(cord) {
                    Phase::Exited
                } else if field.in_box(self.cord) {
                    Phase::InIntersection
                } else {
                    self.phase
                },
                turn: self.turn_now(field),
                ..*self
            }
        }
    }

    /// Creates the vehicle of a spawn from `origin` on `route`, painted
    /// `color`.
    pub fn with_color(origin: Origin, route: Route, field: &Field, color: Color) -> (car: Car)
        requires
            field.wf(),
        ensures
            car == Car::spawned(origin, route, *field, color),
            car.wf(field),
    {
        let c: Point = field.center();
        let lane: i64 = match route {
            Route::Left => LANE_WIDTH / 2,
            Route::Straight => LANE_WIDTH + LANE_WIDTH / 2,
            Route::Right => 2 * LANE_WIDTH + LANE_WIDTH / 2,
        };
        let mut cord = Point { x: 0, y: 0 };
        let mut rotation: i64 = 0;
        match origin {
            Origin::South => {
                rotation = HEADING_NORTH;
                cord.y = field.height + SPAWN_OFFSET;
                cord.x = c.x + lane;
            },
            Origin::North => {
                rotation = HEADING_SOUTH;
                cord.y = -SPAWN_OFFSET;
                cord.x = c.x - lane;
            },
            Origin::East => {
                rotation = HEADING_WEST;
                cord.x = field.width + SPAWN_OFFSET;
                cord.y = c.y - lane;
            },
            Origin::West => {
                rotation = HEADING_EAST;
                cord.x = -SPAWN_OFFSET;
                cord.y = c.y + lane;
            },
        }
        Car {
            origin,
            route,
            cord,
            rotation,
            color,
            target_speed: CRUISE_SPEED,
            current_speed: CRUISE_SPEED,
            max_speed: CRUISE_SPEED,
            distance_traveled: 0,
            time_active: 0,
            phase: Phase::Approaching,
            turn: TurnState::NotTurning,
            close_call: false,
        }
    }

    /// Creates the vehicle of a spawn from `origin` on `route`, in a random
    /// vivid colour. Everything but the colour is determined.
    pub fn new(origin: Origin, route: Route, field: &Field) -> (car: Car)
        requires
            field.wf(),
        ensures
            car == Car::spawned(origin, route, *field, car.color),
            car.color.is_vivid(),
            car.wf(field),
    {
        Car::with_color(origin, route, field, Color::random())
    }

    /// Fixes the arc of a turning vehicle: the pivot is the corner of the
    /// junction box on the inside of the turn.
    fn setup_turn(&mut self, field: &Field)
        requires
            field.wf(),
            old(self).route != Route::Straight,
        ensures
            *final(self) == (Car {
                turn: planned_turn(old(self).origin, old(self).route, *field),
                ..*old(self)
            }),
    {
        let c: Point = field.center();
        let right: bool = self.route == Route::Right;
        let center: Point = match self.origin {
            Origin::South => {
                if right {
                    Point { x: c.x + GAP, y: c.y + GAP }
                } else {
                    Point { x: c.x - GAP, y: c.y + GAP }
                }
            },
            Origin::North => {
                if right {
                    Point { x: c.x - GAP, y: c.y - GAP }
                } else {
                    Point { x: c.x + GAP, y: c.y - GAP }
                }
            },
            Origin::East => {
                if right {
                    Point { x: c.x + GAP, y: c.y - GAP }
                } else {
                    Point { x: c.x + GAP, y: c.y + GAP }
                }
            },
            Origin::West => {
                if right {
                    Point { x: c.x - GAP, y: c.y + GAP }
                } else {
                    Point { x: c.x - GAP, y: c.y - GAP }
                }
            },
        };
        let radius: i64 = if right {
            LANE_WIDTH / 2
        } else {
            GAP + LANE_WIDTH / 2
        };
        self.turn = TurnState::Turning { center, radius, clockwise: right };
    }

    /// Whether the vehicle is in a state that the engine accepts on
    /// `field`. A host that builds vehicles by hand can ask before it hands
    /// them over.
    pub fn is_valid(&self, field: &Field) -> (valid: bool)
        requires
            field.wf(),
        ensures
            valid == self.wf(field),
    {
        let speeds: bool = 0 <= self.max_speed && self.max_speed <= SPEED_LIMIT && 0
            <= self.target_speed && self.target_speed <= self.max_speed && 0 <= self.current_speed
            && self.current_speed <= self.max_speed;
        let start: i64 = match self.origin {
            Origin::South => HEADING_NORTH,
            Origin::North => HEADING_SOUTH,
            Origin::East => HEADING_WEST,
            Origin::West => HEADING_EAST,
        };
        let straight: bool = self.phase == Phase::Approaching || self.route == Route::Straight;
        let heading: bool = 0 <= self.rotation && self.rotation < TAU && (!straight
            || self.rotation == start);
        let reach: bool = -COORD_LIMIT <= self.cord.x && self.cord.x <= COORD_LIMIT && -COORD_LIMIT
            <= self.cord.y && self.cord.y <= COORD_LIMIT;
        if !speeds || !heading || !reach {
            return false;
        }
        if self.phase != Phase::Exited && !field.contains(&self.cord) {
            return false;
        }
        let idle: bool = self.turn == TurnState::NotTurning;
        let planned: bool = if self.route == Route::Straight {
            idle
        } else {
            let mut probe: Car = *self;
            probe.setup_turn(field);
            probe.turn == self.turn
        };
        match self.phase {
            Phase::Approaching => idle,
            Phase::InIntersection => planned,
            Phase::Exited => idle || planned,
        }
    }

    /// The heading that the next tick of `dt` microseconds gives the
    /// vehicle. The host needs it before the tick, to hand `update` the
    /// direction of that heading.
    pub fn next_heading(&self, dt: u64, field: &Field) -> (heading: i64)
        requires
            self.wf(field),
            field.wf(),
            dt <= MAX_TICK,
        ensures
            heading == self.heading_after(dt, field),
            0 <= heading < TAU,
    {
        if self.phase == Phase::Exited || !field.inside_box(&self.cord) {
            return self.rotation;
        }
        let mut probe: Car = *self;
        if self.phase == Phase::Approaching && self.route != Route::Straight {
            probe.setup_turn(field);
        }
        match probe.turn {
            TurnState::Turning { radius, clockwise, .. } => {
                let speed: i64 = ramp(self.current_speed, self.target_speed, dt);
                assert(0 <= speed * dt <= SPEED_LIMIT * MAX_TICK) by (nonlinear_arith)
                    requires
                        0 <= speed <= SPEED_LIMIT,
                        0 <= dt <= MAX_TICK,
                ;
                let step: i64 = speed * (dt as i64) / radius;
                turn_heading(self.rotation, step, clockwise)
            },
            TurnState::NotTurning => self.rotation,
        }
    }

    /// Advances the vehicle by one tick of `dt` microseconds. `dir` is the
    /// direction of the heading that `next_heading` announced for this tick;
    /// it is looked at only where that heading is not along an axis.
    ///
    /// The speed first follows the target. Then the vehicle moves: along
    /// its course on a lane, along its arc inside the junction box if its
    /// route turns. The arc is fixed on the tick that finds the vehicle inside the
    /// box for the first time and never changes afterwards. A vehicle that
    /// ends the tick outside the field and its margin has left.
    pub fn update(&mut self, dt: u64, field: &Field, dir: Direction)
        requires
            old(self).wf(field),
            field.wf(),
            dt <= MAX_TICK,
            dir.wf(),
        ensures
            *final(self) == old(self).after_tick(dt, field, dir),
            final(self).wf(field),
    {
        if self.phase == Phase::Exited {
            return;
        }
        self.time_active = if dt > u64::MAX - self.time_active {
            u64::MAX
        } else {
            self.time_active + dt
        };
        self.current_speed = ramp(self.current_speed, self.target_speed, dt);
        assert(0 <= self.current_speed * dt <= SPEED_LIMIT * MAX_TICK) by (nonlinear_arith)
            requires
                0 <= self.current_speed <= SPEED_LIMIT,
                0 <= dt <= MAX_TICK,
        ;
        let step: i64 = self.current_speed * (dt as i64) / (SECOND as i64);
        self.distance_traveled = if step as u64 > u64::MAX - self.distance_traveled {
            u64::MAX
        } else {
            self.distance_traveled + step as u64
        };
        let inside: bool = field.inside_box(&self.cord);
        if inside && self.phase == Phase::Approaching {
            self.phase = Phase::InIntersection;
            if self.route != Route::Straight {
                self.setup_turn(field);
            }
        }
        if inside {
            if let TurnState::Turning { radius, clockwise, .. } = self.turn {
                let angle: i64 = self.current_speed * (dt as i64) / radius;
                self.rotation = turn_heading(self.rotation, angle, clockwise);
            }
        }
        self.cord = place(self.cord, self.turn, inside, step, steer(self.rotation, dir));
        if !field.contains(&self.cord) {
            self.phase = Phase::Exited;
        }
    }
}

} // verus!
