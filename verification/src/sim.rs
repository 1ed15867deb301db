//! The simulation: the set of vehicles on one field, the light, and the
//! steps of a tick in their order.
//!
//! A tick runs in two halves, because the host computes the sines and
//! cosines. `plan` reads one snapshot of the vehicles, sets their target
//! speeds and says which heading each will have. The host turns the
//! headings into directions. `advance` moves the vehicles, removes those
//! that have left the field and reports on them.

use vstd::prelude::*;
use crate::arbiter::{arbitrate, measurable, target_speed};
use crate::cars::{spawn_point, Car, Origin, Phase, Route};
use crate::geometry::{dist_sq, Direction, Field, Point};
use crate::lights::{stepped, Approach, Demand, Tick, TrafficLight};
use crate::paint::Color;
use crate::stats::{report_of, ExitReport};
use crate::units::{CLOSE_CALL_DISTANCE, MAX_TICK, SAFE_SPAWN_DISTANCE, TAU};

verus! {

/// The number of vehicles that have not reached the junction box yet, by
/// their direction of travel.
#[derive(Clone, Copy, Debug, PartialEq, Eq, Structural)]
pub struct Waiting {
    pub up: usize,
    pub down: usize,
    pub left: usize,
    pub right: usize,
}

/// The vehicles on a field and the light at its junction.
pub struct Simulation {
    pub field: Field,
    pub cars: Vec<Car>,
    pub light: TrafficLight,
}

/// The stream of traffic that vehicles from `origin` belong to.
pub open spec fn approach_of(origin: Origin) -> Approach {
    match origin {
        Origin::South => Approach::Up,
        Origin::North => Approach::Down,
        Origin::East => Approach::Left,
        Origin::West => Approach::Right,
    }
}

/// Whether no vehicle on the lane of `origin` and `route` is nearer to
/// `at` than the safe spawn distance.
pub open spec fn lane_is_free(cars: Seq<Car>, origin: Origin, route: Route, at: Point) -> bool {
    forall|k: int|
        0 <= k < cars.len() ==> !((#[trigger] cars[k]).origin == origin && cars[k].route == route
            && dist_sq(cars[k].cord, at) < SAFE_SPAWN_DISTANCE * SAFE_SPAWN_DISTANCE)
}

/// Whether another vehicle of the snapshot is nearer to vehicle `i` than
/// the close-call distance.
pub open spec fn near_miss(cars: Seq<Car>, i: int) -> bool {
    exists|j: int|
        0 <= j < cars.len() && j != i && dist_sq(cars[i].cord, (#[trigger] cars[j]).cord)
            < CLOSE_CALL_DISTANCE * CLOSE_CALL_DISTANCE
}

/// The number of vehicles of `cars` that wait on approach `a`: they belong
/// to it and have not reached the junction box.
pub open spec fn waiting_on(cars: Seq<Car>, a: Approach) -> nat
    decreases cars.len(),
{
    if cars.len() == 0 {
        0
    } else {
        let rest = waiting_on(cars.drop_last(), a);
        if cars.last().phase == Phase::Approaching && approach_of(cars.last().origin) == a {
            rest + 1
        } else {
            rest
        }
    }
}

/// The vehicles of `cars` that have not left the field, in their order.
pub open spec fn survivors(cars: Seq<Car>) -> Seq<Car>
    decreases cars.len(),
{
    if cars.len() == 0 {
        Seq::empty()
    } else if cars.last().phase == Phase::Exited {
        survivors(cars.drop_last())
    } else {
        survivors(cars.drop_last()).push(cars.last())
    }
}

/// The reports on the vehicles of `cars` that have left the field, in
/// their order.
pub open spec fn departures(cars: Seq<Car>) -> Seq<ExitReport>
    decreases cars.len(),
{
    if cars.len() == 0 {
        Seq::empty()
    } else if cars.last().phase == Phase::Exited {
        departures(cars.drop_last()).push(report_of(cars.last()))
    } else {
        departures(cars.drop_last())
    }
}

/// The vehicles after a tick in which vehicle `i` is handed `dirs[i]`.
pub open spec fn moved(cars: Seq<Car>, dt: u64, field: Field, dirs: Seq<Direction>) -> Seq<Car> {
    Seq::new(cars.len(), |i: int| cars[i].after_tick(dt, &field, dirs[i]))
}

/// The vehicles with the targets and close-call marks that the snapshot
/// `cars` gives them.
pub open spec fn briefed(cars: Seq<Car>, center: Point) -> Seq<Car> {
    Seq::new(
        cars.len(),
        |i: int|
            Car {
                target_speed: target_speed(cars, i, center) as i64,
                close_call: cars[i].close_call || near_miss(cars, i),
                ..cars[i]
            },
    )
}

/// The spawn gate: whether no vehicle on the lane of `origin` and `route`
/// is nearer to `spawn_cord` than the safe spawn distance.
pub fn can_spawn(cars: &Vec<Car>, origin: Origin, route: Route, spawn_cord: &Point) -> (free: bool)
    requires
        measurable(cars@),
        spawn_cord.in_reach(),
    ensures
        free == lane_is_free(cars@, origin, route, *spawn_cord),
{
    let safe: i128 = (SAFE_SPAWN_DISTANCE as i128) * (SAFE_SPAWN_DISTANCE as i128);
    let mut k: usize = 0;
    while k < cars.len()
        invariant
            k <= cars.len(),
            measurable(cars@),
            spawn_cord.in_reach(),
            safe == SAFE_SPAWN_DISTANCE * SAFE_SPAWN_DISTANCE,
            lane_is_free(cars@.take(k as int), origin, route, *spawn_cord),
        decreases cars.len() - k,
    {
        let car: &Car = &cars[k];
        if car.origin == origin && car.route == route {
            let dist: i128 = car.cord.distance_squared(spawn_cord);
            if dist < safe {
                return false;
            }
        }
        k = k + 1;
    }
    assert(cars@.take(k as int) =~= cars@);
    true
}

/// Whether another vehicle of the snapshot is nearer to vehicle `i` than
/// the close-call distance.
pub fn has_near_miss(cars: &Vec<Car>, i: usize) -> (near: bool)
    requires
        i < cars.len(),
        measurable(cars@),
    ensures
        near == near_miss(cars@, i as int),
{
    let close: i128 = (CLOSE_CALL_DISTANCE as i128) * (CLOSE_CALL_DISTANCE as i128);
    let mut j: usize = 0;
    while j < cars.len()
        invariant
            i < cars.len(),
            j <= cars.len(),
            measurable(cars@),
            close == CLOSE_CALL_DISTANCE * CLOSE_CALL_DISTANCE,
            forall|k: int|
                0 <= k < j && k != i ==> dist_sq(cars[i as int].cord, (#[trigger] cars[k]).cord)
                    >= close,
        decreases cars.len() - j,
    {
        if j != i {
            let dist: i128 = cars[i].cord.distance_squared(&cars[j].cord);
            if dist < close {
                return true;
            }
        }
        j = j + 1;
    }
    false
}

impl Simulation {
    /// The states that the simulation produces and accepts: a well-formed
    /// field, well-formed vehicles on it and a well-formed light.
    pub open spec fn wf(&self) -> bool {
        &&& self.field.wf()
        &&& forall|k: int| 0 <= k < self.cars.len() ==> (#[trigger] self.cars[k]).wf(&self.field)
        &&& self.light@.wf()
    }

    /// Whether the simulation is in a state that it accepts. A host that
    /// has changed vehicles by hand can ask before the next tick.
    pub fn is_valid(&self) -> (valid: bool)
        ensures
            valid == self.wf(),
    {
        if Field::new(self.field.width, self.field.height).is_none() || !self.light.is_valid() {
            return false;
        }
        let mut k: usize = 0;
        while k < self.cars.len()
            invariant
                k <= self.cars.len(),
                self.field.wf(),
                self.light@.wf(),
                forall|n: int| 0 <= n < k ==> (#[trigger] self.cars[n]).wf(&self.field),
            decreases self.cars.len() - k,
        {
            if !self.cars[k].is_valid(&self.field) {
                return false;
            }
            k = k + 1;
        }
        true
    }

    /// An empty field with its light just switched on.
    pub fn new(field: Field) -> (sim: Simulation)
        requires
            field.wf(),
        ensures
            sim.field == field,
            sim.cars@ == Seq::<Car>::empty(),
            sim.light@ == crate::lights::initial(),
            sim.wf(),
    {
        Simulation { field, cars: Vec::new(), light: TrafficLight::new() }
    }

    /// Removes every vehicle from the field. No report is made.
    pub fn clear(&mut self)
        ensures
            final(self).cars@ == Seq::<Car>::empty(),
            final(self).field == old(self).field,
            final(self).light == old(self).light,
            old(self).wf() ==> final(self).wf(),
    {
        self.cars.clear();
    }

    /// Handles a spawn request with a given colour. The request passes the
    /// spawn gate if no vehicle on the same lane is within the safe spawn
    /// distance of the spawn point; then the new vehicle joins the others
    /// as the last. Else nothing changes.
    pub fn spawn_with_color(&mut self, origin: Origin, route: Route, color: Color) -> (spawned:
        bool)
        requires
            old(self).wf(),
        ensures
            spawned == lane_is_free(
                old(self).cars@,
                origin,
                route,
                spawn_point(origin, route, old(self).field),
            ),
            final(self).cars@ == if spawned {
                old(self).cars@.push(Car::spawned(origin, route, old(self).field, color))
            } else {
                old(self).cars@
            },
            final(self).field == old(self).field,
            final(self).light == old(self).light,
            final(self).wf(),
    {
        let car: Car = Car::with_color(origin, route, &self.field, color);
        if can_spawn(&self.cars, origin, route, &car.cord) {
            self.cars.push(car);
            true
        } else {
            false
        }
    }

    /// Handles a spawn request. The new vehicle, if the spawn gate lets it
    /// in, has a random vivid colour; everything else is as
    /// `spawn_with_color` says.
    pub fn spawn(&mut self, origin: Origin, route: Route) -> (spawned: bool)
        requires
            old(self).wf(),
        ensures
            spawned == lane_is_free(
                old(self).cars@,
                origin,
                route,
                spawn_point(origin, route, old(self).field),
            ),
            spawned ==> {
                let color = final(self).cars@.last().color;
                &&& color.is_vivid()
                &&& final(self).cars@ == old(self).cars@.push(
                    Car::spawned(origin, route, old(self).field, color),
                )
            },
            !spawned ==> final(self).cars@ == old(self).cars@,
            final(self).field == old(self).field,
            final(self).light == old(self).light,
            final(self).wf(),
    {
        self.spawn_with_color(origin, route, Color::random())
    }

    /// Gives every vehicle its target speed, and marks those that another
    /// vehicle has come too close to. Both are read off the vehicles as
    /// they are before the call, so the order of the vehicles plays no part
    /// beyond breaking ties.
    pub fn assign_targets(&mut self)
        requires
            old(self).wf(),
        ensures
            final(self).cars@ == briefed(old(self).cars@, old(self).field.mid()),
            final(self).field == old(self).field,
            final(self).light == old(self).light,
            final(self).wf(),
    {
        let targets: Vec<i64> = arbitrate(&self.cars, &self.field);
        let mut marks: Vec<bool> = Vec::new();
        let mut i: usize = 0;
        while i < self.cars.len()
            invariant
                i <= self.cars.len(),
                *self == *old(self),
                self.wf(),
                marks.len() == i,
                forall|k: int| 0 <= k < i ==> #[trigger] marks[k] == near_miss(self.cars@, k),
            decreases self.cars.len() - i,
        {
            let near: bool = has_near_miss(&self.cars, i);
            marks.push(near);
            i = i + 1;
        }
        let ghost before = self.cars@;
        let ghost center = self.field.mid();
        let mut i: usize = 0;
        while i < self.cars.len()
            invariant
                i <= self.cars.len(),
                self.field == old(self).field,
                self.light == old(self).light,
                before == old(self).cars@,
                center == self.field.mid(),
                self.field.wf(),
                self.cars.len() == before.len(),
                targets.len() == before.len(),
                marks.len() == before.len(),
                forall|k: int| 0 <= k < before.len() ==> (#[trigger] before[k]).wf(&self.field),
                forall|k: int|
                    0 <= k < before.len() ==> #[trigger] targets[k] == target_speed(
                        before,
                        k,
                        center,
                    ),
                forall|k: int|
                    0 <= k < before.len() ==> 0 <= #[trigger] targets[k] <= before[k].max_speed,
                forall|k: int|
                    0 <= k < before.len() ==> #[trigger] marks[k] == near_miss(before, k),
                forall|k: int| 0 <= k < i ==> #[trigger] self.cars[k] == briefed(before, center)[k],
                forall|k: int| i <= k < before.len() ==> #[trigger] self.cars[k] == before[k],
                forall|k: int|
                    0 <= k < before.len() ==> (#[trigger] self.cars[k]).wf(&self.field),
            decreases self.cars.len() - i,
        {
            let mut car: Car = self.cars[i];
            car.target_speed = targets[i];
            car.close_call = car.close_call || marks[i];
            self.cars.set(i, car);
            i = i + 1;
        }
        assert(self.cars@ =~= briefed(before, center));
    }

    /// The heading that a tick of `dt` microseconds gives each vehicle.
    pub fn headings(&self, dt: u64) -> (headings: Vec<i64>)
        requires
            self.wf(),
            dt <= MAX_TICK,
        ensures
            headings.len() == self.cars.len(),
            forall|k: int|
                0 <= k < self.cars.len() ==> #[trigger] headings[k] == self.cars[k].heading_after(
                    dt,
                    &self.field,
                ),
            forall|k: int| 0 <= k < self.cars.len() ==> 0 <= #[trigger] headings[k] < TAU,
    {
        let mut headings: Vec<i64> = Vec::new();
        let mut i: usize = 0;
        while i < self.cars.len()
            invariant
                i <= self.cars.len(),
                self.wf(),
                dt <= MAX_TICK,
                headings.len() == i,
                forall|k: int|
                    0 <= k < i ==> #[trigger] headings[k] == self.cars[k].heading_after(
                        dt,
                        &self.field,
                    ),
                forall|k: int| 0 <= k < i ==> 0 <= #[trigger] headings[k] < TAU,
            decreases self.cars.len() - i,
        {
            let heading: i64 = self.cars[i].next_heading(dt, &self.field);
            headings.push(heading);
            i = i + 1;
        }
        headings
    }

    /// The first half of a tick: every vehicle gets its target speed and
    /// its close-call mark, and the headings that the tick will give the
    /// vehicles are returned.
    pub fn plan(&mut self, dt: u64) -> (headings: Vec<i64>)
        requires
            old(self).wf(),
            dt <= MAX_TICK,
        ensures
            final(self).cars@ == briefed(old(self).cars@, old(self).field.mid()),
            final(self).field == old(self).field,
            final(self).light == old(self).light,
            final(self).wf(),
            headings.len() == final(self).cars.len(),
            forall|k: int|
                0 <= k < headings.len() ==> #[trigger] headings[k] == briefed(
                    old(self).cars@,
                    old(self).field.mid(),
                )[k].heading_after(dt, &old(self).field),
    {
        self.assign_targets();
        self.headings(dt)
    }

    /// The second half of a tick: every vehicle is advanced by `dt`
    /// microseconds, vehicle `k` with the direction `dirs[k]` of the heading
    /// that `plan` announced for it. The vehicles that have left the field
    /// are removed, and the reports on them are returned.
    pub fn advance(&mut self, dt: u64, dirs: &Vec<Direction>) -> (reports: Vec<ExitReport>)
        requires
            old(self).wf(),
            dt <= MAX_TICK,
            dirs.len() == old(self).cars.len(),
            forall|k: int| 0 <= k < dirs.len() ==> (#[trigger] dirs[k]).wf(),
        ensures
            final(self).cars@ == survivors(moved(old(self).cars@, dt, old(self).field, dirs@)),
            reports@ == departures(moved(old(self).cars@, dt, old(self).field, dirs@)),
            final(self).field == old(self).field,
            final(self).light == old(self).light,
            final(self).wf(),
    {
        let ghost after = moved(self.cars@, dt, self.field, dirs@);
        let mut kept: Vec<Car> = Vec::new();
        let mut reports: Vec<ExitReport> = Vec::new();
        let mut i: usize = 0;
        while i < self.cars.len()
            invariant
                i <= self.cars.len(),
                *self == *old(self),
                self.wf(),
                dt <= MAX_TICK,
                dirs.len() == self.cars.len(),
                forall|k: int| 0 <= k < dirs.len() ==> (#[trigger] dirs[k]).wf(),
                after == moved(self.cars@, dt, self.field, dirs@),
                kept@ == survivors(after.take(i as int)),
                reports@ == departures(after.take(i as int)),
                forall|k: int| 0 <= k < kept.len() ==> (#[trigger] kept[k]).wf(&self.field),
            decreases self.cars.len() - i,
        {
            let mut car: Car = self.cars[i];
            car.update(dt, &self.field, dirs[i]);
            proof {
                assert(car == after[i as int]);
                assert(after.take(i + 1).drop_last() =~= after.take(i as int));
                assert(after.take(i + 1).last() == after[i as int]);
            }
            if car.phase == Phase::Exited {
                reports.push(
                    ExitReport {
                        time_active: car.time_active,
                        distance_traveled: car.distance_traveled,
                        close_call: car.close_call,
                    },
                );
            } else {
                kept.push(car);
            }
            i = i + 1;
        }
        assert(after.take(i as int) =~= after);
        self.cars = kept;
        reports
    }

    /// The number of vehicles that wait on each approach.
    pub fn waiting(&self) -> (counts: Waiting)
        ensures
            counts.up == waiting_on(self.cars@, Approach::Up),
            counts.down == waiting_on(self.cars@, Approach::Down),
            counts.left == waiting_on(self.cars@, Approach::Left),
            counts.right == waiting_on(self.cars@, Approach::Right),
    {
        let mut counts = Waiting { up: 0, down: 0, left: 0, right: 0 };
        let mut i: usize = 0;
        while i < self.cars.len()
            invariant
                i <= self.cars.len(),
                counts.up == waiting_on(self.cars@.take(i as int), Approach::Up),
                counts.down == waiting_on(self.cars@.take(i as int), Approach::Down),
                counts.left == waiting_on(self.cars@.take(i as int), Approach::Left),
                counts.right == waiting_on(self.cars@.take(i as int), Approach::Right),
                counts.up + counts.down + counts.left + counts.right <= i,
            decreases self.cars.len() - i,
        {
            proof {
                assert(self.cars@.take(i + 1).drop_last() =~= self.cars@.take(i as int));
                assert(self.cars@.take(i + 1).last() == self.cars[i as int]);
            }
            let car: &Car = &self.cars[i];
            if car.phase == Phase::Approaching {
                match car.origin {
                    Origin::South => {
                        counts.up = counts.up + 1;
                    },
                    Origin::North => {
                        counts.down = counts.down + 1;
                    },
                    Origin::East => {
                        counts.left = counts.left + 1;
                    },
                    Origin::West => {
                        counts.right = counts.right + 1;
                    },
                }
            }
            i = i + 1;
        }
        assert(self.cars@.take(i as int) =~= self.cars@);
        counts
    }

    /// Whether no vehicle is inside the junction box.
    pub fn intersection_clear(&self) -> (clear: bool)
        requires
            self.field.wf(),
        ensures
            clear == forall|k: int|
                0 <= k < self.cars.len() ==> !self.field.in_box((#[trigger] self.cars[k]).cord),
    {
        let mut i: usize = 0;
        while i < self.cars.len()
            invariant
                i <= self.cars.len(),
                self.field.wf(),
                forall|k: int| 0 <= k < i ==> !self.field.in_box((#[trigger] self.cars[k]).cord),
            decreases self.cars.len() - i,
        {
            if self.field.inside_box(&self.cars[i].cord) {
                return false;
            }
            i = i + 1;
        }
        true
    }

    /// Advances the light by `dt` microseconds with the numbers of vehicles
    /// that wait on the approaches now, `capacity` being the number that
    /// fit on one approach.
    pub fn step_light(&mut self, dt: u64, capacity: usize)
        requires
            old(self).wf(),
        ensures
            final(self).light@ == stepped(
                old(self).light@,
                Tick {
                    dt,
                    demand: Demand {
                        down: waiting_on(old(self).cars@, Approach::Down),
                        left: waiting_on(old(self).cars@, Approach::Left),
                        up: waiting_on(old(self).cars@, Approach::Up),
                        right: waiting_on(old(self).cars@, Approach::Right),
                    },
                    capacity: capacity as nat,
                },
            ),
            final(self).cars == old(self).cars,
            final(self).field == old(self).field,
            final(self).wf(),
    {
        let counts: Waiting = self.waiting();
        let clear: bool = self.intersection_clear();
        self.light.update_with_congestion(
            dt,
            counts.up,
            counts.down,
            counts.left,
            counts.right,
            capacity,
            clear,
        );
    }
}

} // verus!
