//! What holds of every tick of the simulation: vehicles on one lane keep
//! room to stop behind each other, a standing follower stays clear of its
//! leader, and the exit filter removes the vehicles that have left and no
//! others.

use vstd::prelude::*;
use crate::arbiter::{
    follows, lemma_same_lane_hard_stop, lemma_target_is_the_minimum, measurable, pair_cap, trails,
};
use crate::cars::{spawn_heading, spawn_point, Car, Origin, Phase, Route};
use crate::paint::Color;
use crate::geometry::{dist_sq, Direction, Field, Point};
use crate::hazard::body_of;
use crate::sim::{briefed, departures, lane_is_free, moved, survivors};
use crate::units::{
    BRAKING, CAR_LENGTH, CAUTION_DISTANCE, CRUISE_SPEED, HARD_STOP_DISTANCE, MAX_TICK,
    SENSOR_RANGE, SPEED_LIMIT,
};

verus! {

/// Whether the next tick takes `car` further along its lane: it is on
/// the field, has not begun to turn and is not on its arc.
pub open spec fn on_lane(car: Car, field: Field) -> bool {
    &&& car.phase != Phase::Exited
    &&& car.rotation == spawn_heading(car.origin)
    &&& !car.on_arc(&field)
}

/// The vehicles with the targets that the snapshot gives them are
/// well-formed if the vehicles of the snapshot are.
pub proof fn lemma_briefing_keeps_wf(cars: Seq<Car>, field: Field, k: int)
    requires
        field.wf(),
        forall|n: int| 0 <= n < cars.len() ==> (#[trigger] cars[n]).wf(&field),
        0 <= k < cars.len(),
    ensures
        briefed(cars, field.mid())[k].wf(&field),
        0 <= briefed(cars, field.mid())[k].target_speed <= cars[k].max_speed,
{
    lemma_target_is_the_minimum(cars, k, field.mid());
}

/// The hard stop holds a standing follower in place. When a vehicle
/// stands behind another on the same lane, nearer than the hard-stop
/// distance, a tick of the simulation leaves it standing where it is, the
/// other stays ahead of it, and their distance does not shrink. So if their
/// bodies did not touch before the tick, they do not touch after it.
pub proof fn lemma_standing_follower_keeps_clear(
    cars: Seq<Car>,
    field: Field,
    dt: u64,
    dirs: Seq<Direction>,
    i: int,
    j: int,
)
    requires
        field.wf(),
        forall|n: int| 0 <= n < cars.len() ==> (#[trigger] cars[n]).wf(&field),
        dt <= MAX_TICK,
        dirs.len() == cars.len(),
        forall|n: int| 0 <= n < dirs.len() ==> (#[trigger] dirs[n]).wf(),
        0 <= i < cars.len(),
        0 <= j < cars.len(),
        i != j,
        cars[i].origin == cars[j].origin,
        on_lane(cars[i], field),
        on_lane(cars[j], field),
        trails(cars[i], cars[j]),
        dist_sq(cars[i].cord, cars[j].cord) < HARD_STOP_DISTANCE * HARD_STOP_DISTANCE,
        cars[i].current_speed == 0,
    ensures
        ({
            let after = moved(briefed(cars, field.mid()), dt, field, dirs);
            &&& after[i].cord == cars[i].cord
            &&& after[i].current_speed == 0
            &&& trails(after[i], after[j])
            &&& dist_sq(after[i].cord, after[j].cord) >= dist_sq(cars[i].cord, cars[j].cord)
            &&& !body_of(cars[i]).meets(&body_of(cars[j])) ==> !body_of(after[i]).meets(
                &body_of(after[j]),
            )
        }),
{
    let center = field.mid();
    let told = briefed(cars, center);
    let after = moved(told, dt, field, dirs);
    let a = told[i];
    let b = told[j];
    lemma_briefing_keeps_wf(cars, field, i);
    lemma_briefing_keeps_wf(cars, field, j);
    assert(measurable(cars));
    lemma_same_lane_hard_stop(cars, i, j, center);
    assert(a.target_speed == 0);
    a.lemma_standing_vehicle_stays(dt, &field, dirs[i]);
    a.lemma_lane_is_kept(dt, &field, dirs[i]);
    b.lemma_lane_is_kept(dt, &field, dirs[j]);
    b.lemma_tick_keeps_wf(dt, &field, dirs[j]);
    let step = b.step_length(dt);
    assert(0 <= b.speed_after(dt) * dt) by (nonlinear_arith)
        requires
            0 <= b.speed_after(dt),
            0 <= dt,
    ;
    assert(step >= 0);
    assert(after[i] == a.after_tick(dt, &field, dirs[i]));
    assert(after[j] == b.after_tick(dt, &field, dirs[j]));
    let dx = cars[i].cord.x - cars[j].cord.x;
    let dy = cars[i].cord.y - cars[j].cord.y;
    let ex = after[i].cord.x - after[j].cord.x;
    let ey = after[i].cord.y - after[j].cord.y;
    assert(step <= SPEED_LIMIT * 60) by (nonlinear_arith)
        requires
            step == b.speed_after(dt) * dt / 1_000_000,
            0 <= b.speed_after(dt) <= SPEED_LIMIT,
            0 <= dt <= 60_000_000,
    ;
    assert((dx == 0 && ex == 0 && (ey == dy + step || ey == dy - step)) || (dy == 0 && ey == 0 && (
    ex == dx + step || ex == dx - step)));
    assert(ex * ex + ey * ey >= dx * dx + dy * dy) by (nonlinear_arith)
        requires
            step >= 0,
            (dx == 0 && ex == 0 && ((dy >= 0 && ey == dy + step) || (dy <= 0 && ey == dy - step)))
                || (dy == 0 && ey == 0 && ((dx >= 0 && ex == dx + step) || (dx <= 0 && ex == dx
                - step))),
    ;
}

/// Shortest tick for which the safe gap is kept: below it the speed that a
/// vehicle sheds in a tick rounds down to nothing.
pub const SAFE_TICK_MIN: u64 = 10;

/// Longest tick for which the safe gap is kept: a twenty-fifth of a second.
pub const SAFE_TICK_MAX: u64 = 40_000;

/// The distance between the centres of two vehicles on one line.
pub open spec fn gap_between(a: Car, b: Car) -> int {
    let dx = a.cord.x - b.cord.x;
    let dy = a.cord.y - b.cord.y;
    (if dx >= 0 { dx } else { -dx }) + (if dy >= 0 { dy } else { -dy })
}

/// Whether `a` has room to stop behind `b`: the gap between the two bodies
/// is longer than the way `a` covers in a tick of `SAFE_TICK_MAX` at its
/// speed, and then on braking to a halt at five sixths of the rate
/// `BRAKING`. With `v` for the speed this is
/// `gap - CAR_LENGTH > v * SAFE_TICK_MAX / SECOND + v * v / (2 * 500 * UNIT)`,
/// cleared of fractions.
pub open spec fn safe_gap(a: Car, b: Car) -> bool {
    1_000_000 * (gap_between(a, b) - CAR_LENGTH) > a.current_speed * (a.current_speed
        + SAFE_TICK_MAX)
}

/// A speed below the limit of its band leaves room to stop, whatever the
/// speed was before: at most a quarter of the cruise speed from the
/// hard-stop distance on, at most half of it from the caution distance on,
/// at most all of it beyond the reach of the sensor.
proof fn lemma_band_leaves_room(gap: int, v: int, dt: int)
    requires
        gap > CAR_LENGTH,
        0 <= dt <= SAFE_TICK_MAX,
        0 <= v,
        gap < HARD_STOP_DISTANCE ==> v == 0,
        gap < CAUTION_DISTANCE ==> v <= CRUISE_SPEED / 4,
        gap <= CAR_LENGTH + SENSOR_RANGE ==> v <= CRUISE_SPEED / 2,
        v <= CRUISE_SPEED,
    ensures
        1_000_000 * (gap - CAR_LENGTH) - v * dt > v * (v + SAFE_TICK_MAX),
{
    let limit: int = if gap < HARD_STOP_DISTANCE {
        0
    } else if gap < CAUTION_DISTANCE {
        30_000
    } else if gap <= CAR_LENGTH + SENSOR_RANGE {
        60_000
    } else {
        120_000
    };
    assert(v * dt + v * (v + 40_000) <= limit * (limit + 80_000)) by (nonlinear_arith)
        requires
            0 <= v <= limit,
            0 <= dt <= 40_000,
    ;
    assert(0int * 80_000 == 0 && 30_000int * 110_000 == 3_300_000_000 && 60_000int * 140_000
        == 8_400_000_000 && 120_000int * 200_000 == 24_000_000_000) by (nonlinear_arith);
}

/// A speed reached by braking for a whole tick leaves room to stop if the
/// speed before did.
proof fn lemma_braking_leaves_room(gap: int, v: int, shed: int, dt: int)
    requires
        1_000_000 * (gap - CAR_LENGTH) > v * (v + SAFE_TICK_MAX),
        0 <= shed <= v,
        0 <= dt <= 2 * (v - shed),
    ensures
        1_000_000 * (gap - CAR_LENGTH) - shed * dt > shed * (shed + SAFE_TICK_MAX),
{
    let d = v - shed;
    assert(v * (v + 40_000) >= shed * dt + shed * (shed + 40_000)) by (nonlinear_arith)
        requires
            v == shed + d,
            0 <= shed,
            0 <= dt <= 2 * d,
    ;
}

/// On one lane the vehicle ahead leaves the vehicle behind no more than
/// the limit of the band that their gap falls in.
proof fn lemma_leader_sets_the_band(cars: Seq<Car>, i: int, j: int, center: Point)
    requires
        0 <= i < cars.len(),
        0 <= j < cars.len(),
        i != j,
        measurable(cars),
        trails(cars[i], cars[j]),
        cars[i].max_speed <= CRUISE_SPEED,
    ensures
        ({
            let gap = gap_between(cars[i], cars[j]);
            let cap = pair_cap(cars, i, j, center);
            &&& 0 <= cap <= CRUISE_SPEED
            &&& gap < HARD_STOP_DISTANCE ==> cap == 0
            &&& gap < CAUTION_DISTANCE ==> cap <= CRUISE_SPEED / 4
            &&& gap <= CAR_LENGTH + SENSOR_RANGE ==> cap <= CRUISE_SPEED / 2
        }),
{
    let gap = gap_between(cars[i], cars[j]);
    assert(gap <= CAR_LENGTH + SENSOR_RANGE ==> follows(cars[i], cars[j]));
    assert(dist_sq(cars[i].cord, cars[j].cord) == gap * gap) by (nonlinear_arith)
        requires
            gap == gap_between(cars[i], cars[j]),
            cars[i].cord.x == cars[j].cord.x || cars[i].cord.y == cars[j].cord.y,
    ;
    assert(gap < 45_000 ==> gap * gap < 45_000 * 45_000) by (nonlinear_arith)
        requires
            gap >= 0,
    ;
    assert(gap < 80_000 ==> gap * gap < 80_000 * 80_000) by (nonlinear_arith)
        requires
            gap >= 0,
    ;
}

/// Two vehicles that keep to one lane, the one behind the other by more
/// than the step it takes, are after the tick apart by their gap, less the
/// step of the one behind, plus the step of the one ahead.
proof fn lemma_gap_after_a_tick(a: Car, b: Car, dt: u64, field: Field, da: Direction, db: Direction)
    requires
        a.wf(&field),
        b.wf(&field),
        field.wf(),
        dt <= MAX_TICK,
        da.wf(),
        db.wf(),
        a.origin == b.origin,
        on_lane(a, field),
        on_lane(b, field),
        trails(a, b),
        gap_between(a, b) > a.step_length(dt),
    ensures
        0 <= a.step_length(dt),
        0 <= b.step_length(dt),
        trails(a.after_tick(dt, &field, da), b.after_tick(dt, &field, db)),
        gap_between(a.after_tick(dt, &field, da), b.after_tick(dt, &field, db)) == gap_between(
            a,
            b,
        ) - a.step_length(dt) + b.step_length(dt),
{
    a.lemma_lane_is_kept(dt, &field, da);
    b.lemma_lane_is_kept(dt, &field, db);
    a.lemma_tick_keeps_wf(dt, &field, da);
    b.lemma_tick_keeps_wf(dt, &field, db);
    let mine = a.step_length(dt);
    let theirs = b.step_length(dt);
    assert(0 <= a.speed_after(dt) * dt <= SPEED_LIMIT * MAX_TICK && 0 <= b.speed_after(dt) * dt
        <= SPEED_LIMIT * MAX_TICK) by (nonlinear_arith)
        requires
            0 <= a.speed_after(dt) <= SPEED_LIMIT,
            0 <= b.speed_after(dt) <= SPEED_LIMIT,
            0 <= dt <= MAX_TICK,
    ;
    assert(0 <= mine <= 60_000_000_000 && 0 <= theirs <= 60_000_000_000);
}

/// The safe gap is kept. Take two vehicles on one lane, the one behind
/// no faster than the cruise speed and with room to stop behind the other.
/// After a tick of the simulation that is neither shorter than
/// `SAFE_TICK_MIN` nor longer than `SAFE_TICK_MAX`, the one is still behind
/// the other and still has room to stop; in particular their bodies do not
/// touch.
pub proof fn lemma_safe_gap_is_kept(
    cars: Seq<Car>,
    field: Field,
    dt: u64,
    dirs: Seq<Direction>,
    i: int,
    j: int,
)
    requires
        field.wf(),
        forall|n: int| 0 <= n < cars.len() ==> (#[trigger] cars[n]).wf(&field),
        SAFE_TICK_MIN <= dt <= SAFE_TICK_MAX,
        dirs.len() == cars.len(),
        forall|n: int| 0 <= n < dirs.len() ==> (#[trigger] dirs[n]).wf(),
        0 <= i < cars.len(),
        0 <= j < cars.len(),
        i != j,
        cars[i].origin == cars[j].origin,
        on_lane(cars[i], field),
        on_lane(cars[j], field),
        trails(cars[i], cars[j]),
        cars[i].max_speed <= CRUISE_SPEED,
        safe_gap(cars[i], cars[j]),
    ensures
        ({
            let after = moved(briefed(cars, field.mid()), dt, field, dirs);
            &&& trails(after[i], after[j])
            &&& safe_gap(after[i], after[j])
            &&& !body_of(after[i]).meets(&body_of(after[j]))
        }),
{
    let center = field.mid();
    let told = briefed(cars, center);
    let after = moved(told, dt, field, dirs);
    let a = told[i];
    let b = told[j];
    lemma_briefing_keeps_wf(cars, field, i);
    lemma_briefing_keeps_wf(cars, field, j);
    assert(measurable(cars));
    lemma_target_is_the_minimum(cars, i, center);
    lemma_leader_sets_the_band(cars, i, j, center);
    assert(after[i] == a.after_tick(dt, &field, dirs[i]));
    assert(after[j] == b.after_tick(dt, &field, dirs[j]));
    let gap = gap_between(cars[i], cars[j]);
    let v = cars[i].current_speed as int;
    let next = a.speed_after(dt);
    let mine = a.step_length(dt);
    assert(gap_between(a, b) == gap);
    assert(v * (v + 40_000) >= 0) by (nonlinear_arith)
        requires
            v >= 0,
    ;
    assert(gap > CAR_LENGTH);
    assert(a.target_speed <= pair_cap(cars, i, j, center));
    // The new speed is within the band of the gap, or it is reached by
    // braking for the whole tick.
    let shed = v - BRAKING * dt / 1_000_000;
    if v >= a.target_speed && shed > a.target_speed {
        assert(next == shed);
        lemma_braking_leaves_room(gap, v, next, dt as int);
    } else {
        assert(0 <= next <= a.target_speed);
        lemma_band_leaves_room(gap, next, dt as int);
    }
    assert(1_000_000 * (gap - CAR_LENGTH) - next * dt > next * (next + 40_000));
    assert(next * (next + 40_000) >= 0 && next * dt >= 0) by (nonlinear_arith)
        requires
            next >= 0,
            dt >= 0,
    ;
    assert(1_000_000 * mine <= next * dt);
    assert(gap > mine);
    lemma_gap_after_a_tick(a, b, dt, field, dirs[i], dirs[j]);
    assert(after[i].current_speed == next);
}

/// Room to stop is more than no contact: the bodies of two vehicles on
/// one lane do not touch while the one behind has room to stop.
pub proof fn lemma_room_to_stop_means_no_contact(a: Car, b: Car)
    requires
        trails(a, b),
        0 <= a.current_speed,
        safe_gap(a, b),
    ensures
        gap_between(a, b) > CAR_LENGTH,
        !body_of(a).meets(&body_of(b)),
{
    let v = a.current_speed as int;
    assert(v * (v + 40_000) >= 0) by (nonlinear_arith)
        requires
            v >= 0,
    ;
}

/// A spawn leaves room to stop: a vehicle that is let in has room to stop
/// behind every vehicle that is ahead of it on its lane.
pub proof fn lemma_spawn_leaves_room(
    cars: Seq<Car>,
    field: Field,
    origin: Origin,
    route: Route,
    color: Color,
    k: int,
)
    requires
        field.wf(),
        lane_is_free(cars, origin, route, spawn_point(origin, route, field)),
        0 <= k < cars.len(),
        cars[k].origin == origin,
        cars[k].route == route,
        trails(Car::spawned(origin, route, field, color), cars[k]),
    ensures
        safe_gap(Car::spawned(origin, route, field, color), cars[k]),
{
    let new = Car::spawned(origin, route, field, color);
    let gap = gap_between(new, cars[k]);
    assert(dist_sq(cars[k].cord, new.cord) == gap * gap) by (nonlinear_arith)
        requires
            gap == gap_between(new, cars[k]),
            new.cord.x == cars[k].cord.x || new.cord.y == cars[k].cord.y,
    ;
    assert(gap >= 60_000) by (nonlinear_arith)
        requires
            gap * gap >= 60_000 * 60_000,
            gap >= 0,
    ;
    assert(120_000int * 160_000 == 19_200_000_000) by (nonlinear_arith);
}

/// The exit filter parts the vehicles in two: those that stay are exactly
/// those that have not left the field, and there is one report for each of
/// the others.
pub proof fn lemma_exit_filter_parts_the_vehicles(cars: Seq<Car>)
    ensures
        survivors(cars).len() + departures(cars).len() == cars.len(),
        forall|k: int| 0 <= k < survivors(cars).len() ==> (#[trigger] survivors(cars)[k]).phase
            != Phase::Exited,
        forall|k: int|
            0 <= k < survivors(cars).len() ==> cars.contains(#[trigger] survivors(cars)[k]),
        forall|k: int|
            0 <= k < cars.len() && cars[k].phase != Phase::Exited ==> survivors(cars).contains(
                #[trigger] cars[k],
            ),
    decreases cars.len(),
{
    if cars.len() > 0 {
        let rest = cars.drop_last();
        lemma_exit_filter_parts_the_vehicles(rest);
        assert forall|k: int| 0 <= k < survivors(cars).len() implies cars.contains(
            #[trigger] survivors(cars)[k],
        ) by {
            if k < survivors(rest).len() {
                let n = choose|n: int| 0 <= n < rest.len() && rest[n] == survivors(rest)[k];
                assert(cars[n] == survivors(cars)[k]);
            } else {
                assert(cars[cars.len() - 1] == survivors(cars)[k]);
            }
        }
        assert forall|k: int|
            0 <= k < cars.len() && cars[k].phase != Phase::Exited implies survivors(cars).contains(
            #[trigger] cars[k],
        ) by {
            if k < rest.len() {
                assert(rest[k] == cars[k]);
                let n = choose|n: int|
                    0 <= n < survivors(rest).len() && survivors(rest)[n] == rest[k];
                assert(survivors(cars)[n] == cars[k]);
            } else {
                assert(survivors(cars)[survivors(cars).len() - 1] == cars[k]);
            }
        }
    }
}

} // verus!
