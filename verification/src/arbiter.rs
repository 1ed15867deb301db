//! Target speeds: every vehicle gets the lowest speed that any other
//! vehicle imposes on it, read off one snapshot of the field.

use vstd::prelude::*;
use crate::cars::Car;
use crate::geometry::{dist_sq, Field, Point, Rect};
use crate::hazard::{body_of, facing_of, sensor_of, Facing};
use crate::units::{CAR_LENGTH, CAUTION_DISTANCE, HARD_STOP_DISTANCE, SENSOR_RANGE};

verus! {

/// Whether `a` follows `b`: the sensor of `a` reaches the body of `b`.
pub open spec fn follows(a: Car, b: Car) -> bool {
    sensor_of(a).meets(&body_of(b))
}

/// The speed left to a vehicle `a` that follows `b`, by the distance of
/// their centres: none below the hard-stop distance, a quarter of the
/// maximum below the caution distance, half of it otherwise.
pub open spec fn following_cap(a: Car, b: Car) -> int {
    let d = dist_sq(a.cord, b.cord);
    if d < HARD_STOP_DISTANCE * HARD_STOP_DISTANCE {
        0
    } else if d < CAUTION_DISTANCE * CAUTION_DISTANCE {
        a.max_speed / 4
    } else {
        a.max_speed / 2
    }
}

/// Whether the paths of `a` and `b` are about to cross or merge: their
/// sensors meet while their bodies do not, and neither follows the other.
pub open spec fn crossing(a: Car, b: Car) -> bool {
    &&& sensor_of(a).meets(&sensor_of(b))
    &&& !body_of(a).meets(&body_of(b))
    &&& !follows(a, b)
    &&& !follows(b, a)
}

/// Whether the vehicle `a` at index `i` gives way to the vehicle `b` at
/// index `j`: the one nearer to the centre of the junction goes first, and
/// at equal distance the one with the lower index.
pub open spec fn gives_way(a: Car, i: int, b: Car, j: int, center: Point) -> bool {
    let mine = dist_sq(a.cord, center);
    let theirs = dist_sq(b.cord, center);
    mine > theirs || (mine == theirs && i > j)
}

/// The speed that vehicle `j` leaves to vehicle `i`.
pub open spec fn pair_cap(cars: Seq<Car>, i: int, j: int, center: Point) -> int {
    let a = cars[i];
    let b = cars[j];
    if follows(a, b) {
        following_cap(a, b)
    } else if crossing(a, b) && gives_way(a, i, b, j, center) {
        a.max_speed / 4
    } else {
        a.max_speed as int
    }
}

/// The lowest speed that the vehicles before index `n` leave to vehicle
/// `i`, its own maximum if they leave it alone.
pub open spec fn least_cap(cars: Seq<Car>, i: int, center: Point, n: int) -> int
    decreases n,
{
    if n <= 0 {
        cars[i].max_speed as int
    } else {
        let rest = least_cap(cars, i, center, n - 1);
        if n - 1 != i && pair_cap(cars, i, n - 1, center) < rest {
            pair_cap(cars, i, n - 1, center)
        } else {
            rest
        }
    }
}

/// The target speed of vehicle `i`: the most restrictive of the speeds
/// that the other vehicles leave to it.
pub open spec fn target_speed(cars: Seq<Car>, i: int, center: Point) -> int {
    least_cap(cars, i, center, cars.len() as int)
}

/// Whether every vehicle of the snapshot can be measured: positions in
/// reach and maximum speeds not negative.
pub open spec fn measurable(cars: Seq<Car>) -> bool {
    forall|k: int|
        0 <= k < cars.len() ==> (#[trigger] cars[k]).cord.in_reach() && 0 <= cars[k].max_speed
}

/// Whether `a` drives behind `b` on the same lane: both face the same way,
/// on one line along that way, and `b` is not behind `a`.
pub open spec fn trails(a: Car, b: Car) -> bool {
    &&& facing_of(a.rotation as int) == facing_of(b.rotation as int)
    &&& match facing_of(a.rotation as int) {
        Facing::North => a.cord.x == b.cord.x && b.cord.y <= a.cord.y,
        Facing::South => a.cord.x == b.cord.x && a.cord.y <= b.cord.y,
        Facing::East => a.cord.y == b.cord.y && a.cord.x <= b.cord.x,
        Facing::West => a.cord.y == b.cord.y && b.cord.x <= a.cord.x,
    }
}

/// What the vehicles before index `n` leave to vehicle `i` is the minimum
/// of its own maximum and of what each of them leaves to it: it is below
/// all of these and equal to one of them.
pub proof fn lemma_least_cap_is_the_minimum(cars: Seq<Car>, i: int, center: Point, n: int)
    requires
        0 <= i < cars.len(),
        0 <= n <= cars.len(),
        measurable(cars),
    ensures
        0 <= least_cap(cars, i, center, n) <= cars[i].max_speed,
        forall|j: int|
            0 <= j < n && j != i ==> least_cap(cars, i, center, n) <= #[trigger] pair_cap(
                cars,
                i,
                j,
                center,
            ),
        least_cap(cars, i, center, n) == cars[i].max_speed || exists|j: int|
            0 <= j < n && j != i && least_cap(cars, i, center, n) == #[trigger] pair_cap(
                cars,
                i,
                j,
                center,
            ),
    decreases n,
{
    if n > 0 {
        lemma_least_cap_is_the_minimum(cars, i, center, n - 1);
        let rest = least_cap(cars, i, center, n - 1);
        if rest != cars[i].max_speed {
            let j = choose|j: int|
                0 <= j < n - 1 && j != i && rest == #[trigger] pair_cap(cars, i, j, center);
            assert(0 <= j < n && j != i && rest == pair_cap(cars, i, j, center));
        }
        if n - 1 != i {
            assert(0 <= pair_cap(cars, i, n - 1, center));
        }
    }
}

/// The target speed of a vehicle is the most restrictive of the speeds
/// that the others leave to it, whatever the order in which the pairs are
/// looked at: it never exceeds the vehicle's maximum, it is below what any
/// other vehicle leaves, and it is the maximum or what one of them leaves.
pub proof fn lemma_target_is_the_minimum(cars: Seq<Car>, i: int, center: Point)
    requires
        0 <= i < cars.len(),
        measurable(cars),
    ensures
        0 <= target_speed(cars, i, center) <= cars[i].max_speed,
        forall|j: int|
            0 <= j < cars.len() && j != i ==> target_speed(cars, i, center) <= #[trigger] pair_cap(
                cars,
                i,
                j,
                center,
            ),
        target_speed(cars, i, center) == cars[i].max_speed || exists|j: int|
            0 <= j < cars.len() && j != i && target_speed(cars, i, center) == #[trigger] pair_cap(
                cars,
                i,
                j,
                center,
            ),
{
    lemma_least_cap_is_the_minimum(cars, i, center, cars.len() as int);
}

/// A vehicle whose sensor reaches the body of another vehicle nearer than
/// the hard-stop distance gets the target speed zero, whatever else is on
/// the field.
pub proof fn lemma_hard_stop_halts(cars: Seq<Car>, i: int, j: int, center: Point)
    requires
        0 <= i < cars.len(),
        0 <= j < cars.len(),
        i != j,
        measurable(cars),
        follows(cars[i], cars[j]),
        dist_sq(cars[i].cord, cars[j].cord) < HARD_STOP_DISTANCE * HARD_STOP_DISTANCE,
    ensures
        target_speed(cars, i, center) == 0,
{
    lemma_target_is_the_minimum(cars, i, center);
    assert(pair_cap(cars, i, j, center) == 0);
}

/// On one lane the sensor of the vehicle behind reaches the body of the
/// vehicle ahead as soon as their centres are no further apart than a
/// body and a sensor are long.
pub proof fn lemma_follower_sees_leader(a: Car, b: Car)
    requires
        trails(a, b),
        a.cord.in_reach(),
        b.cord.in_reach(),
        dist_sq(a.cord, b.cord) <= (CAR_LENGTH + SENSOR_RANGE) * (CAR_LENGTH + SENSOR_RANGE),
    ensures
        follows(a, b),
{
    let dx = a.cord.x - b.cord.x;
    let dy = a.cord.y - b.cord.y;
    let reach = CAR_LENGTH + SENSOR_RANGE;
    assert(-reach <= dx <= reach) by (nonlinear_arith)
        requires
            dx * dx + dy * dy <= reach * reach,
            reach >= 0,
            dx == 0 || dy == 0,
    ;
    assert(-reach <= dy <= reach) by (nonlinear_arith)
        requires
            dx * dx + dy * dy <= reach * reach,
            reach >= 0,
            dx == 0 || dy == 0,
    ;
}

/// On one lane the bodies of two vehicles can only touch when their
/// centres are no further apart than a body is long, which is less than
/// the hard-stop distance.
pub proof fn lemma_contact_is_within_hard_stop(a: Car, b: Car)
    requires
        trails(a, b),
        a.cord.in_reach(),
        b.cord.in_reach(),
        body_of(a).meets(&body_of(b)),
    ensures
        dist_sq(a.cord, b.cord) <= CAR_LENGTH * CAR_LENGTH,
        dist_sq(a.cord, b.cord) < HARD_STOP_DISTANCE * HARD_STOP_DISTANCE,
{
    let dx = a.cord.x - b.cord.x;
    let dy = a.cord.y - b.cord.y;
    let len = CAR_LENGTH as int;
    assert(dx * dx + dy * dy <= len * len) by (nonlinear_arith)
        requires
            dx == 0 || dy == 0,
            -len <= dx <= len,
            -len <= dy <= len,
    ;
}

/// The hard stop on one lane: when a vehicle drives behind another on the
/// same lane and their centres are nearer than the hard-stop distance, the
/// vehicle behind gets the target speed zero. In particular it has been
/// told to stop in every snapshot in which the two bodies touch.
pub proof fn lemma_same_lane_hard_stop(cars: Seq<Car>, i: int, j: int, center: Point)
    requires
        0 <= i < cars.len(),
        0 <= j < cars.len(),
        i != j,
        measurable(cars),
        trails(cars[i], cars[j]),
        dist_sq(cars[i].cord, cars[j].cord) < HARD_STOP_DISTANCE * HARD_STOP_DISTANCE
            || body_of(cars[i]).meets(&body_of(cars[j])),
    ensures
        target_speed(cars, i, center) == 0,
{
    if body_of(cars[i]).meets(&body_of(cars[j])) {
        lemma_contact_is_within_hard_stop(cars[i], cars[j]);
    }
    lemma_follower_sees_leader(cars[i], cars[j]);
    lemma_hard_stop_halts(cars, i, j, center);
}

/// Right of way at equal distance: when the paths of two vehicles cross
/// and both are equally far from the centre of the junction, the one with
/// the lower index keeps its full speed as far as the other is concerned,
/// and the other is held to a quarter of its maximum.
pub proof fn lemma_tie_goes_to_lower_index(cars: Seq<Car>, i: int, j: int, center: Point)
    requires
        0 <= i < j < cars.len(),
        crossing(cars[i], cars[j]),
        dist_sq(cars[i].cord, center) == dist_sq(cars[j].cord, center),
    ensures
        pair_cap(cars, i, j, center) == cars[i].max_speed,
        pair_cap(cars, j, i, center) == cars[j].max_speed / 4,
{
}

/// Right of way: when the paths of two vehicles cross, the one nearer to
/// the centre of the junction keeps its full speed as far as the other is
/// concerned, and the other is held to a quarter of its maximum.
pub proof fn lemma_nearer_goes_first(cars: Seq<Car>, i: int, j: int, center: Point)
    requires
        0 <= i < cars.len(),
        0 <= j < cars.len(),
        crossing(cars[i], cars[j]),
        dist_sq(cars[i].cord, center) < dist_sq(cars[j].cord, center),
    ensures
        pair_cap(cars, i, j, center) == cars[i].max_speed,
        pair_cap(cars, j, i, center) == cars[j].max_speed / 4,
{
}

/// The speed that vehicle `j` leaves to vehicle `i`.
pub fn pair_limit(cars: &Vec<Car>, i: usize, j: usize, center: &Point) -> (cap: i64)
    requires
        i < cars.len(),
        j < cars.len(),
        measurable(cars@),
        center.in_reach(),
    ensures
        cap == pair_cap(cars@, i as int, j as int, *center),
        0 <= cap <= cars[i as int].max_speed,
{
    let a: &Car = &cars[i];
    let b: &Car = &cars[j];
    let radar: Rect = a.get_radar();
    let other_rect: Rect = b.get_rect();
    if radar.overlaps(&other_rect) {
        let between: i128 = a.cord.distance_squared(&b.cord);
        let hard: i128 = (HARD_STOP_DISTANCE as i128) * (HARD_STOP_DISTANCE as i128);
        let caution: i128 = (CAUTION_DISTANCE as i128) * (CAUTION_DISTANCE as i128);
        if between < hard {
            0
        } else if between < caution {
            a.max_speed / 4
        } else {
            a.max_speed / 2
        }
    } else {
        let other_radar: Rect = b.get_radar();
        let my_rect: Rect = a.get_rect();
        if radar.overlaps(&other_radar) && !my_rect.overlaps(&other_rect) && !other_radar.overlaps(
            &my_rect,
        ) {
            let mine: i128 = a.cord.distance_squared(center);
            let theirs: i128 = b.cord.distance_squared(center);
            if mine > theirs || (mine == theirs && i > j) {
                a.max_speed / 4
            } else {
                a.max_speed
            }
        } else {
            a.max_speed
        }
    }
}

/// The target speed of vehicle `i` of the snapshot.
pub fn target_for(cars: &Vec<Car>, i: usize, center: &Point) -> (target: i64)
    requires
        i < cars.len(),
        measurable(cars@),
        center.in_reach(),
    ensures
        target == target_speed(cars@, i as int, *center),
        0 <= target <= cars[i as int].max_speed,
{
    let mut requested: i64 = cars[i].max_speed;
    let mut j: usize = 0;
    while j < cars.len()
        invariant
            i < cars.len(),
            j <= cars.len(),
            measurable(cars@),
            center.in_reach(),
            requested == least_cap(cars@, i as int, *center, j as int),
            0 <= requested <= cars[i as int].max_speed,
        decreases cars.len() - j,
    {
        if i != j {
            let cap: i64 = pair_limit(cars, i, j, center);
            if cap < requested {
                requested = cap;
            }
        }
        j = j + 1;
    }
    requested
}

/// The target speeds of all vehicles of the snapshot `cars`. Nothing is
/// written back while the pairs are looked at, so no target depends on
/// another.
pub fn arbitrate(cars: &Vec<Car>, field: &Field) -> (targets: Vec<i64>)
    requires
        field.wf(),
        measurable(cars@),
    ensures
        targets.len() == cars.len(),
        forall|i: int|
            0 <= i < cars.len() ==> #[trigger] targets[i] == target_speed(cars@, i, field.mid()),
        forall|i: int| 0 <= i < cars.len() ==> 0 <= #[trigger] targets[i] <= cars[i].max_speed,
{
    let center: Point = field.center();
    let mut targets: Vec<i64> = Vec::new();
    let mut i: usize = 0;
    while i < cars.len()
        invariant
            i <= cars.len(),
            measurable(cars@),
            center.in_reach(),
            center == field.mid(),
            targets.len() == i,
            forall|k: int| 0 <= k < i ==> #[trigger] targets[k] == target_speed(cars@, k, center),
            forall|k: int| 0 <= k < i ==> 0 <= #[trigger] targets[k] <= cars[k].max_speed,
        decreases cars.len() - i,
    {
        let target: i64 = target_for(cars, i, &center);
        targets.push(target);
        i = i + 1;
    }
    targets
}

} // verus!
