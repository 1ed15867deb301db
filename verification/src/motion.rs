//! What holds of every tick of a vehicle: its speed stays in range, its
//! phase only advances, its arc is fixed once and kept to, and off the arc
//! it keeps to its lane.

use vstd::prelude::*;
use crate::cars::{
    course, planned_turn, ramped, spawn_heading, spawn_point, turn_center, turn_radius, Car,
    Origin, Phase, Route, TurnState,
};
use crate::geometry::{dist_sq, lemma_scaled_is_bounded, scaled, Direction, Field, Point};
use crate::units::{ACCELERATION, BRAKING, GAP, MAX_TICK, NORM_SLACK, ONE, SECOND, SPEED_LIMIT};

verus! {

/// Phases in the order in which a vehicle passes through them.
pub open spec fn phase_rank(phase: Phase) -> int {
    match phase {
        Phase::Approaching => 0,
        Phase::InIntersection => 1,
        Phase::Exited => 2,
    }
}

/// Where the lane of a vehicle from `origin` on `route` meets the edge of
/// the junction box.
pub open spec fn entry_point(origin: Origin, route: Route, field: Field) -> Point {
    let c = field.mid();
    match origin {
        Origin::South => Point { x: spawn_point(origin, route, field).x, y: (c.y + GAP) as i64 },
        Origin::North => Point { x: spawn_point(origin, route, field).x, y: (c.y - GAP) as i64 },
        Origin::East => Point { x: (c.x + GAP) as i64, y: spawn_point(origin, route, field).y },
        Origin::West => Point { x: (c.x - GAP) as i64, y: spawn_point(origin, route, field).y },
    }
}

/// The course is a direction of length one if `dir` is.
pub proof fn lemma_course_is_wf(heading: int, dir: Direction)
    requires
        dir.wf(),
    ensures
        course(heading, dir).wf(),
{
    let way = course(heading, dir);
    if way != dir {
        assert(way.x * way.x + way.y * way.y == 1_000_000_000_000) by (nonlinear_arith)
            requires
                ((way.x == 1_000_000 || way.x == -1_000_000) && way.y == 0) || ((way.y
                    == 1_000_000 || way.y == -1_000_000) && way.x == 0),
        ;
    }
}

/// The arc of every turn starts where the lane enters the junction box,
/// and is tangent to the lane there: the entry point lies at the distance
/// of the radius from the centre of the arc, on the line through the
/// centre across the lane.
pub proof fn lemma_arc_starts_on_the_lane(origin: Origin, route: Route, field: Field)
    requires
        field.wf(),
        route != Route::Straight,
    ensures
        dist_sq(entry_point(origin, route, field), turn_center(origin, route, field))
            == turn_radius(route) * turn_radius(route),
        match origin {
            Origin::South | Origin::North => entry_point(origin, route, field).y == turn_center(
                origin,
                route,
                field,
            ).y,
            Origin::East | Origin::West => entry_point(origin, route, field).x == turn_center(
                origin,
                route,
                field,
            ).x,
        },
{
    let e = entry_point(origin, route, field);
    let t = turn_center(origin, route, field);
    let r = turn_radius(route);
    let dx = e.x - t.x;
    let dy = e.y - t.y;
    assert((dy == 0 && (dx == r || dx == -r)) || (dx == 0 && (dy == r || dy == -r)));
    assert(dx * dx + dy * dy == r * r) by (nonlinear_arith)
        requires
            (dy == 0 && (dx == r || dx == -r)) || (dx == 0 && (dy == r || dy == -r)),
    ;
}

/// The speed follows its target without passing it, and stays between
/// zero and the maximum if it started there.
pub proof fn lemma_ramp_stays_in_range(speed: int, target: int, max: int, dt: int)
    requires
        0 <= speed <= max,
        0 <= target <= max,
        0 <= dt,
    ensures
        0 <= ramped(speed, target, dt) <= max,
        speed <= ramped(speed, target, dt) <= target || target <= ramped(speed, target, dt)
            <= speed,
{
}

/// Braking is stronger than accelerating: over the same time a vehicle
/// sheds at least as much speed on the way down from `high` to `low` as it
/// gains on the way up from `low` to `high`.
pub proof fn lemma_braking_outpaces_acceleration(low: int, high: int, dt: int)
    requires
        0 <= low < high,
        0 <= dt,
    ensures
        high - ramped(high, low, dt) >= ramped(low, high, dt) - low,
{
    assert(ACCELERATION * dt <= BRAKING * dt) by (nonlinear_arith)
        requires
            0 <= dt,
            ACCELERATION <= BRAKING,
    ;
}

/// A point placed on a circle of radius `r` in the direction `(c, s)`
/// lies on the circle up to rounding: its distance from the centre is
/// within three thousandths of a unit of `r`.
pub proof fn lemma_scaled_offsets_keep_the_radius(r: int, c: int, s: int)
    requires
        16 <= r <= 250_000,
        ONE * ONE - NORM_SLACK <= c * c + s * s <= ONE * ONE + NORM_SLACK,
    ensures
        (r - 3) * (r - 3) <= scaled(r, s) * scaled(r, s) + scaled(r, c) * scaled(r, c) <= (r + 3)
            * (r + 3),
{
    let sq = 1_000_000_000_000int;
    let ms = if s >= 0 { s } else { -s };
    let mc = if c >= 0 { c } else { -c };
    let ps = r * ms;
    let pc = r * mc;
    let a = ps / 1_000_000;
    let b = pc / 1_000_000;
    let n = c * c + s * s;
    let rr = r * r;
    let sum = a * a + b * b;
    assert(sq - 4_000_000 <= n <= sq + 4_000_000);
    assert(scaled(r, s) == a || scaled(r, s) == -a);
    assert(scaled(r, c) == b || scaled(r, c) == -b);
    assert(scaled(r, s) * scaled(r, s) == a * a) by (nonlinear_arith)
        requires
            scaled(r, s) == a || scaled(r, s) == -a,
    ;
    assert(scaled(r, c) * scaled(r, c) == b * b) by (nonlinear_arith)
        requires
            scaled(r, c) == b || scaled(r, c) == -b,
    ;
    assert(0 <= ps && 0 <= pc) by (nonlinear_arith)
        requires
            r >= 0,
            ms >= 0,
            mc >= 0,
            ps == r * ms,
            pc == r * mc,
    ;
    let rn = rr * n;
    assert(ps * ps + pc * pc == rn) by (nonlinear_arith)
        requires
            ps == r * ms,
            pc == r * mc,
            ms == s || ms == -s,
            mc == c || mc == -c,
            n == c * c + s * s,
            rn == r * r * n,
    ;
    let ea = 1_000_000 * a;
    let eb = 1_000_000 * b;
    assert(0 <= ea <= ps < ea + 1_000_000);
    assert(0 <= eb <= pc < eb + 1_000_000);
    let xa = ea * ea;
    let xb = eb * eb;
    let ya = ps * ps;
    let yb = pc * pc;
    // From above: the floor never exceeds the exact offset.
    assert(xa <= ya && xb <= yb) by (nonlinear_arith)
        requires
            0 <= ea <= ps,
            0 <= eb <= pc,
            xa == ea * ea,
            xb == eb * eb,
            ya == ps * ps,
            yb == pc * pc,
    ;
    assert(xa + xb == 1_000_000_000_000 * sum) by (nonlinear_arith)
        requires
            ea == 1_000_000 * a,
            eb == 1_000_000 * b,
            xa == ea * ea,
            xb == eb * eb,
            sum == a * a + b * b,
    ;
    assert(rr * 999_996_000_000 <= rn <= rr * 1_000_004_000_000) by (nonlinear_arith)
        requires
            rr >= 0,
            rn == rr * n,
            999_996_000_000 <= n <= 1_000_004_000_000,
    ;
    assert(0 <= rr && rr * 4_000_000 <= r * 1_000_000_000_000) by (nonlinear_arith)
        requires
            rr == r * r,
            0 <= r <= 250_000,
    ;
    assert((r + 3) * (r + 3) == rr + 6 * r + 9 && (r - 3) * (r - 3) == rr - 6 * r + 9)
        by (nonlinear_arith)
        requires
            rr == r * r,
    ;
    assert(sum <= rr + r);
    // From below: the floor loses less than one on each axis.
    let ua = ea + 1_000_000;
    let ub = eb + 1_000_000;
    let za = ua * ua;
    let zb = ub * ub;
    assert(ya < za && yb < zb) by (nonlinear_arith)
        requires
            0 <= ps < ua,
            0 <= pc < ub,
            ya == ps * ps,
            yb == pc * pc,
            za == ua * ua,
            zb == ub * ub,
    ;
    assert(za + zb == 1_000_000_000_000 * (sum + 2 * (a + b) + 2)) by (nonlinear_arith)
        requires
            ua == 1_000_000 * a + 1_000_000,
            ub == 1_000_000 * b + 1_000_000,
            za == ua * ua,
            zb == ub * ub,
            sum == a * a + b * b,
    ;
    let m = ms + mc;
    assert(m * m <= 2 * n) by (nonlinear_arith)
        requires
            m == ms + mc,
            ms == s || ms == -s,
            mc == c || mc == -c,
            n == c * c + s * s,
    ;
    assert(m <= 1_500_000) by (nonlinear_arith)
        requires
            m * m <= 2 * n,
            n <= 1_000_004_000_000,
            0 <= m,
    ;
    assert(ps + pc <= r * 1_500_000) by (nonlinear_arith)
        requires
            ps == r * ms,
            pc == r * mc,
            m == ms + mc,
            m <= 1_500_000,
            r >= 0,
    ;
    assert(2 * (a + b) <= 3 * r);
    assert(rr - r < sum + 2 * (a + b) + 2);
}

/// The heading and the radius of a point placed on a circle in the
/// direction `(c, s)` are perpendicular up to rounding: their inner
/// product, which for two aligned vectors of these lengths is `r * ONE`,
/// stays below one and a half times `ONE`.
pub proof fn lemma_scaled_offsets_are_tangent(r: int, c: int, s: int)
    requires
        0 <= r,
        ONE * ONE - NORM_SLACK <= c * c + s * s <= ONE * ONE + NORM_SLACK,
    ensures
        -1_500_000 <= c * scaled(r, s) - s * scaled(r, c) <= 1_500_000,
{
    let ms = if s >= 0 { s } else { -s };
    let mc = if c >= 0 { c } else { -c };
    let ps = r * ms;
    let pc = r * mc;
    let a = ps / 1_000_000;
    let b = pc / 1_000_000;
    let n = c * c + s * s;
    let m = ms + mc;
    assert(0 <= ps && 0 <= pc) by (nonlinear_arith)
        requires
            r >= 0,
            ms >= 0,
            mc >= 0,
            ps == r * ms,
            pc == r * mc,
    ;
    assert(m * m <= 2 * n) by (nonlinear_arith)
        requires
            m == ms + mc,
            ms == s || ms == -s,
            mc == c || mc == -c,
            n == c * c + s * s,
    ;
    assert(m <= 1_500_000) by (nonlinear_arith)
        requires
            m * m <= 2 * n,
            n <= 1_000_004_000_000,
            0 <= m,
    ;
    let ra = ps - 1_000_000 * a;
    let rb = pc - 1_000_000 * b;
    assert(0 <= ra < 1_000_000 && 0 <= rb < 1_000_000);
    // In absolute values the product is `mc * a - ms * b` up to its sign.
    let d = mc * a - ms * b;
    assert(1_000_000 * d == ms * rb - mc * ra) by (nonlinear_arith)
        requires
            d == mc * a - ms * b,
            ra == r * ms - 1_000_000 * a,
            rb == r * mc - 1_000_000 * b,
    ;
    assert(-1_000_000 * mc <= ms * rb - mc * ra <= 1_000_000 * ms) by (nonlinear_arith)
        requires
            0 <= ra < 1_000_000,
            0 <= rb < 1_000_000,
            0 <= ms,
            0 <= mc,
    ;
    assert(-mc <= d <= ms);
    let e = c * scaled(r, s) - s * scaled(r, c);
    assert(e == d || e == -d) by (nonlinear_arith)
        requires
            e == c * scaled(r, s) - s * scaled(r, c),
            d == mc * a - ms * b,
            (s >= 0 && ms == s && scaled(r, s) == a) || (s < 0 && ms == -s && scaled(r, s) == -a),
            (c >= 0 && mc == c && scaled(r, c) == b) || (c < 0 && mc == -c && scaled(r, c) == -b),
    ;
}

impl Car {
    /// A tick takes a well-formed vehicle to a well-formed vehicle. In
    /// particular its speed stays between zero and its maximum.
    pub proof fn lemma_tick_keeps_wf(&self, dt: u64, field: &Field, dir: Direction)
        requires
            self.wf(field),
            field.wf(),
            dt <= MAX_TICK,
            dir.wf(),
        ensures
            self.after_tick(dt, field, dir).wf(field),
            0 <= self.after_tick(dt, field, dir).current_speed <= self.after_tick(
                dt,
                field,
                dir,
            ).max_speed,
            self.after_tick(dt, field, dir).max_speed == self.max_speed,
    {
        if self.phase != Phase::Exited {
            let speed = self.speed_after(dt);
            let step = self.step_length(dt);
            assert(0 <= speed * dt <= SPEED_LIMIT * MAX_TICK) by (nonlinear_arith)
                requires
                    0 <= speed <= SPEED_LIMIT,
                    0 <= dt <= MAX_TICK,
            ;
            let way = course(self.heading_after(dt, field), dir);
            lemma_course_is_wf(self.heading_after(dt, field), dir);
            lemma_scaled_is_bounded(step, way.x as int);
            lemma_scaled_is_bounded(step, way.y as int);
            match self.turn_now(field) {
                TurnState::Turning { radius, .. } => {
                    lemma_scaled_is_bounded(radius as int, way.x as int);
                    lemma_scaled_is_bounded(radius as int, way.y as int);
                },
                TurnState::NotTurning => {},
            }
        }
    }

    /// A vehicle never goes back to a phase it has left.
    pub proof fn lemma_phase_only_advances(&self, dt: u64, field: &Field, dir: Direction)
        ensures
            phase_rank(self.phase) <= phase_rank(self.after_tick(dt, field, dir).phase),
    {
    }

    /// The arc is fixed once: it is planned on the tick that finds a
    /// turning vehicle inside the junction box for the first time, and no
    /// later tick changes it.
    pub proof fn lemma_arc_is_frozen(&self, dt: u64, field: &Field, dir: Direction)
        requires
            self.wf(field),
        ensures
            self.phase == Phase::InIntersection ==> self.after_tick(dt, field, dir).turn
                == self.turn,
            self.turn != TurnState::NotTurning ==> self.after_tick(dt, field, dir).turn
                == self.turn,
            self.entering(field) ==> self.after_tick(dt, field, dir).turn == planned_turn(
                self.origin,
                self.route,
                *field,
            ),
            self.phase == Phase::Approaching && !self.entering(field) ==> self.after_tick(
                dt,
                field,
                dir,
            ).turn == TurnState::NotTurning,
    {
    }

    /// On its arc a vehicle keeps its distance from the centre of the arc:
    /// after every tick that moves it along the arc it lies within three
    /// thousandths of a unit of the radius from the centre, and its heading
    /// is perpendicular to the radius up to rounding.
    pub proof fn lemma_arc_keeps_radius(&self, dt: u64, field: &Field, dir: Direction)
        requires
            self.wf(field),
            field.wf(),
            dir.wf(),
            self.phase != Phase::Exited,
            self.on_arc(field),
        ensures
            self.turn_now(field) matches TurnState::Turning { center, radius, clockwise } && {
                let after = self.after_tick(dt, field, dir);
                let way = course(after.rotation as int, dir);
                &&& after.turn == self.turn_now(field)
                &&& (radius - 3) * (radius - 3) <= dist_sq(after.cord, center) <= (radius + 3) * (
                radius + 3)
                &&& -1_500_000 <= way.x * (after.cord.x - center.x) + way.y * (after.cord.y
                    - center.y) <= 1_500_000
            },
    {
        match self.turn_now(field) {
            TurnState::Turning { center, radius, clockwise } => {
                let r = radius as int;
                let after = self.after_tick(dt, field, dir);
                let way = course(after.rotation as int, dir);
                lemma_course_is_wf(after.rotation as int, dir);
                let c = way.x as int;
                let s = way.y as int;
                lemma_scaled_is_bounded(r, c);
                lemma_scaled_is_bounded(r, s);
                lemma_scaled_offsets_keep_the_radius(r, c, s);
                lemma_scaled_offsets_are_tangent(r, c, s);
                let ox = after.cord.x - center.x;
                let oy = after.cord.y - center.y;
                let along = scaled(r, s);
                let across = scaled(r, c);
                assert((ox == along && oy == -across) || (ox == -along && oy == across));
                assert(ox * ox + oy * oy == along * along + across * across) by (nonlinear_arith)
                    requires
                        (ox == along && oy == -across) || (ox == -along && oy == across),
                ;
                let dot = c * ox + s * oy;
                let e = c * along - s * across;
                assert(dot == e || dot == -e) by (nonlinear_arith)
                    requires
                        dot == c * ox + s * oy,
                        e == c * along - s * across,
                        (ox == along && oy == -across) || (ox == -along && oy == across),
                ;
            },
            TurnState::NotTurning => {},
        }
    }

    /// A vehicle that has not begun to turn keeps to its lane: as long as
    /// it is not on its arc, a tick takes it the length of the step further
    /// along the axis of its lane, and leaves its heading as it is.
    pub proof fn lemma_lane_is_kept(&self, dt: u64, field: &Field, dir: Direction)
        requires
            self.phase != Phase::Exited,
            self.rotation == spawn_heading(self.origin),
            !self.on_arc(field),
        ensures
            self.after_tick(dt, field, dir).rotation == self.rotation,
            self.after_tick(dt, field, dir).cord == match self.origin {
                Origin::South => Point {
                    x: self.cord.x,
                    y: (self.cord.y - self.step_length(dt)) as i64,
                },
                Origin::North => Point {
                    x: self.cord.x,
                    y: (self.cord.y + self.step_length(dt)) as i64,
                },
                Origin::East => Point {
                    x: (self.cord.x - self.step_length(dt)) as i64,
                    y: self.cord.y,
                },
                Origin::West => Point {
                    x: (self.cord.x + self.step_length(dt)) as i64,
                    y: self.cord.y,
                },
            },
    {
        let step = self.step_length(dt);
        assert(step * 1_000_000 / 1_000_000 == step);
        assert(step * 0 == 0) by (nonlinear_arith);
        assert(scaled(step, ONE as int) == step);
        assert(scaled(step, -ONE as int) == -step);
        assert(scaled(step, 0) == 0);
    }

    /// A vehicle at rest that is told to stay at rest does not move on its
    /// lane.
    pub proof fn lemma_standing_vehicle_stays(&self, dt: u64, field: &Field, dir: Direction)
        requires
            self.current_speed == 0,
            self.target_speed == 0,
            !self.on_arc(field),
        ensures
            self.after_tick(dt, field, dir).cord == self.cord,
            self.after_tick(dt, field, dir).current_speed == 0,
    {
        assert(BRAKING * dt >= 0) by (nonlinear_arith)
            requires
                dt >= 0,
                BRAKING >= 0,
        ;
        assert(self.speed_after(dt) == 0);
        assert(self.step_length(dt) == 0) by (nonlinear_arith)
            requires
                self.step_length(dt) == self.speed_after(dt) * dt / (SECOND as int),
                self.speed_after(dt) == 0,
        ;
        let way = course(self.heading_after(dt, field), dir);
        assert(scaled(0, way.x as int) == 0 && scaled(0, way.y as int) == 0) by (nonlinear_arith)
            requires
                scaled(0, way.x as int) == if way.x >= 0 {
                    0 * way.x / (ONE as int)
                } else {
                    -(0 * (-way.x) / (ONE as int))
                },
                scaled(0, way.y as int) == if way.y >= 0 {
                    0 * way.y / (ONE as int)
                } else {
                    -(0 * (-way.y) / (ONE as int))
                },
                ONE == 1_000_000,
        ;
    }
}

} // verus!
