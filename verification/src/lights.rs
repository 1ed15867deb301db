//! The adaptive traffic light: one green approach at a time, chosen by
//! demand, with an all-red interval between any two greens.

use vstd::prelude::*;
use crate::units::SECOND;

verus! {

/// Time the light stays all red between two greens.
pub const CLEARING_TIME: u64 = SECOND / 2;

/// Green time granted to an approach with no vehicle waiting.
pub const SHORT_GREEN: u64 = SECOND / 2;

/// Green time granted to an approach with vehicles waiting.
pub const MEDIUM_GREEN: u64 = SECOND;

/// Green time granted to an approach that is more than two fifths full.
pub const LONG_GREEN: u64 = 2 * SECOND;

/// A stream of traffic, named by its direction of travel on the screen.
/// The order of the variants is the order in which ties are broken.
#[derive(Clone, Copy, Debug, PartialEq, Eq, Structural)]
pub enum Approach {
    Down,
    Left,
    Up,
    Right,
}

/// What the light shows: green for one approach, or red for all.
#[derive(Clone, Copy, Debug, PartialEq, Eq, Structural)]
pub enum Signal {
    Green(Approach),
    AllRed,
}

/// The name under which a signal is shown.
pub open spec fn label_of(signal: Signal) -> Seq<char> {
    match signal {
        Signal::Green(Approach::Down) => "down"@,
        Signal::Green(Approach::Left) => "left"@,
        Signal::Green(Approach::Up) => "up"@,
        Signal::Green(Approach::Right) => "right"@,
        Signal::AllRed => "ALL_RED"@,
    }
}

impl Signal {
    /// The name under which the signal is shown: the approach that is
    /// green, in lower case, or `ALL_RED`.
    pub fn label(&self) -> (name: &'static str)
        ensures
            name@ == label_of(*self),
    {
        match self {
            Signal::Green(Approach::Down) => "down",
            Signal::Green(Approach::Left) => "left",
            Signal::Green(Approach::Up) => "up",
            Signal::Green(Approach::Right) => "right",
            Signal::AllRed => "ALL_RED",
        }
    }
}

/// The number of vehicles waiting on each approach.
pub ghost struct Demand {
    pub down: nat,
    pub left: nat,
    pub up: nat,
    pub right: nat,
}

/// The state of a light as contracts see it.
pub ghost struct LightModel {
    pub state: Signal,
    pub pending: Approach,
    pub timer: u64,
    pub clearing: bool,
}

/// One tick of input to the light.
pub ghost struct Tick {
    pub dt: u64,
    pub demand: Demand,
    pub capacity: nat,
}

/// The adaptive traffic light.
#[derive(Clone, Copy, Debug)]
pub struct TrafficLight {
    state: Signal,
    next_state: Approach,
    timer: u64,
    clearing: bool,
}

/// Place of an approach in the order in which ties are broken.
pub open spec fn rank(a: Approach) -> int {
    match a {
        Approach::Down => 0,
        Approach::Left => 1,
        Approach::Up => 2,
        Approach::Right => 3,
    }
}

/// The number of vehicles waiting on `a`.
pub open spec fn waiting(a: Approach, d: Demand) -> nat {
    match a {
        Approach::Down => d.down,
        Approach::Left => d.left,
        Approach::Up => d.up,
        Approach::Right => d.right,
    }
}

/// Whether `pick` is to be served before `other`: `other` is green now and
/// so not a candidate, or it has fewer vehicles waiting, or as many and a
/// later place in the order.
pub open spec fn outranks(pick: Approach, other: Approach, current: Signal, d: Demand) -> bool {
    ||| other == pick
    ||| current == Signal::Green(other)
    ||| waiting(other, d) < waiting(pick, d)
    ||| (waiting(other, d) == waiting(pick, d) && rank(pick) < rank(other))
}

/// Whether `pick` is the approach to serve next: it is not the one that is
/// green now, and it outranks every other.
pub open spec fn is_priority(pick: Approach, current: Signal, d: Demand) -> bool {
    &&& current != Signal::Green(pick)
    &&& outranks(pick, Approach::Down, current, d)
    &&& outranks(pick, Approach::Left, current, d)
    &&& outranks(pick, Approach::Up, current, d)
    &&& outranks(pick, Approach::Right, current, d)
}

/// The approach to serve next.
pub open spec fn priority(current: Signal, d: Demand) -> Approach {
    if is_priority(Approach::Down, current, d) {
        Approach::Down
    } else if is_priority(Approach::Left, current, d) {
        Approach::Left
    } else if is_priority(Approach::Up, current, d) {
        Approach::Up
    } else {
        Approach::Right
    }
}

/// The green time for an approach with `count` vehicles waiting where
/// `capacity` fit.
pub open spec fn green_time(count: nat, capacity: nat) -> u64 {
    if 5 * count > 2 * capacity {
        LONG_GREEN
    } else if count > 0 {
        MEDIUM_GREEN
    } else {
        SHORT_GREEN
    }
}

/// What is left of `timer` after `dt`.
pub open spec fn counted_down(timer: u64, dt: u64) -> u64 {
    if dt >= timer {
        0
    } else {
        (timer - dt) as u64
    }
}

/// The light after one tick. While time is left nothing but the timer
/// changes. When a green runs out the light picks the next approach and
/// turns all red for `CLEARING_TIME`. When the clearing runs out the picked
/// approach turns green, for a time that grows with its demand.
pub open spec fn stepped(m: LightModel, t: Tick) -> LightModel {
    let left = counted_down(m.timer, t.dt);
    if left > 0 {
        LightModel { timer: left, ..m }
    } else if m.clearing {
        LightModel {
            state: Signal::Green(m.pending),
            pending: m.pending,
            timer: green_time(waiting(m.pending, t.demand), t.capacity),
            clearing: false,
        }
    } else {
        LightModel {
            state: Signal::AllRed,
            pending: priority(m.state, t.demand),
            timer: CLEARING_TIME,
            clearing: true,
        }
    }
}

/// The light as it is switched on: green for `Down`, one second to go.
pub open spec fn initial() -> LightModel {
    LightModel {
        state: Signal::Green(Approach::Down),
        pending: Approach::Left,
        timer: SECOND,
        clearing: false,
    }
}

impl LightModel {
    /// The states a light can be in: all red exactly while clearing, and
    /// never out of time.
    pub open spec fn wf(&self) -> bool {
        &&& self.clearing <==> self.state == Signal::AllRed
        &&& self.timer > 0
    }
}

/// The light after the ticks of `ticks`, one after the other.
pub open spec fn run(m: LightModel, ticks: Seq<Tick>) -> LightModel
    decreases ticks.len(),
{
    if ticks.len() == 0 {
        m
    } else {
        stepped(run(m, ticks.drop_last()), ticks.last())
    }
}

/// Among the approaches there is exactly one to serve next, and `priority`
/// names it: it is never the approach that is green now, no other candidate
/// has more vehicles waiting, and none with as many comes earlier in the
/// order.
pub proof fn lemma_priority_is_the_one_choice(current: Signal, d: Demand)
    ensures
        is_priority(priority(current, d), current, d),
        forall|a: Approach| is_priority(a, current, d) ==> a == priority(current, d),
{
}

/// The choice of the next approach depends on the demand only through the
/// numbers waiting on the candidates: with the same light and the same
/// numbers it is the same.
pub proof fn lemma_priority_is_repeatable(current: Signal, d1: Demand, d2: Demand)
    requires
        forall|a: Approach| current != Signal::Green(a) ==> waiting(a, d1) == waiting(a, d2),
    ensures
        priority(current, d1) == priority(current, d2),
{
    lemma_priority_is_the_one_choice(current, d1);
    lemma_priority_is_the_one_choice(current, d2);
    let p = priority(current, d1);
    assert(waiting(Approach::Down, d1) == waiting(Approach::Down, d2) || current == Signal::Green(
        Approach::Down,
    ));
    assert(waiting(Approach::Left, d1) == waiting(Approach::Left, d2) || current == Signal::Green(
        Approach::Left,
    ));
    assert(waiting(Approach::Up, d1) == waiting(Approach::Up, d2) || current == Signal::Green(
        Approach::Up,
    ));
    assert(waiting(Approach::Right, d1) == waiting(Approach::Right, d2) || current
        == Signal::Green(Approach::Right));
    assert(is_priority(p, current, d2));
}

/// A tick takes a well-formed light to a well-formed light.
pub proof fn lemma_step_keeps_wf(m: LightModel, t: Tick)
    requires
        m.wf(),
    ensures
        stepped(m, t).wf(),
{
}

/// No tick takes the light from green for one approach to green for
/// another: after a tick a green light is still green for the same
/// approach, or all red.
pub proof fn lemma_green_never_jumps(m: LightModel, t: Tick, a: Approach, b: Approach)
    requires
        m.wf(),
        m.state == Signal::Green(a),
        stepped(m, t).state == Signal::Green(b),
    ensures
        a == b,
{
}

/// A green that runs out is followed by an all-red interval of
/// `CLEARING_TIME`, before which the next approach is picked.
pub proof fn lemma_green_ends_in_clearing(m: LightModel, t: Tick)
    requires
        m.wf(),
        !m.clearing,
        t.dt >= m.timer,
    ensures
        stepped(m, t).state == Signal::AllRed,
        stepped(m, t).clearing,
        stepped(m, t).timer == CLEARING_TIME,
        CLEARING_TIME > 0,
        stepped(m, t).pending == priority(m.state, t.demand),
        m.state != Signal::Green(stepped(m, t).pending),
{
    lemma_priority_is_the_one_choice(m.state, t.demand);
}

/// The all-red interval cannot be cut short: while less time has passed
/// than was left, the light stays all red and only its timer moves.
pub proof fn lemma_clearing_holds_until_time_is_up(m: LightModel, t: Tick)
    requires
        m.wf(),
        m.clearing,
        t.dt < m.timer,
    ensures
        stepped(m, t) == (LightModel { timer: (m.timer - t.dt) as u64, ..m }),
        stepped(m, t).state == Signal::AllRed,
{
}

/// Any run of ticks takes a well-formed light to a well-formed light.
pub proof fn lemma_run_keeps_wf(m: LightModel, ticks: Seq<Tick>)
    requires
        m.wf(),
    ensures
        run(m, ticks).wf(),
    decreases ticks.len(),
{
    if ticks.len() > 0 {
        lemma_run_keeps_wf(m, ticks.drop_last());
        lemma_step_keeps_wf(run(m, ticks.drop_last()), ticks.last());
    }
}

/// Running one tick more is running the ticks before it and then stepping.
pub proof fn lemma_run_unfolds(m: LightModel, ticks: Seq<Tick>, n: int)
    requires
        0 <= n < ticks.len(),
    ensures
        run(m, ticks.take(n + 1)) == stepped(run(m, ticks.take(n)), ticks[n]),
{
    assert(ticks.take(n + 1).drop_last() =~= ticks.take(n));
    assert(ticks.take(n + 1).last() == ticks[n]);
}

/// In any run, between a moment at which the light is green for one
/// approach and a later moment at which it is green for another, there is
/// a moment at which it is all red.
pub proof fn lemma_greens_are_parted_by_red(
    m: LightModel,
    ticks: Seq<Tick>,
    i: int,
    j: int,
    a: Approach,
    b: Approach,
) -> (k: int)
    requires
        m.wf(),
        0 <= i < j <= ticks.len(),
        run(m, ticks.take(i)).state == Signal::Green(a),
        run(m, ticks.take(j)).state == Signal::Green(b),
        a != b,
    ensures
        i < k < j,
        run(m, ticks.take(k)).state == Signal::AllRed,
    decreases j - i,
{
    let before = run(m, ticks.take(j - 1));
    lemma_run_unfolds(m, ticks, j - 1);
    lemma_run_keeps_wf(m, ticks.take(j - 1));
    match before.state {
        Signal::AllRed => j - 1,
        Signal::Green(c) => {
            lemma_green_never_jumps(before, ticks[j - 1], c, b);
            lemma_greens_are_parted_by_red(m, ticks, i, j - 1, a, b)
        },
    }
}

/// The time that passes during the ticks `from`, ..., `to - 1` of `ticks`.
pub open spec fn elapsed(ticks: Seq<Tick>, from: int, to: int) -> int
    decreases to - from,
{
    if from >= to {
        0
    } else {
        ticks[from].dt + elapsed(ticks, from + 1, to)
    }
}

/// No time is negative.
pub proof fn lemma_elapsed_is_not_negative(ticks: Seq<Tick>, from: int, to: int)
    ensures
        elapsed(ticks, from, to) >= 0,
    decreases to - from,
{
    if from < to {
        lemma_elapsed_is_not_negative(ticks, from + 1, to);
    }
}

/// In any run, a light that is all red at one moment and green at a later
/// one has let at least the time on its timer pass in between.
pub proof fn lemma_red_serves_its_time(m: LightModel, ticks: Seq<Tick>, k: int, j: int)
    requires
        m.wf(),
        0 <= k < j <= ticks.len(),
        run(m, ticks.take(k)).state == Signal::AllRed,
        run(m, ticks.take(j)).state != Signal::AllRed,
    ensures
        elapsed(ticks, k, j) >= run(m, ticks.take(k)).timer,
    decreases j - k,
{
    let now = run(m, ticks.take(k));
    lemma_run_keeps_wf(m, ticks.take(k));
    lemma_run_unfolds(m, ticks, k);
    lemma_elapsed_is_not_negative(ticks, k + 1, j);
    if ticks[k].dt < now.timer {
        lemma_clearing_holds_until_time_is_up(now, ticks[k]);
        lemma_red_serves_its_time(m, ticks, k + 1, j);
    }
}

/// In any run, between a moment at which the light is green for one
/// approach and a later moment at which it is green for another, at least
/// `CLEARING_TIME` passes: the all-red interval is never skipped and never
/// shortened.
pub proof fn lemma_greens_are_parted_by_clearing_time(
    m: LightModel,
    ticks: Seq<Tick>,
    i: int,
    j: int,
    a: Approach,
    b: Approach,
)
    requires
        m.wf(),
        0 <= i < j <= ticks.len(),
        run(m, ticks.take(i)).state == Signal::Green(a),
        run(m, ticks.take(j)).state == Signal::Green(b),
        a != b,
    ensures
        elapsed(ticks, i, j) >= CLEARING_TIME,
    decreases j - i,
{
    let now = run(m, ticks.take(i));
    let next = run(m, ticks.take(i + 1));
    lemma_run_keeps_wf(m, ticks.take(i));
    lemma_run_unfolds(m, ticks, i);
    match next.state {
        Signal::Green(c) => {
            lemma_green_never_jumps(now, ticks[i], a, c);
            lemma_greens_are_parted_by_clearing_time(m, ticks, i + 1, j, a, b);
        },
        Signal::AllRed => {
            lemma_green_ends_in_clearing(now, ticks[i]);
            lemma_red_serves_its_time(m, ticks, i + 1, j);
        },
    }
}

impl View for TrafficLight {
    type V = LightModel;

    closed spec fn view(&self) -> LightModel {
        LightModel {
            state: self.state,
            pending: self.next_state,
            timer: self.timer,
            clearing: self.clearing,
        }
    }
}

impl TrafficLight {
    /// A light that has just been switched on.
    pub fn new() -> (light: TrafficLight)
        ensures
            light@ == initial(),
            light@.wf(),
    {
        TrafficLight {
            state: Signal::Green(Approach::Down),
            next_state: Approach::Left,
            timer: SECOND,
            clearing: false,
        }
    }

    /// Advances the light by `dt` microseconds, given the number of vehicles
    /// waiting on each approach and the number that fit on one.
    pub fn update_with_congestion(
        &mut self,
        dt: u64,
        up_count: usize,
        down_count: usize,
        left_count: usize,
        right_count: usize,
        capacity: usize,
        _is_intersection_clear: bool,
    )
        ensures
            final(self)@ == stepped(
                old(self)@,
                Tick {
                    dt,
                    demand: Demand {
                        down: down_count as nat,
                        left: left_count as nat,
                        up: up_count as nat,
                        right: right_count as nat,
                    },
                    capacity: capacity as nat,
                },
            ),
            old(self)@.wf() ==> final(self)@.wf(),
    {
        if self.timer > 0 {
            self.timer = if dt >= self.timer {
                0
            } else {
                self.timer - dt
            };
        }
        if self.clearing {
            if self.timer == 0 {
                self.state = Signal::Green(self.next_state);
                self.clearing = false;
                let count: usize = match self.next_state {
                    Approach::Up => up_count,
                    Approach::Down => down_count,
                    Approach::Left => left_count,
                    Approach::Right => right_count,
                };
                self.timer = if 5 * (count as u128) > 2 * (capacity as u128) {
                    LONG_GREEN
                } else if count > 0 {
                    MEDIUM_GREEN
                } else {
                    SHORT_GREEN
                };
            }
        } else {
            if self.timer == 0 {
                self.next_state = self.calculate_priority(
                    up_count,
                    down_count,
                    left_count,
                    right_count,
                );
                self.state = Signal::AllRed;
                self.clearing = true;
                self.timer = CLEARING_TIME;
            }
        }
    }

    /// Picks the approach to serve next: among those that are not green
    /// now, the one with the most vehicles waiting, the earliest in the
    /// order of `Approach` among equals.
    fn calculate_priority(&self, up: usize, down: usize, left: usize, right: usize) -> (pick:
        Approach)
        ensures
            is_priority(
                pick,
                self@.state,
                Demand { down: down as nat, left: left as nat, up: up as nat, right: right as nat },
            ),
            pick == priority(
                self@.state,
                Demand { down: down as nat, left: left as nat, up: up as nat, right: right as nat },
            ),
    {
        let order: [Approach; 4] = [Approach::Down, Approach::Left, Approach::Up, Approach::Right];
        let counts: [usize; 4] = [down, left, up, right];
        let ghost d = Demand {
            down: down as nat,
            left: left as nat,
            up: up as nat,
            right: right as nat,
        };
        let mut best: usize = if self.state == Signal::Green(Approach::Down) {
            1
        } else {
            0
        };
        let mut i: usize = best + 1;
        assert forall|k: int| 0 <= k < 4 implies rank(#[trigger] order@[k]) == k && waiting(
            order@[k],
            d,
        ) == counts@[k] by {
            if k == 0 {
            } else if k == 1 {
            } else if k == 2 {
            } else {
            }
        }
        while i < 4
            invariant
                best < i <= 4,
                forall|k: int|
                    0 <= k < 4 ==> rank(#[trigger] order@[k]) == k && waiting(order@[k], d)
                        == counts@[k],
                self@.state != Signal::Green(order@[best as int]),
                forall|k: int|
                    0 <= k < i ==> outranks(
                        order@[best as int],
                        #[trigger] order@[k],
                        self@.state,
                        d,
                    ),
            decreases 4 - i,
        {
            if self.state != Signal::Green(order[i]) && counts[i] > counts[best] {
                best = i;
            }
            i = i + 1;
        }
        assert(outranks(order@[best as int], order@[0], self@.state, d));
        assert(outranks(order@[best as int], order@[1], self@.state, d));
        assert(outranks(order@[best as int], order@[2], self@.state, d));
        assert(outranks(order@[best as int], order@[3], self@.state, d));
        order[best]
    }

    /// Whether the light is in a state that it can reach: all red exactly
    /// while clearing, and not out of time.
    pub fn is_valid(&self) -> (valid: bool)
        ensures
            valid == self@.wf(),
    {
        let red: bool = match self.state {
            Signal::AllRed => true,
            Signal::Green(_) => false,
        };
        self.clearing == red && self.timer > 0
    }

    /// What the light shows.
    pub fn get_state(&self) -> (state: Signal)
        ensures
            state == self@.state,
    {
        self.state
    }

    /// The time left until the light changes.
    pub fn remaining(&self) -> (timer: u64)
        ensures
            timer == self@.timer,
    {
        self.timer
    }

    /// Whether the light is in its all-red interval.
    pub fn is_clearing(&self) -> (clearing: bool)
        ensures
            clearing == self@.clearing,
    {
        self.clearing
    }

    /// The approach that turns green when the all-red interval ends.
    pub fn pending(&self) -> (next: Approach)
        ensures
            next == self@.pending,
    {
        self.next_state
    }
}

} // verus!
