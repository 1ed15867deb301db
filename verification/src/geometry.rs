//! Points, axis-aligned rectangles, direction vectors and the playing field.

use vstd::prelude::*;
use crate::units::{ONE, NORM_SLACK, GAP, MIN_FIELD, MAX_FIELD, EXIT_MARGIN, COORD_LIMIT};

verus! {

/// A position on the field.
#[derive(Clone, Copy, Debug, PartialEq, Eq, Structural)]
pub struct Point {
    pub x: i64,
    pub y: i64,
}

/// Squared distance between two points.
pub open spec fn dist_sq(a: Point, b: Point) -> int {
    (a.x - b.x) * (a.x - b.x) + (a.y - b.y) * (a.y - b.y)
}

impl Point {
    /// Whether both coordinates lie within the bound that keeps squared
    /// distances representable.
    pub open spec fn in_reach(&self) -> bool {
        -COORD_LIMIT <= self.x <= COORD_LIMIT && -COORD_LIMIT <= self.y <= COORD_LIMIT
    }

    /// Squared distance to `other`, exact.
    pub fn distance_squared(&self, other: &Point) -> (d: i128)
        requires
            self.in_reach(),
            other.in_reach(),
        ensures
            d == dist_sq(*self, *other),
    {
        let dx: i128 = self.x as i128 - other.x as i128;
        let dy: i128 = self.y as i128 - other.y as i128;
        assert(0 <= dx * dx <= 4 * COORD_LIMIT * COORD_LIMIT) by (nonlinear_arith)
            requires
                -2 * COORD_LIMIT <= dx <= 2 * COORD_LIMIT,
        ;
        assert(0 <= dy * dy <= 4 * COORD_LIMIT * COORD_LIMIT) by (nonlinear_arith)
            requires
                -2 * COORD_LIMIT <= dy <= 2 * COORD_LIMIT,
        ;
        dx * dx + dy * dy
    }
}

/// An axis-aligned rectangle, edges included.
#[derive(Clone, Copy, Debug, PartialEq, Eq, Structural)]
pub struct Rect {
    pub left: i64,
    pub top: i64,
    pub right: i64,
    pub bottom: i64,
}

impl Rect {
    /// Two rectangles meet when they share at least one point; touching
    /// edges count.
    pub open spec fn meets(&self, other: &Rect) -> bool {
        &&& self.left <= other.right
        &&& other.left <= self.right
        &&& self.top <= other.bottom
        &&& other.top <= self.bottom
    }

    /// Whether the two rectangles share at least one point.
    pub fn overlaps(&self, other: &Rect) -> (hit: bool)
        ensures
            hit == self.meets(other),
    {
        self.left <= other.right && other.left <= self.right && self.top <= other.bottom
            && other.top <= self.bottom
    }
}

/// A direction in the plane as a fixed-point vector of length one:
/// `(x, y)` stands for `(x / ONE, y / ONE)`.
#[derive(Clone, Copy, Debug, PartialEq, Eq, Structural)]
pub struct Direction {
    pub x: i64,
    pub y: i64,
}

/// `len * c / ONE`, rounded towards zero: the share of a length `len` that
/// falls on an axis along which the direction has component `c`.
pub open spec fn scaled(len: int, c: int) -> int {
    if c >= 0 {
        len * c / (ONE as int)
    } else {
        -(len * (-c) / (ONE as int))
    }
}

impl Direction {
    /// A direction is well formed when its length is one up to rounding.
    pub open spec fn wf(&self) -> bool {
        &&& -ONE - 2 <= self.x <= ONE + 2
        &&& -ONE - 2 <= self.y <= ONE + 2
        &&& ONE * ONE - NORM_SLACK <= self.x * self.x + self.y * self.y <= ONE * ONE
            + NORM_SLACK
    }

    /// Builds a direction from its two components, if they form a vector of
    /// length one up to rounding.
    pub fn new(x: i64, y: i64) -> (dir: Option<Direction>)
        ensures
            dir == if (Direction { x, y }).wf() {
                Some(Direction { x, y })
            } else {
                None
            },
    {
        if x < -ONE - 2 || x > ONE + 2 || y < -ONE - 2 || y > ONE + 2 {
            return None;
        }
        assert(0 <= x * x <= (ONE + 2) * (ONE + 2)) by (nonlinear_arith)
            requires
                -ONE - 2 <= x <= ONE + 2,
        ;
        assert(0 <= y * y <= (ONE + 2) * (ONE + 2)) by (nonlinear_arith)
            requires
                -ONE - 2 <= y <= ONE + 2,
        ;
        let norm: i64 = x * x + y * y;
        if ONE * ONE - NORM_SLACK <= norm && norm <= ONE * ONE + NORM_SLACK {
            Some(Direction { x, y })
        } else {
            None
        }
    }

    /// The unit vector along the heading of travel towards growing `x`.
    pub fn east() -> (dir: Direction)
        ensures
            dir == (Direction { x: ONE, y: 0 }),
            dir.wf(),
    {
        Direction { x: ONE, y: 0 }
    }

    /// The unit vector towards growing `y`.
    pub fn south() -> (dir: Direction)
        ensures
            dir == (Direction { x: 0, y: ONE }),
            dir.wf(),
    {
        Direction { x: 0, y: ONE }
    }

    /// The unit vector towards shrinking `x`.
    pub fn west() -> (dir: Direction)
        ensures
            dir == (Direction { x: (-ONE) as i64, y: 0 }),
            dir.wf(),
    {
        Direction { x: -ONE, y: 0 }
    }

    /// The unit vector towards shrinking `y`.
    pub fn north() -> (dir: Direction)
        ensures
            dir == (Direction { x: 0, y: (-ONE) as i64 }),
            dir.wf(),
    {
        Direction { x: 0, y: -ONE }
    }
}

/// The share of a length on an axis is at most the length, up to the two
/// millionths by which a component of a direction may exceed `ONE`.
pub proof fn lemma_scaled_is_bounded(len: int, c: int)
    requires
        0 <= len,
        -ONE - 2 <= c <= ONE + 2,
    ensures
        -len - len / 500_000 <= scaled(len, c) <= len + len / 500_000,
{
    let mag = if c >= 0 { c } else { -c };
    assert(0 <= len * mag <= len * 1_000_002) by (nonlinear_arith)
        requires
            0 <= len,
            0 <= mag <= 1_000_002,
    ;
}

/// Scales the length `len` by the direction component `c`.
pub fn scale(len: i64, c: i64) -> (part: i64)
    requires
        0 <= len <= COORD_LIMIT,
        -ONE - 2 <= c <= ONE + 2,
    ensures
        part == scaled(len as int, c as int),
        -len - len / 500_000 <= part <= len + len / 500_000,
{
    let mag: i64 = if c >= 0 {
        c
    } else {
        -c
    };
    assert(0 <= len * mag <= COORD_LIMIT * (ONE + 2)) by (nonlinear_arith)
        requires
            0 <= len <= COORD_LIMIT,
            0 <= mag <= ONE + 2,
    ;
    assert(len * mag <= len * 1_000_002) by (nonlinear_arith)
        requires
            0 <= len,
            0 <= mag <= 1_000_002,
    ;
    let part: i64 = len * mag / ONE;
    assert(part <= len * 1_000_002 / 1_000_000);
    if c >= 0 {
        part
    } else {
        -part
    }
}

/// The rectangular field with the junction box at its centre. The origin is
/// the top left corner and `y` grows downwards.
#[derive(Clone, Copy, Debug, PartialEq, Eq, Structural)]
pub struct Field {
    pub width: i64,
    pub height: i64,
}

impl Field {
    /// A field is well formed when the junction box fits in it and its sides
    /// stay below the largest supported size.
    pub open spec fn wf(&self) -> bool {
        &&& MIN_FIELD <= self.width <= MAX_FIELD
        &&& MIN_FIELD <= self.height <= MAX_FIELD
    }

    /// The centre of the field, which is the centre of the junction.
    pub open spec fn mid(&self) -> Point {
        Point { x: (self.width / 2) as i64, y: (self.height / 2) as i64 }
    }

    /// Whether `p` lies strictly inside the junction box.
    pub open spec fn in_box(&self, p: Point) -> bool {
        &&& self.mid().x - GAP < p.x < self.mid().x + GAP
        &&& self.mid().y - GAP < p.y < self.mid().y + GAP
    }

    /// Whether `p` lies on the field or within the exit margin around it.
    pub open spec fn holds(&self, p: Point) -> bool {
        &&& -EXIT_MARGIN < p.x < self.width + EXIT_MARGIN
        &&& -EXIT_MARGIN < p.y < self.height + EXIT_MARGIN
    }

    /// Builds a field of the given size; sizes that cannot hold the junction
    /// box, or that exceed the largest supported size, are rejected.
    pub fn new(width: i64, height: i64) -> (field: Option<Field>)
        ensures
            field == if (Field { width, height }).wf() {
                Some(Field { width, height })
            } else {
                None
            },
    {
        if MIN_FIELD <= width && width <= MAX_FIELD && MIN_FIELD <= height && height <= MAX_FIELD {
            Some(Field { width, height })
        } else {
            None
        }
    }

    /// The centre of the junction.
    pub fn center(&self) -> (c: Point)
        requires
            self.wf(),
        ensures
            c == self.mid(),
    {
        Point { x: self.width / 2, y: self.height / 2 }
    }

    /// Whether `p` lies strictly inside the junction box.
    pub fn inside_box(&self, p: &Point) -> (inside: bool)
        requires
            self.wf(),
        ensures
            inside == self.in_box(*p),
    {
        let c: Point = self.center();
        c.x - GAP < p.x && p.x < c.x + GAP && c.y - GAP < p.y && p.y < c.y + GAP
    }

    /// Whether `p` lies on the field or within the exit margin around it.
    pub fn contains(&self, p: &Point) -> (inside: bool)
        requires
            self.wf(),
        ensures
            inside == self.holds(*p),
    {
        -EXIT_MARGIN < p.x && p.x < self.width + EXIT_MARGIN && -EXIT_MARGIN < p.y && p.y
            < self.height + EXIT_MARGIN
    }
}

} // verus!
