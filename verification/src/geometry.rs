//! Plane vectors in the simulator's exact integer scale.
//!
//! A coordinate counts quarter-units: four of them make one world unit, so
//! the arena constants and everything derived from them by addition,
//! subtraction and halving stay exact integers.

use vstd::prelude::*;

verus! {

/// Largest coordinate magnitude the geometry operations accept.  Keeping
/// coordinates within this bound lets squared distances fit in an `i64`.
pub const COORD_LIMIT: i64 = 0x2000_0000;

/// A coordinate within the range the geometry operations accept.
pub open spec fn coord_ok(c: int) -> bool {
    -COORD_LIMIT <= c <= COORD_LIMIT
}

/// A 2D point or displacement, both coordinates in quarter-units.
#[derive(Clone, Copy, Debug, PartialEq, Eq, Structural)]
pub struct Vec2 {
    pub x: i64,
    pub y: i64,
}

/// Both coordinates of `v` are within the accepted range.
pub open spec fn vec_ok(v: Vec2) -> bool {
    coord_ok(v.x as int) && coord_ok(v.y as int)
}

/// Componentwise negation; exact under `vec_ok`.
pub open spec fn neg_spec(v: Vec2) -> Vec2 {
    Vec2 { x: (-(v.x as int)) as i64, y: (-(v.y as int)) as i64 }
}

/// Squared Euclidean distance between `a` and `b`, in squared
/// quarter-units.
pub open spec fn dist_sq_spec(a: Vec2, b: Vec2) -> int {
    (a.x - b.x) * (a.x - b.x) + (a.y - b.y) * (a.y - b.y)
}

/// `c` rounded to the nearest whole world unit (a multiple of four
/// quarter-units), halves rounded away from zero.
pub open spec fn round_coord(c: int) -> int {
    if c >= 0 {
        ((c + 2) / 4) * 4
    } else {
        -(((-c + 2) / 4) * 4)
    }
}

impl Vec2 {
    /// The arena's center, the point the boundary and every bearing is
    /// measured from.
    pub fn origin() -> (r: Vec2)
        ensures
            r.x == 0,
            r.y == 0,
    {
        Vec2 { x: 0, y: 0 }
    }

    /// Componentwise vector sum.
    pub fn plus(self, rhs: Vec2) -> (r: Vec2)
        requires
            i64::MIN <= self.x + rhs.x <= i64::MAX,
            i64::MIN <= self.y + rhs.y <= i64::MAX,
        ensures
            r.x == self.x + rhs.x,
            r.y == self.y + rhs.y,
    {
        Vec2 { x: self.x + rhs.x, y: self.y + rhs.y }
    }

    /// Componentwise vector difference.
    pub fn minus(self, rhs: Vec2) -> (r: Vec2)
        requires
            i64::MIN <= self.x - rhs.x <= i64::MAX,
            i64::MIN <= self.y - rhs.y <= i64::MAX,
        ensures
            r.x == self.x - rhs.x,
            r.y == self.y - rhs.y,
    {
        Vec2 { x: self.x - rhs.x, y: self.y - rhs.y }
    }

    /// The opposite displacement: what undoes a push applied with `self`.
    pub fn neg(self) -> (r: Vec2)
        requires
            vec_ok(self),
        ensures
            r == neg_spec(self),
            vec_ok(r),
    {
        Vec2 { x: -self.x, y: -self.y }
    }

    /// Squared distance between two points; the boundary and collision
    /// rules compare it against squared radii so no root is needed.
    pub fn dist_sq(self, other: Vec2) -> (r: i64)
        requires
            vec_ok(self),
            vec_ok(other),
        ensures
            r == dist_sq_spec(self, other),
            r >= 0,
    {
        let dx: i64 = self.x - other.x;
        let dy: i64 = self.y - other.y;
        proof {
            assert(0 <= dx * dx <= 0x1000_0000_0000_0000 && 0 <= dy * dy
                <= 0x1000_0000_0000_0000) by (nonlinear_arith)
                requires
                    -0x4000_0000 <= dx <= 0x4000_0000,
                    -0x4000_0000 <= dy <= 0x4000_0000,
            ;
        }
        dx * dx + dy * dy
    }

    /// Both coordinates rounded to the nearest whole world unit, halves
    /// away from zero; the renderer snaps points to character cells with
    /// this rule.
    pub fn round(self) -> (r: Vec2)
        requires
            vec_ok(self),
        ensures
            r.x == round_coord(self.x as int),
            r.y == round_coord(self.y as int),
    {
        Vec2 { x: round_one(self.x), y: round_one(self.y) }
    }
}

/// One coordinate rounded to the nearest multiple of four, halves away
/// from zero.
fn round_one(c: i64) -> (r: i64)
    requires
        coord_ok(c as int),
    ensures
        r == round_coord(c as int),
{
    if c >= 0 {
        ((c + 2) / 4) * 4
    } else {
        -((-c + 2) / 4) * 4
    }
}

/// Whether `x` lies strictly within `bound` of `y`.  The renderer uses
/// this to decide which cells sit on the arena's boundary circle or on a
/// robot's facing line.
pub fn is_near(x: i64, y: i64, bound: i64) -> (r: bool)
    requires
        i64::MIN <= y + bound <= i64::MAX,
        i64::MIN <= y - bound <= i64::MAX,
    ensures
        r == (x < y + bound && x > y - bound),
{
    x < y + bound && x > y - bound
}

} // verus!
