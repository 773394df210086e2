//! The state of one robot: its center, its heading, and the four corners
//! of its square body.
//!
//! Corners are carried explicitly because the renderer and the sensor
//! model read them.  They translate rigidly with the center and are never
//! re-oriented when the heading changes, so a well-formed state keeps its
//! corners at the four fixed half-side offsets from the center forever.
//!
//! The heading stored here counts quarter-turns (multiples of a right
//! angle): every heading the round templates use is one, and the point
//! reflection that relates the two starting robots turns by exactly two of
//! them.

use crate::geometry::{neg_spec, vec_ok, Vec2};
use crate::HALF_SUMO;
use vstd::prelude::*;

verus! {

broadcast use vstd::array::group_array_axioms;

/// One robot's state: center and corners in quarter-units, heading in
/// quarter-turns.
#[derive(Clone, Copy, Debug, PartialEq, Eq)]
#[verifier::ext_equal]
pub struct SumoState {
    pub center: Vec2,
    pub dir: u8,
    pub corners: [Vec2; 4],
}

/// Every point of the state is within the coordinate range the geometry
/// operations accept, and the heading is a reduced quarter-turn count.
pub open spec fn state_ok(s: SumoState) -> bool {
    &&& vec_ok(s.center)
    &&& vec_ok(s.corners[0])
    &&& vec_ok(s.corners[1])
    &&& vec_ok(s.corners[2])
    &&& vec_ok(s.corners[3])
    &&& s.dir < 4
}

/// The corners sit at the four half-side offsets from the center, in the
/// fixed order (+,+), (+,-), (-,+), (-,-): the body is an axis-aligned
/// square of side `SUMO_SIZE` centered on `center`.
pub open spec fn square_about(s: SumoState) -> bool {
    &&& s.corners[0].x == s.center.x + HALF_SUMO && s.corners[0].y == s.center.y + HALF_SUMO
    &&& s.corners[1].x == s.center.x + HALF_SUMO && s.corners[1].y == s.center.y - HALF_SUMO
    &&& s.corners[2].x == s.center.x - HALF_SUMO && s.corners[2].y == s.center.y + HALF_SUMO
    &&& s.corners[3].x == s.center.x - HALF_SUMO && s.corners[3].y == s.center.y - HALF_SUMO
}

/// The state translated by `d`: center and all four corners shifted by the
/// same displacement, heading untouched.
pub open spec fn translate_spec(s: SumoState, d: Vec2) -> SumoState {
    SumoState {
        center: Vec2 { x: (s.center.x + d.x) as i64, y: (s.center.y + d.y) as i64 },
        dir: s.dir,
        corners: [
            Vec2 { x: (s.corners[0].x + d.x) as i64, y: (s.corners[0].y + d.y) as i64 },
            Vec2 { x: (s.corners[1].x + d.x) as i64, y: (s.corners[1].y + d.y) as i64 },
            Vec2 { x: (s.corners[2].x + d.x) as i64, y: (s.corners[2].y + d.y) as i64 },
            Vec2 { x: (s.corners[3].x + d.x) as i64, y: (s.corners[3].y + d.y) as i64 },
        ],
    }
}

/// The state reflected through the arena's origin: every point negated
/// (which reverses the corner order) and the heading turned by half a
/// revolution.
pub open spec fn mirror_spec(s: SumoState) -> SumoState {
    SumoState {
        center: neg_spec(s.center),
        dir: ((s.dir + 2) % 4) as u8,
        corners: [
            neg_spec(s.corners[3]),
            neg_spec(s.corners[2]),
            neg_spec(s.corners[1]),
            neg_spec(s.corners[0]),
        ],
    }
}

impl SumoState {
    /// Move the whole body by `d`: the center and each corner shift by the
    /// same displacement, so the body stays congruent to itself; the
    /// heading is untouched.  In particular a square body stays the same
    /// square around its new center.
    pub fn translate(self, d: Vec2) -> (r: SumoState)
        requires
            state_ok(self),
            vec_ok(d),
        ensures
            r == translate_spec(self, d),
            r.dir == self.dir,
            r.center.x == self.center.x + d.x,
            r.center.y == self.center.y + d.y,
            square_about(self) ==> square_about(r),
    {
        SumoState {
            center: self.center.plus(d),
            dir: self.dir,
            corners: [
                self.corners[0].plus(d),
                self.corners[1].plus(d),
                self.corners[2].plus(d),
                self.corners[3].plus(d),
            ],
        }
    }

    /// The state of the robot standing point-symmetrically opposite this
    /// one: reflected through the arena's origin and facing the opposite
    /// way.  Reflection reverses the corner order, which is exactly what
    /// keeps a square body a square around the reflected center.
    pub fn point_mirror(self) -> (r: SumoState)
        requires
            state_ok(self),
        ensures
            r == mirror_spec(self),
            state_ok(r),
            square_about(self) ==> square_about(r),
    {
        SumoState {
            center: self.center.neg(),
            dir: (self.dir + 2) % 4,
            corners: [
                self.corners[3].neg(),
                self.corners[2].neg(),
                self.corners[1].neg(),
                self.corners[0].neg(),
            ],
        }
    }
}

/// Reflecting twice through the origin gives the state back: the point
/// mirror is an involution on well-formed states.
pub proof fn lemma_mirror_involution(s: SumoState)
    requires
        state_ok(s),
    ensures
        mirror_spec(mirror_spec(s)) == s,
{
    let m = mirror_spec(mirror_spec(s));
    assert(m.corners =~= s.corners);
    assert(m =~= s);
}

/// Translating and then reflecting lands where reflecting and then
/// translating by the opposite displacement does: motion keeps perfect
/// point symmetry, one mirrored step at a time.
pub proof fn lemma_mirror_translate(s: SumoState, d: Vec2)
    requires
        state_ok(s),
        vec_ok(d),
        vec_ok(translate_spec(s, d).center),
        vec_ok(translate_spec(s, d).corners[0]),
        vec_ok(translate_spec(s, d).corners[1]),
        vec_ok(translate_spec(s, d).corners[2]),
        vec_ok(translate_spec(s, d).corners[3]),
    ensures
        mirror_spec(translate_spec(s, d)) == translate_spec(mirror_spec(s), neg_spec(d)),
{
}

/// Translating by the zero displacement moves nothing: the state, corners
/// and heading included, is returned unchanged.
pub proof fn lemma_translate_zero(s: SumoState, d: Vec2)
    requires
        d.x == 0,
        d.y == 0,
    ensures
        translate_spec(s, d) == s,
{
    let t = translate_spec(s, d);
    assert(t.corners =~= s.corners);
    assert(t =~= s);
}

} // verus!
