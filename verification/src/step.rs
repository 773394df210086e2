//! The decisions one physics tick takes.
//!
//! Every tick integrates both motor commands, tests the provisional
//! states for a collision, applies the push repulsion if they overlap, and
//! then either continues the round with the chosen pair of states or ends
//! it naming whoever left the arena.  The numeric tests feed plain truth
//! values into the functions here, which fix exactly what each answer
//! makes the tick do; the functions are generic in the state so the same
//! verified decisions drive any representation of the robots.

use crate::geometry::{dist_sq_spec, vec_ok, Vec2};
use crate::TATAMI_SIZE;
use vstd::prelude::*;

verus! {

/// Who left the arena when a round ended.
#[derive(Clone, Copy, Debug, PartialEq, Eq, Structural)]
pub enum Faller {
    /// The robot that started at `+X_INIT_POS` fell out.
    First,
    /// The robot that started at `-X_INIT_POS` fell out.
    Second,
    /// Both robots were outside the boundary on the same tick.
    Both,
}

/// What a tick decided: the round goes on with the new pair of states, or
/// it is over and the loser is named.  A round that ends is terminal; a
/// fresh round restarts from its template states.
#[derive(Clone, Copy, Debug, PartialEq)]
pub enum Outcome<S> {
    Continuing(S),
    RoundOver(Faller),
}

/// Choose what the tick hands on: the collision test decides between the
/// plainly integrated states and the push-adjusted ones, and the two
/// boundary verdicts decide whether the round continues at all, naming the
/// robot (or both) that fell.
pub fn resolve_step<S>(
    moved: S,
    pushed: S,
    colliding: bool,
    first_down: bool,
    second_down: bool,
) -> (r: Outcome<S>)
    ensures
        !first_down && !second_down && colliding ==> r == Outcome::Continuing(pushed),
        !first_down && !second_down && !colliding ==> r == Outcome::Continuing(moved),
        first_down && !second_down ==> r == Outcome::<S>::RoundOver(Faller::First),
        !first_down && second_down ==> r == Outcome::<S>::RoundOver(Faller::Second),
        first_down && second_down ==> r == Outcome::<S>::RoundOver(Faller::Both),
{
    if first_down && second_down {
        Outcome::RoundOver(Faller::Both)
    } else if first_down {
        Outcome::RoundOver(Faller::First)
    } else if second_down {
        Outcome::RoundOver(Faller::Second)
    } else if colliding {
        Outcome::Continuing(pushed)
    } else {
        Outcome::Continuing(moved)
    }
}

/// The directional range sensor's answer.  When the observer's heading
/// falls within the angular span of the target's corners the sensor
/// reports the distance between the two centers; outside that span it
/// reports the no-reading value, whatever the distance was.
pub fn sensor_reading<S>(target_in_span: bool, center_distance: S, no_reading: S) -> (r: S)
    ensures
        target_in_span ==> r == center_distance,
        !target_in_span ==> r == no_reading,
{
    if target_in_span {
        center_distance
    } else {
        no_reading
    }
}

/// Which way the push repulsion is applied to the colliding pair.  The
/// sign of the velocity gap between the two commands picks the direction:
/// when the second robot's drive is the faster one the first robot takes
/// the push and the second its negation, otherwise the other way around.
/// The first component is applied to the first robot, the second to the
/// second.
pub fn push_assignment<V>(second_drives_faster: bool, push: V, negated_push: V) -> (r: (V, V))
    ensures
        second_drives_faster ==> r == (push, negated_push),
        !second_drives_faster ==> r == (negated_push, push),
{
    if second_drives_faster {
        (push, negated_push)
    } else {
        (negated_push, push)
    }
}

/// Whether a robot standing at `center` has fallen out of the arena: its
/// distance from the arena's center has reached the boundary radius.
/// Staying in is strict; standing exactly on the radius is already out.
pub fn is_down(center: Vec2) -> (r: bool)
    requires
        vec_ok(center),
    ensures
        r == (dist_sq_spec(center, Vec2 { x: 0, y: 0 }) >= TATAMI_SIZE * TATAMI_SIZE),
{
    let origin = Vec2::origin();
    center.dist_sq(origin) >= TATAMI_SIZE * TATAMI_SIZE
}

} // verus!
