//! Differential-drive motor commands.
//!
//! A strategy answers every tick with one wheel speed per side.  The two
//! speeds determine the robot's forward velocity (their mean) and its
//! turning rate (proportional to their difference); both derived
//! quantities are exact integers in this model, the velocity in
//! eighth-units per tick so that halving the sum never loses anything.

use vstd::prelude::*;

verus! {

/// One tick's pair of wheel speeds, in quarter-units per tick.
#[derive(Clone, Copy, Debug, PartialEq, Eq, Structural)]
pub struct SumoReq {
    pub motor_l: i64,
    pub motor_r: i64,
}

impl SumoReq {
    /// Forward velocity of the drive: the mean of the two wheel speeds.
    /// The result is in eighth-units per tick, twice as fine as the wheel
    /// speeds, so it equals the sum of the two and stays exact.
    pub fn vel(self) -> (r: i64)
        requires
            i64::MIN <= self.motor_l + self.motor_r <= i64::MAX,
        ensures
            r == self.motor_l + self.motor_r,
    {
        self.motor_l + self.motor_r
    }

    /// The turning part of the command: the wheel-speed gap that the
    /// heading update scales by the step length over the body size.  Zero
    /// means the robot drives straight.
    pub fn turn_bias(self) -> (r: i64)
        requires
            i64::MIN <= self.motor_r - self.motor_l <= i64::MAX,
        ensures
            r == self.motor_r - self.motor_l,
    {
        self.motor_r - self.motor_l
    }
}

/// Driving both wheels at the same speed leaves the heading alone: the
/// turning term of the kinematics is proportional to the wheel-speed gap,
/// which vanishes.
pub proof fn lemma_equal_wheels_no_turn(req: SumoReq)
    requires
        req.motor_l == req.motor_r,
    ensures
        req.motor_r - req.motor_l == 0,
{
}

/// Driving the wheels at opposite speeds pivots in place: the forward
/// velocity vanishes, while any nonzero command still leaves a turning
/// term, so the heading keeps changing.
pub proof fn lemma_opposite_wheels_no_advance(req: SumoReq)
    requires
        req.motor_l == -req.motor_r,
    ensures
        req.motor_l + req.motor_r == 0,
        req.motor_r != 0 ==> req.motor_r - req.motor_l != 0,
{
}

} // verus!
