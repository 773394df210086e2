//! Rounds of a match and the fixed states both robots start each round
//! from.
//!
//! A match is three rounds.  Each round places the robots at the same two
//! spots, `X_INIT_POS` to either side of the arena's center on the x axis,
//! and only their initial facings differ: opposing in the first round,
//! perpendicular in the second, aligned in the third.

use crate::geometry::{dist_sq_spec, Vec2};
use crate::robot::{mirror_spec, square_about, state_ok, SumoState};
use crate::{HALF_SUMO, TATAMI_SIZE, X_INIT_POS};
use vstd::prelude::*;

verus! {

broadcast use vstd::array::group_array_axioms;

/// Which of the three rounds of a match is being fought.
#[derive(Clone, Copy, Debug, PartialEq, Eq, Structural)]
pub enum Round {
    Round1,
    Round2,
    Round3,
}

impl Round {
    /// The round with this one-based number.  Numbers outside 1 through 3
    /// name no round and are a caller's error, so they are excluded here.
    pub fn from(value: u8) -> (r: Round)
        requires
            1 <= value <= 3,
        ensures
            value == 1 ==> r == Round::Round1,
            value == 2 ==> r == Round::Round2,
            value == 3 ==> r == Round::Round3,
    {
        match value {
            1 => Round::Round1,
            2 => Round::Round2,
            _ => Round::Round3,
        }
    }

    /// This round's one-based number.
    pub fn number(self) -> (r: u8)
        ensures
            self == Round::Round1 ==> r == 1,
            self == Round::Round2 ==> r == 2,
            self == Round::Round3 ==> r == 3,
            1 <= r <= 3,
    {
        match self {
            Round::Round1 => 1,
            Round::Round2 => 2,
            Round::Round3 => 3,
        }
    }

    /// The round fought after this one, or nothing after the third: the
    /// match runs its rounds in order exactly once.
    pub fn next(self) -> (r: Option<Round>)
        ensures
            self == Round::Round1 ==> r == Some(Round::Round2),
            self == Round::Round2 ==> r == Some(Round::Round3),
            self == Round::Round3 ==> r is None,
    {
        match self {
            Round::Round1 => Some(Round::Round2),
            Round::Round2 => Some(Round::Round3),
            Round::Round3 => None,
        }
    }
}

/// A round's number survives the trip through `Round::from`, and a
/// number's round survives the trip through `Round::number`: the two
/// conversions are inverses.
pub proof fn lemma_round_number_inverse(r: Round, value: u8)
    requires
        1 <= value <= 3,
    ensures
        round_of_number(number_of_round(r)) == r,
        number_of_round(round_of_number(value)) == value,
{
}

/// The round a one-based number names; mirrors `Round::from`.
pub open spec fn round_of_number(value: u8) -> Round {
    if value == 1 {
        Round::Round1
    } else if value == 2 {
        Round::Round2
    } else {
        Round::Round3
    }
}

/// A round's one-based number; mirrors `Round::number`.
pub open spec fn number_of_round(r: Round) -> u8 {
    match r {
        Round::Round1 => 1,
        Round::Round2 => 2,
        Round::Round3 => 3,
    }
}

/// Where the match stands: not yet begun, fighting one of its rounds, or
/// over after the third round.
#[derive(Clone, Copy, Debug, PartialEq, Eq, Structural)]
pub enum MatchPhase {
    NotStarted,
    InRound(Round),
    Finished,
}

impl MatchPhase {
    /// Begin the match: the first round starts.
    pub fn start(self) -> (r: MatchPhase)
        requires
            self == MatchPhase::NotStarted,
        ensures
            r == MatchPhase::InRound(Round::Round1),
    {
        MatchPhase::InRound(Round::Round1)
    }

    /// Move past a round that ended: on to the next round, or to the end
    /// of the match after the third.
    pub fn after_round(self) -> (r: MatchPhase)
        requires
            self is InRound,
        ensures
            self == MatchPhase::InRound(Round::Round1) ==> r == MatchPhase::InRound(Round::Round2),
            self == MatchPhase::InRound(Round::Round2) ==> r == MatchPhase::InRound(Round::Round3),
            self == MatchPhase::InRound(Round::Round3) ==> r == MatchPhase::Finished,
    {
        match self {
            MatchPhase::InRound(round) => match round.next() {
                Some(following) => MatchPhase::InRound(following),
                None => MatchPhase::Finished,
            },
            _ => MatchPhase::Finished,
        }
    }
}

/// The heading, in quarter-turns, that the robot starting at `+X_INIT_POS`
/// faces at the start of `round`: towards its opponent, then to the side,
/// then away.
pub open spec fn first_facing(round: Round) -> u8 {
    match round {
        Round::Round1 => 2,
        Round::Round2 => 1,
        Round::Round3 => 0,
    }
}

/// The heading, in quarter-turns, of the robot starting at `-X_INIT_POS`:
/// always half a revolution from its opponent's.
pub open spec fn second_facing(round: Round) -> u8 {
    match round {
        Round::Round1 => 0,
        Round::Round2 => 3,
        Round::Round3 => 2,
    }
}

/// The state a robot starts a round in: centered at `x` on the x axis,
/// facing `dir` quarter-turns, its four corners at the half-side offsets.
pub open spec fn start_state_spec(x: int, dir: u8) -> SumoState {
    SumoState {
        center: Vec2 { x: x as i64, y: 0 },
        dir: dir,
        corners: [
            Vec2 { x: (x + HALF_SUMO) as i64, y: HALF_SUMO },
            Vec2 { x: (x + HALF_SUMO) as i64, y: (-HALF_SUMO) as i64 },
            Vec2 { x: (x - HALF_SUMO) as i64, y: HALF_SUMO },
            Vec2 { x: (x - HALF_SUMO) as i64, y: (-HALF_SUMO) as i64 },
        ],
    }
}

/// The pair of states a round begins from.
pub fn round_start(round: Round) -> (r: [SumoState; 2])
    ensures
        r[0] == start_state_spec(X_INIT_POS as int, first_facing(round)),
        r[1] == start_state_spec(-X_INIT_POS as int, second_facing(round)),
        state_ok(r[0]),
        state_ok(r[1]),
        square_about(r[0]),
        square_about(r[1]),
{
    let first_dir: u8 = match round {
        Round::Round1 => 2,
        Round::Round2 => 1,
        Round::Round3 => 0,
    };
    let second_dir: u8 = match round {
        Round::Round1 => 0,
        Round::Round2 => 3,
        Round::Round3 => 2,
    };
    let r = [
        SumoState {
            center: Vec2 { x: X_INIT_POS, y: 0 },
            dir: first_dir,
            corners: [
                Vec2 { x: X_INIT_POS + HALF_SUMO, y: HALF_SUMO },
                Vec2 { x: X_INIT_POS + HALF_SUMO, y: -HALF_SUMO },
                Vec2 { x: X_INIT_POS - HALF_SUMO, y: HALF_SUMO },
                Vec2 { x: X_INIT_POS - HALF_SUMO, y: -HALF_SUMO },
            ],
        },
        SumoState {
            center: Vec2 { x: -X_INIT_POS, y: 0 },
            dir: second_dir,
            corners: [
                Vec2 { x: -X_INIT_POS + HALF_SUMO, y: HALF_SUMO },
                Vec2 { x: -X_INIT_POS + HALF_SUMO, y: -HALF_SUMO },
                Vec2 { x: -X_INIT_POS - HALF_SUMO, y: HALF_SUMO },
                Vec2 { x: -X_INIT_POS - HALF_SUMO, y: -HALF_SUMO },
            ],
        },
    ];
    proof {
        assert(r[0].corners =~= start_state_spec(X_INIT_POS as int, first_facing(round)).corners);
        assert(r[1].corners =~= start_state_spec(-X_INIT_POS as int, second_facing(round)).corners);
        assert(r[0] =~= start_state_spec(X_INIT_POS as int, first_facing(round)));
        assert(r[1] =~= start_state_spec(-X_INIT_POS as int, second_facing(round)));
    }
    r
}

/// In every round the second robot starts exactly point-symmetric to the
/// first: reflected through the arena's center and facing the opposite
/// way.  A match set up this way is perfectly balanced at its first tick.
pub proof fn lemma_round_start_symmetric(round: Round)
    ensures
        start_state_spec(-X_INIT_POS as int, second_facing(round)) == mirror_spec(
            start_state_spec(X_INIT_POS as int, first_facing(round)),
        ),
{
    let first = start_state_spec(X_INIT_POS as int, first_facing(round));
    let second = start_state_spec(-X_INIT_POS as int, second_facing(round));
    assert(second.corners =~= mirror_spec(first).corners);
    assert(second =~= mirror_spec(first));
}

/// Every round starts the robots at the same two places: only the facings
/// distinguish one round's start from another's.  Whatever depends on the
/// starting positions alone, such as how far each robot stands from the
/// boundary, is therefore the same in all three rounds.
pub proof fn lemma_round_start_shared_positions(a: Round, b: Round)
    ensures
        start_state_spec(X_INIT_POS as int, first_facing(a)).center == start_state_spec(
            X_INIT_POS as int,
            first_facing(b),
        ).center,
        start_state_spec(X_INIT_POS as int, first_facing(a)).corners == start_state_spec(
            X_INIT_POS as int,
            first_facing(b),
        ).corners,
        start_state_spec(-X_INIT_POS as int, second_facing(a)).center == start_state_spec(
            -X_INIT_POS as int,
            second_facing(b),
        ).center,
        start_state_spec(-X_INIT_POS as int, second_facing(a)).corners == start_state_spec(
            -X_INIT_POS as int,
            second_facing(b),
        ).corners,
{
}

/// Both robots start every round strictly inside the arena, at equal
/// distances from its center.
pub proof fn lemma_round_start_inside(round: Round)
    ensures
        dist_sq_spec(start_state_spec(X_INIT_POS as int, first_facing(round)).center, Vec2 { x: 0, y: 0 })
            < TATAMI_SIZE * TATAMI_SIZE,
        dist_sq_spec(start_state_spec(-X_INIT_POS as int, second_facing(round)).center, Vec2 { x: 0, y: 0 })
            == dist_sq_spec(start_state_spec(X_INIT_POS as int, first_facing(round)).center, Vec2 { x: 0, y: 0 }),
{
    let first = start_state_spec(X_INIT_POS as int, first_facing(round)).center;
    let second = start_state_spec(-X_INIT_POS as int, second_facing(round)).center;
    assert(first.x == 40 && first.y == 0);
    assert(second.x == -40 && second.y == 0);
    assert((first.x - 0) * (first.x - 0) + (first.y - 0) * (first.y - 0) == 1600)
        by (nonlinear_arith)
        requires
            first.x == 40,
            first.y == 0,
    ;
    assert((second.x - 0) * (second.x - 0) + (second.y - 0) * (second.y - 0) == 1600)
        by (nonlinear_arith)
        requires
            second.x == -40,
            second.y == 0,
    ;
}

} // verus!
