use sumo_sim::geometry::Vec2;
use sumo_sim::robot::SumoState;
use sumo_sim::rounds::{round_start, MatchPhase, Round};

#[test]
fn round_numbers_convert_both_ways() {
    assert_eq!(Round::from(1), Round::Round1);
    assert_eq!(Round::from(2), Round::Round2);
    assert_eq!(Round::from(3), Round::Round3);
    assert_eq!(Round::Round1.number(), 1);
    assert_eq!(Round::Round2.number(), 2);
    assert_eq!(Round::Round3.number(), 3);
    for n in 1u8..=3 {
        assert_eq!(Round::from(n).number(), n);
    }
}

#[test]
fn rounds_run_in_order_once() {
    assert_eq!(Round::Round1.next(), Some(Round::Round2));
    assert_eq!(Round::Round2.next(), Some(Round::Round3));
    assert_eq!(Round::Round3.next(), None);
}

#[test]
fn match_runs_three_rounds_then_finishes() {
    let mut phase = MatchPhase::NotStarted;
    phase = phase.start();
    let mut fought = Vec::new();
    while let MatchPhase::InRound(round) = phase {
        fought.push(round);
        phase = phase.after_round();
    }
    assert_eq!(phase, MatchPhase::Finished);
    assert_eq!(fought, vec![Round::Round1, Round::Round2, Round::Round3]);
}

fn expected_start(x: i64, dir: u8) -> SumoState {
    SumoState {
        center: Vec2 { x, y: 0 },
        dir,
        corners: [
            Vec2 { x: x + 5, y: 5 },
            Vec2 { x: x + 5, y: -5 },
            Vec2 { x: x - 5, y: 5 },
            Vec2 { x: x - 5, y: -5 },
        ],
    }
}

#[test]
fn round1_starts_opposing() {
    let [first, second] = round_start(Round::Round1);
    assert_eq!(first, expected_start(40, 2));
    assert_eq!(second, expected_start(-40, 0));
}

#[test]
fn round2_starts_perpendicular() {
    let [first, second] = round_start(Round::Round2);
    assert_eq!(first, expected_start(40, 1));
    assert_eq!(second, expected_start(-40, 3));
}

#[test]
fn round3_starts_aligned() {
    let [first, second] = round_start(Round::Round3);
    assert_eq!(first, expected_start(40, 0));
    assert_eq!(second, expected_start(-40, 2));
}

#[test]
fn starts_are_point_symmetric() {
    for n in 1u8..=3 {
        let [first, second] = round_start(Round::from(n));
        assert_eq!(second, first.point_mirror());
    }
}

#[test]
fn starts_share_positions_across_rounds() {
    let [a1, b1] = round_start(Round::Round1);
    for n in 2u8..=3 {
        let [a, b] = round_start(Round::from(n));
        assert_eq!(a.center, a1.center);
        assert_eq!(a.corners, a1.corners);
        assert_eq!(b.center, b1.center);
        assert_eq!(b.corners, b1.corners);
    }
}
