use sumo_sim::geometry::Vec2;
use sumo_sim::motor::SumoReq;
use sumo_sim::robot::SumoState;
use sumo_sim::rounds::{round_start, Round};
use sumo_sim::step::{is_down, push_assignment, resolve_step, sensor_reading, Faller, Outcome};

#[test]
fn continuing_keeps_moved_states_without_collision() {
    let outcome = resolve_step([1i64, 2], [7, 8], false, false, false);
    assert_eq!(outcome, Outcome::Continuing([1, 2]));
}

#[test]
fn continuing_keeps_pushed_states_on_collision() {
    let outcome = resolve_step([1i64, 2], [7, 8], true, false, false);
    assert_eq!(outcome, Outcome::Continuing([7, 8]));
}

#[test]
fn first_robot_out_ends_round_naming_it() {
    let outcome = resolve_step([1i64, 2], [7, 8], false, true, false);
    assert_eq!(outcome, Outcome::RoundOver(Faller::First));
}

#[test]
fn second_robot_out_ends_round_naming_it() {
    let outcome = resolve_step([1i64, 2], [7, 8], true, false, true);
    assert_eq!(outcome, Outcome::RoundOver(Faller::Second));
}

#[test]
fn both_robots_out_ends_round_naming_both() {
    let outcome = resolve_step([1i64, 2], [7, 8], false, true, true);
    assert_eq!(outcome, Outcome::RoundOver(Faller::Both));
}

#[test]
fn sensor_reports_distance_inside_span() {
    assert_eq!(sensor_reading(true, 12.5f32, 0.0f32), 12.5);
    assert_eq!(sensor_reading(true, 73i64, 0i64), 73);
}

#[test]
fn sensor_reports_nothing_outside_span() {
    // Outside the corner span the reading is the no-reading value no
    // matter how close the target stands.
    assert_eq!(sensor_reading(false, 12.5f32, 0.0f32), 0.0);
    assert_eq!(sensor_reading(false, 1i64, 0i64), 0);
}

#[test]
fn faster_second_drive_pushes_first_forward() {
    let push = (0.5f32, 0.25f32);
    let negated = (-0.5f32, -0.25f32);
    assert_eq!(push_assignment(true, push, negated), (push, negated));
    assert_eq!(push_assignment(false, push, negated), (negated, push));
}

#[test]
fn down_exactly_on_the_boundary() {
    // The arena radius is 80 quarter-units: standing exactly on it is
    // already out, one quarter-unit short of it is still in.
    assert!(is_down(Vec2 { x: 80, y: 0 }));
    assert!(is_down(Vec2 { x: 0, y: -80 }));
    assert!(is_down(Vec2 { x: 81, y: 0 }));
    assert!(!is_down(Vec2 { x: 79, y: 0 }));
    assert!(!is_down(Vec2 { x: 0, y: 0 }));
    assert!(!is_down(Vec2 { x: 56, y: 56 }));
    assert!(is_down(Vec2 { x: 57, y: 57 }));
}

#[test]
fn idle_commands_fix_the_round_one_start() {
    // Both strategies answering with stopped motors leave the first
    // round's start untouched tick after tick: the drive has no forward
    // velocity and no turning term, the robots stand apart and inside, so
    // every tick continues with the same pair of states.
    let start = round_start(Round::Round1);
    let idle = SumoReq { motor_l: 0, motor_r: 0 };
    let mut states = start;
    for _ in 0..5 {
        assert_eq!(idle.vel(), 0);
        assert_eq!(idle.turn_bias(), 0);
        let no_move = Vec2 { x: 0, y: 0 };
        let moved = [states[0].translate(no_move), states[1].translate(no_move)];
        assert!(!is_down(moved[0].center));
        assert!(!is_down(moved[1].center));
        let outcome = resolve_step(moved, moved, false, false, false);
        match outcome {
            Outcome::Continuing(pair) => states = pair,
            Outcome::RoundOver(_) => panic!("the idle round must not end"),
        }
        assert_eq!(states[0], start[0]);
        assert_eq!(states[1], start[1]);
    }
}

fn mirrored(s: &SumoState) -> SumoState {
    s.point_mirror()
}

#[test]
fn mirrored_motion_stays_mirrored() {
    // Point-symmetric states moved by opposite displacements stay point
    // symmetric: the model-level heart of trajectory mirroring.
    let [first, second] = round_start(Round::Round2);
    assert_eq!(second, mirrored(&first));
    let d = Vec2 { x: 3, y: -2 };
    let first_next = first.translate(d);
    let second_next = second.translate(d.neg());
    assert_eq!(second_next, mirrored(&first_next));
}
