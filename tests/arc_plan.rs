use orbtk_tinyskia::arc::{arc_steps, ArcStep, FULL_TURN, QUARTER_TURN};

#[test]
fn short_arc_is_one_fragment() {
    let steps = arc_steps(10_000, 60_000);
    assert_eq!(
        steps,
        vec![
            ArcStep::LineToAngle(10_000),
            ArcStep::Fragment { from: 10_000, to: 60_000 },
            ArcStep::LineToCenter,
        ]
    );
    let fragments = steps.iter().filter(|s| matches!(s, ArcStep::Fragment { .. })).count();
    assert_eq!(fragments, 1);
}

#[test]
fn full_circle_has_four_quadrants_and_no_center_line() {
    let steps = arc_steps(0, 360_000);
    assert_eq!(
        steps,
        vec![
            ArcStep::MoveToAngle(0),
            ArcStep::Quadrant(0),
            ArcStep::Quadrant(1),
            ArcStep::Quadrant(2),
            ArcStep::Quadrant(3),
            ArcStep::Fragment { from: 360_000, to: 360_000 },
        ]
    );
    assert_ne!(steps.last(), Some(&ArcStep::LineToCenter));
}

#[test]
fn unaligned_arc_closes_partial_quadrant_first() {
    let steps = arc_steps(30_000, 200_000);
    assert_eq!(
        steps,
        vec![
            ArcStep::LineToAngle(30_000),
            ArcStep::Fragment { from: 30_000, to: 90_000 },
            ArcStep::Quadrant(1),
            ArcStep::Fragment { from: 180_000, to: 200_000 },
            ArcStep::LineToCenter,
        ]
    );
}

#[test]
fn negative_angles_wrap_by_a_full_turn() {
    let steps = arc_steps(-90_000, -45_000);
    assert_eq!(
        steps,
        vec![
            ArcStep::LineToAngle(270_000),
            ArcStep::Fragment { from: 270_000, to: 315_000 },
            ArcStep::LineToCenter,
        ]
    );
}

#[test]
fn half_turn_from_zero() {
    let steps = arc_steps(0, 180_000);
    assert_eq!(
        steps,
        vec![
            ArcStep::LineToAngle(0),
            ArcStep::Quadrant(0),
            ArcStep::Quadrant(1),
            ArcStep::Fragment { from: 180_000, to: 180_000 },
            ArcStep::LineToCenter,
        ]
    );
    assert_eq!(FULL_TURN, 4 * QUARTER_TURN);
}

#[test]
fn extreme_angles_plan_without_overflow() {
    let steps = arc_steps(i32::MIN, i32::MAX);
    let start = 360_000 + i32::MIN as i64;
    let end = i32::MAX as i64;
    assert_eq!(
        steps,
        vec![
            ArcStep::MoveToAngle(start),
            ArcStep::Quadrant(0),
            ArcStep::Quadrant(1),
            ArcStep::Quadrant(2),
            ArcStep::Quadrant(3),
            ArcStep::Fragment { from: end - end % 90_000, to: end },
        ]
    );
}
