use truck_playground::arc_layout::rational_arc_layout;
use truck_playground::drawing::PenState;
use truck_playground::fault::SketchFault;
use truck_playground::junction::check_junctions;
use truck_playground::spline_rules::{check_control_points, check_polygon_sides, interpolation_degree};

#[test]
fn drawing_before_move_to_is_refused() {
    let pen = PenState::new();
    assert_eq!(pen.require_start(), Err(SketchFault::NoStartingPoint));
}

#[test]
fn drawing_after_move_to_is_allowed() {
    let mut pen = PenState::new();
    pen.move_to();
    assert_eq!(pen.require_start(), Ok(()));
    pen.record_curve();
    pen.record_curve();
    assert_eq!(pen.curves, 2);
    assert!(pen.started);
}

#[test]
fn closing_an_empty_pen_is_refused() {
    let mut pen = PenState::new();
    assert_eq!(pen.close_plan(true), Err(SketchFault::CannotCloseEmpty));
    assert_eq!(pen.close_with_arc_plan(), Err(SketchFault::CannotCloseEmpty));
    pen.move_to();
    assert_eq!(pen.close_plan(false), Err(SketchFault::CannotCloseEmpty));
}

#[test]
fn closing_line_only_when_away_from_start() {
    let mut pen = PenState::new();
    pen.move_to();
    pen.record_curve();
    pen.record_curve();
    pen.record_curve();
    assert_eq!(pen.close_plan(true), Ok(true));
    assert_eq!(pen.close_plan(false), Ok(false));
    assert_eq!(pen.close_with_arc_plan(), Ok(()));
}

#[test]
fn quarter_arc_layout() {
    let layout = rational_arc_layout(1);
    assert_eq!(layout.segments, 1);
    assert_eq!(layout.knots, vec![0, 0, 0, 1, 1, 1]);
    assert_eq!(layout.shoulders, vec![false, true, false]);
}

#[test]
fn full_turn_arc_layout() {
    let layout = rational_arc_layout(4);
    assert_eq!(layout.segments, 4);
    assert_eq!(layout.knots, vec![0, 0, 0, 1, 1, 2, 2, 3, 3, 4, 4, 4]);
    assert_eq!(
        layout.shoulders,
        vec![false, true, false, true, false, true, false, true, false]
    );
}

#[test]
fn zero_quarter_turns_still_gives_one_piece() {
    let layout = rational_arc_layout(0);
    assert_eq!(layout.segments, 1);
    assert_eq!(layout.knots.len(), layout.shoulders.len() + 3);
}

#[test]
fn cubic_needs_four_control_points() {
    assert_eq!(check_control_points(4, 3), Ok(()));
    assert_eq!(
        check_control_points(3, 3),
        Err(SketchFault::InsufficientControlPoints { min: 4, degree: 3, got: 3 })
    );
}

#[test]
fn interpolation_lowers_degree_for_few_points() {
    assert_eq!(interpolation_degree(2, 3), Ok(1));
    assert_eq!(interpolation_degree(3, 3), Ok(2));
    assert_eq!(interpolation_degree(5, 3), Ok(3));
    assert_eq!(
        interpolation_degree(1, 3),
        Err(SketchFault::InsufficientControlPoints { min: 2, degree: 3, got: 1 })
    );
}

#[test]
fn polygon_needs_three_sides() {
    assert_eq!(check_polygon_sides(6), Ok(()));
    assert_eq!(check_polygon_sides(3), Ok(()));
    assert_eq!(check_polygon_sides(2), Err(SketchFault::DegenerateCurve));
}

#[test]
fn closed_profile_validates_again() {
    let mut pen = PenState::new();
    pen.move_to();
    pen.record_curve();
    pen.record_curve();
    pen.record_curve();
    assert_eq!(pen.close_plan(true), Ok(true));
    let junctions = vec![false; 4];
    assert_eq!(check_junctions(&junctions), Ok(()));
    assert_eq!(check_junctions(&junctions), Ok(()));
}
