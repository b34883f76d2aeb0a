use truck_playground::fault::SketchFault;
use truck_playground::junction::{check_junctions, heal_plan, next_junction, GapClass};

#[test]
fn next_junction_wraps_to_first_curve() {
    assert_eq!(next_junction(0, 4), 1);
    assert_eq!(next_junction(2, 4), 3);
    assert_eq!(next_junction(3, 4), 0);
    assert_eq!(next_junction(0, 1), 0);
}

#[test]
fn empty_loop_is_refused() {
    assert_eq!(check_junctions(&vec![]), Err(SketchFault::EmptyLoop));
}

#[test]
fn closed_rectangle_loop_validates() {
    assert_eq!(check_junctions(&vec![false, false, false, false]), Ok(()));
}

#[test]
fn closed_hexagon_loop_validates() {
    assert_eq!(check_junctions(&vec![false; 6]), Ok(()));
}

#[test]
fn single_closed_curve_validates() {
    assert_eq!(check_junctions(&vec![false]), Ok(()));
}

#[test]
fn single_open_curve_reports_index_zero() {
    assert_eq!(check_junctions(&vec![true]), Err(SketchFault::OpenLoop { index: 0 }));
}

#[test]
fn first_open_junction_is_reported() {
    assert_eq!(
        check_junctions(&vec![false, false, true, false, true]),
        Err(SketchFault::OpenLoop { index: 2 })
    );
}

#[test]
fn closing_junction_of_last_curve_is_reported() {
    assert_eq!(
        check_junctions(&vec![false, false, false, true]),
        Err(SketchFault::OpenLoop { index: 3 })
    );
}

#[test]
fn heal_plan_picks_healable_junctions_only() {
    let classes = vec![
        GapClass::Coincident,
        GapClass::Healable,
        GapClass::Wide,
        GapClass::Healable,
    ];
    assert_eq!(heal_plan(&classes), vec![1, 3]);
}

#[test]
fn heal_plan_leaves_single_curve_alone() {
    assert_eq!(heal_plan(&vec![GapClass::Healable]), Vec::<usize>::new());
    assert_eq!(heal_plan(&vec![]), Vec::<usize>::new());
}

#[test]
fn heal_plan_on_met_loop_is_empty() {
    assert_eq!(heal_plan(&vec![GapClass::Coincident; 5]), Vec::<usize>::new());
}

#[test]
fn heal_plan_with_every_gap_healable() {
    assert_eq!(heal_plan(&vec![GapClass::Healable; 3]), vec![0, 1, 2]);
}
